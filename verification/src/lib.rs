//! Debounced presence detection.
//!
//! Intermittent presence signals (heartbeats) are turned into a binary
//! ACTIVE/INACTIVE state with a strictly positive timeout: the state is
//! ACTIVE exactly while the latest heartbeat is younger than the timeout,
//! and a state change is published only on each logical transition.

pub mod actor;
pub mod channel_utility;
pub mod config;
pub mod fault;
pub mod minuterie;
pub mod mqtt;
pub mod ping;
mod runtime;
pub mod settings;
pub mod text;

pub use actor::Actor;
pub use actor::ActorProxy;
pub use channel_utility::forward_turn;
pub use fault::Fault;
pub use minuterie::Heartbeat;
pub use minuterie::Input;
pub use minuterie::Minuterie;
pub use minuterie::State;
pub use minuterie::Step;
pub use minuterie::StateChange;
pub use mqtt::is_trueish;
pub use ping::is_ping_response;
pub use runtime::TimedRecv;
pub use settings::MinuterieConfig;
pub use settings::PingProbe;
