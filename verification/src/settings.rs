//! The application's settings, as loaded from its configuration file.
//!
//! Loading (file paths, parsing, command-line overrides) is the shell's
//! business; the schema and the values the core consumes from it live
//! here. The only value the core itself consumes is the debounce timeout,
//! which must be strictly positive.

use vstd::prelude::*;

verus! {

/// Settings of the debouncer: its timeout, in whole seconds.
#[derive(Debug, Clone, PartialEq, Eq, Structural)]
pub struct MinuterieConfig {
    /// The debounce timeout in seconds.
    pub timeout: u64,
}

impl MinuterieConfig {
    /// The timeout in milliseconds, as the engine counts time; saturating,
    /// since the configuration file may hold any number of seconds.
    pub fn get_timeout(&self) -> (r: u64)
        ensures
            r == (if self.timeout * 1000 <= u64::MAX {
                self.timeout * 1000
            } else {
                u64::MAX as int
            }),
    {
        match self.timeout.checked_mul(1000) {
            Some(millis) => millis,
            None => u64::MAX,
        }
    }
}

/// One host probed for presence.
#[derive(Debug, Clone, PartialEq, Eq)]
pub struct PingProbe {
    /// The host to probe.
    pub host: String,
    /// Seconds between probes.
    pub interval: u64,
}

impl PingProbe {
    /// The probe interval in milliseconds; saturating, since the
    /// configuration file may hold any number of seconds.
    pub fn get_interval(&self) -> (r: u64)
        ensures
            r == (if self.interval * 1000 <= u64::MAX {
                self.interval * 1000
            } else {
                u64::MAX as int
            }),
    {
        match self.interval.checked_mul(1000) {
            Some(millis) => millis,
            None => u64::MAX,
        }
    }
}

/// The set of hosts probed for presence.
#[derive(Debug, Clone, PartialEq, Eq)]
pub struct PingConfig {
    /// The probed hosts.
    pub hosts: Vec<PingProbe>,
}

/// How to reach the transport broker, and which topics to use.
#[derive(Debug, Clone, PartialEq, Eq)]
pub struct Mqtt {
    /// The broker's host.
    pub host: String,
    /// The account to connect as.
    pub username: String,
    /// The account's password.
    pub password: String,
    /// The broker's port.
    pub port: u16,
    /// Where state changes are published.
    pub publish_topic: String,
    /// Where heartbeats are listened for.
    pub heartbeat_topic: String,
}

/// Everything the application reads from its configuration file.
#[derive(Debug, Clone, PartialEq, Eq)]
pub struct ApplicationConfig {
    /// The debouncer's settings.
    pub minuterie: MinuterieConfig,
    /// The transport's settings.
    pub mqtt: Mqtt,
    /// The probes' settings.
    pub ping: PingConfig,
}

impl Default for ApplicationConfig {
    /// The configuration written on first start: two local probes, a one
    /// minute timeout and a local broker.
    fn default() -> (r: Self)
        ensures
            r.minuterie.timeout == 60,
            r.ping.hosts@.len() == 2,
            r.ping.hosts@[0].host@ == "fritz.box"@,
            r.ping.hosts@[0].interval == 1,
            r.ping.hosts@[1].host@ == "google.de"@,
            r.ping.hosts@[1].interval == 1,
            r.mqtt.host@ == "127.0.0.1"@,
            r.mqtt.username@ == "username"@,
            r.mqtt.password@ == "password"@,
            r.mqtt.port == 1883,
            r.mqtt.publish_topic@ == "mqtt-presence-checker/home/"@,
            r.mqtt.heartbeat_topic@ == "presence-checker1/home/heartbeat"@,
    {
        ApplicationConfig {
            ping: PingConfig {
                hosts: vec![
                    PingProbe { host: "fritz.box".to_string(), interval: 1 },
                    PingProbe { host: "google.de".to_string(), interval: 1 },
                ],
            },
            minuterie: MinuterieConfig { timeout: 60 },
            mqtt: Mqtt {
                host: "127.0.0.1".to_string(),
                username: "username".to_string(),
                password: "password".to_string(),
                port: 1883,
                publish_topic: "mqtt-presence-checker/home/".to_string(),
                heartbeat_topic: "presence-checker1/home/heartbeat".to_string(),
            },
        }
    }
}

} // verus!
