//! A generic actor harness: shared-state coordination between cooperating
//! threads.
//!
//! An `Actor` owns a piece of state behind one exclusive lock, shared by one
//! primary task and any number of secondary tasks. Only the primary handle
//! holds the input channel's receiving end; every handle shares the output
//! sender, a park/notify condition signal and a cooperative stop flag.
//! `Actor::new` builds the primary handle together with the outside-facing
//! `ActorProxy`; the caller spawns one thread per task, giving each
//! secondary a handle made by `Actor::secondary`.
//!
//! Condition-signal wakeups can be missed or spurious, so every caller of
//! `park` must recheck its own wake predicate in a loop rather than assume
//! a single park observes every intended notification.

use vstd::prelude::*;
use std::sync::Arc;
use std::sync::Condvar;
use std::sync::Mutex;
use std::sync::mpsc::Receiver;
use std::sync::mpsc::Sender;
use crate::fault::Fault;
use crate::runtime::arc_clone;
use crate::runtime::channel_pair;
use crate::runtime::condvar_new;
use crate::runtime::flag_get;
use crate::runtime::flag_set;
use crate::runtime::mutex_new;
use crate::runtime::notify_all_on;
use crate::runtime::park_on;
use crate::runtime::recv_blocking;
use crate::runtime::sender_clone;

verus! {

/// The park/notify signal: a condition variable with the lock it waits
/// under.
pub struct Signal {
    lock: Mutex<bool>,
    signal: Condvar,
}

/// One task's handle on a shared actor: the state container, the channel
/// ends, the park/notify signal and the stop flag.
#[verifier::reject_recursive_types(T)]
#[verifier::reject_recursive_types(I)]
#[verifier::reject_recursive_types(O)]
pub struct Actor<T, I, O> {
    /// The actor's state, behind the one exclusive lock every task shares.
    pub state: Arc<Mutex<T>>,
    /// The input channel's receiving end; held by the primary handle alone.
    pub rx: Option<Receiver<I>>,
    /// The shared output sender.
    pub tx: Sender<O>,
    condition: Arc<Signal>,
    stopped: Arc<Mutex<bool>>,
}

/// The outside world's two ends of an actor: it feeds the input channel and
/// consumes the output channel.
#[verifier::reject_recursive_types(I)]
#[verifier::reject_recursive_types(O)]
pub struct ActorProxy<I, O> {
    /// Feeds the actor's input channel.
    pub tx: Sender<I>,
    /// Consumes the actor's output channel.
    pub rx: Receiver<O>,
}

impl<T, I, O> Actor<T, I, O> {
    /// The primary handle is the one holding the input channel's receiving
    /// end.
    pub closed spec fn is_primary(self) -> bool {
        self.rx is Some
    }

    /// Whether two handles belong to the same actor: they govern the same
    /// state container, park/notify signal and stop flag.
    pub closed spec fn same_actor(self, other: Actor<T, I, O>) -> bool {
        &&& self.state == other.state
        &&& self.condition == other.condition
        &&& self.stopped == other.stopped
    }

    /// Builds an actor owning `data` and the proxy connected to it. The
    /// returned handle is the primary one; the caller spawns the tasks,
    /// handing each secondary a handle made by `secondary`.
    pub fn new(data: T) -> (r: (Actor<T, I, O>, ActorProxy<I, O>))
        ensures
            r.0.is_primary(),
    {
        let (input_tx, input_rx) = channel_pair::<I>();
        let (output_tx, output_rx) = channel_pair::<O>();
        let actor = Actor {
            state: Arc::new(mutex_new(data)),
            rx: Some(input_rx),
            tx: output_tx,
            condition: Arc::new(Signal { lock: mutex_new(false), signal: condvar_new() }),
            stopped: Arc::new(mutex_new(false)),
        };
        let proxy = ActorProxy { tx: input_tx, rx: output_rx };
        (actor, proxy)
    }

    /// A handle for a secondary task: it shares the state, the output
    /// sender, the signal and the stop flag, but not the input receiver.
    pub fn secondary(&self) -> (r: Actor<T, I, O>)
        ensures
            !r.is_primary(),
            r.same_actor(*self),
    {
        Actor {
            state: arc_clone(&self.state),
            rx: None,
            tx: sender_clone(&self.tx),
            condition: arc_clone(&self.condition),
            stopped: arc_clone(&self.stopped),
        }
    }

    /// Wakes every thread currently parked on this actor.
    pub fn notify_all(&self) {
        notify_all_on(&self.condition.lock, &self.condition.signal)
    }

    /// Blocks the calling thread until some holder of the same actor calls
    /// `notify_all` (or a spurious wakeup occurs): recheck the wake
    /// predicate in a loop.
    pub fn park(&self) {
        park_on(&self.condition.lock, &self.condition.signal)
    }

    /// Takes the next input message. Only the primary handle can receive;
    /// on a secondary handle this fails with `NotPrimary`, and never
    /// otherwise, enforcing single-consumer semantics on the input channel.
    /// On the primary handle it blocks, and fails only with `ChannelClosed`
    /// once every input sender is gone.
    pub fn receive(&self) -> (r: Result<I, Fault>)
        ensures
            !self.is_primary() ==> (r matches Err(fault) && fault is NotPrimary),
            self.is_primary() ==> (r matches Err(fault) ==> fault is ChannelClosed),
    {
        if let Some(rx) = &self.rx {
            match recv_blocking(rx) {
                Some(message) => Ok(message),
                None => Err(Fault::ChannelClosed),
            }
        } else {
            Err(Fault::NotPrimary)
        }
    }

    /// Whether the actor was asked to stop. A poisoned flag counts as
    /// stopped: its holder died abnormally and the actor must wind down.
    pub fn is_stopped(&self) -> bool {
        match flag_get(&self.stopped) {
            Some(stopped) => stopped,
            None => true,
        }
    }

    /// Raises the cooperative stop flag. It does not forcibly unblock a
    /// thread stuck in a blocking receive; pair it with `notify_all` so
    /// parked tasks observe it. The flag lives behind the shared lock, so
    /// the handle itself is untouched.
    pub fn stop(&mut self)
        ensures
            *final(self) == *old(self),
    {
        let _stored = flag_set(&self.stopped, true);
    }
}

} // verus!
