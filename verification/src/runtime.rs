//! Blocking primitives of the platform, taken on trust.
//!
//! The engine and the actor harness coordinate threads through `std`'s
//! channels, mutexes, condition variables and monotonic clock. Verus has no
//! specifications for these, so this module declares the types and wraps
//! each operation the library relies on. Every contract here states only
//! what `std`'s documentation plainly promises; values that depend on other
//! threads or on the clock are left unconstrained.

use vstd::prelude::*;
use std::sync::Condvar;
use std::sync::Mutex;
use std::sync::mpsc::Receiver;
use std::sync::mpsc::RecvTimeoutError;
use std::sync::mpsc::Sender;
use std::sync::Arc;
use std::time::Duration;
use std::time::Instant;

verus! {

#[verifier::external_type_specification]
#[verifier::external_body]
#[verifier::reject_recursive_types(T)]
pub struct ExSender<T>(Sender<T>);

#[verifier::external_type_specification]
#[verifier::external_body]
#[verifier::reject_recursive_types(T)]
pub struct ExReceiver<T>(Receiver<T>);

#[verifier::external_type_specification]
#[verifier::external_body]
#[verifier::reject_recursive_types(T)]
pub struct ExMutex<T: ?Sized>(Mutex<T>);

#[verifier::external_type_specification]
#[verifier::external_body]
pub struct ExCondvar(Condvar);

#[verifier::external_type_specification]
#[verifier::external_body]
pub struct ExInstant(Instant);

/// What a bounded wait on a channel produced.
#[derive(Debug)]
pub enum TimedRecv<T> {
    /// A value arrived before the wait elapsed.
    Received(T),
    /// The wait elapsed with no value available.
    Expired,
    /// Every sender of the channel is gone and the channel is drained.
    Closed,
}

/// Relies on std::sync::mpsc::channel: an unbounded FIFO channel; values
/// sent on the returned sender can be taken from the returned receiver.
#[verifier::external_body]
pub(crate) fn channel_pair<T>() -> (Sender<T>, Receiver<T>) {
    std::sync::mpsc::channel()
}

/// Relies on std::sync::mpsc::Sender::send: never blocks; fails exactly
/// when the receiver is gone, handing the unsent value back.
#[verifier::external_body]
pub(crate) fn send_value<T>(tx: &Sender<T>, value: T) -> (r: Result<(), T>)
    ensures
        r matches Err(unsent) ==> unsent == value,
{
    match tx.send(value) {
        Ok(()) => Ok(()),
        Err(rejected) => Err(rejected.0),
    }
}

/// Relies on std::sync::mpsc::Sender::clone: another sending handle on the
/// same channel.
#[verifier::external_body]
pub(crate) fn sender_clone<T>(tx: &Sender<T>) -> Sender<T> {
    tx.clone()
}

/// Relies on std::sync::mpsc::Receiver::recv: blocks until a value arrives
/// (`Some`) or every sender is gone and the channel is drained (`None`).
#[verifier::external_body]
pub(crate) fn recv_blocking<T>(rx: &Receiver<T>) -> (r: Option<T>) {
    match rx.recv() {
        Ok(value) => Some(value),
        Err(_) => None,
    }
}

/// Relies on std::sync::mpsc::Receiver::recv_timeout: blocks at most
/// `timeout_millis`, and reports which of the three outcomes ended the wait.
#[verifier::external_body]
pub(crate) fn recv_with_timeout<T>(rx: &Receiver<T>, timeout_millis: u64) -> (r: TimedRecv<T>) {
    match rx.recv_timeout(Duration::from_millis(timeout_millis)) {
        Ok(value) => TimedRecv::Received(value),
        Err(RecvTimeoutError::Timeout) => TimedRecv::Expired,
        Err(RecvTimeoutError::Disconnected) => TimedRecv::Closed,
    }
}

/// Relies on std::sync::Arc::clone: a handle to the same allocation, so the
/// shared value is the same.
#[verifier::external_body]
pub(crate) fn arc_clone<T>(shared: &Arc<T>) -> (r: Arc<T>)
    ensures
        r == *shared,
{
    Arc::clone(shared)
}

/// Relies on std::sync::Mutex::new: a lock owning `value`.
#[verifier::external_body]
pub(crate) fn mutex_new<T>(value: T) -> Mutex<T> {
    Mutex::new(value)
}

/// Relies on std::sync::Mutex::lock: reads the flag under the lock; `None`
/// exactly when the lock is poisoned.
#[verifier::external_body]
pub(crate) fn flag_get(flag: &Mutex<bool>) -> (r: Option<bool>) {
    match flag.lock() {
        Ok(guard) => Some(*guard),
        Err(_) => None,
    }
}

/// Relies on std::sync::Mutex::lock: stores `value` in the flag under the
/// lock; `false` exactly when the lock is poisoned and nothing was stored.
#[verifier::external_body]
pub(crate) fn flag_set(flag: &Mutex<bool>, value: bool) -> (r: bool) {
    match flag.lock() {
        Ok(mut guard) => {
            *guard = value;
            true
        },
        Err(_) => false,
    }
}

/// Relies on std::sync::Condvar::new: a fresh condition variable.
#[verifier::external_body]
pub(crate) fn condvar_new() -> Condvar {
    Condvar::new()
}

/// Relies on std::sync::Condvar::wait, under std::sync::Mutex::lock: blocks
/// the caller until some thread notifies the condition variable (wakeups may
/// also be spurious); returns at once if the lock is poisoned.
#[verifier::external_body]
pub(crate) fn park_on(lock: &Mutex<bool>, signal: &Condvar) {
    if let Ok(guard) = lock.lock() {
        let _woken = signal.wait(guard);
    }
}

/// Relies on std::sync::Condvar::notify_all, under std::sync::Mutex::lock:
/// wakes every thread currently waiting on the condition variable.
#[verifier::external_body]
pub(crate) fn notify_all_on(lock: &Mutex<bool>, signal: &Condvar) {
    if let Ok(_held) = lock.lock() {
        signal.notify_all();
    }
}

/// Relies on std::time::Instant::elapsed: whole milliseconds of the
/// monotonically nondecreasing clock since `launch`, clamped to `u64`.
#[verifier::external_body]
pub(crate) fn elapsed_millis(launch: &Instant) -> (r: u64) {
    let millis = launch.elapsed().as_millis();
    if millis > u64::MAX as u128 {
        u64::MAX
    } else {
        millis as u64
    }
}

} // verus!
