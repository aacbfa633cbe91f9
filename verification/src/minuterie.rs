//! The timeout-debouncing state machine.
//!
//! A `Minuterie` (named for a stairwell light-timer switch) converts a
//! stream of timestamped heartbeats into a low-frequency ACTIVE/INACTIVE
//! signal: it is ACTIVE exactly while the latest heartbeat is younger than
//! the configured timeout, and it reports a `StateChange` only when the
//! computed state differs from the state it last reported.
//!
//! Instants are plain milliseconds on a single monotonic clock chosen by
//! the caller (for the running system: milliseconds since launch).

use vstd::prelude::*;
use std::sync::mpsc::Receiver;
use std::sync::mpsc::Sender;
use std::time::Instant;
use crate::fault::Fault;
use crate::runtime::TimedRecv;
use crate::runtime::elapsed_millis;
use crate::runtime::recv_blocking;
use crate::runtime::recv_with_timeout;
use crate::runtime::send_value;

verus! {

/// The debounced presence state.
#[allow(non_camel_case_types)]
#[derive(Debug, Copy, Clone, PartialEq, Eq, Structural)]
pub enum State {
    ACTIVE,
    INACTIVE,
}

impl State {
    /// The state's name, as logs and transport payloads spell it.
    pub fn label(&self) -> (r: String)
        ensures
            self is ACTIVE ==> r@ == "ACTIVE"@,
            self is INACTIVE ==> r@ == "INACTIVE"@,
    {
        match self {
            State::ACTIVE => "ACTIVE".to_string(),
            State::INACTIVE => "INACTIVE".to_string(),
        }
    }
}

/// Represents a measurement of presence.
/// This could be a ping response from your mobile, a movement or door sensor
/// or everything else which senses your presence.
#[derive(Debug, Copy, Clone, PartialEq, Eq, Structural)]
pub struct Heartbeat {
    /// When the presence was observed, in milliseconds.
    pub instant: u64,
}

/// Emitted on each logical transition of the presence state, and only then.
#[derive(Debug, Copy, Clone, PartialEq, Eq, Structural)]
pub struct StateChange {
    /// Timestamp of the state change, in milliseconds.
    pub instant: u64,
    /// New state.
    pub state: State,
}

/// The debouncer's state: the latest accepted heartbeat instant, the state
/// it most recently reported, and the immutable, strictly positive timeout.
#[derive(Debug, Copy, Clone, PartialEq, Eq, Structural)]
pub struct Minuterie {
    /// Instant of the latest accepted heartbeat, in milliseconds.
    pub last_instant: u64,
    /// The state most recently reported (not necessarily the one most
    /// recently computed: equal states are deduplicated).
    pub last_state: State,
    /// The debounce timeout in milliseconds; immutable after construction.
    pub timeout: u64,
}

impl Minuterie {
    /// The timeout is strictly positive; it never changes after construction.
    pub open spec fn wf(self) -> bool {
        self.timeout > 0
    }

    /// The state at instant `now`: ACTIVE exactly while the latest heartbeat
    /// is younger than the timeout.
    pub open spec fn state_at(self, now: u64) -> State {
        if (now as int) < self.last_instant + self.timeout {
            State::ACTIVE
        } else {
            State::INACTIVE
        }
    }

    /// Constructs a cold-started debouncer: the latest heartbeat is placed
    /// exactly one timeout in the past, so the computed state at `now` is
    /// INACTIVE, matching the unreported initial `last_state`.
    ///
    /// `now` is the current instant; instants are unsigned, so the instant
    /// one timeout in the past only exists when `timeout <= now`.
    pub fn new(timeout: u64, now: u64) -> (r: Minuterie)
        requires
            0 < timeout <= now,
        ensures
            r.wf(),
            r.timeout == timeout,
            r.last_instant == now - timeout,
            r.last_state == State::INACTIVE,
            r.state_at(now) == State::INACTIVE,
    {
        Minuterie { last_instant: now - timeout, last_state: State::INACTIVE, timeout }
    }

    /// Recomputes the presence state for instant `now`.
    pub fn get_current_state(&self, now: u64) -> (r: State)
        requires
            self.wf(),
        ensures
            r == self.state_at(now),
    {
        if now.saturating_sub(self.last_instant) < self.timeout {
            State::ACTIVE
        } else {
            State::INACTIVE
        }
    }

    /// The instant at which the current ACTIVE period (if any) expires,
    /// clamped to the largest representable instant.
    pub open spec fn deadline(self) -> int {
        if self.last_instant + self.timeout <= u64::MAX {
            self.last_instant + self.timeout
        } else {
            u64::MAX as int
        }
    }

    /// Milliseconds from `now` until the deadline; zero once it has passed.
    pub open spec fn remaining_at(self, now: u64) -> int {
        if now < self.deadline() {
            self.deadline() - now
        } else {
            0
        }
    }

    /// How long a wait started at `now` may sleep before the ACTIVE period
    /// must be re-checked.
    pub fn get_duration_until_timeout(&self, now: u64) -> (r: u64)
        ensures
            r == self.remaining_at(now),
    {
        self.last_instant.saturating_add(self.timeout).saturating_sub(now)
    }

    /// Recomputes the state for instant `now` and reports a `StateChange`
    /// exactly when it differs from the state last reported.
    pub fn publish_state(&mut self, now: u64) -> (r: Option<StateChange>)
        requires
            old(self).wf(),
        ensures
            final(self).last_instant == old(self).last_instant,
            final(self).timeout == old(self).timeout,
            final(self).last_state == old(self).state_at(now),
            r == (if old(self).state_at(now) != old(self).last_state {
                Some(StateChange { instant: now, state: old(self).state_at(now) })
            } else {
                None::<StateChange>
            }),
    {
        let current_state = self.get_current_state(now);
        let changed = current_state != self.last_state;
        self.last_state = current_state;
        if changed {
            Some(StateChange { instant: now, state: current_state })
        } else {
            None
        }
    }
}

/// What one turn of the engine observed: a heartbeat that arrived, or the
/// expiry of the wait for the current deadline.
#[derive(Debug, Copy, Clone, PartialEq, Eq, Structural)]
pub enum Input {
    Beat(Heartbeat),
    Expire,
}

/// One turn of a whole run: the input the engine observed and the instant
/// at which it processed it.
#[derive(Debug, Copy, Clone, PartialEq, Eq, Structural)]
pub struct Step {
    /// The observed input.
    pub input: Input,
    /// The instant, in milliseconds, at which the input was processed.
    pub now: u64,
}

impl Minuterie {
    /// The heartbeat (if any) carried by `input` is accepted: heartbeats
    /// replace `last_instant` unconditionally, even out of order.
    pub open spec fn accept(self, input: Input) -> Minuterie {
        match input {
            Input::Beat(hb) => Minuterie { last_instant: hb.instant, ..self },
            Input::Expire => self,
        }
    }

    /// One turn of the engine, as a mathematical function: accept the input,
    /// recompute the state at `now`, report it only if it changed.
    pub open spec fn step_state(self, input: Input, now: u64) -> Minuterie {
        let accepted = self.accept(input);
        Minuterie { last_state: accepted.state_at(now), ..accepted }
    }

    /// The `StateChange` (if any) that the turn of `step_state` reports.
    pub open spec fn step_output(self, input: Input, now: u64) -> Option<StateChange> {
        let accepted = self.accept(input);
        if accepted.state_at(now) != self.last_state {
            Some(StateChange { instant: now, state: accepted.state_at(now) })
        } else {
            None
        }
    }

    /// One turn of the engine: accept `input`, then recompute and
    /// conditionally report the state for instant `now`.
    pub fn step(&mut self, input: Input, now: u64) -> (r: Option<StateChange>)
        requires
            old(self).wf(),
        ensures
            *final(self) == old(self).step_state(input, now),
            r == old(self).step_output(input, now),
            final(self).wf(),
            final(self).timeout == old(self).timeout,
    {
        match input {
            Input::Beat(heartbeat) => {
                self.last_instant = heartbeat.instant;
            },
            Input::Expire => {},
        }
        self.publish_state(now)
    }

    /// The machine after a whole run: one `step` per entry of `trace`, in
    /// order.
    pub open spec fn run_state(self, trace: Seq<Step>) -> Minuterie
        decreases trace.len(),
    {
        if trace.len() == 0 {
            self
        } else {
            self.step_state(trace[0].input, trace[0].now).run_state(trace.drop_first())
        }
    }

    /// The `StateChange`s that a run over `trace` emits, in order.
    pub open spec fn run_outputs(self, trace: Seq<Step>) -> Seq<StateChange>
        decreases trace.len(),
    {
        if trace.len() == 0 {
            Seq::empty()
        } else {
            let head = match self.step_output(trace[0].input, trace[0].now) {
                Some(change) => seq![change],
                None => Seq::<StateChange>::empty(),
            };
            head + self.step_state(trace[0].input, trace[0].now).run_outputs(trace.drop_first())
        }
    }

    /// Waits for the next heartbeat. A wait started at `now` inside an
    /// ACTIVE period sleeps at most until the deadline, so an expiry is
    /// reported only when one was pending; once the deadline has passed the
    /// wait blocks until a heartbeat arrives or the input closes.
    pub fn recv(&self, rx: &Receiver<Heartbeat>, now: u64) -> (r: TimedRecv<Heartbeat>)
        ensures
            self.remaining_at(now) == 0 ==> !(r is Expired),
    {
        let timer = self.get_duration_until_timeout(now);
        if timer > 0 {
            recv_with_timeout(rx, timer)
        } else {
            match recv_blocking(rx) {
                Some(heartbeat) => TimedRecv::Received(heartbeat),
                None => TimedRecv::Closed,
            }
        }
    }

    /// One turn of driving the debouncer: wait for a heartbeat or for the
    /// pending deadline, re-read the clock, take one `step`, and emit the
    /// reported change (if any) on `tx`. Every wake path re-reads the clock
    /// and the authoritative state; no snapshot is trusted across a wait.
    /// Instants are milliseconds of the monotonic clock since `launch`.
    ///
    /// `Ok(true)` asks for another turn; `Ok(false)` reports that the input
    /// closed, the expected end of the run. A vanished consumer is fatal and
    /// reported as `SendFailure`. The caller repeats turns until one of
    /// those two ends; the wait between turns blocks, so the loop burns no
    /// time busily.
    pub fn run_turn(&mut self, launch: &Instant, rx: &Receiver<Heartbeat>, tx: &Sender<StateChange>)
        -> (r: Result<bool, Fault>)
        requires
            old(self).wf(),
        ensures
            final(self).wf(),
            final(self).timeout == old(self).timeout,
            r matches Err(fault) ==> fault is SendFailure,
            r == Ok::<bool, Fault>(false) ==> *final(self) == *old(self),
    {
        let now = elapsed_millis(launch);
        let outcome = self.recv(rx, now);
        let fresh_now = elapsed_millis(launch);
        let emitted = match outcome {
            TimedRecv::Received(heartbeat) => self.step(Input::Beat(heartbeat), fresh_now),
            TimedRecv::Expired => self.step(Input::Expire, fresh_now),
            TimedRecv::Closed => {
                // when the channel is disconnected, the run is over
                return Ok(false);
            },
        };
        if let Some(change) = emitted {
            if send_value(tx, change).is_err() {
                return Err(Fault::SendFailure);
            }
        }
        Ok(true)
    }
}

/// Law: over every run, the emitted sequence never repeats a state: two
/// consecutive emissions always carry different states. Moreover the state
/// last reported (`last_state`) always mirrors the most recent emission —
/// or the initial `last_state`, while nothing has been emitted yet.
#[verifier::rlimit(50)]
pub proof fn lemma_emissions_alternate(m: Minuterie, trace: Seq<Step>)
    ensures
        ({
            let out = m.run_outputs(trace);
            &&& forall|i: int|
                0 <= i && i + 1 < out.len() ==> (#[trigger] out[i]).state != out[i + 1].state
            &&& out.len() > 0 ==> out.first().state != m.last_state
            &&& out.len() > 0 ==> out.last().state == m.run_state(trace).last_state
            &&& out.len() == 0 ==> m.run_state(trace).last_state == m.last_state
        }),
    decreases trace.len(),
{
    if trace.len() > 0 {
        let next = m.step_state(trace[0].input, trace[0].now);
        let head = m.step_output(trace[0].input, trace[0].now);
        let tail_out = next.run_outputs(trace.drop_first());
        let out = m.run_outputs(trace);
        lemma_emissions_alternate(next, trace.drop_first());
        match head {
            Some(change) => {
                assert(out =~= seq![change] + tail_out);
                assert(out[0] == change);
                assert(change.state == next.last_state);
                assert(change.state != m.last_state);
                assert forall|i: int| 0 <= i && i + 1 < out.len() implies (#[trigger] out[i]).state
                    != out[i + 1].state by {
                    if i == 0 {
                        assert(out[1] == tail_out[0]);
                        assert(tail_out[0] == tail_out.first());
                    } else {
                        assert(out[i] == tail_out[i - 1]);
                        assert(out[i + 1] == tail_out[i]);
                    }
                }
                if tail_out.len() == 0 {
                    assert(out.last() == change);
                    assert(next.run_state(trace.drop_first()).last_state == next.last_state);
                } else {
                    assert(out.last() == tail_out.last());
                }
            },
            None => {
                assert(out =~= tail_out);
                assert(next.last_state == m.last_state);
            },
        }
    }
}

/// Law: if no heartbeat ever arrives — the run sees only expiries, each at
/// or after the fixed deadline — then at most one event, an INACTIVE one,
/// is ever emitted; none at all when INACTIVE was already the last reported
/// (for a cold start: the initial, unreported) state.
pub proof fn lemma_starvation_emits_at_most_one_inactive(m: Minuterie, trace: Seq<Step>)
    requires
        forall|i: int|
            0 <= i < trace.len() ==> (#[trigger] trace[i]).input is Expire && trace[i].now
                >= m.last_instant + m.timeout,
    ensures
        ({
            let out = m.run_outputs(trace);
            &&& out.len() <= 1
            &&& forall|i: int| 0 <= i < out.len() ==> (#[trigger] out[i]).state is INACTIVE
            &&& m.last_state is INACTIVE ==> out.len() == 0
        }),
    decreases trace.len(),
{
    if trace.len() > 0 {
        let next = m.step_state(trace[0].input, trace[0].now);
        let head = m.step_output(trace[0].input, trace[0].now);
        let tail_out = next.run_outputs(trace.drop_first());
        let out = m.run_outputs(trace);
        assert(next.state_at(trace[0].now) is INACTIVE);
        assert(forall|i: int|
            0 <= i < trace.drop_first().len() ==> (#[trigger] trace.drop_first()[i]).input
                is Expire && trace.drop_first()[i].now >= next.last_instant + next.timeout);
        lemma_starvation_emits_at_most_one_inactive(next, trace.drop_first());
        assert(tail_out.len() == 0);
        match head {
            Some(change) => {
                assert(out =~= seq![change]);
            },
            None => {
                assert(out =~= tail_out);
            },
        }
    }
}

/// Law: a heartbeat arriving while the machine is already ACTIVE — the last
/// reported state is ACTIVE and the heartbeat is fresh enough to keep the
/// computed state ACTIVE — emits nothing and leaves the machine ACTIVE.
pub proof fn lemma_active_heartbeat_is_silent(m: Minuterie, heartbeat: Heartbeat, now: u64)
    requires
        m.last_state is ACTIVE,
        now < heartbeat.instant + m.timeout,
    ensures
        m.step_output(Input::Beat(heartbeat), now) is None,
        m.step_state(Input::Beat(heartbeat), now).last_state is ACTIVE,
{
}

} // verus!
