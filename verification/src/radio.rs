use vstd::prelude::*;

use crate::types::RxQuality;

verus! {

/// A failure reported by the radio driver, carrying the driver's own
/// cause. It is converted exactly once into the stack's unified `Radio`
/// failure category (`crate::Error`) on its way upward.
#[derive(Debug, Clone, Copy, PartialEq, Eq)]
pub struct Error<E>(pub E);

/// Raw quality figures a driver reports together with a completed
/// receive, before the signal-to-noise figure is narrowed.
#[derive(Debug, Clone, Copy, PartialEq, Eq, Structural)]
pub struct PacketStatus {
    pub rssi: i16,
    pub snr: i16,
}

/// A hardware condition the driver reports while a receive operation
/// runs: an intermediate state, or the terminal `Done` state carrying the
/// received length and the raw quality figures. Only `Done` is meaningful
/// to the default receive loop.
#[derive(Debug, Clone, Copy, PartialEq, Eq, Structural)]
pub enum IrqState {
    /// The preamble has been detected; the frame is still arriving.
    PreambleReceived,
    /// The receive has fully completed.
    Done(u8, PacketStatus),
}

/// The hardware condition a partial-receive operation is asked to run to.
#[derive(Debug, Clone, Copy, PartialEq, Eq, Structural)]
pub enum DesiredIrqState {
    PreambleReceived,
    Done,
}

/// One iteration of the default receive loop: given the state the driver
/// reported, either the receive is complete and the result is decoded, or
/// the loop must suspend and poll again. Exactly the `Done` variant ends
/// the loop; decoding narrows the signal-to-noise figure to its smaller
/// signed representation by truncation and applies no other transformation.
pub fn rx_poll_step(state: IrqState) -> (r: Option<(usize, RxQuality)>)
    ensures
        r is Some <==> state is Done,
        state matches IrqState::Done(length, status) ==> (r matches Some(out)
            && out.0 == length as usize
            && out.1.spec_rssi() == status.rssi
            && out.1.spec_snr() == status.snr as i8),
{
    match state {
        IrqState::Done(length, status) => {
            let snr: i8 = #[verifier::truncate] (status.snr as i8);
            Some((length as usize, RxQuality::new(status.rssi, snr)))
        },
        IrqState::PreambleReceived => None,
    }
}

/// Index of the first `Done` state in a run of driver reports, or the
/// run's length when none is `Done`.
pub open spec fn done_index(events: Seq<IrqState>) -> int
    decreases events.len(),
{
    if events.len() == 0 {
        0
    } else if events[0] is Done {
        0
    } else {
        1 + done_index(events.drop_first())
    }
}

/// `done_index` points at the first `Done` report: nothing before it is
/// `Done`, and it lands inside the run exactly when some report is `Done`.
pub proof fn lemma_done_index(events: Seq<IrqState>)
    ensures
        0 <= done_index(events) <= events.len(),
        done_index(events) < events.len() ==> events[done_index(events)] is Done,
        forall|j: int| 0 <= j < done_index(events) ==> !(events[j] is Done),
    decreases events.len(),
{
    if events.len() > 0 && !(events[0] is Done) {
        lemma_done_index(events.drop_first());
        let rest = events.drop_first();
        assert forall|j: int| 0 <= j < done_index(events) implies !(events[j] is Done) by {
            if j > 0 {
                assert(!(rest[j - 1] is Done));
                assert(events[j] == rest[j - 1]);
            }
        }
        if done_index(events) < events.len() {
            assert(events[done_index(events)] == rest[done_index(rest)]);
        }
    }
}

/// The default receive behavior, run over the driver reports of one
/// receive in the order the hardware produced them: poll cooperatively,
/// one suspension per report, until the first `Done` report, and decode
/// the received length and quality from exactly that report. With no
/// `Done` report the receive is still pending and nothing is returned.
pub fn rx_from_events(events: &Vec<IrqState>) -> (r: Option<(usize, RxQuality)>)
    ensures
        r is Some <==> done_index(events@) < events@.len(),
        done_index(events@) < events@.len() ==> (events@[done_index(events@)] matches
            IrqState::Done(length, status) && (r matches Some(out)
            && out.0 == length as usize
            && out.1.spec_rssi() == status.rssi
            && out.1.spec_snr() == status.snr as i8)),
{
    proof {
        lemma_done_index(events@);
    }
    let n = events.len();
    let mut i: usize = 0;
    while i < n
        invariant
            i <= n,
            n == events@.len(),
            forall|j: int| 0 <= j < i ==> !(events@[j] is Done),
        decreases n - i,
    {
        let state = events[i];
        let step = rx_poll_step(state);
        if step.is_some() {
            proof {
                lemma_first_done_is(events@, i as int);
            }
            return step;
        }
        i = i + 1;
    }
    proof {
        lemma_no_done(events@);
    }
    None
}

/// When nothing before `i` is `Done` and the report at `i` is, the first
/// `Done` report is exactly the one at `i`.
proof fn lemma_first_done_is(events: Seq<IrqState>, i: int)
    requires
        0 <= i < events.len(),
        events[i] is Done,
        forall|j: int| 0 <= j < i ==> !(events[j] is Done),
    ensures
        done_index(events) == i,
    decreases events.len(),
{
    if i > 0 {
        let rest = events.drop_first();
        assert forall|j: int| 0 <= j < i - 1 implies !(rest[j] is Done) by {
            assert(rest[j] == events[j + 1]);
        }
        assert(rest[i - 1] == events[i]);
        lemma_first_done_is(rest, i - 1);
    }
}

/// When no report is `Done`, `done_index` is the run's length.
proof fn lemma_no_done(events: Seq<IrqState>)
    requires
        forall|j: int| 0 <= j < events.len() ==> !(events[j] is Done),
    ensures
        done_index(events) == events.len(),
    decreases events.len(),
{
    if events.len() > 0 {
        let rest = events.drop_first();
        assert forall|j: int| 0 <= j < rest.len() implies !(rest[j] is Done) by {
            assert(rest[j] == events[j + 1]);
        }
        lemma_no_done(rest);
    }
}

/// Cooperative wait contract used to align receive windows. A timer
/// carries a baseline instant (`spec_baseline`) and a current instant
/// (`spec_now`), both in milliseconds of a model clock that never runs
/// backwards. Waits may resolve late — scheduling jitter biases late —
/// but never early.
pub trait Timer {
    /// The instant the timer has reached, in milliseconds.
    spec fn spec_now(&self) -> nat;

    /// The baseline instant set by the most recent `reset`.
    spec fn spec_baseline(&self) -> nat;

    /// Establishes the present instant as the new baseline.
    fn reset(&mut self)
        ensures
            final (self).spec_now() >= old(self).spec_now(),
            final (self).spec_baseline() == final (self).spec_now(),
    ;

    /// Suspends until `millis` milliseconds after the baseline. Repeated
    /// calls measure from the same fixed baseline, never from each
    /// other's completion, and never resolve early.
    fn at(&mut self, millis: u64)
        requires
            old(self).spec_baseline() + millis <= u64::MAX,
        ensures
            final (self).spec_baseline() == old(self).spec_baseline(),
            final (self).spec_now() >= old(self).spec_baseline() + millis,
            final (self).spec_now() >= old(self).spec_now(),
    ;

    /// Suspends for `millis` milliseconds measured from the call itself,
    /// independent of the baseline.
    fn delay_ms(&mut self, millis: u64)
        requires
            old(self).spec_now() + millis <= u64::MAX,
        ensures
            final (self).spec_baseline() == old(self).spec_baseline(),
            final (self).spec_now() >= old(self).spec_now() + millis,
    ;
}

/// A deterministic timer over a simulated clock: every wait resolves at
/// the earliest instant its contract allows. It shows the `Timer`
/// contract is satisfiable and lets the timing rules be exercised
/// without hardware.
pub struct SimTimer {
    now: u64,
    baseline: u64,
}

impl SimTimer {
    pub fn new() -> (t: SimTimer)
        ensures
            t.spec_now() == 0,
            t.spec_baseline() == 0,
    {
        SimTimer { now: 0, baseline: 0 }
    }

    /// The instant the simulated clock has reached, in milliseconds.
    pub fn now_ms(&self) -> (r: u64)
        ensures
            r == self.spec_now(),
    {
        self.now
    }
}

impl Timer for SimTimer {
    closed spec fn spec_now(&self) -> nat {
        self.now as nat
    }

    closed spec fn spec_baseline(&self) -> nat {
        self.baseline as nat
    }

    fn reset(&mut self) {
        self.baseline = self.now;
    }

    fn at(&mut self, millis: u64) {
        let target = self.baseline + millis;
        if self.now < target {
            self.now = target;
        }
    }

    fn delay_ms(&mut self, millis: u64) {
        self.now = self.now + millis;
    }
}

} // verus!
