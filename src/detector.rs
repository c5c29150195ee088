//! The debounce and edge detector: turns one tone decision per detection
//! window into timed edges, and notices when a message has ended.
use vstd::prelude::*;

verus! {

/// The shortest time, in milliseconds, that must pass after a change before
/// a tone is accepted as a real signal rather than a click.
pub const DEBOUNCE_MS: u32 = 15;

/// A message ends after this many dot durations of unchanged state.
pub const TIMEOUT_DOTS: u64 = 20;

/// `samples` at `rate` samples per second, in milliseconds, rounded to the
/// nearest integer (halves up) and capped at `u32::MAX`.
pub open spec fn ms_of(samples: int, rate: int) -> int {
    let q = (2000 * samples + rate) / (2 * rate);
    if q > u32::MAX {
        u32::MAX as int
    } else {
        q
    }
}

/// A change of state: the time spent in the state that just ended.
#[derive(Clone, Copy, Debug, PartialEq, Eq, Structural)]
pub struct SignalEdge {
    pub duration_ms: u32,
    pub duration_samples: u64,
    pub prior_state: bool,
}

/// What one detection window brought about.
#[derive(Clone, Copy, Debug, PartialEq, Eq, Structural)]
pub struct DetectorEvent {
    /// The edge to hand to the assembler, if the state changed.
    pub edge: Option<SignalEdge>,
    /// The state stood unchanged longer than the message timeout.
    pub timed_out: bool,
    /// The message timed out with edges handed over since the last
    /// finalization: the assembler is to be flushed and its message taken.
    pub finalize: bool,
}

/// The state of the detector, owned by one processing loop.
#[derive(Clone, Copy, Debug, PartialEq, Eq, Structural)]
pub struct EdgeDetector {
    pub sample_rate: u32,
    pub dot_duration_ms: u32,
    pub debounce_ms: u32,
    /// Whether a tone is currently held to be present.
    pub tone_on: bool,
    /// Samples consumed so far.
    pub sample_clock: u64,
    /// The value of the clock at the last change of state.
    pub last_change_sample: u64,
    /// Whether an edge was handed over since the last finalization.
    pub pending: bool,
}

impl EdgeDetector {
    pub open spec fn wf(&self) -> bool {
        self.sample_rate > 0 && self.last_change_sample <= self.sample_clock
    }

    /// Milliseconds since the last change of state.
    pub open spec fn elapsed_ms(&self) -> int {
        ms_of(self.sample_clock - self.last_change_sample, self.sample_rate as int)
    }

    /// A tone that comes too soon after the last change is taken for noise.
    pub open spec fn debounced(&self, tone: bool) -> bool {
        tone && !self.tone_on && self.elapsed_ms() < self.debounce_ms
    }

    pub open spec fn times_out(&self) -> bool {
        self.elapsed_ms() > TIMEOUT_DOTS * self.dot_duration_ms
    }

    /// The edge that a window with this tone decision emits.
    pub open spec fn edge_for(&self, tone: bool) -> Option<SignalEdge> {
        if !self.debounced(tone) && tone != self.tone_on {
            Some(
                SignalEdge {
                    duration_ms: self.elapsed_ms() as u32,
                    duration_samples: (self.sample_clock - self.last_change_sample) as u64,
                    prior_state: self.tone_on,
                },
            )
        } else {
            None
        }
    }

    /// The state once the edge (if any) is taken into account.
    pub open spec fn after_edge(&self, tone: bool) -> EdgeDetector {
        if self.edge_for(tone) is Some {
            EdgeDetector {
                tone_on: tone,
                last_change_sample: self.sample_clock,
                pending: true,
                ..*self
            }
        } else {
            *self
        }
    }

    /// Whether the message timeout fires on this window.
    pub open spec fn timeout_fires(&self, tone: bool) -> bool {
        !self.debounced(tone) && self.times_out()
    }

    /// What a window with this tone decision brings about.
    pub open spec fn event(&self, tone: bool) -> DetectorEvent {
        DetectorEvent {
            edge: self.edge_for(tone),
            timed_out: self.timeout_fires(tone),
            finalize: self.timeout_fires(tone) && self.after_edge(tone).pending,
        }
    }

    /// The state after a window with this tone decision.
    pub open spec fn next(&self, tone: bool) -> EdgeDetector {
        if self.timeout_fires(tone) {
            EdgeDetector {
                tone_on: false,
                last_change_sample: self.sample_clock,
                pending: false,
                ..self.after_edge(tone)
            }
        } else {
            self.after_edge(tone)
        }
    }

    /// The state after `n` more samples were consumed.
    pub open spec fn advanced(&self, n: u64) -> EdgeDetector {
        EdgeDetector { sample_clock: (self.sample_clock + n) as u64, ..*self }
    }

    /// A detector with no tone, at time zero.
    pub open spec fn initial(sample_rate: u32, dot_duration_ms: u32, debounce_ms: u32) -> EdgeDetector {
        EdgeDetector {
            sample_rate,
            dot_duration_ms,
            debounce_ms,
            tone_on: false,
            sample_clock: 0,
            last_change_sample: 0,
            pending: false,
        }
    }

    /// Creates a detector with no tone, at time zero.
    pub fn new(sample_rate: u32, dot_duration_ms: u32, debounce_ms: u32) -> (r: EdgeDetector)
        requires
            sample_rate > 0,
        ensures
            r == EdgeDetector::initial(sample_rate, dot_duration_ms, debounce_ms),
            r.wf(),
    {
        EdgeDetector {
            sample_rate,
            dot_duration_ms,
            debounce_ms,
            tone_on: false,
            sample_clock: 0,
            last_change_sample: 0,
            pending: false,
        }
    }

    /// Milliseconds since the last change of state.
    pub fn elapsed(&self) -> (r: u32)
        requires
            self.wf(),
        ensures
            r == self.elapsed_ms(),
    {
        let d = (self.sample_clock - self.last_change_sample) as u128;
        let rate = self.sample_rate as u128;
        let q = (2000 * d + rate) / (2 * rate);
        if q > u32::MAX as u128 {
            u32::MAX
        } else {
            q as u32
        }
    }

    /// Consumes `advanced` samples, then applies the decision of the window
    /// that ends there: debounce, edge and message timeout.
    pub fn process_window(&mut self, advanced: u64, tone_detected: bool) -> (ev: DetectorEvent)
        requires
            old(self).wf(),
            old(self).sample_clock + advanced <= u64::MAX,
        ensures
            final(self).wf(),
            ev == old(self).advanced(advanced).event(tone_detected),
            *final(self) == old(self).advanced(advanced).next(tone_detected),
    {
        self.sample_clock = self.sample_clock + advanced;
        let ghost s = *self;
        let duration_ms = self.elapsed();
        if tone_detected && !self.tone_on && duration_ms < self.debounce_ms {
            return DetectorEvent { edge: None, timed_out: false, finalize: false };
        }
        let mut edge: Option<SignalEdge> = None;
        if tone_detected != self.tone_on {
            edge = Some(
                SignalEdge {
                    duration_ms,
                    duration_samples: self.sample_clock - self.last_change_sample,
                    prior_state: self.tone_on,
                },
            );
            self.tone_on = tone_detected;
            self.last_change_sample = self.sample_clock;
            self.pending = true;
        }
        assert(*self == s.after_edge(tone_detected));
        let timed_out = duration_ms as u64 > TIMEOUT_DOTS * self.dot_duration_ms as u64;
        let finalize = timed_out && self.pending;
        if timed_out {
            self.tone_on = false;
            self.last_change_sample = self.sample_clock;
            self.pending = false;
        }
        DetectorEvent { edge, timed_out, finalize }
    }
}

/// The samples consumed over a run of windows.
pub open spec fn total_advance(steps: Seq<(u64, bool)>) -> int
    decreases steps.len(),
{
    if steps.len() == 0 {
        0
    } else {
        steps[0].0 + total_advance(steps.drop_first())
    }
}

/// The events of a run of windows, each given by the samples it advances and
/// its tone decision.
pub open spec fn run_events(s: EdgeDetector, steps: Seq<(u64, bool)>) -> Seq<DetectorEvent>
    decreases steps.len(),
{
    if steps.len() == 0 {
        seq![]
    } else {
        let t = s.advanced(steps[0].0);
        seq![t.event(steps[0].1)] + run_events(t.next(steps[0].1), steps.drop_first())
    }
}

/// The state after a run of windows.
pub open spec fn run_final(s: EdgeDetector, steps: Seq<(u64, bool)>) -> EdgeDetector
    decreases steps.len(),
{
    if steps.len() == 0 {
        s
    } else {
        let t = s.advanced(steps[0].0);
        run_final(t.next(steps[0].1), steps.drop_first())
    }
}

/// The samples spent in the states that the edges among `evs` closed.
pub open spec fn edge_samples(evs: Seq<DetectorEvent>) -> int
    decreases evs.len(),
{
    if evs.len() == 0 {
        0
    } else {
        (match evs[0].edge {
            Some(e) => e.duration_samples as int,
            None => 0,
        }) + edge_samples(evs.drop_first())
    }
}

pub open spec fn all_silent(steps: Seq<(u64, bool)>) -> bool {
    forall|i: int| 0 <= i < steps.len() ==> !(#[trigger] steps[i]).1
}

proof fn lemma_run_events_len(s: EdgeDetector, steps: Seq<(u64, bool)>)
    ensures
        run_events(s, steps).len() == steps.len(),
    decreases steps.len(),
{
    if steps.len() > 0 {
        let t = s.advanced(steps[0].0);
        lemma_run_events_len(t.next(steps[0].1), steps.drop_first());
    }
}

proof fn lemma_ms_of_monotonic(x: int, y: int, rate: int)
    requires
        0 <= x <= y,
        rate > 0,
    ensures
        ms_of(x, rate) <= ms_of(y, rate),
{
    assert(2000 * x + rate <= 2000 * y + rate) by (nonlinear_arith)
        requires
            x <= y,
    ;
    vstd::arithmetic::div_mod::lemma_div_is_ordered(2000 * x + rate, 2000 * y + rate, 2 * rate);
}

/// Over a run of windows in which the message timeout never fires, the
/// edges account for all the time up to the last change: their sample
/// durations add up to the time from the change before the run to the last
/// change in it, each edge's milliseconds are its samples rounded, and the
/// clock has advanced by exactly the samples consumed.
pub proof fn lemma_edges_account_for_elapsed_time(s: EdgeDetector, steps: Seq<(u64, bool)>)
    requires
        s.wf(),
        s.sample_clock + total_advance(steps) <= u64::MAX,
        forall|i: int| 0 <= i < steps.len() ==> !(#[trigger] run_events(s, steps)[i]).timed_out,
    ensures
        run_final(s, steps).wf(),
        run_final(s, steps).sample_clock == s.sample_clock + total_advance(steps),
        edge_samples(run_events(s, steps)) == run_final(s, steps).last_change_sample
            - s.last_change_sample,
        forall|i: int|
            0 <= i < steps.len() && (#[trigger] run_events(s, steps)[i]).edge is Some ==> {
                let e = run_events(s, steps)[i].edge->0;
                e.duration_ms == ms_of(e.duration_samples as int, s.sample_rate as int)
            },
    decreases steps.len(),
{
    if steps.len() > 0 {
        let t = s.advanced(steps[0].0);
        let n = t.next(steps[0].1);
        let rest = steps.drop_first();
        let evs = run_events(s, steps);
        lemma_run_events_len(n, rest);
        lemma_total_advance_nonneg(rest);
        assert(evs == seq![t.event(steps[0].1)] + run_events(n, rest));
        assert(evs.drop_first() == run_events(n, rest));
        assert forall|i: int| 0 <= i < rest.len() implies !(#[trigger] run_events(n, rest)[i]).timed_out by {
            assert(run_events(n, rest)[i] == evs[i + 1]);
        }
        assert(!evs[0].timed_out);
        lemma_edges_account_for_elapsed_time(n, rest);
        assert forall|i: int|
            0 <= i < steps.len() && (#[trigger] run_events(s, steps)[i]).edge is Some implies {
                let e = run_events(s, steps)[i].edge->0;
                e.duration_ms == ms_of(e.duration_samples as int, s.sample_rate as int)
            } by {
            if i > 0 {
                assert(evs[i] == run_events(n, rest)[i - 1]);
            }
        }
    }
}

proof fn lemma_debounce_from(s: EdgeDetector, steps: Seq<(u64, bool)>, base: u64)
    requires
        s.wf(),
        !s.tone_on,
        base <= s.last_change_sample,
        s.sample_clock + total_advance(steps) <= u64::MAX,
        ms_of(s.sample_clock + total_advance(steps) - base, s.sample_rate as int) < s.debounce_ms,
    ensures
        forall|i: int| 0 <= i < steps.len() ==> (#[trigger] run_events(s, steps)[i]).edge is None,
        !run_final(s, steps).tone_on,
    decreases steps.len(),
{
    if steps.len() > 0 {
        let t = s.advanced(steps[0].0);
        let n = t.next(steps[0].1);
        let rest = steps.drop_first();
        let evs = run_events(s, steps);
        lemma_run_events_len(n, rest);
        lemma_total_advance_nonneg(rest);
        assert(evs == seq![t.event(steps[0].1)] + run_events(n, rest));
        lemma_ms_of_monotonic(
            t.sample_clock - t.last_change_sample,
            s.sample_clock + total_advance(steps) - base,
            s.sample_rate as int,
        );
        lemma_debounce_from(n, rest, base);
        assert forall|i: int| 0 <= i < steps.len() implies (#[trigger] run_events(s, steps)[i]).edge is None by {
            if i > 0 {
                assert(evs[i] == run_events(n, rest)[i - 1]);
            }
        }
    }
}

proof fn lemma_total_advance_nonneg(steps: Seq<(u64, bool)>)
    ensures
        total_advance(steps) >= 0,
    decreases steps.len(),
{
    if steps.len() > 0 {
        lemma_total_advance_nonneg(steps.drop_first());
    }
}

/// A click is swallowed: while no tone is held, windows that all end within
/// the debounce time of the last change emit no edge, whatever their tone
/// decisions, and leave the detector without a tone.
pub proof fn lemma_short_tone_emits_no_edge(s: EdgeDetector, steps: Seq<(u64, bool)>)
    requires
        s.wf(),
        !s.tone_on,
        s.sample_clock + total_advance(steps) <= u64::MAX,
        ms_of(s.sample_clock + total_advance(steps) - s.last_change_sample, s.sample_rate as int)
            < s.debounce_ms,
    ensures
        forall|i: int| 0 <= i < steps.len() ==> (#[trigger] run_events(s, steps)[i]).edge is None,
        !run_final(s, steps).tone_on,
{
    lemma_debounce_from(s, steps, s.last_change_sample);
}

/// Once a message is finalized, silence never finalizes again: from a state
/// without tone and with nothing pending, silent windows emit no edge and no
/// finalization.
pub proof fn lemma_silence_after_finalize_is_quiet(s: EdgeDetector, steps: Seq<(u64, bool)>)
    requires
        s.wf(),
        !s.tone_on,
        !s.pending,
        all_silent(steps),
        s.sample_clock + total_advance(steps) <= u64::MAX,
    ensures
        forall|i: int|
            0 <= i < steps.len() ==> (#[trigger] run_events(s, steps)[i]).edge is None
                && !run_events(s, steps)[i].finalize,
        !run_final(s, steps).pending,
    decreases steps.len(),
{
    if steps.len() > 0 {
        let t = s.advanced(steps[0].0);
        let n = t.next(steps[0].1);
        let rest = steps.drop_first();
        let evs = run_events(s, steps);
        lemma_run_events_len(n, rest);
        lemma_total_advance_nonneg(rest);
        assert(evs == seq![t.event(steps[0].1)] + run_events(n, rest));
        assert(!steps[0].1);
        assert(all_silent(rest)) by {
            assert forall|i: int| 0 <= i < rest.len() implies !(#[trigger] rest[i]).1 by {
                assert(rest[i] == steps[i + 1]);
            }
        }
        lemma_silence_after_finalize_is_quiet(n, rest);
        assert forall|i: int| 0 <= i < steps.len() implies (#[trigger] run_events(s, steps)[i]).edge is None
            && !run_events(s, steps)[i].finalize by {
            if i > 0 {
                assert(evs[i] == run_events(n, rest)[i - 1]);
            }
        }
    }
}

/// After a message whose last edge was handed over, silence that lasts past
/// the message timeout finalizes it exactly once: some window finalizes, and
/// no later window finalizes again.
pub proof fn lemma_timeout_finalizes_once(s: EdgeDetector, steps: Seq<(u64, bool)>)
    requires
        s.wf(),
        !s.tone_on,
        s.pending,
        steps.len() > 0,
        all_silent(steps),
        s.sample_clock + total_advance(steps) <= u64::MAX,
        ms_of(s.sample_clock + total_advance(steps) - s.last_change_sample, s.sample_rate as int)
            > TIMEOUT_DOTS * s.dot_duration_ms,
    ensures
        exists|i: int| 0 <= i < steps.len() && (#[trigger] run_events(s, steps)[i]).finalize,
        forall|i: int, j: int|
            0 <= i < j < steps.len() && (#[trigger] run_events(s, steps)[i]).finalize
                ==> !(#[trigger] run_events(s, steps)[j]).finalize,
    decreases steps.len(),
{
    let t = s.advanced(steps[0].0);
    let n = t.next(steps[0].1);
    let rest = steps.drop_first();
    let evs = run_events(s, steps);
    lemma_run_events_len(n, rest);
    assert(evs == seq![t.event(steps[0].1)] + run_events(n, rest));
    assert(!steps[0].1);
    assert(all_silent(rest)) by {
        assert forall|i: int| 0 <= i < rest.len() implies !(#[trigger] rest[i]).1 by {
            assert(rest[i] == steps[i + 1]);
        }
    }
    lemma_total_advance_nonneg(rest);
    if evs[0].finalize {
        lemma_silence_after_finalize_is_quiet(n, rest);
        assert forall|i: int, j: int|
            0 <= i < j < steps.len() && (#[trigger] run_events(s, steps)[i]).finalize
                implies !(#[trigger] run_events(s, steps)[j]).finalize by {
            assert(evs[j] == run_events(n, rest)[j - 1]);
        }
    } else {
        assert(n == t);
        if rest.len() == 0 {
            assert(total_advance(rest) == 0);
            assert(false);
        }
        lemma_timeout_finalizes_once(n, rest);
        let k = choose|k: int| 0 <= k < rest.len() && (#[trigger] run_events(n, rest)[k]).finalize;
        assert(evs[k + 1] == run_events(n, rest)[k]);
        assert forall|i: int, j: int|
            0 <= i < j < steps.len() && (#[trigger] run_events(s, steps)[i]).finalize
                implies !(#[trigger] run_events(s, steps)[j]).finalize by {
            assert(evs[i] == run_events(n, rest)[i - 1]);
            assert(evs[j] == run_events(n, rest)[j - 1]);
        }
    }
}

} // verus!
