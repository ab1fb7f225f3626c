//! Tween state machine.
//!
//! A [`Tween`] tracks the progress of a single interpolation from `from` to
//! `to` over a fixed `duration`, applying an [`Easing`] curve to the linear
//! time progress. The driver ticks the tween each frame; readers ask for
//! its [`Progress`] to obtain the value at this point in time.
use vstd::prelude::*;

use crate::easing::Easing;
use crate::time::{max_nanos, min_nat, Duration};

verus! {

/// Elapsed time after ticking `elapsed` nanoseconds by `delta`: the sum,
/// saturating at the longest representable span.
pub open spec fn ticked(elapsed: nat, delta: nat) -> nat {
    min_nat(elapsed + delta, max_nanos())
}

/// Where a tween stands in time.
#[derive(Debug, Clone, Copy, PartialEq, Eq, Structural)]
pub enum Progress {
    /// The tween has no duration: its value is its target.
    Immediate,
    /// The linear time progress is `elapsed / duration`, with
    /// `0 < duration` and `elapsed <= duration`.
    Linear { elapsed: Duration, duration: Duration },
}

/// A single tween from one value to another.
///
/// The tween is advanced by [`Tween::tick`]. It is done when
/// `elapsed >= duration`.
#[derive(Debug, Clone)]
pub struct Tween<T, V> {
    from: T,
    to: T,
    elapsed: Duration,
    duration: Duration,
    easing: Easing<V>,
}

impl<T, V> Tween<T, V> {
    /// The start value.
    pub closed spec fn spec_from(self) -> T {
        self.from
    }

    /// The target value.
    pub closed spec fn spec_to(self) -> T {
        self.to
    }

    /// The time ticked so far.
    pub closed spec fn spec_elapsed(self) -> Duration {
        self.elapsed
    }

    /// The length of the tween.
    pub closed spec fn spec_duration(self) -> Duration {
        self.duration
    }

    /// The easing curve applied to the linear time progress.
    pub closed spec fn spec_easing(self) -> Easing<V> {
        self.easing
    }

    /// Whether the tween has reached its target.
    pub open spec fn spec_is_done(self) -> bool {
        self.spec_elapsed()@ >= self.spec_duration()@
    }

    /// A tween from `from` to `to` over `duration`, with no time elapsed.
    pub fn new(from: T, to: T, duration: Duration, easing: Easing<V>) -> (tw: Self)
        ensures
            tw.spec_from() == from,
            tw.spec_to() == to,
            tw.spec_elapsed()@ == 0,
            tw.spec_duration() == duration,
            tw.spec_easing() == easing,
    {
        Tween { from, to, elapsed: Duration::zero(), duration, easing }
    }

    /// Advance the tween by `delta`. Saturates at the longest representable
    /// span instead of overflowing.
    pub fn tick(&mut self, delta: Duration)
        ensures
            final(self).spec_elapsed()@ == ticked(old(self).spec_elapsed()@, delta@),
            final(self).spec_from() == old(self).spec_from(),
            final(self).spec_to() == old(self).spec_to(),
            final(self).spec_duration() == old(self).spec_duration(),
            final(self).spec_easing() == old(self).spec_easing(),
    {
        self.elapsed = self.elapsed.saturating_add(delta);
    }

    /// Whether the tween has reached its target.
    pub fn is_done(&self) -> (b: bool)
        ensures
            b == self.spec_is_done(),
    {
        self.elapsed.ge(&self.duration)
    }

    /// The linear time progress: immediate for a tween without duration,
    /// else the elapsed time, clamped to the duration, over the duration.
    pub fn progress(&self) -> (p: Progress)
        ensures
            p is Immediate <==> self.spec_duration()@ == 0,
            p matches Progress::Linear { elapsed, duration } ==> {
                &&& duration == self.spec_duration()
                &&& duration@ > 0
                &&& elapsed@ == min_nat(self.spec_elapsed()@, self.spec_duration()@)
            },
    {
        if self.duration.is_zero() {
            Progress::Immediate
        } else if self.elapsed.ge(&self.duration) {
            Progress::Linear { elapsed: self.duration, duration: self.duration }
        } else {
            Progress::Linear { elapsed: self.elapsed, duration: self.duration }
        }
    }

    /// The start and target values.
    pub fn endpoints(&self) -> (r: (&T, &T))
        ensures
            *r.0 == self.spec_from(),
            *r.1 == self.spec_to(),
    {
        (&self.from, &self.to)
    }
}

impl<T, V: Copy> Tween<T, V> {
    /// The easing curve applied to the linear time progress.
    pub fn easing(&self) -> (e: Easing<V>)
        ensures
            e == self.spec_easing(),
    {
        self.easing
    }
}

/// Ticking by `a` and then by `b` leaves the same elapsed time as one tick
/// by `a.saturating_add(b)`: ticks accumulate.
pub proof fn lemma_ticks_accumulate(elapsed: nat, a: nat, b: nat)
    ensures
        ticked(ticked(elapsed, a), b) == ticked(elapsed, min_nat(a + b, max_nanos())),
{
}

/// Ticking never moves a tween back in time, so a tween that is done stays
/// done.
pub proof fn lemma_done_stays_done<T, V>(tw: Tween<T, V>, delta: nat)
    ensures
        ticked(tw.spec_elapsed()@, delta) >= tw.spec_elapsed()@,
        tw.spec_is_done() ==> ticked(tw.spec_elapsed()@, delta) >= tw.spec_duration()@,
{
    tw.spec_elapsed().lemma_bounded();
    tw.spec_duration().lemma_bounded();
}

/// The plain sum of the lengths of `deltas`, in nanoseconds.
pub open spec fn total_nanos(deltas: Seq<Duration>) -> nat
    decreases deltas.len(),
{
    if deltas.len() == 0 {
        0
    } else {
        total_nanos(deltas.drop_last()) + deltas.last()@
    }
}

/// Elapsed time after ticking, from `elapsed`, by each of `deltas` in turn.
pub open spec fn elapsed_after(elapsed: nat, deltas: Seq<Duration>) -> nat
    decreases deltas.len(),
{
    if deltas.len() == 0 {
        elapsed
    } else {
        ticked(elapsed_after(elapsed, deltas.drop_last()), deltas.last()@)
    }
}

/// Ticking a new tween by a sequence of spans leaves the saturated sum of
/// those spans as its elapsed time, so it is done exactly when that sum is
/// at least its duration; and it stays done after any further ticks.
pub proof fn lemma_done_after_ticks(deltas: Seq<Duration>, more: Seq<Duration>, duration: nat)
    ensures
        elapsed_after(0, deltas) == min_nat(total_nanos(deltas), max_nanos()),
        (elapsed_after(0, deltas) >= duration) == (min_nat(total_nanos(deltas), max_nanos())
            >= duration),
        elapsed_after(0, deltas) >= duration ==> elapsed_after(0, deltas + more) >= duration,
    decreases deltas.len() + more.len(),
{
    if deltas.len() > 0 {
        lemma_done_after_ticks(deltas.drop_last(), Seq::empty(), duration);
    }
    if more.len() > 0 {
        lemma_done_after_ticks(deltas, more.drop_last(), duration);
        assert((deltas + more).drop_last() =~= deltas + more.drop_last());
        lemma_elapsed_after_grows(deltas + more.drop_last());
    } else {
        assert(deltas + more =~= deltas);
    }
}

/// Ticking a tween by more spans never lowers its elapsed time.
proof fn lemma_elapsed_after_grows(deltas: Seq<Duration>)
    ensures
        deltas.len() > 0 ==> elapsed_after(0, deltas) >= elapsed_after(0, deltas.drop_last()),
{
    if deltas.len() > 0 {
        lemma_elapsed_after_bounded(deltas.drop_last());
    }
}

/// Elapsed time never exceeds the longest representable span.
proof fn lemma_elapsed_after_bounded(deltas: Seq<Duration>)
    ensures
        elapsed_after(0, deltas) <= max_nanos(),
    decreases deltas.len(),
{
    if deltas.len() > 0 {
        lemma_elapsed_after_bounded(deltas.drop_last());
    }
}

/// A tween made by [`Tween::new`] (no time elapsed) and then ticked by each
/// of `deltas` in turn is done exactly when the saturated sum of `deltas`
/// is at least its duration.
pub proof fn lemma_tween_done_after_ticks<T, V>(deltas: Seq<Duration>, now: Tween<T, V>)
    requires
        now.spec_elapsed()@ == elapsed_after(0, deltas),
    ensures
        now.spec_is_done() == (min_nat(total_nanos(deltas), max_nanos()) >= now.spec_duration()@),
{
    lemma_done_after_ticks(deltas, Seq::empty(), now.spec_duration()@);
}

} // verus!
