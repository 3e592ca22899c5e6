use vstd::prelude::*;

use crate::error::TaError;
use crate::window::{slide, SlidingWindow};

verus! {

/// What the relative strength index does with one tick.
#[derive(Debug, Clone, Copy, PartialEq, Eq, Structural)]
pub enum RsiStep {
    /// The very first tick: only the input is remembered; the output is missing.
    First,
    /// Fewer than `period` changes are held; the output is missing.
    Warming,
    /// The averages are seeded with the plain means of the held changes.
    Seed,
    /// The averages are advanced by Wilder smoothing with the newest change.
    Smooth,
}

impl RsiStep {
    /// Whether the tick yields an index value rather than a missing one.
    pub open spec fn yields_value(self) -> bool {
        self is Seed || self is Smooth
    }
}

/// The relative strength index's bookkeeping, as plain values.
pub ghost struct RsiModel<T> {
    pub started: bool,
    pub changes: Seq<T>,
}

/// The state of a relative strength index of the given period right after
/// construction or reset.
pub open spec fn rsi_fresh<T>() -> RsiModel<T> {
    RsiModel { started: false, changes: Seq::empty() }
}

/// The states that an index of the given period can be in.
pub open spec fn rsi_valid<T>(period: nat, s: RsiModel<T>) -> bool {
    &&& period >= 1
    &&& s.changes.len() <= period
    &&& !s.started ==> s.changes.len() == 0
}

/// One tick of the relative strength index: the next state and what the tick does.
/// `averages_zero` tells whether both running averages are exactly zero.
pub open spec fn rsi_tick<T>(s: RsiModel<T>, period: nat, change: T, averages_zero: bool) -> (
    RsiModel<T>,
    RsiStep,
) {
    if !s.started {
        (RsiModel { started: true, changes: s.changes }, RsiStep::First)
    } else {
        let changes = slide(s.changes, period, change);
        let step = if changes.len() < period {
            RsiStep::Warming
        } else if averages_zero {
            RsiStep::Seed
        } else {
            RsiStep::Smooth
        };
        (RsiModel { started: true, changes }, step)
    }
}

/// The state after ticks whose (change, averages-zero) inputs are `ticks`, from
/// a fresh index.
pub open spec fn rsi_run<T>(period: nat, ticks: Seq<(T, bool)>) -> RsiModel<T>
    decreases ticks.len(),
{
    if ticks.len() == 0 {
        rsi_fresh()
    } else {
        let (change, zero) = ticks.last();
        rsi_tick(rsi_run(period, ticks.drop_last()), period, change, zero).0
    }
}

/// What the last of `ticks` does, from a fresh index.
pub open spec fn rsi_step_of<T>(period: nat, ticks: Seq<(T, bool)>) -> RsiStep
    recommends
        ticks.len() >= 1,
{
    let (change, zero) = ticks.last();
    rsi_tick(rsi_run(period, ticks.drop_last()), period, change, zero).1
}

proof fn lemma_rsi_run_shape<T>(period: nat, ticks: Seq<(T, bool)>)
    requires
        period >= 1,
    ensures
        rsi_run(period, ticks).started == (ticks.len() >= 1),
        ticks.len() >= 1 ==> rsi_run(period, ticks).changes.len() == if ticks.len() - 1 < period {
            (ticks.len() - 1) as nat
        } else {
            period
        },
        ticks.len() == 0 ==> rsi_run(period, ticks).changes.len() == 0,
    decreases ticks.len(),
{
    if ticks.len() > 0 {
        lemma_rsi_run_shape(period, ticks.drop_last());
    }
}

/// A fresh relative strength index: its first tick only remembers the input,
/// ticks 2 to `period` warm up, and every later tick yields a value.
pub proof fn lemma_rsi_step_schedule<T>(period: nat, ticks: Seq<(T, bool)>)
    requires
        period >= 1,
        ticks.len() >= 1,
    ensures
        ticks.len() == 1 ==> rsi_step_of(period, ticks) == RsiStep::First,
        2 <= ticks.len() <= period ==> rsi_step_of(period, ticks) == RsiStep::Warming,
        ticks.len() > period ==> rsi_step_of(period, ticks).yields_value(),
{
    lemma_rsi_run_shape(period, ticks.drop_last());
}

/// The bookkeeping of a relative strength index: whether a first input was
/// seen, and the most recent `period` gain/loss changes.
#[derive(Debug, Clone, PartialEq)]
pub struct RsiCore<T> {
    started: bool,
    changes: SlidingWindow<T>,
}

impl<T> View for RsiCore<T> {
    type V = RsiModel<T>;

    closed spec fn view(&self) -> RsiModel<T> {
        RsiModel { started: self.started, changes: self.changes@ }
    }
}

impl<T: Copy> RsiCore<T> {
    pub closed spec fn capacity(&self) -> nat {
        self.changes.capacity()
    }

    pub closed spec fn wf(&self) -> bool {
        &&& self.changes.wf()
        &&& !self.started ==> self.changes@.len() == 0
    }

    /// A fresh core; a zero period is refused.
    pub fn new(period: usize) -> (r: Result<Self, TaError>)
        ensures
            period == 0 <==> r is Err,
            r is Err ==> r == Err::<Self, TaError>(TaError::InvalidParameter),
            r matches Ok(c) ==> c.wf() && c.capacity() == period && c@ == rsi_fresh::<T>(),
    {
        match SlidingWindow::new(period) {
            Ok(changes) => Ok(RsiCore { started: false, changes }),
            Err(e) => Err(e),
        }
    }

    pub fn period(&self) -> (r: usize)
        ensures
            r == self.capacity(),
    {
        self.changes.period()
    }

    /// Whether an input was seen since construction or the last reset.
    pub fn is_started(&self) -> (r: bool)
        ensures
            r == self@.started,
    {
        self.started
    }

    /// The held changes, oldest first.
    pub fn changes(&self) -> (r: &SlidingWindow<T>)
        ensures
            r@ == self@.changes,
            r.capacity() == self.capacity(),
            self.wf() ==> r.wf(),
    {
        &self.changes
    }

    /// Takes in one tick. `change` is the (gain, loss) pair of the tick, ignored
    /// on the first tick; `averages_zero` tells whether both running averages
    /// are exactly zero.
    pub fn advance(&mut self, change: T, averages_zero: bool) -> (r: RsiStep)
        requires
            old(self).wf(),
        ensures
            final(self).wf(),
            final(self).capacity() == old(self).capacity(),
            (final(self)@, r) == rsi_tick(old(self)@, old(self).capacity(), change, averages_zero),
    {
        if !self.started {
            self.started = true;
            return RsiStep::First;
        }
        self.changes.push(change);
        if self.changes.len() < self.changes.period() {
            RsiStep::Warming
        } else if averages_zero {
            RsiStep::Seed
        } else {
            RsiStep::Smooth
        }
    }

    /// The core of a period-`period` index in the state that `started` and
    /// `changes` (oldest first) report. A state that no index can be in is
    /// refused.
    pub fn restore(period: usize, started: bool, changes: Vec<T>) -> (r: Result<Self, TaError>)
        ensures
            r is Ok <==> rsi_valid(period as nat, RsiModel { started, changes: changes@ }),
            r is Err ==> r == Err::<Self, TaError>(TaError::InvalidParameter),
            r matches Ok(c) ==> c.wf() && c.capacity() == period && c@ == (RsiModel {
                started,
                changes: changes@,
            }),
    {
        if !started && changes.len() > 0 {
            return Err(TaError::InvalidParameter);
        }
        match SlidingWindow::from_items(period, changes) {
            Ok(changes) => Ok(RsiCore { started, changes }),
            Err(e) => Err(e),
        }
    }

    /// Every state of an index is accepted back by `restore`, which rebuilds
    /// it exactly: a saved and restored index behaves as the one saved.
    pub proof fn lemma_round_trip(&self)
        requires
            self.wf(),
        ensures
            rsi_valid(self.capacity(), self@),
    {
        self.changes.lemma_bounds();
    }

    /// Returns to the state right after construction, keeping the period.
    pub fn reset(&mut self)
        requires
            old(self).wf(),
        ensures
            final(self).wf(),
            final(self).capacity() == old(self).capacity(),
            final(self)@ == rsi_fresh::<T>(),
    {
        self.started = false;
        self.changes.clear();
    }
}

} // verus!
