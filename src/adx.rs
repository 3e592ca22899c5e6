use vstd::prelude::*;

use crate::error::TaError;

verus! {

/// How many ticks past its seeding the average directional index counts as
/// unstable; the count is kept but never withholds a value.
pub const UNSTABLE_PERIOD: usize = 15;

/// The phase of an average directional index.
#[derive(Debug, Clone, Copy, PartialEq, Eq, Structural)]
pub enum AdxPhase {
    /// No bar seen yet: the next bar is only remembered.
    Uninitialized,
    /// Raw movements and ranges are being summed; holds how many were summed.
    Accumulating(usize),
    /// The sums are smoothed and directional indices are collected until
    /// `period` of them are held.
    Smoothing,
    /// The index itself is smoothed; holds the unstable-period count.
    Steady(usize),
}

/// What the average directional index does with one bar.
#[derive(Debug, Clone, Copy, PartialEq, Eq, Structural)]
pub enum AdxStep {
    /// Remember the bar; output zero.
    Record,
    /// Add the raw movements and range to the sums; output zero.
    Accumulate,
    /// Add the raw values once more, derive the first directional index, then
    /// start smoothing the sums.
    FirstSmooth,
    /// Smooth the sums and derive a directional index for the history.
    Smooth,
    /// Smooth the sums and the index itself.
    Steady,
}

/// What one bar outputs.
#[derive(Debug, Clone, Copy, PartialEq, Eq, Structural)]
pub enum AdxOutput {
    Zero,
    Missing,
    Value,
}

/// The average directional index's bookkeeping, as plain values.
pub ghost struct AdxModel<T> {
    pub phase: AdxPhase,
    pub history: Seq<T>,
}

pub open spec fn adx_fresh<T>() -> AdxModel<T> {
    AdxModel { phase: AdxPhase::Uninitialized, history: Seq::empty() }
}

/// The states that an index of the given period can reach.
pub open spec fn adx_valid<T>(period: nat, s: AdxModel<T>) -> bool {
    &&& period >= 2
    &&& match s.phase {
        AdxPhase::Uninitialized => s.history.len() == 0,
        AdxPhase::Accumulating(k) => s.history.len() == 0 && k + 1 < period,
        AdxPhase::Smoothing => s.history.len() < period,
        AdxPhase::Steady(u) => s.history.len() == period && u <= UNSTABLE_PERIOD,
    }
}

/// The step that a bar takes in state `s`, and the phase after it, before any
/// directional index is recorded.
pub open spec fn adx_step<T>(period: nat, s: AdxModel<T>) -> (AdxPhase, AdxStep) {
    match s.phase {
        AdxPhase::Uninitialized => (AdxPhase::Accumulating(0), AdxStep::Record),
        AdxPhase::Accumulating(k) => (
            if k + 2 == period {
                AdxPhase::Smoothing
            } else {
                AdxPhase::Accumulating((k + 1) as usize)
            },
            AdxStep::Accumulate,
        ),
        AdxPhase::Smoothing => (
            AdxPhase::Smoothing,
            if s.history.len() == 0 {
                AdxStep::FirstSmooth
            } else {
                AdxStep::Smooth
            },
        ),
        AdxPhase::Steady(u) => (
            AdxPhase::Steady(
                if u < UNSTABLE_PERIOD {
                    (u + 1) as usize
                } else {
                    u
                },
            ),
            AdxStep::Steady,
        ),
    }
}

/// Recording directional index `dx` while smoothing: the history grows, and
/// once it holds `period` values the index is seeded and becomes steady.
pub open spec fn adx_record<T>(period: nat, s: AdxModel<T>, dx: T) -> AdxModel<T> {
    if s.phase is Smoothing {
        let history = s.history.push(dx);
        AdxModel {
            phase: if history.len() == period {
                AdxPhase::Steady(0)
            } else {
                AdxPhase::Smoothing
            },
            history,
        }
    } else {
        s
    }
}

/// The whole of one bar: the step, then the directional index `dx` recorded
/// where the step derives one for the history.
pub open spec fn adx_tick<T>(period: nat, s: AdxModel<T>, dx: T) -> (AdxModel<T>, AdxOutput) {
    let (phase, step) = adx_step(period, s);
    let moved = AdxModel { phase, history: s.history };
    let after = if step is FirstSmooth || step is Smooth {
        adx_record(period, moved, dx)
    } else {
        moved
    };
    let out = if step is Record || step is Accumulate {
        AdxOutput::Zero
    } else if after.history.len() < period {
        AdxOutput::Missing
    } else {
        AdxOutput::Value
    };
    (after, out)
}

/// The state after bars whose directional indices are `dxs`, from a fresh index.
pub open spec fn adx_run<T>(period: nat, dxs: Seq<T>) -> AdxModel<T>
    decreases dxs.len(),
{
    if dxs.len() == 0 {
        adx_fresh()
    } else {
        adx_tick(period, adx_run(period, dxs.drop_last()), dxs.last()).0
    }
}

/// What the last of the bars whose directional indices are `dxs` outputs,
/// from a fresh index.
pub open spec fn adx_output_of<T>(period: nat, dxs: Seq<T>) -> AdxOutput
    recommends
        dxs.len() >= 1,
{
    adx_tick(period, adx_run(period, dxs.drop_last()), dxs.last()).1
}

proof fn lemma_adx_run_shape<T>(period: usize, dxs: Seq<T>)
    requires
        period >= 2,
    ensures
        adx_valid(period as nat, adx_run(period as nat, dxs)),
        dxs.len() == 0 ==> adx_run(period as nat, dxs).phase == AdxPhase::Uninitialized,
        1 <= dxs.len() < period ==> adx_run(period as nat, dxs).phase == AdxPhase::Accumulating(
            (dxs.len() - 1) as usize,
        ),
        period <= dxs.len() < 2 * period ==> adx_run(period as nat, dxs).phase
            == AdxPhase::Smoothing && adx_run(period as nat, dxs).history.len() == dxs.len()
            - period,
        dxs.len() >= 2 * period ==> adx_run(period as nat, dxs).phase is Steady,
    decreases dxs.len(),
{
    if dxs.len() > 0 {
        lemma_adx_run_shape(period, dxs.drop_last());
    }
}

/// A fresh average directional index outputs zero for its first `period`
/// bars, is missing until its history of directional indices is full, and
/// from bar `2 * period` on outputs a value at every bar.
pub proof fn lemma_adx_output_schedule<T>(period: usize, dxs: Seq<T>)
    requires
        period >= 2,
        dxs.len() >= 1,
    ensures
        adx_output_of(period as nat, dxs) == (if dxs.len() <= period {
            AdxOutput::Zero
        } else if dxs.len() < 2 * period {
            AdxOutput::Missing
        } else {
            AdxOutput::Value
        }),
{
    lemma_adx_run_shape(period, dxs.drop_last());
}

/// The bookkeeping of an average directional index: its phase and the
/// directional indices that seed it.
#[derive(Debug, Clone, PartialEq)]
pub struct AdxCore<T> {
    period: usize,
    phase: AdxPhase,
    history: Vec<T>,
}

impl<T> View for AdxCore<T> {
    type V = AdxModel<T>;

    closed spec fn view(&self) -> AdxModel<T> {
        AdxModel { phase: self.phase, history: self.history@ }
    }
}

impl<T: Copy> AdxCore<T> {
    pub closed spec fn capacity(&self) -> nat {
        self.period as nat
    }

    pub closed spec fn wf(&self) -> bool {
        adx_valid(self.period as nat, self@)
    }

    /// A fresh core; periods 0 and 1 are refused.
    pub fn new(period: usize) -> (r: Result<Self, TaError>)
        ensures
            period < 2 <==> r is Err,
            r is Err ==> r == Err::<Self, TaError>(TaError::InvalidParameter),
            r matches Ok(c) ==> c.wf() && c.capacity() == period && c@ == adx_fresh::<T>(),
    {
        if period < 2 {
            return Err(TaError::InvalidParameter);
        }
        let c = AdxCore { period, phase: AdxPhase::Uninitialized, history: Vec::new() };
        assert(c@.history =~= Seq::<T>::empty());
        Ok(c)
    }

    pub fn period(&self) -> (r: usize)
        ensures
            r == self.capacity(),
    {
        self.period
    }

    pub fn phase(&self) -> (r: AdxPhase)
        ensures
            r == self@.phase,
    {
        self.phase
    }

    /// The recorded directional indices, oldest first.
    pub fn history(&self) -> (r: &Vec<T>)
        ensures
            r@ == self@.history,
    {
        &self.history
    }

    /// Starts one bar: moves the phase on and says what the bar does.
    pub fn step(&mut self) -> (r: AdxStep)
        requires
            old(self).wf(),
        ensures
            final(self).wf(),
            final(self).capacity() == old(self).capacity(),
            (final(self)@.phase, r) == adx_step(old(self).capacity(), old(self)@),
            final(self)@.history == old(self)@.history,
    {
        match self.phase {
            AdxPhase::Uninitialized => {
                self.phase = AdxPhase::Accumulating(0);
                AdxStep::Record
            },
            AdxPhase::Accumulating(k) => {
                self.phase = if k + 2 == self.period {
                    AdxPhase::Smoothing
                } else {
                    AdxPhase::Accumulating(k + 1)
                };
                AdxStep::Accumulate
            },
            AdxPhase::Smoothing => {
                if self.history.len() == 0 {
                    AdxStep::FirstSmooth
                } else {
                    AdxStep::Smooth
                }
            },
            AdxPhase::Steady(u) => {
                if u < UNSTABLE_PERIOD {
                    self.phase = AdxPhase::Steady(u + 1);
                }
                AdxStep::Steady
            },
        }
    }

    /// Records directional index `dx` while smoothing; elsewhere does nothing.
    /// Returns whether the history has just become full, the bar at which the
    /// index is seeded with the mean of the history.
    pub fn record(&mut self, dx: T) -> (seeded: bool)
        requires
            old(self).wf(),
        ensures
            final(self).wf(),
            final(self).capacity() == old(self).capacity(),
            final(self)@ == adx_record(old(self).capacity(), old(self)@, dx),
            seeded == (old(self)@.phase is Smoothing && final(self)@.history.len()
                == old(self).capacity()),
    {
        if let AdxPhase::Smoothing = self.phase {
            self.history.push(dx);
            if self.history.len() == self.period {
                self.phase = AdxPhase::Steady(0);
                return true;
            }
        }
        false
    }

    /// What a bar whose step was `step` outputs, once its index is recorded.
    pub fn output(&self, step: AdxStep) -> (r: AdxOutput)
        requires
            self.wf(),
        ensures
            r == (if step is Record || step is Accumulate {
                AdxOutput::Zero
            } else if self@.history.len() < self.capacity() {
                AdxOutput::Missing
            } else {
                AdxOutput::Value
            }),
    {
        match step {
            AdxStep::Record | AdxStep::Accumulate => AdxOutput::Zero,
            _ => if self.history.len() < self.period {
                AdxOutput::Missing
            } else {
                AdxOutput::Value
            },
        }
    }

    /// The core of a period-`period` index in the state that `phase` and
    /// `history` (oldest first) report. A state that no index can be in is
    /// refused.
    pub fn restore(period: usize, phase: AdxPhase, history: Vec<T>) -> (r: Result<Self, TaError>)
        ensures
            r is Ok <==> adx_valid(period as nat, AdxModel { phase, history: history@ }),
            r is Err ==> r == Err::<Self, TaError>(TaError::InvalidParameter),
            r matches Ok(c) ==> c.wf() && c.capacity() == period && c@ == (AdxModel {
                phase,
                history: history@,
            }),
    {
        let len = history.len();
        let valid = period >= 2 && match phase {
            AdxPhase::Uninitialized => len == 0,
            AdxPhase::Accumulating(k) => len == 0 && k < period - 1,
            AdxPhase::Smoothing => len < period,
            AdxPhase::Steady(u) => len == period && u <= UNSTABLE_PERIOD,
        };
        if !valid {
            return Err(TaError::InvalidParameter);
        }
        Ok(AdxCore { period, phase, history })
    }

    /// Every state of an index is accepted back by `restore`, which rebuilds
    /// it exactly: a saved and restored index behaves as the one saved.
    pub proof fn lemma_round_trip(&self)
        requires
            self.wf(),
        ensures
            adx_valid(self.capacity(), self@),
    {
    }

    /// Returns to the state right after construction, keeping the period.
    pub fn reset(&mut self)
        requires
            old(self).wf(),
        ensures
            final(self).wf(),
            final(self).capacity() == old(self).capacity(),
            final(self)@ == adx_fresh::<T>(),
    {
        self.phase = AdxPhase::Uninitialized;
        self.history.clear();
        assert(self@.history =~= Seq::<T>::empty());
    }
}

} // verus!
