use vstd::prelude::*;

use crate::error::TaError;
use crate::window::{slide, SlidingWindow};

verus! {

/// How the running sums of a correlation change with one new point.
#[derive(Debug, Clone, Copy, PartialEq)]
pub struct PairUpdate<T> {
    /// The point that left the window, whose contributions the sums lose;
    /// `None` while the window is still filling.
    pub evicted: Option<T>,
    /// Whether the window now holds at least two points, so that a
    /// coefficient is computed; with fewer the output is zero.
    pub defined: bool,
}

/// The states that a window of the given capacity can be in.
pub open spec fn correlation_valid<T>(capacity: nat, points: Seq<T>) -> bool {
    capacity >= 1 && points.len() <= capacity
}

/// One point arriving in a correlation window of the given capacity: the
/// points held after it, and the update it calls for.
pub open spec fn correlation_tick<T>(points: Seq<T>, capacity: nat, p: T) -> (Seq<T>, PairUpdate<T>) {
    let after = slide(points, capacity, p);
    let evicted = if points.len() < capacity {
        None
    } else {
        Some(points[0])
    };
    (after, PairUpdate { evicted, defined: after.len() >= 2 })
}

/// The points held after `points` arrived in a fresh window of the given capacity.
pub open spec fn correlation_run<T>(capacity: nat, points: Seq<T>) -> Seq<T>
    decreases points.len(),
{
    if points.len() == 0 {
        Seq::empty()
    } else {
        correlation_tick(correlation_run(capacity, points.drop_last()), capacity, points.last()).0
    }
}

/// The update that the last of `points` calls for, from a fresh window.
pub open spec fn correlation_update_of<T>(capacity: nat, points: Seq<T>) -> PairUpdate<T>
    recommends
        points.len() >= 1,
{
    correlation_tick(correlation_run(capacity, points.drop_last()), capacity, points.last()).1
}

/// A window holds exactly the most recent `capacity` points that arrived, or
/// all of them while fewer arrived.
pub proof fn lemma_correlation_window<T>(capacity: nat, points: Seq<T>)
    requires
        capacity >= 1,
    ensures
        correlation_run(capacity, points) == points.subrange(
            if points.len() < capacity {
                0
            } else {
                points.len() - capacity
            },
            points.len() as int,
        ),
    decreases points.len(),
{
    if points.len() > 0 {
        let rest = points.drop_last();
        lemma_correlation_window(capacity, rest);
        let n = points.len() as int;
        if rest.len() < capacity {
            assert(rest.subrange(0, n - 1).push(points.last()) =~= points.subrange(
                if n < capacity {
                    0
                } else {
                    n - capacity
                },
                n,
            ));
        } else {
            assert(rest.subrange(n - 1 - capacity, n - 1).drop_first().push(points.last())
                =~= points.subrange(n - capacity, n));
        }
    } else {
        assert(points.subrange(0, 0) =~= Seq::<T>::empty());
    }
}

/// A fresh correlation computes a coefficient exactly when at least two
/// points are held: never at its first point, whatever the period.
pub proof fn lemma_correlation_defined<T>(capacity: nat, points: Seq<T>)
    requires
        capacity >= 1,
        points.len() >= 1,
    ensures
        correlation_update_of(capacity, points).defined == (points.len() >= 2 && capacity >= 2),
        points.len() == 1 ==> !correlation_update_of(capacity, points).defined,
        correlation_update_of(capacity, points).evicted is Some == (points.len() > capacity),
{
    lemma_correlation_window(capacity, points.drop_last());
}

/// The window of a rolling correlation: the most recent `period` points.
#[derive(Debug, Clone, PartialEq)]
pub struct CorrelationCore<T> {
    points: SlidingWindow<T>,
}

impl<T> View for CorrelationCore<T> {
    type V = Seq<T>;

    closed spec fn view(&self) -> Seq<T> {
        self.points@
    }
}

impl<T: Copy> CorrelationCore<T> {
    pub closed spec fn capacity(&self) -> nat {
        self.points.capacity()
    }

    pub closed spec fn wf(&self) -> bool {
        self.points.wf()
    }

    /// An empty window; a zero period is refused.
    pub fn new(period: usize) -> (r: Result<Self, TaError>)
        ensures
            period == 0 <==> r is Err,
            r is Err ==> r == Err::<Self, TaError>(TaError::InvalidParameter),
            r matches Ok(c) ==> c.wf() && c.capacity() == period && c@ == Seq::<T>::empty(),
    {
        match SlidingWindow::new(period) {
            Ok(points) => Ok(CorrelationCore { points }),
            Err(e) => Err(e),
        }
    }

    pub fn period(&self) -> (r: usize)
        ensures
            r == self.capacity(),
    {
        self.points.period()
    }

    /// The points held, oldest first.
    pub fn points(&self) -> (r: &SlidingWindow<T>)
        ensures
            r@ == self@,
            r.capacity() == self.capacity(),
            self.wf() ==> r.wf(),
    {
        &self.points
    }

    /// Takes in point `p`.
    pub fn advance(&mut self, p: T) -> (r: PairUpdate<T>)
        requires
            old(self).wf(),
        ensures
            final(self).wf(),
            final(self).capacity() == old(self).capacity(),
            (final(self)@, r) == correlation_tick(old(self)@, old(self).capacity(), p),
    {
        let evicted = self.points.push(p);
        let defined = self.points.len() >= 2;
        PairUpdate { evicted, defined }
    }

    /// A window of `period` holding `points`, oldest first: the state that
    /// `points` reports. A zero period, or more points than it
    /// keeps, is refused.
    pub fn restore(period: usize, points: Vec<T>) -> (r: Result<Self, TaError>)
        ensures
            r is Ok <==> correlation_valid(period as nat, points@),
            r is Err ==> r == Err::<Self, TaError>(TaError::InvalidParameter),
            r matches Ok(c) ==> c.wf() && c.capacity() == period && c@ == points@,
    {
        match SlidingWindow::from_items(period, points) {
            Ok(points) => Ok(CorrelationCore { points }),
            Err(e) => Err(e),
        }
    }

    /// Every state of a window is accepted back by `restore`, which rebuilds
    /// it exactly: a saved and restored window behaves as the one saved.
    pub proof fn lemma_round_trip(&self)
        requires
            self.wf(),
        ensures
            correlation_valid(self.capacity(), self@),
    {
        self.points.lemma_bounds();
    }

    /// Empties the window, keeping its period.
    pub fn reset(&mut self)
        requires
            old(self).wf(),
        ensures
            final(self).wf(),
            final(self).capacity() == old(self).capacity(),
            final(self)@ == Seq::<T>::empty(),
    {
        self.points.clear();
    }
}

} // verus!
