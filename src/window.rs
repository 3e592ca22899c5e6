use vstd::prelude::*;

use crate::error::TaError;

verus! {

/// What a window of the given capacity holds after `x` arrives: the newest
/// `capacity` items, oldest first.
pub open spec fn slide<T>(items: Seq<T>, capacity: nat, x: T) -> Seq<T> {
    if items.len() < capacity {
        items.push(x)
    } else {
        items.drop_first().push(x)
    }
}

/// A fixed-capacity window over the most recent items of a stream.
///
/// The slots form a circular buffer: until the window is full an arrival is
/// appended, afterwards it overwrites the oldest item.
#[derive(Debug, Clone, PartialEq)]
pub struct SlidingWindow<T> {
    period: usize,
    next: usize,
    slots: Vec<T>,
}

impl<T> View for SlidingWindow<T> {
    type V = Seq<T>;

    /// The held items, oldest first.
    closed spec fn view(&self) -> Seq<T> {
        if self.slots.len() < self.period {
            self.slots@
        } else {
            self.slots@.subrange(self.next as int, self.period as int) + self.slots@.subrange(
                0,
                self.next as int,
            )
        }
    }
}

impl<T: Copy> SlidingWindow<T> {
    /// The number of items the window keeps.
    pub closed spec fn capacity(&self) -> nat {
        self.period as nat
    }

    pub closed spec fn wf(&self) -> bool {
        &&& self.period >= 1
        &&& self.slots.len() <= self.period
        &&& self.next < self.period
        &&& self.slots.len() < self.period ==> self.next == self.slots.len()
    }

    /// A window holds at most its capacity, which is at least one.
    pub proof fn lemma_bounds(&self)
        requires
            self.wf(),
        ensures
            self@.len() <= self.capacity(),
            self.capacity() >= 1,
    {
    }

    proof fn lemma_len(&self)
        requires
            self.wf(),
        ensures
            self@.len() == self.slots.len(),
            self@.len() <= self.capacity(),
            self.capacity() >= 1,
    {
    }

    /// An empty window of `period` items; a zero period is refused.
    pub fn new(period: usize) -> (r: Result<Self, TaError>)
        ensures
            period == 0 <==> r is Err,
            r is Err ==> r == Err::<Self, TaError>(TaError::InvalidParameter),
            r matches Ok(w) ==> w.wf() && w.capacity() == period && w@ == Seq::<T>::empty(),
    {
        if period == 0 {
            return Err(TaError::InvalidParameter);
        }
        let w = SlidingWindow { period, next: 0, slots: Vec::new() };
        assert(w@ =~= Seq::<T>::empty());
        Ok(w)
    }

    pub fn period(&self) -> (r: usize)
        ensures
            r == self.capacity(),
    {
        self.period
    }

    /// The number of items held, at most the period.
    pub fn len(&self) -> (r: usize)
        requires
            self.wf(),
        ensures
            r == self@.len(),
            r <= self.capacity(),
    {
        proof {
            self.lemma_len();
        }
        self.slots.len()
    }

    /// Whether the window holds `period` items.
    pub fn is_full(&self) -> (r: bool)
        requires
            self.wf(),
        ensures
            r == (self@.len() == self.capacity()),
    {
        proof {
            self.lemma_len();
        }
        self.slots.len() == self.period
    }

    /// The `i`-th held item, counting from the oldest.
    pub fn get(&self, i: usize) -> (r: T)
        requires
            self.wf(),
            i < self@.len(),
        ensures
            r == self@[i as int],
    {
        proof {
            self.lemma_len();
        }
        if self.slots.len() < self.period {
            self.slots[i]
        } else if i < self.period - self.next {
            self.slots[self.next + i]
        } else {
            self.slots[i - (self.period - self.next)]
        }
    }

    /// Takes in `x`. While the window is not full nothing leaves it and the
    /// result is `None`; once it is full the oldest item leaves and is returned.
    pub fn push(&mut self, x: T) -> (r: Option<T>)
        requires
            old(self).wf(),
        ensures
            final(self).wf(),
            final(self).capacity() == old(self).capacity(),
            final(self)@ == slide(old(self)@, old(self).capacity(), x),
            old(self)@.len() < old(self).capacity() ==> r == None::<T>,
            old(self)@.len() == old(self).capacity() ==> r == Some(old(self)@[0]),
    {
        proof {
            self.lemma_len();
        }
        let ghost before = self@;
        let next = if self.next + 1 < self.period {
            self.next + 1
        } else {
            0
        };
        if self.slots.len() < self.period {
            self.slots.push(x);
            self.next = next;
            assert(self@ =~= before.push(x));
            None
        } else {
            let leaving = self.slots[self.next];
            let ghost at = self.next as int;
            self.slots.set(self.next, x);
            self.next = next;
            assert(self@ =~= before.drop_first().push(x));
            assert(leaving == before[0]) by {
                assert(before[0] == old(self).slots@[at]);
            }
            Some(leaving)
        }
    }

    /// The held items, oldest first.
    pub fn to_vec(&self) -> (r: Vec<T>)
        requires
            self.wf(),
        ensures
            r@ == self@,
    {
        let n = self.len();
        let mut out: Vec<T> = Vec::new();
        let mut i: usize = 0;
        while i < n
            invariant
                self.wf(),
                n == self@.len(),
                i <= n,
                out@ == self@.take(i as int),
            decreases n - i,
        {
            out.push(self.get(i));
            assert(self@.take(i as int).push(self@[i as int]) =~= self@.take(i + 1));
            i = i + 1;
        }
        assert(self@.take(n as int) =~= self@);
        out
    }

    /// A window of `period` holding `items`, oldest first. A zero period, or
    /// more items than it keeps, is refused.
    pub fn from_items(period: usize, items: Vec<T>) -> (r: Result<Self, TaError>)
        ensures
            (period == 0 || items@.len() > period) <==> r is Err,
            r is Err ==> r == Err::<Self, TaError>(TaError::InvalidParameter),
            r matches Ok(w) ==> w.wf() && w.capacity() == period && w@ == items@,
    {
        if period == 0 || items.len() > period {
            return Err(TaError::InvalidParameter);
        }
        let next = if items.len() < period {
            items.len()
        } else {
            0
        };
        let w = SlidingWindow { period, next, slots: items };
        assert(w@ =~= w.slots@);
        Ok(w)
    }

    /// Empties the window, keeping its period.
    pub fn clear(&mut self)
        requires
            old(self).wf(),
        ensures
            final(self).wf(),
            final(self).capacity() == old(self).capacity(),
            final(self)@ == Seq::<T>::empty(),
    {
        self.slots.clear();
        self.next = 0;
        assert(self@ =~= Seq::<T>::empty());
    }
}

} // verus!
