//! Per-body trail ring buffers.

use std::collections::VecDeque;

use vstd::prelude::*;

verus! {

/// Ring buffer of past positions for trail rendering: at most `capacity`
/// points, oldest first.
#[derive(Debug)]
pub struct Trail<P> {
    points: VecDeque<P>,
    capacity: usize,
}

/// A tick on which a position is recorded: every `sample_every`-th tick, and
/// none when `sample_every` is zero.
pub open spec fn is_sample_tick(tick: u64, sample_every: u64) -> bool {
    sample_every != 0 && tick % sample_every == 0
}

/// `points` with `p` appended, dropping the oldest point when `capacity` are held.
pub open spec fn pushed_bounded<P>(points: Seq<P>, p: P, capacity: nat) -> Seq<P> {
    if points.len() >= capacity {
        points.drop_first().push(p)
    } else {
        points.push(p)
    }
}

impl<P> Trail<P> {
    #[verifier::type_invariant]
    spec fn inv(self) -> bool {
        &&& self.capacity >= 1
        &&& self.points@.len() <= self.capacity
    }

    /// The recorded points, oldest first.
    pub closed spec fn view(&self) -> Seq<P> {
        self.points@
    }

    /// The most points the trail keeps.
    pub closed spec fn max_points(&self) -> nat {
        self.capacity as nat
    }

    /// An empty trail that keeps at most `capacity` points (at least one).
    pub fn new(capacity: usize) -> (t: Self)
        ensures
            t.view() == Seq::<P>::empty(),
            t.max_points() == if capacity == 0 {
                1
            } else {
                capacity as nat
            },
    {
        let capacity = if capacity == 0 {
            1
        } else {
            capacity
        };
        Trail { points: VecDeque::new(), capacity }
    }

    /// The number of recorded points.
    pub fn len(&self) -> (l: usize)
        ensures
            l == self.view().len(),
            l <= self.max_points(),
    {
        proof {
            use_type_invariant(self);
        }
        self.points.len()
    }

    /// Forgets every recorded point.
    pub fn clear(&mut self)
        ensures
            final(self).view() == Seq::<P>::empty(),
            final(self).max_points() == old(self).max_points(),
    {
        proof {
            use_type_invariant(&*self);
        }
        self.points = VecDeque::new();
    }

    /// Record position when `tick % sample_every == 0` (never when
    /// `sample_every` is zero), dropping the oldest point when full.
    pub fn maybe_push(&mut self, position: P, tick: u64, sample_every: u64)
        ensures
            final(self).max_points() == old(self).max_points(),
            final(self).view() == if is_sample_tick(tick, sample_every) {
                pushed_bounded(old(self).view(), position, old(self).max_points())
            } else {
                old(self).view()
            },
    {
        proof {
            use_type_invariant(&*self);
        }
        if sample_every == 0 || tick % sample_every != 0 {
            return;
        }
        let mut points = VecDeque::new();
        std::mem::swap(&mut points, &mut self.points);
        if points.len() >= self.capacity {
            let _ = points.pop_front();
        }
        points.push_back(position);
        self.points = points;
    }

    /// The recorded points, oldest first.
    pub fn points(&self) -> (p: &VecDeque<P>)
        ensures
            p@ == self.view(),
    {
        &self.points
    }
}

/// A trail never holds more points than it keeps, and a recorded position is
/// the newest point.
pub proof fn lemma_trail_push_keeps_bound<P>(points: Seq<P>, p: P, capacity: nat)
    requires
        capacity >= 1,
        points.len() <= capacity,
    ensures
        pushed_bounded(points, p, capacity).len() <= capacity,
        pushed_bounded(points, p, capacity).last() == p,
        points.len() < capacity ==> pushed_bounded(points, p, capacity).drop_last() == points,
        points.len() == capacity ==> pushed_bounded(points, p, capacity).drop_last() == points.drop_first(),
{
}

} // verus!
