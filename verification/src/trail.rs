//! The trail of the traced point: a history that forgets its oldest entry
//! once it is full.

use std::collections::VecDeque;
use vstd::prelude::*;

verus! {

/// The latest points of a traced curve, oldest first, never more than
/// `limit` of them.
pub struct Trail<T> {
    points: VecDeque<T>,
    limit: usize,
}

impl<T> View for Trail<T> {
    type V = Seq<T>;

    closed spec fn view(&self) -> Seq<T> {
        self.points@
    }
}

/// The trail after `point` has been added to it: the point comes last, and
/// where that makes more than `limit` points, the oldest one goes.
pub open spec fn extended<T>(points: Seq<T>, limit: nat, point: T) -> Seq<T> {
    if points.len() + 1 > limit {
        points.push(point).skip(1)
    } else {
        points.push(point)
    }
}

impl<T> Trail<T> {
    #[verifier::type_invariant]
    spec fn well_formed(self) -> bool {
        self.points@.len() <= self.limit
    }

    /// The greatest number of points that the trail keeps.
    pub closed spec fn limit(&self) -> nat {
        self.limit as nat
    }

    /// An empty trail that keeps up to `limit` points.
    pub fn new(limit: usize) -> (trail: Trail<T>)
        ensures
            trail@ == Seq::<T>::empty(),
            trail.limit() == limit,
    {
        Trail { points: VecDeque::new(), limit }
    }

    /// Adds a point at the end of the trail. A full trail loses its oldest
    /// point for it, so that the trail never grows beyond its limit.
    pub fn add_draw_point(&mut self, point: T)
        ensures
            final(self)@ == extended(old(self)@, old(self).limit(), point),
            final(self).limit() == old(self).limit(),
            final(self)@.len() <= final(self).limit(),
    {
        proof {
            use_type_invariant(&*self);
        }
        let mut points = VecDeque::new();
        std::mem::swap(&mut points, &mut self.points);
        points.push_back(point);
        if points.len() > self.limit {
            points.pop_front();
        }
        assert(points@ =~= extended(old(self).points@, old(self).limit as nat, point));
        self.points = points;
    }

    /// Forgets every point.
    pub fn clear(&mut self)
        ensures
            final(self)@ == Seq::<T>::empty(),
            final(self).limit() == old(self).limit(),
    {
        proof {
            use_type_invariant(&*self);
        }
        self.points = VecDeque::new();

    }

    /// How many points the trail holds.
    pub fn len(&self) -> (count: usize)
        ensures
            count == self@.len(),
            count <= self.limit(),
    {
        proof {
            use_type_invariant(self);
        }
        self.points.len()
    }

    /// The point at position `index`, counted from the oldest.
    pub fn get(&self, index: usize) -> (point: Option<&T>)
        ensures
            match point {
                Some(found) => index < self@.len() && *found == self@[index as int],
                None => index >= self@.len(),
            },
    {
        if index < self.points.len() {
            Some(&self.points[index])
        } else {
            None
        }
    }
}

} // verus!
