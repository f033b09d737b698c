//! The simplex: an ordered, fixed-capacity sequence of one to three points,
//! oldest first.  The newest point is always the most recently computed
//! support point.

use vstd::prelude::*;
use crate::vec2::Vec2;

verus! {

/// One to three points of the Minkowski difference, oldest first.  Backed by
/// three fixed slots plus a count; slots past the count are stale and are
/// not part of the value.
pub struct Simplex {
    p0: Vec2,
    p1: Vec2,
    p2: Vec2,
    n: usize,
}

impl View for Simplex {
    type V = Seq<Vec2>;

    closed spec fn view(&self) -> Seq<Vec2> {
        if self.n == 1 {
            seq![self.p0]
        } else if self.n == 2 {
            seq![self.p0, self.p1]
        } else {
            seq![self.p0, self.p1, self.p2]
        }
    }
}

impl Simplex {
    /// The count matches the slots in use.
    pub closed spec fn wf(self) -> bool {
        1 <= self.n <= 3
    }

    /// A fresh simplex holding the single point `p`.
    pub fn new(p: Vec2) -> (r: Simplex)
        ensures
            r.wf(),
            r@ =~= seq![p],
    {
        Simplex { p0: p, p1: p, p2: p, n: 1 }
    }

    /// How many points the simplex holds.
    pub fn len(&self) -> (n: usize)
        requires
            self.wf(),
        ensures
            n == self@.len(),
    {
        self.n
    }

    /// The `i`-th point, oldest first.
    pub fn get(&self, i: usize) -> (r: Vec2)
        requires
            self.wf(),
            i < self@.len(),
        ensures
            r == self@[i as int],
    {
        if i == 0 {
            self.p0
        } else if i == 1 {
            self.p1
        } else {
            self.p2
        }
    }

    /// Appends `p` as the newest point.
    pub fn push(&mut self, p: Vec2)
        requires
            old(self).wf(),
            old(self)@.len() < 3,
        ensures
            final(self).wf(),
            final(self)@ =~= old(self)@.push(p),
    {
        if self.n == 1 {
            self.p1 = p;
            self.n = 2;
        } else {
            self.p2 = p;
            self.n = 3;
        }
    }

    /// Discards the oldest point of a full simplex, keeping the two newest.
    pub fn remove_oldest(&mut self)
        requires
            old(self).wf(),
            old(self)@.len() == 3,
        ensures
            final(self).wf(),
            final(self)@ =~= seq![old(self)@[1], old(self)@[2]],
    {
        self.p0 = self.p1;
        self.p1 = self.p2;
        self.n = 2;
    }

    /// Discards the middle point of a full simplex, keeping the oldest and
    /// the newest.
    pub fn remove_middle(&mut self)
        requires
            old(self).wf(),
            old(self)@.len() == 3,
        ensures
            final(self).wf(),
            final(self)@ =~= seq![old(self)@[0], old(self)@[2]],
    {
        self.p1 = self.p2;
        self.n = 2;
    }
}

} // verus!
