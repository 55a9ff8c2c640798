use vstd::prelude::*;

verus! {

/// A position or a velocity on the program grid.
#[derive(Clone, Copy, Debug, PartialEq, Eq, Structural)]
pub struct PVec {
    pub x: i64,
    pub y: i64,
}

impl PVec {
    /// Componentwise sum.
    pub fn add(self, rhs: PVec) -> (r: PVec)
        requires
            i64::MIN <= self.x + rhs.x <= i64::MAX,
            i64::MIN <= self.y + rhs.y <= i64::MAX,
        ensures
            r.x == self.x + rhs.x,
            r.y == self.y + rhs.y,
    {
        PVec { x: self.x + rhs.x, y: self.y + rhs.y }
    }

    /// Adds `rhs` to `self` in place.
    pub fn add_assign(&mut self, rhs: PVec)
        requires
            i64::MIN <= old(self).x + rhs.x <= i64::MAX,
            i64::MIN <= old(self).y + rhs.y <= i64::MAX,
        ensures
            final(self).x == old(self).x + rhs.x,
            final(self).y == old(self).y + rhs.y,
    {
        self.x = self.x + rhs.x;
        self.y = self.y + rhs.y;
    }

    /// Scales both components by `k` in place.
    pub fn mul_assign(&mut self, k: i64)
        requires
            i64::MIN <= old(self).x * k <= i64::MAX,
            i64::MIN <= old(self).y * k <= i64::MAX,
        ensures
            final(self).x == old(self).x * k,
            final(self).y == old(self).y * k,
    {
        self.x = self.x * k;
        self.y = self.y * k;
    }
}

} // verus!
