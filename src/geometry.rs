use vstd::prelude::*;

verus! {

/// A point or displacement in tracking space, in fixed-point units chosen by
/// the host (for instance micrometres).
#[derive(Clone, Copy, Debug, PartialEq, Eq, Structural)]
pub struct Vector3 {
    pub x: i64,
    pub y: i64,
    pub z: i64,
}

impl View for Vector3 {
    type V = (int, int, int);

    open spec fn view(&self) -> (int, int, int) {
        (self.x as int, self.y as int, self.z as int)
    }
}

/// The zero vector of the model.
pub open spec fn vec_zero() -> (int, int, int) {
    (0, 0, 0)
}

/// Component-wise sum of two model vectors.
pub open spec fn vec_add(a: (int, int, int), b: (int, int, int)) -> (int, int, int) {
    (a.0 + b.0, a.1 + b.1, a.2 + b.2)
}

/// Component-wise difference `a - b` of two model vectors.
pub open spec fn vec_sub(a: (int, int, int), b: (int, int, int)) -> (int, int, int) {
    (a.0 - b.0, a.1 - b.1, a.2 - b.2)
}

/// Whether every component of a model vector is representable as an `i64`.
pub open spec fn fits_i64(v: (int, int, int)) -> bool {
    i64::MIN <= v.0 <= i64::MAX && i64::MIN <= v.1 <= i64::MAX && i64::MIN <= v.2 <= i64::MAX
}

impl Vector3 {
    /// The zero vector.
    pub fn zero() -> (r: Vector3)
        ensures
            r@ == vec_zero(),
    {
        Vector3 { x: 0, y: 0, z: 0 }
    }

    pub fn new(x: i64, y: i64, z: i64) -> (r: Vector3)
        ensures
            r.x == x && r.y == y && r.z == z,
    {
        Vector3 { x, y, z }
    }

    /// `self + other`, defined when every component of the sum fits.
    pub fn add(&self, other: &Vector3) -> (r: Vector3)
        requires
            fits_i64(vec_add(self@, other@)),
        ensures
            r@ == vec_add(self@, other@),
    {
        Vector3 { x: self.x + other.x, y: self.y + other.y, z: self.z + other.z }
    }

    /// `self - other`, defined when every component of the difference fits.
    pub fn sub(&self, other: &Vector3) -> (r: Vector3)
        requires
            fits_i64(vec_sub(self@, other@)),
        ensures
            r@ == vec_sub(self@, other@),
    {
        Vector3 { x: self.x - other.x, y: self.y - other.y, z: self.z - other.z }
    }
}

} // verus!
