//! Forward mode: a value carried together with its derivative, both pushed
//! through each operation at once, with no tape.
use vstd::prelude::*;
use crate::tape::{sum, difference, product};

verus! {

/// A dual number: a value `x` and its derivative `dx`.
#[derive(Clone, Copy, Debug)]
pub struct F<X, D> {
    pub x: X,
    pub dx: D,
}

/// A dual number whose derivative has the type of its value.
pub type FX<X> = F<X, X>;

impl<X> FX<X> {
    pub fn new(x: X, dx: X) -> (r: Self)
        ensures
            r.x == x,
            r.dx == dx,
    {
        F { x, dx }
    }
}

impl<X, D: Copy> F<X, D> {
    /// The derivative carried.
    pub fn deriv(&mut self) -> (r: D)
        ensures
            r == old(self).dx,
            *final(self) == *old(self),
    {
        self.dx
    }
}

impl FX<i64> {
    /// A constant: its derivative is zero.
    pub fn cst(x: i64) -> (r: Self)
        ensures
            r.x == x,
            r.dx == 0,
    {
        F { x, dx: 0 }
    }

    /// The variable of differentiation: its derivative is one.
    pub fn var(x: i64) -> (r: Self)
        ensures
            r.x == x,
            r.dx == 1,
    {
        F { x, dx: 1 }
    }

    /// `(x + y)' = x' + y'`.
    pub fn add(self, rhs: Self) -> (r: Self)
        ensures
            r.x == sum(self.x, rhs.x),
            r.dx == sum(self.dx, rhs.dx),
    {
        F { x: self.x.wrapping_add(rhs.x), dx: self.dx.wrapping_add(rhs.dx) }
    }

    /// `(x - y)' = x' - y'`.
    pub fn sub(self, rhs: Self) -> (r: Self)
        ensures
            r.x == difference(self.x, rhs.x),
            r.dx == difference(self.dx, rhs.dx),
    {
        F { x: self.x.wrapping_sub(rhs.x), dx: self.dx.wrapping_sub(rhs.dx) }
    }

    /// `(x * y)' = x' * y + y' * x`.
    pub fn mul(self, rhs: Self) -> (r: Self)
        ensures
            r.x == product(self.x, rhs.x),
            r.dx == sum(product(self.dx, rhs.x), product(rhs.dx, self.x)),
    {
        F {
            x: self.x.wrapping_mul(rhs.x),
            dx: self.dx.wrapping_mul(rhs.x).wrapping_add(rhs.dx.wrapping_mul(self.x)),
        }
    }

    /// `(-x)' = -x'`.
    pub fn neg(self) -> (r: Self)
        ensures
            r.x == difference(0i64, self.x),
            r.dx == difference(0i64, self.dx),
    {
        F { x: 0i64.wrapping_sub(self.x), dx: 0i64.wrapping_sub(self.dx) }
    }
}

} // verus!
