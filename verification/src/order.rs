use vstd::prelude::*;
use core::cmp::Ordering;
use crate::params::Fp12Parameters;
use crate::tower::{F2, F6, F12};
use crate::fp::Fp;
use crate::fp2::Fp2;
use crate::fp6::Fp6;
use crate::fp12::Fp12;

verus! {

/// The order of the quadratic extension: by the `u` coordinate, then by the
/// other.
pub open spec fn f2_lt(a: F2, b: F2) -> bool {
    a.c1 < b.c1 || (a.c1 == b.c1 && a.c0 < b.c0)
}

/// The order of the cubic extension: by the `v²` coordinate, then by the
/// `v` coordinate, then by the last.
pub open spec fn f6_lt(a: F6, b: F6) -> bool {
    f2_lt(a.c2, b.c2) || (a.c2 == b.c2 && (f2_lt(a.c1, b.c1) || (a.c1 == b.c1 && f2_lt(
        a.c0,
        b.c0,
    ))))
}

/// The order of the tower: by `c1`, and among equal `c1` by `c0`.
pub open spec fn f12_lt(a: F12, b: F12) -> bool {
    f6_lt(a.c1, b.c1) || (a.c1 == b.c1 && f6_lt(a.c0, b.c0))
}

/// Of `a < b`, `a = b` and `b < a` exactly one holds.
pub proof fn law_order_total(a: F12, b: F12)
    ensures
        f12_lt(a, b) || a == b || f12_lt(b, a),
        !(f12_lt(a, b) && a == b),
        !(f12_lt(a, b) && f12_lt(b, a)),
        !(a == b && f12_lt(b, a)),
{
}

/// The order is transitive.
pub proof fn law_order_transitive(a: F12, b: F12, c: F12)
    requires
        f12_lt(a, b),
        f12_lt(b, c),
    ensures
        f12_lt(a, c),
{
}

impl<P: Fp12Parameters> Fp<P> {
    /// Compares the residues as numbers.
    pub fn cmp(&self, other: &Self) -> (r: Ordering)
        ensures
            match r {
                Ordering::Less => self@ < other@,
                Ordering::Equal => self@ == other@,
                Ordering::Greater => self@ > other@,
            },
    {
        let (x, y) = (self.to_u64(), other.to_u64());
        if x < y {
            Ordering::Less
        } else if x == y {
            Ordering::Equal
        } else {
            Ordering::Greater
        }
    }
}

impl<P: Fp12Parameters> Fp2<P> {
    /// The total order: the last coordinate decides, then the one before it.
    pub fn cmp(&self, other: &Self) -> (r: Ordering)
        ensures
            match r {
                Ordering::Less => f2_lt(self@, other@),
                Ordering::Equal => self@ == other@,
                Ordering::Greater => f2_lt(other@, self@),
            },
    {
        match self.c1.cmp(&other.c1) {
            Ordering::Equal => self.c0.cmp(&other.c0),
            Ordering::Less => Ordering::Less,
            Ordering::Greater => Ordering::Greater,
        }
    }
}

impl<P: Fp12Parameters> Fp6<P> {
    /// The total order: the last coordinate decides, then the one before it.
    pub fn cmp(&self, other: &Self) -> (r: Ordering)
        ensures
            match r {
                Ordering::Less => f6_lt(self@, other@),
                Ordering::Equal => self@ == other@,
                Ordering::Greater => f6_lt(other@, self@),
            },
    {
        match self.c2.cmp(&other.c2) {
            Ordering::Equal => match self.c1.cmp(&other.c1) {
                Ordering::Equal => self.c0.cmp(&other.c0),
                Ordering::Less => Ordering::Less,
                Ordering::Greater => Ordering::Greater,
            },
            Ordering::Less => Ordering::Less,
            Ordering::Greater => Ordering::Greater,
        }
    }
}

impl<P: Fp12Parameters> Fp12<P> {
    /// The total order of the tower: `c1` decides, and `c0` among equal
    /// `c1`; each by the order of the cubic extension.
    pub fn cmp(&self, other: &Self) -> (r: Ordering)
        ensures
            match r {
                Ordering::Less => f12_lt(self@, other@),
                Ordering::Equal => self@ == other@,
                Ordering::Greater => f12_lt(other@, self@),
            },
    {
        match self.c1.cmp(&other.c1) {
            Ordering::Equal => self.c0.cmp(&other.c0),
            Ordering::Less => Ordering::Less,
            Ordering::Greater => Ordering::Greater,
        }
    }

    /// The same order, as `partial_cmp` gives it: never `None`.
    pub fn partial_cmp(&self, other: &Self) -> (r: Option<Ordering>)
        ensures
            match r {
                Some(Ordering::Less) => f12_lt(self@, other@),
                Some(Ordering::Equal) => self@ == other@,
                Some(Ordering::Greater) => f12_lt(other@, self@),
                None => false,
            },
    {
        Some(self.cmp(other))
    }
}

} // verus!
