use vstd::prelude::*;
use vstd::arithmetic::div_mod::lemma_small_mod;
use crate::params::Fp12Parameters;
use crate::tower::F2;
use crate::fp::Fp;
use crate::alg_fp2::{
    f2_zero, f2_one, f2_add, f2_sub, f2_neg, f2_mul, f2_nr, f2_scale, f2_conjugate, f2_frobenius,
    f2_inverse,
};

verus! {

/// An element `c0 + c1·u` of the quadratic extension.
#[derive(Debug, Hash)]
pub struct Fp2<P: Fp12Parameters> {
    pub c0: Fp<P>,
    pub c1: Fp<P>,
}

impl<P: Fp12Parameters> Clone for Fp2<P> {
    fn clone(&self) -> (r: Self)
        ensures
            r == *self,
    {
        *self
    }
}

impl<P: Fp12Parameters> Copy for Fp2<P> {

}

impl<P: Fp12Parameters> View for Fp2<P> {
    type V = F2;

    open spec fn view(&self) -> F2 {
        F2 { c0: self.c0@, c1: self.c1@ }
    }
}

impl<P: Fp12Parameters> PartialEq for Fp2<P> {
    fn eq(&self, other: &Self) -> (b: bool) {
        self.c0 == other.c0 && self.c1 == other.c1
    }
}

impl<P: Fp12Parameters> Eq for Fp2<P> {

}

impl<P: Fp12Parameters> vstd::std_specs::cmp::PartialEqSpecImpl for Fp2<P> {
    open spec fn obeys_eq_spec() -> bool {
        true
    }

    open spec fn eq_spec(&self, other: &Self) -> bool {
        self@ == other@
    }
}

impl<P: Fp12Parameters> Fp2<P> {
    /// Every element stands for a pair of residues.
    pub proof fn lemma_view_wf(self)
        ensures
            self@.wf(P::tower()),
    {
        self.c0.lemma_view_wf();
        self.c1.lemma_view_wf();
    }

    /// The element with the given coordinates.
    pub fn new(c0: Fp<P>, c1: Fp<P>) -> (r: Self)
        ensures
            r.c0 == c0,
            r.c1 == c1,
    {
        Fp2 { c0, c1 }
    }

    /// The element with the given coordinates, each taken modulo the prime.
    pub fn from_words(w: (u64, u64)) -> (r: Self)
        ensures
            r@ == (F2 { c0: (w.0 as int) % P::tower().p, c1: (w.1 as int) % P::tower().p }),
    {
        Fp2 { c0: Fp::new(w.0), c1: Fp::new(w.1) }
    }

    /// Zero, as a value.
    pub open spec fn spec_zero() -> Self {
        Fp2 { c0: Fp::residue(0), c1: Fp::residue(0) }
    }

    /// The additive identity.
    pub fn zero() -> (r: Self)
        ensures
            r@ == f2_zero(),
            r == Self::spec_zero(),
    {
        Fp2 { c0: Fp::zero(), c1: Fp::zero() }
    }

    /// The multiplicative identity.
    pub fn one() -> (r: Self)
        ensures
            r@ == f2_one(),
    {
        Fp2 { c0: Fp::one(), c1: Fp::zero() }
    }

    /// Whether the element is zero.
    pub fn is_zero(&self) -> (b: bool)
        ensures
            b == (self@ == f2_zero()),
    {
        self.c0.is_zero() && self.c1.is_zero()
    }

    /// The sum.
    pub fn add(&self, rhs: &Self) -> (r: Self)
        ensures
            r@ == f2_add(P::tower(), self@, rhs@),
    {
        proof {
            reveal(f2_add);
        }
        Fp2 { c0: self.c0.add(&rhs.c0), c1: self.c1.add(&rhs.c1) }
    }

    /// The difference.
    pub fn sub(&self, rhs: &Self) -> (r: Self)
        ensures
            r@ == f2_sub(P::tower(), self@, rhs@),
    {
        proof {
            reveal(f2_sub);
        }
        Fp2 { c0: self.c0.sub(&rhs.c0), c1: self.c1.sub(&rhs.c1) }
    }

    /// The negation.
    pub fn neg(&self) -> (r: Self)
        ensures
            r@ == f2_neg(P::tower(), self@),
    {
        proof {
            reveal(f2_neg);
        }
        Fp2 { c0: self.c0.neg(), c1: self.c1.neg() }
    }

    /// Twice the element.
    pub fn double(&self) -> (r: Self)
        ensures
            r@ == f2_add(P::tower(), self@, self@),
    {
        self.add(self)
    }

    /// The product.
    pub fn mul(&self, rhs: &Self) -> (r: Self)
        ensures
            r@ == f2_mul(P::tower(), self@, rhs@),
    {
        proof {
            reveal(f2_mul);
        }
        let v0 = self.c0.mul(&rhs.c0);
        let v1 = self.c1.mul(&rhs.c1).mul_by_nonresidue();
        let w0 = self.c0.mul(&rhs.c1);
        let w1 = self.c1.mul(&rhs.c0);
        Fp2 { c0: v0.add(&v1), c1: w0.add(&w1) }
    }

    /// The square.
    pub fn square(&self) -> (r: Self)
        ensures
            r@ == f2_mul(P::tower(), self@, self@),
    {
        self.mul(self)
    }

    /// Both coordinates multiplied by an element of the base field.
    pub fn mul_by_fp(&self, k: &Fp<P>) -> (r: Self)
        ensures
            r@ == f2_scale(P::tower(), self@, k@),
    {
        Fp2 { c0: self.c0.mul(k), c1: self.c1.mul(k) }
    }

    /// Multiplication by `xi`.
    pub fn mul_by_nonresidue(&self) -> (r: Self)
        ensures
            r@ == f2_nr(P::tower(), self@),
    {
        proof {
            reveal(f2_nr);
            P::lemma_tower_wf();
            lemma_small_mod(P::tower().xi.c0 as nat, P::tower().p as nat);
            lemma_small_mod(P::tower().xi.c1 as nat, P::tower().p as nat);
        }
        let xi = Fp2::<P>::from_words(P::fp6_nonresidue());
        xi.mul(self)
    }

    /// `c0 - c1·u` for `c0 + c1·u`.
    pub fn conjugate(&self) -> (r: Self)
        ensures
            r@ == f2_conjugate(P::tower(), self@),
    {
        Fp2 { c0: self.c0, c1: self.c1.neg() }
    }

    /// The Frobenius map `x ↦ x^(p^power)`, by the tabulated coefficient.
    pub fn frobenius_map(&self, power: usize) -> (r: Self)
        ensures
            r@ == f2_frobenius(P::tower(), self@, power as nat),
    {
        proof {
            P::lemma_tower_wf();
            lemma_small_mod(
                P::tower().frob2[(power % 2) as int] as nat,
                P::tower().p as nat,
            );
        }
        let k = Fp::<P>::new(P::frobenius_coeff_fp2_c1(power % 2));
        Fp2 { c0: self.c0, c1: self.c1.mul(&k) }
    }

    /// The inverse, by the norm: `None` where the norm has none.
    pub fn inverse(&self) -> (r: Option<Self>)
        ensures
            match r {
                Some(v) => f2_inverse(P::tower(), self@) == Some(v@),
                None => f2_inverse(P::tower(), self@) is None,
            },
    {
        let n0 = self.c0.square();
        let n1 = self.c1.square().mul_by_nonresidue();
        let norm = n0.sub(&n1);
        match norm.inverse() {
            Some(n) => Some(Fp2 { c0: self.c0.mul(&n), c1: self.c1.mul(&n).neg() }),
            None => None,
        }
    }
}

} // verus!
