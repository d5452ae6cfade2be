use vstd::prelude::*;
use vstd::arithmetic::div_mod::lemma_small_mod;
use crate::params::Fp12Parameters;
use crate::tower::F6;
use crate::fp::Fp;
use crate::fp2::Fp2;
use crate::alg_fp6::{
    f6_zero, f6_one, f6_add, f6_sub, f6_neg, f6_mul, f6_nr, f6_scale, f6_mul_by_f2, f6_sparse_01,
    f6_sparse_1, f6_frobenius, f6_inverse, lemma_f6_nr_shift, lemma_f6_mul_by_01,
    lemma_f6_mul_by_1,
};

verus! {

/// An element `c0 + c1·v + c2·v²` of the cubic extension.
#[derive(Debug, Hash)]
pub struct Fp6<P: Fp12Parameters> {
    pub c0: Fp2<P>,
    pub c1: Fp2<P>,
    pub c2: Fp2<P>,
}

impl<P: Fp12Parameters> Clone for Fp6<P> {
    fn clone(&self) -> (r: Self)
        ensures
            r == *self,
    {
        *self
    }
}

impl<P: Fp12Parameters> Copy for Fp6<P> {

}

impl<P: Fp12Parameters> View for Fp6<P> {
    type V = F6;

    open spec fn view(&self) -> F6 {
        F6 { c0: self.c0@, c1: self.c1@, c2: self.c2@ }
    }
}

impl<P: Fp12Parameters> PartialEq for Fp6<P> {
    fn eq(&self, other: &Self) -> (b: bool) {
        self.c0 == other.c0 && self.c1 == other.c1 && self.c2 == other.c2
    }
}

impl<P: Fp12Parameters> Eq for Fp6<P> {

}

impl<P: Fp12Parameters> vstd::std_specs::cmp::PartialEqSpecImpl for Fp6<P> {
    open spec fn obeys_eq_spec() -> bool {
        true
    }

    open spec fn eq_spec(&self, other: &Self) -> bool {
        self@ == other@
    }
}

impl<P: Fp12Parameters> Fp6<P> {
    /// Every element stands for three pairs of residues.
    pub proof fn lemma_view_wf(self)
        ensures
            self@.wf(P::tower()),
    {
        self.c0.lemma_view_wf();
        self.c1.lemma_view_wf();
        self.c2.lemma_view_wf();
    }

    /// The element with the given coordinates.
    pub fn new(c0: Fp2<P>, c1: Fp2<P>, c2: Fp2<P>) -> (r: Self)
        ensures
            r.c0 == c0,
            r.c1 == c1,
            r.c2 == c2,
    {
        Fp6 { c0, c1, c2 }
    }

    /// Zero, as a value.
    pub open spec fn spec_zero() -> Self {
        Fp6 { c0: Fp2::spec_zero(), c1: Fp2::spec_zero(), c2: Fp2::spec_zero() }
    }

    /// The additive identity.
    pub fn zero() -> (r: Self)
        ensures
            r@ == f6_zero(),
            r == Self::spec_zero(),
    {
        Fp6 { c0: Fp2::zero(), c1: Fp2::zero(), c2: Fp2::zero() }
    }

    /// The multiplicative identity.
    pub fn one() -> (r: Self)
        ensures
            r@ == f6_one(),
    {
        Fp6 { c0: Fp2::one(), c1: Fp2::zero(), c2: Fp2::zero() }
    }

    /// Whether the element is zero.
    pub fn is_zero(&self) -> (b: bool)
        ensures
            b == (self@ == f6_zero()),
    {
        self.c0.is_zero() && self.c1.is_zero() && self.c2.is_zero()
    }

    /// The sum.
    pub fn add(&self, rhs: &Self) -> (r: Self)
        ensures
            r@ == f6_add(P::tower(), self@, rhs@),
    {
        proof {
            reveal(f6_add);
        }
        Fp6 { c0: self.c0.add(&rhs.c0), c1: self.c1.add(&rhs.c1), c2: self.c2.add(&rhs.c2) }
    }

    /// The difference.
    pub fn sub(&self, rhs: &Self) -> (r: Self)
        ensures
            r@ == f6_sub(P::tower(), self@, rhs@),
    {
        proof {
            reveal(f6_sub);
        }
        Fp6 { c0: self.c0.sub(&rhs.c0), c1: self.c1.sub(&rhs.c1), c2: self.c2.sub(&rhs.c2) }
    }

    /// The negation.
    pub fn neg(&self) -> (r: Self)
        ensures
            r@ == f6_neg(P::tower(), self@),
    {
        proof {
            reveal(f6_neg);
        }
        Fp6 { c0: self.c0.neg(), c1: self.c1.neg(), c2: self.c2.neg() }
    }

    /// Twice the element.
    pub fn double(&self) -> (r: Self)
        ensures
            r@ == f6_add(P::tower(), self@, self@),
    {
        self.add(self)
    }

    /// The product.
    pub fn mul(&self, rhs: &Self) -> (r: Self)
        ensures
            r@ == f6_mul(P::tower(), self@, rhs@),
    {
        proof {
            reveal(f6_mul);
        }
        let (a0, a1, a2) = (&self.c0, &self.c1, &self.c2);
        let (b0, b1, b2) = (&rhs.c0, &rhs.c1, &rhs.c2);
        let c0 = a0.mul(b0).add(&a1.mul(b2).add(&a2.mul(b1)).mul_by_nonresidue());
        let c1 = a0.mul(b1).add(&a1.mul(b0)).add(&a2.mul(b2).mul_by_nonresidue());
        let c2 = a0.mul(b2).add(&a1.mul(b1)).add(&a2.mul(b0));
        Fp6 { c0, c1, c2 }
    }

    /// The square.
    pub fn square(&self) -> (r: Self)
        ensures
            r@ == f6_mul(P::tower(), self@, self@),
    {
        self.mul(self)
    }

    /// Multiplication by `v`: the coordinates move up one place, the last
    /// comes around through `xi`.
    pub fn mul_by_nonresidue(&self) -> (r: Self)
        ensures
            r@ == f6_nr(P::tower(), self@),
    {
        proof {
            P::lemma_tower_wf();
            self.lemma_view_wf();
            lemma_f6_nr_shift(P::tower(), self@);
        }
        Fp6 { c0: self.c2.mul_by_nonresidue(), c1: self.c0, c2: self.c1 }
    }

    /// Every coordinate multiplied by an element of the base field.
    pub fn mul_by_fp(&self, k: &Fp<P>) -> (r: Self)
        ensures
            r@ == f6_scale(P::tower(), self@, k@),
    {
        Fp6 { c0: self.c0.mul_by_fp(k), c1: self.c1.mul_by_fp(k), c2: self.c2.mul_by_fp(k) }
    }

    /// Every coordinate multiplied by an element of the quadratic extension.
    pub fn mul_by_fp2(&self, k: &Fp2<P>) -> (r: Self)
        ensures
            r@ == f6_mul_by_f2(P::tower(), self@, k@),
    {
        Fp6 { c0: self.c0.mul(k), c1: self.c1.mul(k), c2: self.c2.mul(k) }
    }

    /// The product with `c0 + c1·v`.
    pub fn mul_by_01(&self, c0: &Fp2<P>, c1: &Fp2<P>) -> (r: Self)
        ensures
            r@ == f6_mul(P::tower(), self@, f6_sparse_01(c0@, c1@)),
    {
        proof {
            P::lemma_tower_wf();
            lemma_f6_mul_by_01(P::tower(), self@, c0@, c1@);
        }
        let (a0, a1, a2) = (&self.c0, &self.c1, &self.c2);
        let r0 = a0.mul(c0).add(&a2.mul(c1).mul_by_nonresidue());
        let r1 = a0.mul(c1).add(&a1.mul(c0));
        let r2 = a1.mul(c1).add(&a2.mul(c0));
        Fp6 { c0: r0, c1: r1, c2: r2 }
    }

    /// The product with `c1·v`.
    pub fn mul_by_1(&self, c1: &Fp2<P>) -> (r: Self)
        ensures
            r@ == f6_mul(P::tower(), self@, f6_sparse_1(c1@)),
    {
        proof {
            P::lemma_tower_wf();
            lemma_f6_mul_by_1(P::tower(), self@, c1@);
        }
        let r0 = self.c2.mul(c1).mul_by_nonresidue();
        let r1 = self.c0.mul(c1);
        let r2 = self.c1.mul(c1);
        Fp6 { c0: r0, c1: r1, c2: r2 }
    }

    /// The Frobenius map `x ↦ x^(p^power)`, by the tabulated coefficients.
    pub fn frobenius_map(&self, power: usize) -> (r: Self)
        ensures
            r@ == f6_frobenius(P::tower(), self@, power as nat),
    {
        proof {
            P::lemma_tower_wf();
            let k1 = P::tower().frob6_c1[(power % 6) as int];
            let k2 = P::tower().frob6_c2[(power % 6) as int];
            assert(k1.wf(P::tower()) && k2.wf(P::tower()));
            lemma_small_mod(k1.c0 as nat, P::tower().p as nat);
            lemma_small_mod(k1.c1 as nat, P::tower().p as nat);
            lemma_small_mod(k2.c0 as nat, P::tower().p as nat);
            lemma_small_mod(k2.c1 as nat, P::tower().p as nat);
        }
        let k1 = Fp2::<P>::from_words(P::frobenius_coeff_fp6_c1(power % 6));
        let k2 = Fp2::<P>::from_words(P::frobenius_coeff_fp6_c2(power % 6));
        Fp6 {
            c0: self.c0.frobenius_map(power),
            c1: self.c1.frobenius_map(power).mul(&k1),
            c2: self.c2.frobenius_map(power).mul(&k2),
        }
    }

    /// The inverse, by the norm: `None` where the norm has none.
    pub fn inverse(&self) -> (r: Option<Self>)
        ensures
            match r {
                Some(v) => f6_inverse(P::tower(), self@) == Some(v@),
                None => f6_inverse(P::tower(), self@) is None,
            },
    {
        let (a0, a1, a2) = (&self.c0, &self.c1, &self.c2);
        let d0 = a0.square().sub(&a1.mul(a2).mul_by_nonresidue());
        let d1 = a2.square().mul_by_nonresidue().sub(&a0.mul(a1));
        let d2 = a1.square().sub(&a0.mul(a2));
        let norm = a0.mul(&d0).add(&a2.mul(&d1).add(&a1.mul(&d2)).mul_by_nonresidue());
        match norm.inverse() {
            Some(n) => Some(Fp6 { c0: d0.mul(&n), c1: d1.mul(&n), c2: d2.mul(&n) }),
            None => None,
        }
    }
}

} // verus!
