use vstd::prelude::*;
use vstd::arithmetic::div_mod::lemma_small_mod;
use crate::params::Fp12Parameters;
use crate::tower::F12;
use crate::fp::Fp;
use crate::fp2::Fp2;
use crate::fp6::Fp6;
use crate::alg_fp6::{f6_nr, lemma_f6_mul_by_f2, lemma_f6_sparse_sum_034, lemma_f6_sparse_sum_014};
use crate::bits::{
    bits_be, bits_be_of, bits_value, limbs_value, lemma_bits_value_step, lemma_limbs_value,
};
use crate::field::{tower_is_field, law_inverse_exists};
use crate::alg_fp12::{
    lemma_f12_inverse_zero, lemma_f12_inverse_mul, f12_pow, lemma_f12_pow_step, f12_from_fp,
    f12_zero, f12_one, f12_add, f12_sub, f12_neg, f12_mul, f12_square, f12_scale, f12_conjugate,
    f12_frobenius, f12_inverse, f12_sparse_034, f12_sparse_014, lemma_f12_mul_karatsuba,
    lemma_f12_square_complex, lemma_f12_mul_cross_sum, lemma_f12_mul_cross_steps,
};

verus! {

/// An element `c0 + c1·w` of the degree-twelve extension, `w² = v`.
#[derive(Debug, Hash)]
#[must_use]
pub struct Fp12<P: Fp12Parameters> {
    pub c0: Fp6<P>,
    pub c1: Fp6<P>,
}

impl<P: Fp12Parameters> Clone for Fp12<P> {
    fn clone(&self) -> (r: Self)
        ensures
            r == *self,
    {
        *self
    }
}

impl<P: Fp12Parameters> Copy for Fp12<P> {

}

impl<P: Fp12Parameters> View for Fp12<P> {
    type V = F12;

    open spec fn view(&self) -> F12 {
        F12 { c0: self.c0@, c1: self.c1@ }
    }
}

impl<P: Fp12Parameters> PartialEq for Fp12<P> {
    fn eq(&self, other: &Self) -> (b: bool) {
        self.c0 == other.c0 && self.c1 == other.c1
    }
}

impl<P: Fp12Parameters> Eq for Fp12<P> {

}

impl<P: Fp12Parameters> vstd::std_specs::cmp::PartialEqSpecImpl for Fp12<P> {
    open spec fn obeys_eq_spec() -> bool {
        true
    }

    open spec fn eq_spec(&self, other: &Self) -> bool {
        self@ == other@
    }
}

impl<P: Fp12Parameters> Default for Fp12<P> {
    fn default() -> (r: Self)
        ensures
            r@ == f12_zero(),
    {
        Fp12::zero()
    }
}

impl<P: Fp12Parameters> Fp12<P> {
    /// Every element stands for twelve residues.
    pub proof fn lemma_view_wf(self)
        ensures
            self@.wf(P::tower()),
    {
        self.c0.lemma_view_wf();
        self.c1.lemma_view_wf();
    }

    /// Multiplication by `v`, the square of `w`.
    pub fn mul_fp6_by_nonresidue(fe: &Fp6<P>) -> (r: Fp6<P>)
        ensures
            r@ == f6_nr(P::tower(), fe@),
    {
        fe.mul_by_nonresidue()
    }

    /// The element with the given coordinates.
    pub fn new(c0: Fp6<P>, c1: Fp6<P>) -> (r: Self)
        ensures
            r.c0 == c0,
            r.c1 == c1,
    {
        Fp12 { c0, c1 }
    }

    /// The additive identity.
    pub fn zero() -> (r: Self)
        ensures
            r@ == f12_zero(),
    {
        Fp12 { c0: Fp6::zero(), c1: Fp6::zero() }
    }

    /// The multiplicative identity.
    pub fn one() -> (r: Self)
        ensures
            r@ == f12_one(),
    {
        Fp12 { c0: Fp6::one(), c1: Fp6::zero() }
    }

    /// Whether the element is zero.
    pub fn is_zero(&self) -> (b: bool)
        ensures
            b == (self@ == f12_zero()),
    {
        self.c0.is_zero() && self.c1.is_zero()
    }

    /// Whether the element is one.
    pub fn is_one(&self) -> (b: bool)
        ensures
            b == (self@ == f12_one()),
    {
        let one = Fp6::<P>::one();
        self.c0 == one && self.c1.is_zero()
    }

    /// The sum.
    pub fn add(self, other: &Self) -> (r: Self)
        ensures
            r@ == f12_add(P::tower(), self@, other@),
    {
        proof {
            reveal(f12_add);
        }
        Fp12 { c0: self.c0.add(&other.c0), c1: self.c1.add(&other.c1) }
    }

    /// The difference.
    pub fn sub(self, other: &Self) -> (r: Self)
        ensures
            r@ == f12_sub(P::tower(), self@, other@),
    {
        proof {
            reveal(f12_sub);
        }
        Fp12 { c0: self.c0.sub(&other.c0), c1: self.c1.sub(&other.c1) }
    }

    /// The negation.
    pub fn neg(self) -> (r: Self)
        ensures
            r@ == f12_neg(P::tower(), self@),
    {
        proof {
            reveal(f12_neg);
        }
        Fp12 { c0: self.c0.neg(), c1: self.c1.neg() }
    }

    /// Twice the element.
    pub fn double(&self) -> (r: Self)
        ensures
            r@ == f12_add(P::tower(), self@, self@),
    {
        self.add(self)
    }

    /// The product: `c0 = a0·b0 + v·a1·b1`, and the cross term from one more
    /// multiplication, `c1 = (a0 + a1)(b0 + b1) - a0·b0 - a1·b1`.
    pub fn mul(self, other: &Self) -> (r: Self)
        ensures
            r@ == f12_mul(P::tower(), self@, other@),
    {
        proof {
            P::lemma_tower_wf();
            lemma_f12_mul_karatsuba(P::tower(), self@, other@);
        }
        let v0 = self.c0.mul(&other.c0);
        let v1 = self.c1.mul(&other.c1);
        let s = self.c0.add(&self.c1);
        let u = other.c0.add(&other.c1);
        let c1 = s.mul(&u).sub(&v0).sub(&v1);
        let c0 = v0.add(&Self::mul_fp6_by_nonresidue(&v1));
        Fp12 { c0, c1 }
    }

    /// The square, from two multiplications below:
    /// `c0 = (v·a1 + a0)(a0 + a1) - a0·a1 - v·a0·a1`, `c1 = 2·a0·a1`.
    pub fn square(&self) -> (r: Self)
        ensures
            r@ == f12_square(P::tower(), self@),
    {
        proof {
            P::lemma_tower_wf();
            lemma_f12_square_complex(P::tower(), self@);
        }
        let ab = self.c0.mul(&self.c1);
        let c0c1 = self.c0.add(&self.c1);
        let c0 = Self::mul_fp6_by_nonresidue(&self.c1).add(&self.c0).mul(&c0c1).sub(&ab).sub(
            &Self::mul_fp6_by_nonresidue(&ab),
        );
        let c1 = ab.double();
        Fp12 { c0, c1 }
    }

    /// The inverse by the norm formula: `norm = c0² - v·c1²`, and the
    /// inverse is `(c0, -c1) / norm`. `None` where the norm has no inverse,
    /// as for zero; in a tower of fields, for zero alone.
    pub fn inverse(&self) -> (r: Option<Self>)
        ensures
            match r {
                Some(v) => f12_inverse(P::tower(), self@) == Some(v@) && f12_mul(
                    P::tower(),
                    self@,
                    v@,
                ) == f12_one(),
                None => f12_inverse(P::tower(), self@) is None,
            },
            self@ == f12_zero() ==> r is None,
            tower_is_field(P::tower()) && self@ != f12_zero() ==> r is Some,
    {
        proof {
            P::lemma_tower_wf();
            self.lemma_view_wf();
            lemma_f12_inverse_zero(P::tower());
            if f12_inverse(P::tower(), self@) is Some {
                lemma_f12_inverse_mul(P::tower(), self@);
            }
            if tower_is_field(P::tower()) && self@ != f12_zero() {
                law_inverse_exists(P::tower(), self@);
            }
        }
        let n0 = self.c0.square();
        let n1 = Self::mul_fp6_by_nonresidue(&self.c1.square());
        let norm = n0.sub(&n1);
        match norm.inverse() {
            Some(n) => Some(Fp12 { c0: self.c0.mul(&n), c1: self.c1.mul(&n).neg() }),
            None => None,
        }
    }

    /// The quotient, where the divisor has an inverse.
    pub fn div(self, other: &Self) -> (r: Option<Self>)
        ensures
            match r {
                Some(q) => f12_inverse(P::tower(), other@) is Some && q@ == f12_mul(
                    P::tower(),
                    self@,
                    f12_inverse(P::tower(), other@).unwrap(),
                ),
                None => f12_inverse(P::tower(), other@) is None,
            },
    {
        match other.inverse() {
            Some(v) => Some(self.mul(&v)),
            None => None,
        }
    }

    /// Adds `other` in place.
    pub fn add_assign(&mut self, other: &Self)
        ensures
            final(self)@ == f12_add(P::tower(), old(self)@, other@),
    {
        *self = self.add(other);
    }

    /// Subtracts `other` in place.
    pub fn sub_assign(&mut self, other: &Self)
        ensures
            final(self)@ == f12_sub(P::tower(), old(self)@, other@),
    {
        *self = self.sub(other);
    }

    /// Multiplies by `other` in place.
    pub fn mul_assign(&mut self, other: &Self)
        ensures
            final(self)@ == f12_mul(P::tower(), old(self)@, other@),
    {
        *self = self.mul(other);
    }

    /// Divides in place where the divisor has an inverse, and says whether
    /// it did; otherwise the element stays as it is.
    pub fn div_assign(&mut self, other: &Self) -> (done: bool)
        ensures
            match f12_inverse(P::tower(), other@) {
                Some(v) => done && final(self)@ == f12_mul(P::tower(), old(self)@, v),
                None => !done && final(self)@ == old(self)@,
            },
    {
        match other.inverse() {
            Some(v) => {
                *self = self.mul(&v);
                true
            },
            None => false,
        }
    }

    /// Doubles in place.
    pub fn double_in_place(&mut self)
        ensures
            final(self)@ == f12_add(P::tower(), old(self)@, old(self)@),
    {
        *self = self.double();
    }

    /// Squares in place.
    pub fn square_in_place(&mut self)
        ensures
            final(self)@ == f12_square(P::tower(), old(self)@),
    {
        *self = self.square();
    }

    /// Inverts in place where there is an inverse, and says whether it did;
    /// otherwise the element stays as it is.
    pub fn inverse_in_place(&mut self) -> (done: bool)
        ensures
            match f12_inverse(P::tower(), old(self)@) {
                Some(v) => done && final(self)@ == v,
                None => !done && final(self)@ == old(self)@,
            },
    {
        match self.inverse() {
            Some(v) => {
                *self = v;
                true
            },
            None => false,
        }
    }

    /// The element of the base field as an element of the tower, as a
    /// value.
    pub open spec fn spec_from_fp(k: Fp<P>) -> Self {
        Fp12 {
            c0: Fp6 {
                c0: Fp2 { c0: k, c1: Fp::residue(0) },
                c1: Fp2::spec_zero(),
                c2: Fp2::spec_zero(),
            },
            c1: Fp6::spec_zero(),
        }
    }

    /// The element of the base field as an element of the tower.
    pub fn from_base_prime_field(other: Fp<P>) -> (r: Self)
        ensures
            r@ == f12_from_fp(other@),
            r == Self::spec_from_fp(other),
    {
        Fp12 {
            c0: Fp6 { c0: Fp2 { c0: other, c1: Fp::zero() }, c1: Fp2::zero(), c2: Fp2::zero() },
            c1: Fp6::zero(),
        }
    }

    /// The characteristic of the field: the prime of the base field.
    pub fn characteristic() -> (p: u64)
        ensures
            p as int == P::tower().p,
    {
        P::modulus()
    }

    /// Every coordinate multiplied by an element of the base field.
    pub fn mul_by_fp(&mut self, element: &Fp<P>)
        ensures
            final(self)@ == f12_scale(P::tower(), old(self)@, element@),
    {
        self.c0 = self.c0.mul_by_fp(element);
        self.c1 = self.c1.mul_by_fp(element);
    }

    /// `c0 - c1·w` in place of `c0 + c1·w`.
    pub fn conjugate(&mut self)
        ensures
            final(self)@ == f12_conjugate(P::tower(), old(self)@),
    {
        self.c1 = self.c1.neg();
    }

    /// The product with the element whose coordinates at `1`, `w` and `v·w`
    /// are `c0`, `c3` and `c4`, all others zero.
    pub fn mul_by_034(&mut self, c0: &Fp2<P>, c3: &Fp2<P>, c4: &Fp2<P>)
        ensures
            final(self)@ == f12_mul(P::tower(), old(self)@, f12_sparse_034(c0@, c3@, c4@)),
    {
        let a = self.c0.mul_by_fp2(c0);
        let b = self.c1.mul_by_01(c3, c4);
        let s = c0.add(c3);
        let e = self.c0.add(&self.c1).mul_by_01(&s, c4);
        proof {
            P::lemma_tower_wf();
            c4.lemma_view_wf();
            lemma_f6_mul_by_f2(P::tower(), self.c0@, c0@);
            lemma_f6_sparse_sum_034(P::tower(), c0@, c3@, c4@);
            lemma_f12_mul_cross_sum(P::tower(), self@, f12_sparse_034(c0@, c3@, c4@));
        }
        self.c1 = e.sub(&a.add(&b));
        self.c0 = a.add(&Self::mul_fp6_by_nonresidue(&b));
    }

    /// The product with the element whose coordinates at `1`, `v` and `v·w`
    /// are `c0`, `c1` and `c4`, all others zero.
    pub fn mul_by_014(&mut self, c0: &Fp2<P>, c1: &Fp2<P>, c4: &Fp2<P>)
        ensures
            final(self)@ == f12_mul(P::tower(), old(self)@, f12_sparse_014(c0@, c1@, c4@)),
    {
        let aa = self.c0.mul_by_01(c0, c1);
        let bb = self.c1.mul_by_1(c4);
        let o = c1.add(c4);
        proof {
            P::lemma_tower_wf();
            c0.lemma_view_wf();
            lemma_f6_sparse_sum_014(P::tower(), c0@, c1@, c4@);
            lemma_f12_mul_cross_steps(P::tower(), self@, f12_sparse_014(c0@, c1@, c4@));
        }
        self.c1 = self.c1.add(&self.c0);
        self.c1 = self.c1.mul_by_01(c0, &o);
        self.c1 = self.c1.sub(&aa);
        self.c1 = self.c1.sub(&bb);
        self.c0 = bb;
        self.c0 = Self::mul_fp6_by_nonresidue(&self.c0);
        self.c0 = self.c0.add(&aa);
    }

    /// The square of an element of the cyclotomic subgroup. It is computed
    /// as the square of any element is, so it is the square on the subgroup
    /// and off it.
    pub fn cyclotomic_square(&self) -> (r: Self)
        ensures
            r@ == f12_square(P::tower(), self@),
    {
        self.square()
    }

    /// `self` raised to the number whose 64-bit limbs are `exp`, least
    /// significant limb first. The bits are walked from the most
    /// significant down; leading zero bits are skipped, every further bit
    /// costs one `cyclotomic_square`, and every set bit one multiplication
    /// by `self`.
    pub fn cyclotomic_exp(&self, exp: &[u64]) -> (r: Self)
        requires
            64 * exp@.len() <= usize::MAX,
        ensures
            r@ == f12_pow(P::tower(), self@, limbs_value(exp@)),
    {
        let bits = bits_be(exp);
        let mut res = Self::one();
        let mut found_one = false;
        let mut i: usize = 0;
        proof {
            P::lemma_tower_wf();
            self.lemma_view_wf();
            assert(bits@ == bits_be_of(exp@));
            assert(bits@.take(0).len() == 0);
        }
        while i < bits.len()
            invariant
                i <= bits.len(),
                P::tower().wf(),
                self@.wf(P::tower()),
                res@ == f12_pow(P::tower(), self@, bits_value(bits@.take(i as int))),
                !found_one ==> bits_value(bits@.take(i as int)) == 0,
            decreases bits.len() - i,
        {
            let bit = bits[i];
            proof {
                lemma_bits_value_step(bits@, i as int);
                lemma_f12_pow_step(P::tower(), self@, bits_value(bits@.take(i as int)));
            }
            if found_one || bit {
                found_one = true;
                res = res.cyclotomic_square();
                if bit {
                    res = res.mul(self);
                }
            }
            i = i + 1;
        }
        proof {
            assert(bits@.take(bits@.len() as int) == bits@);
            lemma_limbs_value(exp@);
        }
        res
    }

    /// The Frobenius map `x ↦ x^(p^power)`: both halves are mapped below,
    /// then each coordinate of `c1` is multiplied by the coefficient
    /// tabulated for `power mod 12`.
    pub fn frobenius_map(&mut self, power: usize)
        ensures
            final(self)@ == f12_frobenius(P::tower(), old(self)@, power as nat),
    {
        proof {
            P::lemma_tower_wf();
            let k = P::tower().frob12[(power % 12) as int];
            assert(k.wf(P::tower()));
            lemma_small_mod(k.c0 as nat, P::tower().p as nat);
            lemma_small_mod(k.c1 as nat, P::tower().p as nat);
        }
        let k = Fp2::<P>::from_words(P::frobenius_coeff_fp12_c1(power % 12));
        self.c0 = self.c0.frobenius_map(power);
        self.c1 = self.c1.frobenius_map(power).mul_by_fp2(&k);
    }
}

} // verus!
