use vstd::prelude::*;
use vstd::arithmetic::div_mod::{
    lemma_small_mod, lemma_fundamental_div_mod_converse, lemma_mod_bound,
    lemma_fundamental_div_mod, lemma_mod_self_0, lemma_mod_multiples_vanish,
};
use core::marker::PhantomData;
use crate::params::Fp12Parameters;
use crate::alg_fp::{
    fp_reduced, fp_add, fp_sub, fp_neg, fp_mul, fp_nr, fp_inverse, divides,
    lemma_divides_combination, lemma_fp_common_factor, lemma_fp_inverse_is,
};

verus! {

/// An element of the base field, held as its least non-negative residue.
#[derive(Debug, Hash)]
pub struct Fp<P: Fp12Parameters> {
    value: u64,
    params: PhantomData<P>,
}

impl<P: Fp12Parameters> Clone for Fp<P> {
    fn clone(&self) -> (r: Self)
        ensures
            r == *self,
    {
        *self
    }
}

impl<P: Fp12Parameters> Copy for Fp<P> {

}

impl<P: Fp12Parameters> View for Fp<P> {
    type V = int;

    /// The residue that the element stands for.
    closed spec fn view(&self) -> int {
        (self.value as int) % P::tower().p
    }
}

impl<P: Fp12Parameters> PartialEq for Fp<P> {
    fn eq(&self, other: &Self) -> (b: bool) {
        proof {
            use_type_invariant(self);
            Self::lemma_word(self.value);
            use_type_invariant(other);
            Self::lemma_word(other.value);
        }
        self.value == other.value
    }
}

impl<P: Fp12Parameters> Eq for Fp<P> {

}

impl<P: Fp12Parameters> vstd::std_specs::cmp::PartialEqSpecImpl for Fp<P> {
    open spec fn obeys_eq_spec() -> bool {
        true
    }

    open spec fn eq_spec(&self, other: &Self) -> bool {
        self@ == other@
    }
}

impl<P: Fp12Parameters> Fp<P> {
    #[verifier::type_invariant]
    spec fn reduced(self) -> bool {
        (self.value as int) < P::tower().p
    }

    /// The element that stands for the residue of `n`.
    pub closed spec fn residue(n: int) -> Self {
        Fp { value: (n % P::tower().p) as u64, params: PhantomData }
    }

    /// `residue(n)` stands for the residue of `n`.
    pub proof fn lemma_residue(n: int)
        ensures
            Self::residue(n)@ == n % P::tower().p,
    {
        P::lemma_tower_wf();
        lemma_mod_bound(n, P::tower().p);
        lemma_small_mod((n % P::tower().p) as nat, P::tower().p as nat);
    }

    /// Every element stands for a residue.
    pub proof fn lemma_view_wf(self)
        ensures
            fp_reduced(P::tower().p, self@),
    {
        P::lemma_tower_wf();
        lemma_mod_bound(self.value as int, P::tower().p);
    }

    /// The residue of `v`.
    pub fn new(v: u64) -> (r: Self)
        ensures
            r@ == (v as int) % P::tower().p,
            r == Self::residue(v as int),
    {
        proof {
            P::lemma_tower_wf();
        }
        let m: u64 = P::modulus();
        let r = Fp { value: v % m, params: PhantomData };
        proof {
            lemma_small_mod((v % m) as nat, m as nat);
        }
        r
    }

    /// The residue of `v`.
    pub fn from_u128(v: u128) -> (r: Self)
        ensures
            r@ == (v as int) % P::tower().p,
            r == Self::residue(v as int),
    {
        proof {
            P::lemma_tower_wf();
        }
        let m: u64 = P::modulus();
        let w: u128 = v % (m as u128);
        let r = Fp { value: w as u64, params: PhantomData };
        proof {
            lemma_small_mod(w as nat, m as nat);
        }
        r
    }

    /// The additive identity.
    pub fn zero() -> (r: Self)
        ensures
            r@ == 0,
            r == Self::residue(0),
    {
        proof {
            P::lemma_tower_wf();
            lemma_small_mod(0, P::tower().p as nat);
        }
        Fp { value: 0, params: PhantomData }
    }

    /// The multiplicative identity.
    pub fn one() -> (r: Self)
        ensures
            r@ == 1,
    {
        proof {
            P::lemma_tower_wf();
            lemma_small_mod(1, P::tower().p as nat);
        }
        Fp { value: 1, params: PhantomData }
    }

    /// The element whose residue is `w`, where `w` is below the modulus.
    pub fn from_canonical(w: u64) -> (r: Option<Self>)
        ensures
            match r {
                Some(x) => (w as int) < P::tower().p && x@ == w as int,
                None => (w as int) >= P::tower().p,
            },
    {
        let m: u64 = P::modulus();
        if w < m {
            proof {
                Self::lemma_word(w);
            }
            Some(Fp { value: w, params: PhantomData })
        } else {
            None
        }
    }

    /// The residue itself, as a number below the modulus.
    pub fn to_u64(&self) -> (v: u64)
        ensures
            v as int == self@,
    {
        proof {
            use_type_invariant(self);
            Self::lemma_word(self.value);
        }
        self.value
    }

    /// Whether the element is zero.
    pub fn is_zero(&self) -> (b: bool)
        ensures
            b == (self@ == 0),
    {
        proof {
            use_type_invariant(self);
            Self::lemma_word(self.value);
        }
        self.value == 0
    }

    /// The sum.
    pub fn add(&self, rhs: &Self) -> (r: Self)
        ensures
            r@ == fp_add(P::tower().p, self@, rhs@),
    {
        proof {
            use_type_invariant(self);
            Self::lemma_word(self.value);
            use_type_invariant(rhs);
            Self::lemma_word(rhs.value);
        }
        let m: u64 = P::modulus();
        let s: u128 = self.value as u128 + rhs.value as u128;
        let w: u128 = if s >= m as u128 {
            s - m as u128
        } else {
            s
        };
        let r = Fp { value: w as u64, params: PhantomData };
        proof {
            reveal(fp_add);
            let q: int = if s >= m as u128 {
                1
            } else {
                0
            };
            lemma_fundamental_div_mod_converse(s as int, m as int, q, w as int);
            lemma_small_mod(w as nat, m as nat);
        }
        r
    }

    /// The difference.
    pub fn sub(&self, rhs: &Self) -> (r: Self)
        ensures
            r@ == fp_sub(P::tower().p, self@, rhs@),
    {
        proof {
            use_type_invariant(self);
            Self::lemma_word(self.value);
            use_type_invariant(rhs);
            Self::lemma_word(rhs.value);
        }
        let m: u64 = P::modulus();
        let w: u64 = if self.value >= rhs.value {
            self.value - rhs.value
        } else {
            m - (rhs.value - self.value)
        };
        let r = Fp { value: w, params: PhantomData };
        proof {
            reveal(fp_sub);
            let q: int = if self.value >= rhs.value {
                0
            } else {
                -1
            };
            lemma_fundamental_div_mod_converse(
                self.value as int - rhs.value as int,
                m as int,
                q,
                w as int,
            );
            lemma_small_mod(w as nat, m as nat);
        }
        r
    }

    /// The negation.
    pub fn neg(&self) -> (r: Self)
        ensures
            r@ == fp_neg(P::tower().p, self@),
    {
        proof {
            use_type_invariant(self);
            Self::lemma_word(self.value);
        }
        let m: u64 = P::modulus();
        let w: u64 = if self.value == 0 {
            0
        } else {
            m - self.value
        };
        let r = Fp { value: w, params: PhantomData };
        proof {
            reveal(fp_neg);
            let q: int = if self.value == 0 {
                0
            } else {
                -1
            };
            lemma_fundamental_div_mod_converse(-(self.value as int), m as int, q, w as int);
            lemma_small_mod(w as nat, m as nat);
        }
        r
    }

    /// Twice the element.
    pub fn double(&self) -> (r: Self)
        ensures
            r@ == fp_add(P::tower().p, self@, self@),
    {
        self.add(self)
    }

    /// The product.
    pub fn mul(&self, rhs: &Self) -> (r: Self)
        ensures
            r@ == fp_mul(P::tower().p, self@, rhs@),
    {
        proof {
            use_type_invariant(self);
            Self::lemma_word(self.value);
            use_type_invariant(rhs);
            Self::lemma_word(rhs.value);
        }
        let m: u64 = P::modulus();
        assert(self.value as int * rhs.value as int <= u128::MAX) by (nonlinear_arith)
            requires
                self.value <= u64::MAX,
                rhs.value <= u64::MAX,
        ;
        let w: u128 = (self.value as u128 * rhs.value as u128) % (m as u128);
        let r = Fp { value: w as u64, params: PhantomData };
        proof {
            reveal(fp_mul);
            lemma_small_mod(w as nat, m as nat);
        }
        r
    }

    /// The square.
    pub fn square(&self) -> (r: Self)
        ensures
            r@ == fp_mul(P::tower().p, self@, self@),
    {
        self.mul(self)
    }

    /// Multiplication by `beta`.
    pub fn mul_by_nonresidue(&self) -> (r: Self)
        ensures
            r@ == fp_nr(P::tower(), self@),
    {
        proof {
            P::lemma_tower_wf();
            reveal(fp_nr);
            lemma_small_mod(P::tower().beta as nat, P::tower().p as nat);
        }
        let beta = Fp::<P>::new(P::fp2_nonresidue());
        beta.mul(self)
    }

    /// The inverse, by the extended Euclidean algorithm; `None` where the
    /// element shares a factor with the modulus.
    pub fn inverse(&self) -> (r: Option<Self>)
        ensures
            match r {
                Some(v) => fp_inverse(P::tower().p, self@) == Some(v@),
                None => fp_inverse(P::tower().p, self@) is None,
            },
    {
        proof {
            use_type_invariant(self);
            Self::lemma_word(self.value);
        }
        let m: u64 = P::modulus();
        let a: u64 = self.value;
        let ghost p: int = P::tower().p;
        let mut r0: u64 = m;
        let mut r1: u64 = a;
        let mut s0: u64 = 0;
        let mut s1: u64 = 1;
        proof {
            assert(0 * (a as int) == 0) by (nonlinear_arith);
            assert(1 * (a as int) == a) by (nonlinear_arith);
            lemma_mod_self_0(p);
            lemma_small_mod(0, p as nat);
        }
        while r1 != 0
            invariant
                m as int == p,
                2 <= p,
                a < m,
                0 < r0 <= m,
                r1 < m,
                s0 < m,
                s1 < m,
                (s0 as int * a as int) % p == (r0 as int) % p,
                (s1 as int * a as int) % p == (r1 as int) % p,
                forall|d: int|
                    d > 0 && divides(d, r0 as int) && divides(d, r1 as int) ==> #[trigger] divides(
                        d,
                        p,
                    ) && divides(d, a as int),
            decreases r1,
        {
            let q: u64 = r0 / r1;
            let r2: u64 = r0 % r1;
            assert(q as int * s1 as int <= u128::MAX) by (nonlinear_arith)
                requires
                    q <= u64::MAX,
                    s1 <= u64::MAX,
            ;
            let qs: u64 = ((q as u128 * s1 as u128) % (m as u128)) as u64;
            let s2: u64 = if s0 >= qs {
                s0 - qs
            } else {
                m - (qs - s0)
            };
            proof {
                let (ia, iq, ir0, ir1, ir2, is0, is1, is2, iqs) = (
                    a as int,
                    q as int,
                    r0 as int,
                    r1 as int,
                    r2 as int,
                    s0 as int,
                    s1 as int,
                    s2 as int,
                    qs as int,
                );
                lemma_fundamental_div_mod(ir0, ir1);
                assert(ir0 == iq * ir1 + ir2) by (nonlinear_arith)
                    requires
                        ir0 == ir1 * iq + ir2,
                ;
                // s2 = s0 - q·s1 modulo p, so s2·a = r0 - q·r1 = r2 modulo p
                let k: int = if s0 >= qs {
                    0
                } else {
                    1
                };
                assert(is2 == is0 - iqs + k * p);
                lemma_fundamental_div_mod(iq * is1, p);
                let c = (iq * is1) / p;
                assert(iqs == iq * is1 - p * c);
                lemma_fundamental_div_mod(is0 * ia, p);
                lemma_fundamental_div_mod(is1 * ia, p);
                lemma_fundamental_div_mod(ir0, p);
                lemma_fundamental_div_mod(ir1, p);
                let e0 = (is0 * ia) / p - ir0 / p;
                let e1 = (is1 * ia) / p - ir1 / p;
                assert(is0 * ia - ir0 == p * e0) by (nonlinear_arith)
                    requires
                        is0 * ia == p * ((is0 * ia) / p) + (is0 * ia) % p,
                        ir0 == p * (ir0 / p) + ir0 % p,
                        (is0 * ia) % p == ir0 % p,
                        e0 == (is0 * ia) / p - ir0 / p,
                ;
                assert(is1 * ia - ir1 == p * e1) by (nonlinear_arith)
                    requires
                        is1 * ia == p * ((is1 * ia) / p) + (is1 * ia) % p,
                        ir1 == p * (ir1 / p) + ir1 % p,
                        (is1 * ia) % p == ir1 % p,
                        e1 == (is1 * ia) / p - ir1 / p,
                ;
                let f = e0 - iq * e1 + c * ia + k * ia;
                let (x0, x1) = (is0 * ia, is1 * ia);
                assert(is2 * ia == x0 - iqs * ia + k * p * ia) by (nonlinear_arith)
                    requires
                        is2 == is0 - iqs + k * p,
                        x0 == is0 * ia,
                ;
                assert(iqs * ia == iq * x1 - p * c * ia) by (nonlinear_arith)
                    requires
                        iqs == iq * is1 - p * c,
                        x1 == is1 * ia,
                ;
                assert(iq * x1 == iq * ir1 + p * (iq * e1)) by (nonlinear_arith)
                    requires
                        x1 - ir1 == p * e1,
                ;
                assert(p * f == p * e0 - p * (iq * e1) + p * c * ia + k * p * ia)
                    by (nonlinear_arith)
                    requires
                        f == e0 - iq * e1 + c * ia + k * ia,
                ;
                assert(is2 * ia == p * f + ir2);
                lemma_mod_multiples_vanish(f, ir2, p);
                assert forall|d: int|
                    d > 0 && divides(d, ir1) && divides(d, ir2) implies #[trigger] divides(d, p)
                    && divides(d, ia) by {
                    lemma_divides_combination(d, iq, ir1, ir2);
                }
            }
            r0 = r1;
            r1 = r2;
            s0 = s1;
            s1 = s2;
        }
        if r0 == 1 {
            let r = Fp { value: s0, params: PhantomData };
            proof {
                reveal(fp_mul);
                lemma_small_mod(s0 as nat, m as nat);
                lemma_small_mod(1, p as nat);
                assert(a as int * s0 as int == s0 as int * a as int) by (nonlinear_arith);
                lemma_fp_inverse_is(p, a as int, s0 as int);
            }
            Some(r)
        } else {
            proof {
                lemma_mod_self_0(r0 as int);
                lemma_small_mod(0, r0 as nat);
                assert(divides(r0 as int, p));
                lemma_fp_common_factor(p, a as int, r0 as int);
            }
            None
        }
    }

    /// A word below the modulus is its own residue.
    proof fn lemma_word(v: u64)
        requires
            (v as int) < P::tower().p,
        ensures
            (v as int) % P::tower().p == v as int,
            2 <= P::tower().p <= u64::MAX,
    {
        P::lemma_tower_wf();
        lemma_small_mod(v as nat, P::tower().p as nat);
    }
}

} // verus!
