use vstd::prelude::*;
use crate::tower::{F2, F6, F12, Tower};
use crate::alg_fp2::f2_from_fp;
use crate::alg_fp6::{
    f6_add, f6_sub, f6_neg, f6_mul, f6_nr, lemma_f6_wf_fixed, lemma_f6_consts_fixed,
    lemma_f6_add_wf, lemma_f6_add_lift, lemma_f6_sub_lift, lemma_f6_neg_lift, lemma_f6_mul_comm,
    lemma_f6_mul_assoc, lemma_f6_mul_left_comm, lemma_f6_mul_add, lemma_f6_mul_sub,
    lemma_f6_mul_neg, lemma_f6_mul_zero, lemma_f6_mul_one, lemma_f6_mul_fixed, lemma_f6_nr_add,
    lemma_f6_nr_sub, lemma_f6_nr_neg, lemma_f6_nr_mul, lemma_f6_nr_zero, f6_zero, f6_one, f6_red,
    f6_zadd, f6_zsub, f6_zneg, f6_scale, f6_frobenius, f6_mul_by_f2, f6_from_f2, f6_sparse_01,
    f6_sparse_1, f6_inverse, lemma_f6_inverse_mul, lemma_f6_inverse_zero,
};

verus! {

/// Zero.
pub open spec fn f12_zero() -> F12 {
    F12 { c0: f6_zero(), c1: f6_zero() }
}

/// One.
pub open spec fn f12_one() -> F12 {
    F12 { c0: f6_one(), c1: f6_zero() }
}

/// The sum, coordinate by coordinate.
#[verifier::opaque]
pub open spec fn f12_add(t: Tower, a: F12, b: F12) -> F12 {
    F12 { c0: f6_add(t, a.c0, b.c0), c1: f6_add(t, a.c1, b.c1) }
}

/// The difference, coordinate by coordinate.
#[verifier::opaque]
pub open spec fn f12_sub(t: Tower, a: F12, b: F12) -> F12 {
    F12 { c0: f6_sub(t, a.c0, b.c0), c1: f6_sub(t, a.c1, b.c1) }
}

/// The negation, coordinate by coordinate.
#[verifier::opaque]
pub open spec fn f12_neg(t: Tower, a: F12) -> F12 {
    F12 { c0: f6_neg(t, a.c0), c1: f6_neg(t, a.c1) }
}

/// Every coordinate replaced by its residue.
pub open spec fn f12_red(t: Tower, x: F12) -> F12 {
    F12 { c0: f6_red(t, x.c0), c1: f6_red(t, x.c1) }
}

/// The sum of the coordinates as integers, with no reduction.
pub open spec fn f12_zadd(x: F12, y: F12) -> F12 {
    F12 { c0: f6_zadd(x.c0, y.c0), c1: f6_zadd(x.c1, y.c1) }
}

/// The difference of the coordinates as integers, with no reduction.
pub open spec fn f12_zsub(x: F12, y: F12) -> F12 {
    F12 { c0: f6_zsub(x.c0, y.c0), c1: f6_zsub(x.c1, y.c1) }
}

/// The negation of the coordinates as integers, with no reduction.
pub open spec fn f12_zneg(x: F12) -> F12 {
    F12 { c0: f6_zneg(x.c0), c1: f6_zneg(x.c1) }
}

/// A well-formed element is its own reduction.
pub proof fn lemma_f12_wf_fixed(t: Tower, a: F12)
    requires
        t.wf(),
        a.wf(t),
    ensures
        f12_red(t, a) == a,
{
    lemma_f6_wf_fixed(t, a.c0);
    lemma_f6_wf_fixed(t, a.c1);
}

/// Zero and one are well formed.
pub proof fn lemma_f12_consts_fixed(t: Tower)
    requires
        t.wf(),
    ensures
        f12_red(t, f12_zero()) == f12_zero(),
        f12_red(t, f12_one()) == f12_one(),
        f12_zero().wf(t),
        f12_one().wf(t),
{
    lemma_f6_consts_fixed(t);
}

/// Sums, differences and negations are well formed, whatever went in.
pub proof fn lemma_f12_add_wf(t: Tower, a: F12, b: F12)
    requires
        t.wf(),
    ensures
        f12_add(t, a, b).wf(t),
        f12_sub(t, a, b).wf(t),
        f12_neg(t, a).wf(t),
{
    reveal(f12_add);
    reveal(f12_sub);
    reveal(f12_neg);
    lemma_f6_add_wf(t, a.c0, b.c0);
    lemma_f6_add_wf(t, a.c1, b.c1);
}

/// A sum depends only on the residues of its terms.
pub proof fn lemma_f12_add_lift(t: Tower, x: F12, y: F12, zx: F12, zy: F12)
    requires
        t.wf(),
        f12_red(t, x) == f12_red(t, zx),
        f12_red(t, y) == f12_red(t, zy),
    ensures
        f12_add(t, x, y) == f12_red(t, f12_zadd(zx, zy)),
        f12_red(t, f12_add(t, x, y)) == f12_red(t, f12_zadd(zx, zy)),
{
    reveal(f12_add);
    lemma_f6_add_lift(t, x.c0, y.c0, zx.c0, zy.c0);
    lemma_f6_add_lift(t, x.c1, y.c1, zx.c1, zy.c1);
}

/// A difference depends only on the residues of its terms.
pub proof fn lemma_f12_sub_lift(t: Tower, x: F12, y: F12, zx: F12, zy: F12)
    requires
        t.wf(),
        f12_red(t, x) == f12_red(t, zx),
        f12_red(t, y) == f12_red(t, zy),
    ensures
        f12_sub(t, x, y) == f12_red(t, f12_zsub(zx, zy)),
        f12_red(t, f12_sub(t, x, y)) == f12_red(t, f12_zsub(zx, zy)),
{
    reveal(f12_sub);
    lemma_f6_sub_lift(t, x.c0, y.c0, zx.c0, zy.c0);
    lemma_f6_sub_lift(t, x.c1, y.c1, zx.c1, zy.c1);
}

/// A negation depends only on the residue of its term.
pub proof fn lemma_f12_neg_lift(t: Tower, x: F12, zx: F12)
    requires
        t.wf(),
        f12_red(t, x) == f12_red(t, zx),
    ensures
        f12_neg(t, x) == f12_red(t, f12_zneg(zx)),
        f12_red(t, f12_neg(t, x)) == f12_red(t, f12_zneg(zx)),
{
    reveal(f12_neg);
    lemma_f6_neg_lift(t, x.c0, zx.c0);
    lemma_f6_neg_lift(t, x.c1, zx.c1);
}

/// `(a0 + a1·w)(b0 + b1·w)` with `w² = v`.
#[verifier::opaque]
pub open spec fn f12_mul(t: Tower, a: F12, b: F12) -> F12 {
    F12 {
        c0: f6_add(t, f6_mul(t, a.c0, b.c0), f6_nr(t, f6_mul(t, a.c1, b.c1))),
        c1: f6_add(t, f6_mul(t, a.c0, b.c1), f6_mul(t, a.c1, b.c0)),
    }
}

/// A product is well formed, whatever went in.
pub proof fn lemma_f12_mul_fixed(t: Tower, a: F12, b: F12)
    requires
        t.wf(),
    ensures
        f12_red(t, f12_mul(t, a, b)) == f12_mul(t, a, b),
        f12_mul(t, a, b).wf(t),
{
    reveal(f12_mul);
    lemma_f6_add_wf(t, f6_mul(t, a.c0, b.c0), f6_nr(t, f6_mul(t, a.c1, b.c1)));
    lemma_f6_add_wf(t, f6_mul(t, a.c0, b.c1), f6_mul(t, a.c1, b.c0));
    lemma_f12_wf_fixed(t, f12_mul(t, a, b));
}

/// Multiplication commutes.
pub proof fn lemma_f12_mul_comm(t: Tower, a: F12, b: F12)
    requires
        t.wf(),
    ensures
        f12_mul(t, a, b) == f12_mul(t, b, a),
{
    reveal(f12_mul);
    lemma_f6_mul_comm(t, b.c0, a.c0);
    lemma_f6_mul_comm(t, b.c1, a.c1);
    assert(f12_mul(t, a, b).c0 == f12_mul(t, b, a).c0);
    lemma_f6_mul_comm(t, b.c0, a.c1);
    lemma_f6_mul_comm(t, b.c1, a.c0);
    let m0 = f6_mul(t, a.c0, b.c1);
    let m1 = f6_mul(t, a.c1, b.c0);
    lemma_f6_add_lift(t, m0, m1, m0, m1);
    lemma_f6_add_lift(t, m1, m0, m1, m0);
    assert(f6_zadd(m0, m1) == f6_zadd(m1, m0));
    assert(f12_mul(t, a, b).c1 == f12_mul(t, b, a).c1);
}

/// Multiplication associates.
pub proof fn lemma_f12_mul_assoc(t: Tower, a: F12, b: F12, c: F12)
    requires
        t.wf(),
    ensures
        f12_mul(t, f12_mul(t, a, b), c) == f12_mul(t, a, f12_mul(t, b, c)),
{
    reveal(f12_mul);
    let m0 = f6_mul(t, a.c0, b.c0);
    let m1 = f6_mul(t, a.c1, b.c1);
    let m2 = f6_nr(t, m1);
    lemma_f6_mul_add(t, c.c0, m0, m2);
    lemma_f6_mul_assoc(t, a.c0, b.c0, c.c0);
    lemma_f6_nr_mul(t, m1, c.c0);
    lemma_f6_mul_assoc(t, a.c1, b.c1, c.c0);
    let m3 = f6_mul(t, a.c0, b.c1);
    let m4 = f6_mul(t, a.c1, b.c0);
    lemma_f6_mul_add(t, c.c1, m3, m4);
    lemma_f6_mul_assoc(t, a.c0, b.c1, c.c1);
    lemma_f6_mul_assoc(t, a.c1, b.c0, c.c1);
    let m5 = f6_mul(t, b.c1, c.c1);
    let m6 = f6_mul(t, a.c0, m5);
    let m7 = f6_mul(t, b.c0, c.c1);
    let m8 = f6_mul(t, a.c1, m7);
    lemma_f6_nr_add(t, m6, m8);
    let m9 = f6_mul(t, b.c0, c.c0);
    let m10 = f6_nr(t, m5);
    lemma_f6_mul_add(t, a.c0, m9, m10);
    lemma_f6_nr_mul(t, a.c0, m5);
    let m11 = f6_mul(t, b.c1, c.c0);
    lemma_f6_mul_add(t, a.c1, m7, m11);
    let m12 = f6_mul(t, a.c1, m11);
    lemma_f6_nr_add(t, m8, m12);
    let m13 = f6_mul(t, a.c0, m9);
    let m14 = f6_nr(t, m12);
    lemma_f6_add_lift(t, m13, m14, m13, m14);
    let m15 = f6_nr(t, m6);
    let m16 = f6_nr(t, m8);
    lemma_f6_add_lift(t, m15, m16, m15, m16);
    let m17 = f6_add(t, m13, m14);
    let m18 = f6_add(t, m15, m16);
    lemma_f6_add_lift(t, m17, m18, f6_zadd(m13, m14), f6_zadd(m15, m16));
    lemma_f6_add_lift(t, m13, m15, m13, m15);
    lemma_f6_add_lift(t, m16, m14, m16, m14);
    let m19 = f6_add(t, m13, m15);
    let m20 = f6_add(t, m16, m14);
    lemma_f6_add_lift(t, m19, m20, f6_zadd(m13, m15), f6_zadd(m16, m14));
    assert(f6_zadd(f6_zadd(m13, m14), f6_zadd(m15, m16)) == f6_zadd(f6_zadd(m13, m15), f6_zadd(m16, m14)));
    assert(f12_mul(t, f12_mul(t, a, b), c).c0 == f12_mul(t, a, f12_mul(t, b, c)).c0);
    lemma_f6_mul_add(t, c.c1, m0, m2);
    lemma_f6_mul_assoc(t, a.c0, b.c0, c.c1);
    lemma_f6_nr_mul(t, m1, c.c1);
    lemma_f6_mul_assoc(t, a.c1, b.c1, c.c1);
    lemma_f6_mul_add(t, c.c0, m3, m4);
    lemma_f6_mul_assoc(t, a.c0, b.c1, c.c0);
    lemma_f6_mul_assoc(t, a.c1, b.c0, c.c0);
    lemma_f6_mul_add(t, a.c0, m7, m11);
    lemma_f6_mul_add(t, a.c1, m9, m10);
    lemma_f6_nr_mul(t, a.c1, m5);
    let m21 = f6_mul(t, a.c0, m7);
    let m22 = f6_mul(t, a.c1, m5);
    let m23 = f6_nr(t, m22);
    lemma_f6_add_lift(t, m21, m23, m21, m23);
    let m24 = f6_mul(t, a.c0, m11);
    let m25 = f6_mul(t, a.c1, m9);
    lemma_f6_add_lift(t, m24, m25, m24, m25);
    let m26 = f6_add(t, m21, m23);
    let m27 = f6_add(t, m24, m25);
    lemma_f6_add_lift(t, m26, m27, f6_zadd(m21, m23), f6_zadd(m24, m25));
    lemma_f6_add_lift(t, m21, m24, m21, m24);
    lemma_f6_add_lift(t, m25, m23, m25, m23);
    let m28 = f6_add(t, m21, m24);
    let m29 = f6_add(t, m25, m23);
    lemma_f6_add_lift(t, m28, m29, f6_zadd(m21, m24), f6_zadd(m25, m23));
    assert(f6_zadd(f6_zadd(m21, m23), f6_zadd(m24, m25)) == f6_zadd(f6_zadd(m21, m24), f6_zadd(m25, m23)));
    assert(f12_mul(t, f12_mul(t, a, b), c).c1 == f12_mul(t, a, f12_mul(t, b, c)).c1);
}

/// Multiplication distributes over addition, on either side.
pub proof fn lemma_f12_mul_add(t: Tower, a: F12, b: F12, c: F12)
    requires
        t.wf(),
    ensures
        f12_mul(t, a, f12_add(t, b, c)) == f12_add(t, f12_mul(t, a, b), f12_mul(t, a, c)),
        f12_mul(t, f12_add(t, b, c), a) == f12_add(t, f12_mul(t, b, a), f12_mul(t, c, a)),
{
    reveal(f12_mul);
    reveal(f12_add);
    lemma_f6_mul_add(t, a.c0, b.c0, c.c0);
    lemma_f6_mul_add(t, a.c1, b.c1, c.c1);
    let m0 = f6_mul(t, a.c1, b.c1);
    let m1 = f6_mul(t, a.c1, c.c1);
    lemma_f6_nr_add(t, m0, m1);
    let m2 = f6_mul(t, a.c0, b.c0);
    let m3 = f6_mul(t, a.c0, c.c0);
    lemma_f6_add_lift(t, m2, m3, m2, m3);
    let m4 = f6_nr(t, m0);
    let m5 = f6_nr(t, m1);
    lemma_f6_add_lift(t, m4, m5, m4, m5);
    let m6 = f6_add(t, m2, m3);
    let m7 = f6_add(t, m4, m5);
    lemma_f6_add_lift(t, m6, m7, f6_zadd(m2, m3), f6_zadd(m4, m5));
    lemma_f6_add_lift(t, m2, m4, m2, m4);
    lemma_f6_add_lift(t, m3, m5, m3, m5);
    let m8 = f6_add(t, m2, m4);
    let m9 = f6_add(t, m3, m5);
    lemma_f6_add_lift(t, m8, m9, f6_zadd(m2, m4), f6_zadd(m3, m5));
    assert(f6_zadd(f6_zadd(m2, m3), f6_zadd(m4, m5)) == f6_zadd(f6_zadd(m2, m4), f6_zadd(m3, m5)));
    assert(f12_mul(t, a, f12_add(t, b, c)).c0 == f12_add(t, f12_mul(t, a, b), f12_mul(t, a, c)).c0);
    lemma_f6_mul_add(t, a.c0, b.c1, c.c1);
    lemma_f6_mul_add(t, a.c1, b.c0, c.c0);
    let m10 = f6_mul(t, a.c0, b.c1);
    let m11 = f6_mul(t, a.c0, c.c1);
    lemma_f6_add_lift(t, m10, m11, m10, m11);
    let m12 = f6_mul(t, a.c1, b.c0);
    let m13 = f6_mul(t, a.c1, c.c0);
    lemma_f6_add_lift(t, m12, m13, m12, m13);
    let m14 = f6_add(t, m10, m11);
    let m15 = f6_add(t, m12, m13);
    lemma_f6_add_lift(t, m14, m15, f6_zadd(m10, m11), f6_zadd(m12, m13));
    lemma_f6_add_lift(t, m10, m12, m10, m12);
    lemma_f6_add_lift(t, m11, m13, m11, m13);
    let m16 = f6_add(t, m10, m12);
    let m17 = f6_add(t, m11, m13);
    lemma_f6_add_lift(t, m16, m17, f6_zadd(m10, m12), f6_zadd(m11, m13));
    assert(f6_zadd(f6_zadd(m10, m11), f6_zadd(m12, m13)) == f6_zadd(f6_zadd(m10, m12), f6_zadd(m11, m13)));
    assert(f12_mul(t, a, f12_add(t, b, c)).c1 == f12_add(t, f12_mul(t, a, b), f12_mul(t, a, c)).c1);
    lemma_f6_mul_comm(t, b.c0, a.c0);
    lemma_f6_mul_comm(t, c.c0, a.c0);
    lemma_f6_mul_comm(t, b.c1, a.c1);
    lemma_f6_mul_comm(t, c.c1, a.c1);
    assert(f6_zadd(f6_zadd(m2, m3), f6_zadd(m4, m5)) == f6_zadd(f6_zadd(m2, m4), f6_zadd(m3, m5)));
    assert(f12_mul(t, f12_add(t, b, c), a).c0 == f12_add(t, f12_mul(t, b, a), f12_mul(t, c, a)).c0);
    lemma_f6_mul_comm(t, b.c0, a.c1);
    lemma_f6_mul_comm(t, c.c0, a.c1);
    lemma_f6_mul_comm(t, b.c1, a.c0);
    lemma_f6_mul_comm(t, c.c1, a.c0);
    lemma_f6_add_lift(t, m15, m14, f6_zadd(m12, m13), f6_zadd(m10, m11));
    lemma_f6_add_lift(t, m12, m10, m12, m10);
    lemma_f6_add_lift(t, m13, m11, m13, m11);
    let m18 = f6_add(t, m12, m10);
    let m19 = f6_add(t, m13, m11);
    lemma_f6_add_lift(t, m18, m19, f6_zadd(m12, m10), f6_zadd(m13, m11));
    assert(f6_zadd(f6_zadd(m12, m13), f6_zadd(m10, m11)) == f6_zadd(f6_zadd(m12, m10), f6_zadd(m13, m11)));
    assert(f12_mul(t, f12_add(t, b, c), a).c1 == f12_add(t, f12_mul(t, b, a), f12_mul(t, c, a)).c1);
}

/// Multiplication distributes over subtraction, on either side.
pub proof fn lemma_f12_mul_sub(t: Tower, a: F12, b: F12, c: F12)
    requires
        t.wf(),
    ensures
        f12_mul(t, a, f12_sub(t, b, c)) == f12_sub(t, f12_mul(t, a, b), f12_mul(t, a, c)),
        f12_mul(t, f12_sub(t, b, c), a) == f12_sub(t, f12_mul(t, b, a), f12_mul(t, c, a)),
{
    reveal(f12_mul);
    reveal(f12_sub);
    lemma_f6_mul_sub(t, a.c0, b.c0, c.c0);
    lemma_f6_mul_sub(t, a.c1, b.c1, c.c1);
    let m0 = f6_mul(t, a.c1, b.c1);
    let m1 = f6_mul(t, a.c1, c.c1);
    lemma_f6_nr_sub(t, m0, m1);
    let m2 = f6_mul(t, a.c0, b.c0);
    let m3 = f6_mul(t, a.c0, c.c0);
    lemma_f6_sub_lift(t, m2, m3, m2, m3);
    let m4 = f6_nr(t, m0);
    let m5 = f6_nr(t, m1);
    lemma_f6_sub_lift(t, m4, m5, m4, m5);
    let m6 = f6_sub(t, m2, m3);
    let m7 = f6_sub(t, m4, m5);
    lemma_f6_add_lift(t, m6, m7, f6_zsub(m2, m3), f6_zsub(m4, m5));
    lemma_f6_add_lift(t, m2, m4, m2, m4);
    lemma_f6_add_lift(t, m3, m5, m3, m5);
    let m8 = f6_add(t, m2, m4);
    let m9 = f6_add(t, m3, m5);
    lemma_f6_sub_lift(t, m8, m9, f6_zadd(m2, m4), f6_zadd(m3, m5));
    assert(f6_zadd(f6_zsub(m2, m3), f6_zsub(m4, m5)) == f6_zsub(f6_zadd(m2, m4), f6_zadd(m3, m5)));
    assert(f12_mul(t, a, f12_sub(t, b, c)).c0 == f12_sub(t, f12_mul(t, a, b), f12_mul(t, a, c)).c0);
    lemma_f6_mul_sub(t, a.c0, b.c1, c.c1);
    lemma_f6_mul_sub(t, a.c1, b.c0, c.c0);
    let m10 = f6_mul(t, a.c0, b.c1);
    let m11 = f6_mul(t, a.c0, c.c1);
    lemma_f6_sub_lift(t, m10, m11, m10, m11);
    let m12 = f6_mul(t, a.c1, b.c0);
    let m13 = f6_mul(t, a.c1, c.c0);
    lemma_f6_sub_lift(t, m12, m13, m12, m13);
    let m14 = f6_sub(t, m10, m11);
    let m15 = f6_sub(t, m12, m13);
    lemma_f6_add_lift(t, m14, m15, f6_zsub(m10, m11), f6_zsub(m12, m13));
    lemma_f6_add_lift(t, m10, m12, m10, m12);
    lemma_f6_add_lift(t, m11, m13, m11, m13);
    let m16 = f6_add(t, m10, m12);
    let m17 = f6_add(t, m11, m13);
    lemma_f6_sub_lift(t, m16, m17, f6_zadd(m10, m12), f6_zadd(m11, m13));
    assert(f6_zadd(f6_zsub(m10, m11), f6_zsub(m12, m13)) == f6_zsub(f6_zadd(m10, m12), f6_zadd(m11, m13)));
    assert(f12_mul(t, a, f12_sub(t, b, c)).c1 == f12_sub(t, f12_mul(t, a, b), f12_mul(t, a, c)).c1);
    lemma_f6_mul_comm(t, b.c0, a.c0);
    lemma_f6_mul_comm(t, c.c0, a.c0);
    lemma_f6_mul_comm(t, b.c1, a.c1);
    lemma_f6_mul_comm(t, c.c1, a.c1);
    assert(f6_zadd(f6_zsub(m2, m3), f6_zsub(m4, m5)) == f6_zsub(f6_zadd(m2, m4), f6_zadd(m3, m5)));
    assert(f12_mul(t, f12_sub(t, b, c), a).c0 == f12_sub(t, f12_mul(t, b, a), f12_mul(t, c, a)).c0);
    lemma_f6_mul_comm(t, b.c0, a.c1);
    lemma_f6_mul_comm(t, c.c0, a.c1);
    lemma_f6_mul_comm(t, b.c1, a.c0);
    lemma_f6_mul_comm(t, c.c1, a.c0);
    lemma_f6_add_lift(t, m15, m14, f6_zsub(m12, m13), f6_zsub(m10, m11));
    lemma_f6_add_lift(t, m12, m10, m12, m10);
    lemma_f6_add_lift(t, m13, m11, m13, m11);
    let m18 = f6_add(t, m12, m10);
    let m19 = f6_add(t, m13, m11);
    lemma_f6_sub_lift(t, m18, m19, f6_zadd(m12, m10), f6_zadd(m13, m11));
    assert(f6_zadd(f6_zsub(m12, m13), f6_zsub(m10, m11)) == f6_zsub(f6_zadd(m12, m10), f6_zadd(m13, m11)));
    assert(f12_mul(t, f12_sub(t, b, c), a).c1 == f12_sub(t, f12_mul(t, b, a), f12_mul(t, c, a)).c1);
}

/// A sign moves out of a product.
pub proof fn lemma_f12_mul_neg(t: Tower, a: F12, b: F12)
    requires
        t.wf(),
    ensures
        f12_mul(t, a, f12_neg(t, b)) == f12_neg(t, f12_mul(t, a, b)),
        f12_mul(t, f12_neg(t, b), a) == f12_neg(t, f12_mul(t, b, a)),
{
    reveal(f12_mul);
    reveal(f12_neg);
    lemma_f6_mul_neg(t, a.c0, b.c0);
    lemma_f6_mul_neg(t, a.c1, b.c1);
    let m0 = f6_mul(t, a.c1, b.c1);
    lemma_f6_nr_neg(t, m0);
    let m1 = f6_mul(t, a.c0, b.c0);
    lemma_f6_neg_lift(t, m1, m1);
    let m2 = f6_nr(t, m0);
    lemma_f6_neg_lift(t, m2, m2);
    let m3 = f6_neg(t, m1);
    let m4 = f6_neg(t, m2);
    lemma_f6_add_lift(t, m3, m4, f6_zneg(m1), f6_zneg(m2));
    lemma_f6_add_lift(t, m1, m2, m1, m2);
    let m5 = f6_add(t, m1, m2);
    lemma_f6_neg_lift(t, m5, f6_zadd(m1, m2));
    assert(f6_zadd(f6_zneg(m1), f6_zneg(m2)) == f6_zneg(f6_zadd(m1, m2)));
    assert(f12_mul(t, a, f12_neg(t, b)).c0 == f12_neg(t, f12_mul(t, a, b)).c0);
    lemma_f6_mul_neg(t, a.c0, b.c1);
    lemma_f6_mul_neg(t, a.c1, b.c0);
    let m6 = f6_mul(t, a.c0, b.c1);
    lemma_f6_neg_lift(t, m6, m6);
    let m7 = f6_mul(t, a.c1, b.c0);
    lemma_f6_neg_lift(t, m7, m7);
    let m8 = f6_neg(t, m6);
    let m9 = f6_neg(t, m7);
    lemma_f6_add_lift(t, m8, m9, f6_zneg(m6), f6_zneg(m7));
    lemma_f6_add_lift(t, m6, m7, m6, m7);
    let m10 = f6_add(t, m6, m7);
    lemma_f6_neg_lift(t, m10, f6_zadd(m6, m7));
    assert(f6_zadd(f6_zneg(m6), f6_zneg(m7)) == f6_zneg(f6_zadd(m6, m7)));
    assert(f12_mul(t, a, f12_neg(t, b)).c1 == f12_neg(t, f12_mul(t, a, b)).c1);
    lemma_f6_mul_comm(t, b.c0, a.c0);
    lemma_f6_mul_comm(t, b.c1, a.c1);
    assert(f6_zadd(f6_zneg(m1), f6_zneg(m2)) == f6_zneg(f6_zadd(m1, m2)));
    assert(f12_mul(t, f12_neg(t, b), a).c0 == f12_neg(t, f12_mul(t, b, a)).c0);
    lemma_f6_mul_comm(t, b.c0, a.c1);
    lemma_f6_mul_comm(t, b.c1, a.c0);
    lemma_f6_add_lift(t, m9, m8, f6_zneg(m7), f6_zneg(m6));
    lemma_f6_add_lift(t, m7, m6, m7, m6);
    let m11 = f6_add(t, m7, m6);
    lemma_f6_neg_lift(t, m11, f6_zadd(m7, m6));
    assert(f6_zadd(f6_zneg(m7), f6_zneg(m6)) == f6_zneg(f6_zadd(m7, m6)));
    assert(f12_mul(t, f12_neg(t, b), a).c1 == f12_neg(t, f12_mul(t, b, a)).c1);
}

/// Zero absorbs.
pub proof fn lemma_f12_mul_zero(t: Tower, a: F12)
    requires
        t.wf(),
    ensures
        f12_mul(t, a, f12_zero()) == f12_zero(),
        f12_mul(t, f12_zero(), a) == f12_zero(),
{
    reveal(f12_mul);
    lemma_f6_mul_zero(t, a.c0);
    lemma_f6_mul_zero(t, a.c1);
    lemma_f6_nr_zero(t);
    lemma_f6_add_lift(t, f6_zero(), f6_zero(), f6_zero(), f6_zero());
    lemma_f6_consts_fixed(t);
    assert(f6_zadd(f6_zero(), f6_zero()) == f6_zero());
    assert(f12_mul(t, a, f12_zero()).c0 == f12_zero().c0);
    assert(f6_zadd(f6_zero(), f6_zero()) == f6_zero());
    assert(f12_mul(t, a, f12_zero()).c1 == f12_zero().c1);
    assert(f6_zadd(f6_zero(), f6_zero()) == f6_zero());
    assert(f12_mul(t, f12_zero(), a).c0 == f12_zero().c0);
    assert(f6_zadd(f6_zero(), f6_zero()) == f6_zero());
    assert(f12_mul(t, f12_zero(), a).c1 == f12_zero().c1);
}

/// One is neutral.
pub proof fn lemma_f12_mul_one(t: Tower, a: F12)
    requires
        t.wf(),
        a.wf(t),
    ensures
        f12_mul(t, a, f12_one()) == a,
        f12_mul(t, f12_one(), a) == a,
{
    reveal(f12_mul);
    lemma_f6_wf_fixed(t, a.c0);
    lemma_f6_mul_one(t, a.c0);
    lemma_f6_mul_zero(t, a.c1);
    lemma_f6_nr_zero(t);
    lemma_f6_add_lift(t, a.c0, f6_zero(), a.c0, f6_zero());
    assert(f6_zadd(a.c0, f6_zero()) == a.c0);
    assert(f12_mul(t, a, f12_one()).c0 == a.c0);
    lemma_f6_mul_zero(t, a.c0);
    lemma_f6_wf_fixed(t, a.c1);
    lemma_f6_mul_one(t, a.c1);
    lemma_f6_add_lift(t, f6_zero(), a.c1, f6_zero(), a.c1);
    assert(f6_zadd(f6_zero(), a.c1) == a.c1);
    assert(f12_mul(t, a, f12_one()).c1 == a.c1);
    assert(f6_zadd(a.c0, f6_zero()) == a.c0);
    assert(f12_mul(t, f12_one(), a).c0 == a.c0);
    lemma_f6_add_lift(t, a.c1, f6_zero(), a.c1, f6_zero());
    assert(f6_zadd(a.c1, f6_zero()) == a.c1);
    assert(f12_mul(t, f12_one(), a).c1 == a.c1);
}


/// `a·a`.
pub open spec fn f12_square(t: Tower, a: F12) -> F12 {
    f12_mul(t, a, a)
}

/// `a` multiplied by itself `n` times; one where `n` is zero.
pub open spec fn f12_pow(t: Tower, a: F12, n: nat) -> F12
    decreases n,
{
    if n == 0 {
        f12_one()
    } else {
        f12_mul(t, f12_pow(t, a, (n - 1) as nat), a)
    }
}

/// The residue `k` as an element of the tower.
pub open spec fn f12_from_fp(k: int) -> F12 {
    F12 { c0: f6_from_f2(f2_from_fp(k)), c1: f6_zero() }
}

/// The integer `n` as an element of the tower.
pub open spec fn f12_from_int(t: Tower, n: int) -> F12 {
    f12_from_fp(n % t.p)
}

/// Every coordinate multiplied by the residue `k`.
pub open spec fn f12_scale(t: Tower, a: F12, k: int) -> F12 {
    F12 { c0: f6_scale(t, a.c0, k), c1: f6_scale(t, a.c1, k) }
}

/// `a0 - a1·w`.
pub open spec fn f12_conjugate(t: Tower, a: F12) -> F12 {
    F12 { c0: a.c0, c1: f6_neg(t, a.c1) }
}

/// The Frobenius map of the given power: both halves are mapped, and each
/// coordinate of the `w` half is twisted by the tabulated coefficient.
pub open spec fn f12_frobenius(t: Tower, a: F12, power: nat) -> F12 {
    F12 {
        c0: f6_frobenius(t, a.c0, power),
        c1: f6_mul_by_f2(t, f6_frobenius(t, a.c1, power), t.frob12[(power % 12) as int]),
    }
}

/// `a0² - v·a1²`, the product of `a` with its conjugate.
pub open spec fn f12_norm(t: Tower, a: F12) -> F6 {
    f6_sub(t, f6_mul(t, a.c0, a.c0), f6_nr(t, f6_mul(t, a.c1, a.c1)))
}

/// The conjugate divided by the norm, where the norm has an inverse.
pub open spec fn f12_inverse(t: Tower, a: F12) -> Option<F12> {
    match f6_inverse(t, f12_norm(t, a)) {
        Some(n) => Some(F12 { c0: f6_mul(t, a.c0, n), c1: f6_neg(t, f6_mul(t, a.c1, n)) }),
        None => None,
    }
}

/// The element whose coordinates at `1`, `w` and `v·w` are `c0`, `c3` and
/// `c4`, the others zero.
pub open spec fn f12_sparse_034(c0: F2, c3: F2, c4: F2) -> F12 {
    F12 { c0: f6_from_f2(c0), c1: f6_sparse_01(c3, c4) }
}

/// The element whose coordinates at `1`, `v` and `v·w` are `c0`, `c1` and
/// `c4`, the others zero.
pub open spec fn f12_sparse_014(c0: F2, c1: F2, c4: F2) -> F12 {
    F12 { c0: f6_sparse_01(c0, c1), c1: f6_sparse_1(c4) }
}

/// The product from three multiplications below: the cross term is
/// `(a0 + a1)(b0 + b1) - a0·b0 - a1·b1`.
pub proof fn lemma_f12_mul_karatsuba(t: Tower, a: F12, b: F12)
    requires
        t.wf(),
    ensures
        (F12 { c0: f6_add(t, f6_mul(t, a.c0, b.c0), f6_nr(t, f6_mul(t, a.c1, b.c1))), c1: f6_sub(t, f6_sub(t, f6_mul(t, f6_add(t, a.c0, a.c1), f6_add(t, b.c0, b.c1)), f6_mul(t, a.c0, b.c0)), f6_mul(t, a.c1, b.c1)) }) == f12_mul(t, a, b),
{
    reveal(f12_mul);
    let m0 = f6_add(t, b.c0, b.c1);
    lemma_f6_mul_add(t, m0, a.c0, a.c1);
    lemma_f6_mul_add(t, a.c0, b.c0, b.c1);
    lemma_f6_mul_add(t, a.c1, b.c0, b.c1);
    let m1 = f6_mul(t, a.c0, b.c0);
    let m2 = f6_mul(t, a.c0, b.c1);
    lemma_f6_add_lift(t, m1, m2, m1, m2);
    let m3 = f6_mul(t, a.c1, b.c0);
    let m4 = f6_mul(t, a.c1, b.c1);
    lemma_f6_add_lift(t, m3, m4, m3, m4);
    let m5 = f6_add(t, m1, m2);
    let m6 = f6_add(t, m3, m4);
    lemma_f6_add_lift(t, m5, m6, f6_zadd(m1, m2), f6_zadd(m3, m4));
    let m7 = f6_add(t, m5, m6);
    lemma_f6_sub_lift(t, m7, m1, f6_zadd(f6_zadd(m1, m2), f6_zadd(m3, m4)), m1);
    let m8 = f6_sub(t, m7, m1);
    lemma_f6_sub_lift(t, m8, m4, f6_zsub(f6_zadd(f6_zadd(m1, m2), f6_zadd(m3, m4)), m1), m4);
    lemma_f6_add_lift(t, m2, m3, m2, m3);
    assert(f6_zsub(f6_zsub(f6_zadd(f6_zadd(m1, m2), f6_zadd(m3, m4)), m1), m4) == f6_zadd(m2, m3));
    assert((F12 { c0: f6_add(t, f6_mul(t, a.c0, b.c0), f6_nr(t, f6_mul(t, a.c1, b.c1))), c1: f6_sub(t, f6_sub(t, f6_mul(t, f6_add(t, a.c0, a.c1), f6_add(t, b.c0, b.c1)), f6_mul(t, a.c0, b.c0)), f6_mul(t, a.c1, b.c1)) }).c1 == f12_mul(t, a, b).c1);
}

/// The square from two multiplications below.
pub proof fn lemma_f12_square_complex(t: Tower, a: F12)
    requires
        t.wf(),
    ensures
        (F12 { c0: f6_sub(t, f6_sub(t, f6_mul(t, f6_add(t, f6_nr(t, a.c1), a.c0), f6_add(t, a.c0, a.c1)), f6_mul(t, a.c0, a.c1)), f6_nr(t, f6_mul(t, a.c0, a.c1))), c1: f6_add(t, f6_mul(t, a.c0, a.c1), f6_mul(t, a.c0, a.c1)) }) == f12_mul(t, a, a),
{
    reveal(f12_mul);
    let m0 = f6_add(t, a.c0, a.c1);
    let m1 = f6_nr(t, a.c1);
    lemma_f6_mul_add(t, m0, m1, a.c0);
    lemma_f6_mul_add(t, m1, a.c0, a.c1);
    lemma_f6_nr_mul(t, a.c1, a.c0);
    lemma_f6_mul_comm(t, a.c1, a.c0);
    lemma_f6_nr_mul(t, a.c1, a.c1);
    lemma_f6_mul_add(t, a.c0, a.c0, a.c1);
    let m2 = f6_mul(t, a.c0, a.c1);
    let m3 = f6_nr(t, m2);
    let m4 = f6_mul(t, a.c1, a.c1);
    let m5 = f6_nr(t, m4);
    lemma_f6_add_lift(t, m3, m5, m3, m5);
    let m6 = f6_mul(t, a.c0, a.c0);
    lemma_f6_add_lift(t, m6, m2, m6, m2);
    let m7 = f6_add(t, m3, m5);
    let m8 = f6_add(t, m6, m2);
    lemma_f6_add_lift(t, m7, m8, f6_zadd(m3, m5), f6_zadd(m6, m2));
    let m9 = f6_add(t, m7, m8);
    lemma_f6_sub_lift(t, m9, m2, f6_zadd(f6_zadd(m3, m5), f6_zadd(m6, m2)), m2);
    let m10 = f6_sub(t, m9, m2);
    lemma_f6_sub_lift(t, m10, m3, f6_zsub(f6_zadd(f6_zadd(m3, m5), f6_zadd(m6, m2)), m2), m3);
    lemma_f6_add_lift(t, m6, m5, m6, m5);
    assert(f6_zsub(f6_zsub(f6_zadd(f6_zadd(m3, m5), f6_zadd(m6, m2)), m2), m3) == f6_zadd(m6, m5));
    assert((F12 { c0: f6_sub(t, f6_sub(t, f6_mul(t, f6_add(t, f6_nr(t, a.c1), a.c0), f6_add(t, a.c0, a.c1)), f6_mul(t, a.c0, a.c1)), f6_nr(t, f6_mul(t, a.c0, a.c1))), c1: f6_add(t, f6_mul(t, a.c0, a.c1), f6_mul(t, a.c0, a.c1)) }).c0 == f12_mul(t, a, a).c0);
    assert((F12 { c0: f6_sub(t, f6_sub(t, f6_mul(t, f6_add(t, f6_nr(t, a.c1), a.c0), f6_add(t, a.c0, a.c1)), f6_mul(t, a.c0, a.c1)), f6_nr(t, f6_mul(t, a.c0, a.c1))), c1: f6_add(t, f6_mul(t, a.c0, a.c1), f6_mul(t, a.c0, a.c1)) }).c1 == f12_mul(t, a, a).c1);
}

/// The product with the cross term taken as `(x0 + x1)(d0 + d1) - (x0·d0 + x1·d1)`.
pub proof fn lemma_f12_mul_cross_sum(t: Tower, x: F12, d: F12)
    requires
        t.wf(),
    ensures
        (F12 { c0: f6_add(t, f6_mul(t, x.c0, d.c0), f6_nr(t, f6_mul(t, x.c1, d.c1))), c1: f6_sub(t, f6_mul(t, f6_add(t, x.c0, x.c1), f6_add(t, d.c0, d.c1)), f6_add(t, f6_mul(t, x.c0, d.c0), f6_mul(t, x.c1, d.c1))) }) == f12_mul(t, x, d),
{
    reveal(f12_mul);
    lemma_f6_mul_comm(t, x.c0, d.c0);
    lemma_f6_mul_comm(t, x.c1, d.c1);
    assert((F12 { c0: f6_add(t, f6_mul(t, x.c0, d.c0), f6_nr(t, f6_mul(t, x.c1, d.c1))), c1: f6_sub(t, f6_mul(t, f6_add(t, x.c0, x.c1), f6_add(t, d.c0, d.c1)), f6_add(t, f6_mul(t, x.c0, d.c0), f6_mul(t, x.c1, d.c1))) }).c0 == f12_mul(t, x, d).c0);
    let m0 = f6_add(t, d.c0, d.c1);
    lemma_f6_mul_add(t, m0, x.c0, x.c1);
    lemma_f6_mul_add(t, x.c0, d.c0, d.c1);
    lemma_f6_mul_comm(t, x.c0, d.c1);
    lemma_f6_mul_add(t, x.c1, d.c0, d.c1);
    lemma_f6_mul_comm(t, x.c1, d.c0);
    let m1 = f6_mul(t, d.c0, x.c0);
    let m2 = f6_mul(t, d.c1, x.c0);
    lemma_f6_add_lift(t, m1, m2, m1, m2);
    let m3 = f6_mul(t, d.c0, x.c1);
    let m4 = f6_mul(t, d.c1, x.c1);
    lemma_f6_add_lift(t, m3, m4, m3, m4);
    let m5 = f6_add(t, m1, m2);
    let m6 = f6_add(t, m3, m4);
    lemma_f6_add_lift(t, m5, m6, f6_zadd(m1, m2), f6_zadd(m3, m4));
    lemma_f6_add_lift(t, m1, m4, m1, m4);
    let m7 = f6_add(t, m5, m6);
    let m8 = f6_add(t, m1, m4);
    lemma_f6_sub_lift(t, m7, m8, f6_zadd(f6_zadd(m1, m2), f6_zadd(m3, m4)), f6_zadd(m1, m4));
    lemma_f6_add_lift(t, m2, m3, m2, m3);
    assert(f6_zsub(f6_zadd(f6_zadd(m1, m2), f6_zadd(m3, m4)), f6_zadd(m1, m4)) == f6_zadd(m2, m3));
    assert((F12 { c0: f6_add(t, f6_mul(t, x.c0, d.c0), f6_nr(t, f6_mul(t, x.c1, d.c1))), c1: f6_sub(t, f6_mul(t, f6_add(t, x.c0, x.c1), f6_add(t, d.c0, d.c1)), f6_add(t, f6_mul(t, x.c0, d.c0), f6_mul(t, x.c1, d.c1))) }).c1 == f12_mul(t, x, d).c1);
}

/// The product with the cross term taken as `(x1 + x0)(d0 + d1) - x0·d0 - x1·d1`.
pub proof fn lemma_f12_mul_cross_steps(t: Tower, x: F12, d: F12)
    requires
        t.wf(),
    ensures
        (F12 { c0: f6_add(t, f6_nr(t, f6_mul(t, x.c1, d.c1)), f6_mul(t, x.c0, d.c0)), c1: f6_sub(t, f6_sub(t, f6_mul(t, f6_add(t, x.c1, x.c0), f6_add(t, d.c0, d.c1)), f6_mul(t, x.c0, d.c0)), f6_mul(t, x.c1, d.c1)) }) == f12_mul(t, x, d),
{
    reveal(f12_mul);
    lemma_f6_mul_comm(t, x.c1, d.c1);
    lemma_f6_mul_comm(t, x.c0, d.c0);
    let m0 = f6_mul(t, d.c1, x.c1);
    let m1 = f6_nr(t, m0);
    let m2 = f6_mul(t, d.c0, x.c0);
    lemma_f6_add_lift(t, m1, m2, m1, m2);
    lemma_f6_add_lift(t, m2, m1, m2, m1);
    assert(f6_zadd(m1, m2) == f6_zadd(m2, m1));
    assert((F12 { c0: f6_add(t, f6_nr(t, f6_mul(t, x.c1, d.c1)), f6_mul(t, x.c0, d.c0)), c1: f6_sub(t, f6_sub(t, f6_mul(t, f6_add(t, x.c1, x.c0), f6_add(t, d.c0, d.c1)), f6_mul(t, x.c0, d.c0)), f6_mul(t, x.c1, d.c1)) }).c0 == f12_mul(t, x, d).c0);
    let m3 = f6_add(t, d.c0, d.c1);
    lemma_f6_mul_add(t, m3, x.c1, x.c0);
    lemma_f6_mul_add(t, x.c1, d.c0, d.c1);
    lemma_f6_mul_comm(t, x.c1, d.c0);
    lemma_f6_mul_add(t, x.c0, d.c0, d.c1);
    lemma_f6_mul_comm(t, x.c0, d.c1);
    let m4 = f6_mul(t, d.c0, x.c1);
    lemma_f6_add_lift(t, m4, m0, m4, m0);
    let m5 = f6_mul(t, d.c1, x.c0);
    lemma_f6_add_lift(t, m2, m5, m2, m5);
    let m6 = f6_add(t, m4, m0);
    let m7 = f6_add(t, m2, m5);
    lemma_f6_add_lift(t, m6, m7, f6_zadd(m4, m0), f6_zadd(m2, m5));
    let m8 = f6_add(t, m6, m7);
    lemma_f6_sub_lift(t, m8, m2, f6_zadd(f6_zadd(m4, m0), f6_zadd(m2, m5)), m2);
    let m9 = f6_sub(t, m8, m2);
    lemma_f6_sub_lift(t, m9, m0, f6_zsub(f6_zadd(f6_zadd(m4, m0), f6_zadd(m2, m5)), m2), m0);
    lemma_f6_add_lift(t, m5, m4, m5, m4);
    assert(f6_zsub(f6_zsub(f6_zadd(f6_zadd(m4, m0), f6_zadd(m2, m5)), m2), m0) == f6_zadd(m5, m4));
    assert((F12 { c0: f6_add(t, f6_nr(t, f6_mul(t, x.c1, d.c1)), f6_mul(t, x.c0, d.c0)), c1: f6_sub(t, f6_sub(t, f6_mul(t, f6_add(t, x.c1, x.c0), f6_add(t, d.c0, d.c1)), f6_mul(t, x.c0, d.c0)), f6_mul(t, x.c1, d.c1)) }).c1 == f12_mul(t, x, d).c1);
}

/// `a` times its scaled conjugate is the norm times the scale.
pub proof fn lemma_f12_mul_conjugate_over(t: Tower, a: F12, n: F6)
    requires
        t.wf(),
    ensures
        f12_mul(t, a, (F12 { c0: f6_mul(t, a.c0, n), c1: f6_neg(t, f6_mul(t, a.c1, n)) })) == (F12 { c0: f6_mul(t, f12_norm(t, a), n), c1: f6_zero() }),
{
    reveal(f12_mul);
    let m0 = f6_mul(t, a.c1, n);
    lemma_f6_mul_neg(t, a.c1, m0);
    let m1 = f6_mul(t, a.c1, m0);
    lemma_f6_nr_neg(t, m1);
    let m2 = f6_mul(t, a.c0, a.c0);
    let m3 = f6_mul(t, a.c1, a.c1);
    let m4 = f6_nr(t, m3);
    lemma_f6_mul_sub(t, n, m2, m4);
    lemma_f6_mul_assoc(t, a.c0, a.c0, n);
    lemma_f6_nr_mul(t, m3, n);
    lemma_f6_mul_assoc(t, a.c1, a.c1, n);
    let m5 = f6_nr(t, m1);
    lemma_f6_neg_lift(t, m5, m5);
    let m6 = f6_mul(t, a.c0, n);
    let m7 = f6_mul(t, a.c0, m6);
    let m8 = f6_neg(t, m5);
    lemma_f6_add_lift(t, m7, m8, m7, f6_zneg(m5));
    lemma_f6_sub_lift(t, m7, m5, m7, m5);
    assert(f6_zadd(m7, f6_zneg(m5)) == f6_zsub(m7, m5));
    assert(f12_mul(t, a, (F12 { c0: f6_mul(t, a.c0, n), c1: f6_neg(t, f6_mul(t, a.c1, n)) })).c0 == (F12 { c0: f6_mul(t, f12_norm(t, a), n), c1: f6_zero() }).c0);
    lemma_f6_mul_neg(t, a.c0, m0);
    lemma_f6_mul_left_comm(t, a.c1, a.c0, n);
    let m9 = f6_mul(t, a.c0, m0);
    lemma_f6_neg_lift(t, m9, m9);
    let m10 = f6_neg(t, m9);
    lemma_f6_add_lift(t, m10, m9, f6_zneg(m9), m9);
    lemma_f6_consts_fixed(t);
    assert(f6_zadd(f6_zneg(m9), m9) == f6_zero());
    assert(f12_mul(t, a, (F12 { c0: f6_mul(t, a.c0, n), c1: f6_neg(t, f6_mul(t, a.c1, n)) })).c1 == (F12 { c0: f6_mul(t, f12_norm(t, a), n), c1: f6_zero() }).c1);
}

/// What `f12_inverse` returns is an inverse.
pub proof fn lemma_f12_inverse_mul(t: Tower, a: F12)
    requires
        t.wf(),
        f12_inverse(t, a) is Some,
    ensures
        f12_mul(t, a, f12_inverse(t, a).unwrap()) == f12_one(),
        f12_inverse(t, a).unwrap().wf(t),
{
    let n = f6_inverse(t, f12_norm(t, a)).unwrap();
    lemma_f6_inverse_mul(t, f12_norm(t, a));
    lemma_f12_mul_conjugate_over(t, a, n);
    lemma_f6_mul_fixed(t, a.c0, n);
    lemma_f6_add_wf(t, f6_mul(t, a.c1, n), f6_zero());
}

/// The norm of zero is zero.
pub proof fn lemma_f12_norm_zero(t: Tower)
    requires
        t.wf(),
    ensures
        f12_norm(t, f12_zero()) == f6_zero(),
{
    lemma_f6_mul_zero(t, f6_zero());
    lemma_f6_nr_zero(t);
    lemma_f6_sub_lift(t, f6_zero(), f6_zero(), f6_zero(), f6_zero());
    lemma_f6_consts_fixed(t);
    assert(f6_zsub(f6_zero(), f6_zero()) == f6_zero());
}

/// Zero has no inverse.
pub proof fn lemma_f12_inverse_zero(t: Tower)
    requires
        t.wf(),
    ensures
        f12_inverse(t, f12_zero()) is None,
{
    lemma_f12_norm_zero(t);
    lemma_f6_inverse_zero(t);
}

/// Every power is well formed.
pub proof fn lemma_f12_pow_wf(t: Tower, a: F12, n: nat)
    requires
        t.wf(),
    ensures
        f12_pow(t, a, n).wf(t),
{
    if n == 0 {
        lemma_f12_consts_fixed(t);
    } else {
        lemma_f12_mul_fixed(t, f12_pow(t, a, (n - 1) as nat), a);
    }
}

/// `a^(m + n) = a^m · a^n`.
pub proof fn lemma_f12_pow_add(t: Tower, a: F12, m: nat, n: nat)
    requires
        t.wf(),
    ensures
        f12_pow(t, a, m + n) == f12_mul(t, f12_pow(t, a, m), f12_pow(t, a, n)),
    decreases n,
{
    if n == 0 {
        lemma_f12_pow_wf(t, a, m);
        lemma_f12_mul_one(t, f12_pow(t, a, m));
    } else {
        lemma_f12_pow_add(t, a, m, (n - 1) as nat);
        lemma_f12_mul_assoc(t, f12_pow(t, a, m), f12_pow(t, a, (n - 1) as nat), a);
        assert(((m + n) - 1) as nat == m + (n - 1) as nat);
    }
}

/// `a^1 = a`.
pub proof fn lemma_f12_pow_one(t: Tower, a: F12)
    requires
        t.wf(),
        a.wf(t),
    ensures
        f12_pow(t, a, 1) == a,
{
    lemma_f12_mul_one(t, a);
    assert(f12_pow(t, a, 0) == f12_one());
}

/// One step of square-and-multiply: squaring doubles the exponent, and a
/// further factor `a` adds one to it.
pub proof fn lemma_f12_pow_step(t: Tower, a: F12, n: nat)
    requires
        t.wf(),
        a.wf(t),
    ensures
        f12_square(t, f12_pow(t, a, n)) == f12_pow(t, a, 2 * n),
        f12_mul(t, f12_square(t, f12_pow(t, a, n)), a) == f12_pow(t, a, 2 * n + 1),
{
    lemma_f12_pow_add(t, a, n, n);
    lemma_f12_pow_add(t, a, 2 * n, 1);
    lemma_f12_pow_one(t, a);
}

} // verus!
