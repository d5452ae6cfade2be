use vstd::prelude::*;
use crate::tower::{F2, Tower};
use crate::alg_fp::{
    fp_add, fp_sub, fp_neg, fp_mul, fp_nr, lemma_fp_wf_fixed, lemma_fp_consts_fixed,
    lemma_fp_add_wf, lemma_fp_add_lift, lemma_fp_sub_lift, lemma_fp_neg_lift, lemma_fp_mul_comm,
    lemma_fp_mul_assoc, lemma_fp_mul_left_comm, lemma_fp_mul_add, lemma_fp_mul_sub,
    lemma_fp_mul_neg, lemma_fp_mul_zero, lemma_fp_mul_one, lemma_fp_mul_fixed, lemma_fp_nr_add,
    lemma_fp_nr_sub, lemma_fp_nr_neg, lemma_fp_nr_mul, lemma_fp_nr_zero, fp_inverse,
    lemma_fp_inverse_mul, lemma_fp_zero_not_invertible,
};

verus! {

/// Zero.
pub open spec fn f2_zero() -> F2 {
    F2 { c0: 0, c1: 0 }
}

/// One.
pub open spec fn f2_one() -> F2 {
    F2 { c0: 1, c1: 0 }
}

/// The sum, coordinate by coordinate.
#[verifier::opaque]
pub open spec fn f2_add(t: Tower, a: F2, b: F2) -> F2 {
    F2 { c0: fp_add(t.p, a.c0, b.c0), c1: fp_add(t.p, a.c1, b.c1) }
}

/// The difference, coordinate by coordinate.
#[verifier::opaque]
pub open spec fn f2_sub(t: Tower, a: F2, b: F2) -> F2 {
    F2 { c0: fp_sub(t.p, a.c0, b.c0), c1: fp_sub(t.p, a.c1, b.c1) }
}

/// The negation, coordinate by coordinate.
#[verifier::opaque]
pub open spec fn f2_neg(t: Tower, a: F2) -> F2 {
    F2 { c0: fp_neg(t.p, a.c0), c1: fp_neg(t.p, a.c1) }
}

/// Every coordinate replaced by its residue.
pub open spec fn f2_red(t: Tower, x: F2) -> F2 {
    F2 { c0: x.c0 % t.p, c1: x.c1 % t.p }
}

/// The sum of the coordinates as integers, with no reduction.
pub open spec fn f2_zadd(x: F2, y: F2) -> F2 {
    F2 { c0: x.c0 + y.c0, c1: x.c1 + y.c1 }
}

/// The difference of the coordinates as integers, with no reduction.
pub open spec fn f2_zsub(x: F2, y: F2) -> F2 {
    F2 { c0: x.c0 - y.c0, c1: x.c1 - y.c1 }
}

/// The negation of the coordinates as integers, with no reduction.
pub open spec fn f2_zneg(x: F2) -> F2 {
    F2 { c0: -x.c0, c1: -x.c1 }
}

/// A well-formed element is its own reduction.
pub proof fn lemma_f2_wf_fixed(t: Tower, a: F2)
    requires
        t.wf(),
        a.wf(t),
    ensures
        f2_red(t, a) == a,
{
    lemma_fp_wf_fixed(t.p, a.c0);
    lemma_fp_wf_fixed(t.p, a.c1);
}

/// Zero and one are well formed.
pub proof fn lemma_f2_consts_fixed(t: Tower)
    requires
        t.wf(),
    ensures
        f2_red(t, f2_zero()) == f2_zero(),
        f2_red(t, f2_one()) == f2_one(),
        f2_zero().wf(t),
        f2_one().wf(t),
{
    lemma_fp_consts_fixed(t.p);
}

/// Sums, differences and negations are well formed, whatever went in.
pub proof fn lemma_f2_add_wf(t: Tower, a: F2, b: F2)
    requires
        t.wf(),
    ensures
        f2_add(t, a, b).wf(t),
        f2_sub(t, a, b).wf(t),
        f2_neg(t, a).wf(t),
{
    reveal(f2_add);
    reveal(f2_sub);
    reveal(f2_neg);
    lemma_fp_add_wf(t.p, a.c0, b.c0);
    lemma_fp_add_wf(t.p, a.c1, b.c1);
}

/// A sum depends only on the residues of its terms.
pub proof fn lemma_f2_add_lift(t: Tower, x: F2, y: F2, zx: F2, zy: F2)
    requires
        t.wf(),
        f2_red(t, x) == f2_red(t, zx),
        f2_red(t, y) == f2_red(t, zy),
    ensures
        f2_add(t, x, y) == f2_red(t, f2_zadd(zx, zy)),
        f2_red(t, f2_add(t, x, y)) == f2_red(t, f2_zadd(zx, zy)),
{
    reveal(f2_add);
    lemma_fp_add_lift(t.p, x.c0, y.c0, zx.c0, zy.c0);
    lemma_fp_add_lift(t.p, x.c1, y.c1, zx.c1, zy.c1);
}

/// A difference depends only on the residues of its terms.
pub proof fn lemma_f2_sub_lift(t: Tower, x: F2, y: F2, zx: F2, zy: F2)
    requires
        t.wf(),
        f2_red(t, x) == f2_red(t, zx),
        f2_red(t, y) == f2_red(t, zy),
    ensures
        f2_sub(t, x, y) == f2_red(t, f2_zsub(zx, zy)),
        f2_red(t, f2_sub(t, x, y)) == f2_red(t, f2_zsub(zx, zy)),
{
    reveal(f2_sub);
    lemma_fp_sub_lift(t.p, x.c0, y.c0, zx.c0, zy.c0);
    lemma_fp_sub_lift(t.p, x.c1, y.c1, zx.c1, zy.c1);
}

/// A negation depends only on the residue of its term.
pub proof fn lemma_f2_neg_lift(t: Tower, x: F2, zx: F2)
    requires
        t.wf(),
        f2_red(t, x) == f2_red(t, zx),
    ensures
        f2_neg(t, x) == f2_red(t, f2_zneg(zx)),
        f2_red(t, f2_neg(t, x)) == f2_red(t, f2_zneg(zx)),
{
    reveal(f2_neg);
    lemma_fp_neg_lift(t.p, x.c0, zx.c0);
    lemma_fp_neg_lift(t.p, x.c1, zx.c1);
}

/// `(a0 + a1·u)(b0 + b1·u)` with `u² = beta`.
#[verifier::opaque]
pub open spec fn f2_mul(t: Tower, a: F2, b: F2) -> F2 {
    F2 {
        c0: fp_add(t.p, fp_mul(t.p, a.c0, b.c0), fp_nr(t, fp_mul(t.p, a.c1, b.c1))),
        c1: fp_add(t.p, fp_mul(t.p, a.c0, b.c1), fp_mul(t.p, a.c1, b.c0)),
    }
}

/// A product is well formed, whatever went in.
pub proof fn lemma_f2_mul_fixed(t: Tower, a: F2, b: F2)
    requires
        t.wf(),
    ensures
        f2_red(t, f2_mul(t, a, b)) == f2_mul(t, a, b),
        f2_mul(t, a, b).wf(t),
{
    reveal(f2_mul);
    lemma_fp_add_wf(t.p, fp_mul(t.p, a.c0, b.c0), fp_nr(t, fp_mul(t.p, a.c1, b.c1)));
    lemma_fp_add_wf(t.p, fp_mul(t.p, a.c0, b.c1), fp_mul(t.p, a.c1, b.c0));
    lemma_f2_wf_fixed(t, f2_mul(t, a, b));
}

/// Multiplication commutes.
pub proof fn lemma_f2_mul_comm(t: Tower, a: F2, b: F2)
    requires
        t.wf(),
    ensures
        f2_mul(t, a, b) == f2_mul(t, b, a),
{
    reveal(f2_mul);
    lemma_fp_mul_comm(t.p, b.c0, a.c0);
    lemma_fp_mul_comm(t.p, b.c1, a.c1);
    assert(f2_mul(t, a, b).c0 == f2_mul(t, b, a).c0);
    lemma_fp_mul_comm(t.p, b.c0, a.c1);
    lemma_fp_mul_comm(t.p, b.c1, a.c0);
    let m0 = fp_mul(t.p, a.c0, b.c1);
    let m1 = fp_mul(t.p, a.c1, b.c0);
    lemma_fp_add_lift(t.p, m0, m1, m0, m1);
    lemma_fp_add_lift(t.p, m1, m0, m1, m0);
    assert((m0 + m1) == (m1 + m0));
    assert(f2_mul(t, a, b).c1 == f2_mul(t, b, a).c1);
}

/// Multiplication associates.
pub proof fn lemma_f2_mul_assoc(t: Tower, a: F2, b: F2, c: F2)
    requires
        t.wf(),
    ensures
        f2_mul(t, f2_mul(t, a, b), c) == f2_mul(t, a, f2_mul(t, b, c)),
{
    reveal(f2_mul);
    let m0 = fp_mul(t.p, a.c0, b.c0);
    let m1 = fp_mul(t.p, a.c1, b.c1);
    let m2 = fp_nr(t, m1);
    lemma_fp_mul_add(t.p, c.c0, m0, m2);
    lemma_fp_mul_assoc(t.p, a.c0, b.c0, c.c0);
    lemma_fp_nr_mul(t, m1, c.c0);
    lemma_fp_mul_assoc(t.p, a.c1, b.c1, c.c0);
    let m3 = fp_mul(t.p, a.c0, b.c1);
    let m4 = fp_mul(t.p, a.c1, b.c0);
    lemma_fp_mul_add(t.p, c.c1, m3, m4);
    lemma_fp_mul_assoc(t.p, a.c0, b.c1, c.c1);
    lemma_fp_mul_assoc(t.p, a.c1, b.c0, c.c1);
    let m5 = fp_mul(t.p, b.c1, c.c1);
    let m6 = fp_mul(t.p, a.c0, m5);
    let m7 = fp_mul(t.p, b.c0, c.c1);
    let m8 = fp_mul(t.p, a.c1, m7);
    lemma_fp_nr_add(t, m6, m8);
    let m9 = fp_mul(t.p, b.c0, c.c0);
    let m10 = fp_nr(t, m5);
    lemma_fp_mul_add(t.p, a.c0, m9, m10);
    lemma_fp_nr_mul(t, a.c0, m5);
    let m11 = fp_mul(t.p, b.c1, c.c0);
    lemma_fp_mul_add(t.p, a.c1, m7, m11);
    let m12 = fp_mul(t.p, a.c1, m11);
    lemma_fp_nr_add(t, m8, m12);
    let m13 = fp_mul(t.p, a.c0, m9);
    let m14 = fp_nr(t, m12);
    lemma_fp_add_lift(t.p, m13, m14, m13, m14);
    let m15 = fp_nr(t, m6);
    let m16 = fp_nr(t, m8);
    lemma_fp_add_lift(t.p, m15, m16, m15, m16);
    let m17 = fp_add(t.p, m13, m14);
    let m18 = fp_add(t.p, m15, m16);
    lemma_fp_add_lift(t.p, m17, m18, (m13 + m14), (m15 + m16));
    lemma_fp_add_lift(t.p, m13, m15, m13, m15);
    lemma_fp_add_lift(t.p, m16, m14, m16, m14);
    let m19 = fp_add(t.p, m13, m15);
    let m20 = fp_add(t.p, m16, m14);
    lemma_fp_add_lift(t.p, m19, m20, (m13 + m15), (m16 + m14));
    assert(((m13 + m14) + (m15 + m16)) == ((m13 + m15) + (m16 + m14)));
    assert(f2_mul(t, f2_mul(t, a, b), c).c0 == f2_mul(t, a, f2_mul(t, b, c)).c0);
    lemma_fp_mul_add(t.p, c.c1, m0, m2);
    lemma_fp_mul_assoc(t.p, a.c0, b.c0, c.c1);
    lemma_fp_nr_mul(t, m1, c.c1);
    lemma_fp_mul_assoc(t.p, a.c1, b.c1, c.c1);
    lemma_fp_mul_add(t.p, c.c0, m3, m4);
    lemma_fp_mul_assoc(t.p, a.c0, b.c1, c.c0);
    lemma_fp_mul_assoc(t.p, a.c1, b.c0, c.c0);
    lemma_fp_mul_add(t.p, a.c0, m7, m11);
    lemma_fp_mul_add(t.p, a.c1, m9, m10);
    lemma_fp_nr_mul(t, a.c1, m5);
    let m21 = fp_mul(t.p, a.c0, m7);
    let m22 = fp_mul(t.p, a.c1, m5);
    let m23 = fp_nr(t, m22);
    lemma_fp_add_lift(t.p, m21, m23, m21, m23);
    let m24 = fp_mul(t.p, a.c0, m11);
    let m25 = fp_mul(t.p, a.c1, m9);
    lemma_fp_add_lift(t.p, m24, m25, m24, m25);
    let m26 = fp_add(t.p, m21, m23);
    let m27 = fp_add(t.p, m24, m25);
    lemma_fp_add_lift(t.p, m26, m27, (m21 + m23), (m24 + m25));
    lemma_fp_add_lift(t.p, m21, m24, m21, m24);
    lemma_fp_add_lift(t.p, m25, m23, m25, m23);
    let m28 = fp_add(t.p, m21, m24);
    let m29 = fp_add(t.p, m25, m23);
    lemma_fp_add_lift(t.p, m28, m29, (m21 + m24), (m25 + m23));
    assert(((m21 + m23) + (m24 + m25)) == ((m21 + m24) + (m25 + m23)));
    assert(f2_mul(t, f2_mul(t, a, b), c).c1 == f2_mul(t, a, f2_mul(t, b, c)).c1);
}

/// Multiplication distributes over addition, on either side.
pub proof fn lemma_f2_mul_add(t: Tower, a: F2, b: F2, c: F2)
    requires
        t.wf(),
    ensures
        f2_mul(t, a, f2_add(t, b, c)) == f2_add(t, f2_mul(t, a, b), f2_mul(t, a, c)),
        f2_mul(t, f2_add(t, b, c), a) == f2_add(t, f2_mul(t, b, a), f2_mul(t, c, a)),
{
    reveal(f2_mul);
    reveal(f2_add);
    lemma_fp_mul_add(t.p, a.c0, b.c0, c.c0);
    lemma_fp_mul_add(t.p, a.c1, b.c1, c.c1);
    let m0 = fp_mul(t.p, a.c1, b.c1);
    let m1 = fp_mul(t.p, a.c1, c.c1);
    lemma_fp_nr_add(t, m0, m1);
    let m2 = fp_mul(t.p, a.c0, b.c0);
    let m3 = fp_mul(t.p, a.c0, c.c0);
    lemma_fp_add_lift(t.p, m2, m3, m2, m3);
    let m4 = fp_nr(t, m0);
    let m5 = fp_nr(t, m1);
    lemma_fp_add_lift(t.p, m4, m5, m4, m5);
    let m6 = fp_add(t.p, m2, m3);
    let m7 = fp_add(t.p, m4, m5);
    lemma_fp_add_lift(t.p, m6, m7, (m2 + m3), (m4 + m5));
    lemma_fp_add_lift(t.p, m2, m4, m2, m4);
    lemma_fp_add_lift(t.p, m3, m5, m3, m5);
    let m8 = fp_add(t.p, m2, m4);
    let m9 = fp_add(t.p, m3, m5);
    lemma_fp_add_lift(t.p, m8, m9, (m2 + m4), (m3 + m5));
    assert(((m2 + m3) + (m4 + m5)) == ((m2 + m4) + (m3 + m5)));
    assert(f2_mul(t, a, f2_add(t, b, c)).c0 == f2_add(t, f2_mul(t, a, b), f2_mul(t, a, c)).c0);
    lemma_fp_mul_add(t.p, a.c0, b.c1, c.c1);
    lemma_fp_mul_add(t.p, a.c1, b.c0, c.c0);
    let m10 = fp_mul(t.p, a.c0, b.c1);
    let m11 = fp_mul(t.p, a.c0, c.c1);
    lemma_fp_add_lift(t.p, m10, m11, m10, m11);
    let m12 = fp_mul(t.p, a.c1, b.c0);
    let m13 = fp_mul(t.p, a.c1, c.c0);
    lemma_fp_add_lift(t.p, m12, m13, m12, m13);
    let m14 = fp_add(t.p, m10, m11);
    let m15 = fp_add(t.p, m12, m13);
    lemma_fp_add_lift(t.p, m14, m15, (m10 + m11), (m12 + m13));
    lemma_fp_add_lift(t.p, m10, m12, m10, m12);
    lemma_fp_add_lift(t.p, m11, m13, m11, m13);
    let m16 = fp_add(t.p, m10, m12);
    let m17 = fp_add(t.p, m11, m13);
    lemma_fp_add_lift(t.p, m16, m17, (m10 + m12), (m11 + m13));
    assert(((m10 + m11) + (m12 + m13)) == ((m10 + m12) + (m11 + m13)));
    assert(f2_mul(t, a, f2_add(t, b, c)).c1 == f2_add(t, f2_mul(t, a, b), f2_mul(t, a, c)).c1);
    lemma_fp_mul_comm(t.p, b.c0, a.c0);
    lemma_fp_mul_comm(t.p, c.c0, a.c0);
    lemma_fp_mul_comm(t.p, b.c1, a.c1);
    lemma_fp_mul_comm(t.p, c.c1, a.c1);
    assert(((m2 + m3) + (m4 + m5)) == ((m2 + m4) + (m3 + m5)));
    assert(f2_mul(t, f2_add(t, b, c), a).c0 == f2_add(t, f2_mul(t, b, a), f2_mul(t, c, a)).c0);
    lemma_fp_mul_comm(t.p, b.c0, a.c1);
    lemma_fp_mul_comm(t.p, c.c0, a.c1);
    lemma_fp_mul_comm(t.p, b.c1, a.c0);
    lemma_fp_mul_comm(t.p, c.c1, a.c0);
    lemma_fp_add_lift(t.p, m15, m14, (m12 + m13), (m10 + m11));
    lemma_fp_add_lift(t.p, m12, m10, m12, m10);
    lemma_fp_add_lift(t.p, m13, m11, m13, m11);
    let m18 = fp_add(t.p, m12, m10);
    let m19 = fp_add(t.p, m13, m11);
    lemma_fp_add_lift(t.p, m18, m19, (m12 + m10), (m13 + m11));
    assert(((m12 + m13) + (m10 + m11)) == ((m12 + m10) + (m13 + m11)));
    assert(f2_mul(t, f2_add(t, b, c), a).c1 == f2_add(t, f2_mul(t, b, a), f2_mul(t, c, a)).c1);
}

/// Multiplication distributes over subtraction, on either side.
pub proof fn lemma_f2_mul_sub(t: Tower, a: F2, b: F2, c: F2)
    requires
        t.wf(),
    ensures
        f2_mul(t, a, f2_sub(t, b, c)) == f2_sub(t, f2_mul(t, a, b), f2_mul(t, a, c)),
        f2_mul(t, f2_sub(t, b, c), a) == f2_sub(t, f2_mul(t, b, a), f2_mul(t, c, a)),
{
    reveal(f2_mul);
    reveal(f2_sub);
    lemma_fp_mul_sub(t.p, a.c0, b.c0, c.c0);
    lemma_fp_mul_sub(t.p, a.c1, b.c1, c.c1);
    let m0 = fp_mul(t.p, a.c1, b.c1);
    let m1 = fp_mul(t.p, a.c1, c.c1);
    lemma_fp_nr_sub(t, m0, m1);
    let m2 = fp_mul(t.p, a.c0, b.c0);
    let m3 = fp_mul(t.p, a.c0, c.c0);
    lemma_fp_sub_lift(t.p, m2, m3, m2, m3);
    let m4 = fp_nr(t, m0);
    let m5 = fp_nr(t, m1);
    lemma_fp_sub_lift(t.p, m4, m5, m4, m5);
    let m6 = fp_sub(t.p, m2, m3);
    let m7 = fp_sub(t.p, m4, m5);
    lemma_fp_add_lift(t.p, m6, m7, (m2 - m3), (m4 - m5));
    lemma_fp_add_lift(t.p, m2, m4, m2, m4);
    lemma_fp_add_lift(t.p, m3, m5, m3, m5);
    let m8 = fp_add(t.p, m2, m4);
    let m9 = fp_add(t.p, m3, m5);
    lemma_fp_sub_lift(t.p, m8, m9, (m2 + m4), (m3 + m5));
    assert(((m2 - m3) + (m4 - m5)) == ((m2 + m4) - (m3 + m5)));
    assert(f2_mul(t, a, f2_sub(t, b, c)).c0 == f2_sub(t, f2_mul(t, a, b), f2_mul(t, a, c)).c0);
    lemma_fp_mul_sub(t.p, a.c0, b.c1, c.c1);
    lemma_fp_mul_sub(t.p, a.c1, b.c0, c.c0);
    let m10 = fp_mul(t.p, a.c0, b.c1);
    let m11 = fp_mul(t.p, a.c0, c.c1);
    lemma_fp_sub_lift(t.p, m10, m11, m10, m11);
    let m12 = fp_mul(t.p, a.c1, b.c0);
    let m13 = fp_mul(t.p, a.c1, c.c0);
    lemma_fp_sub_lift(t.p, m12, m13, m12, m13);
    let m14 = fp_sub(t.p, m10, m11);
    let m15 = fp_sub(t.p, m12, m13);
    lemma_fp_add_lift(t.p, m14, m15, (m10 - m11), (m12 - m13));
    lemma_fp_add_lift(t.p, m10, m12, m10, m12);
    lemma_fp_add_lift(t.p, m11, m13, m11, m13);
    let m16 = fp_add(t.p, m10, m12);
    let m17 = fp_add(t.p, m11, m13);
    lemma_fp_sub_lift(t.p, m16, m17, (m10 + m12), (m11 + m13));
    assert(((m10 - m11) + (m12 - m13)) == ((m10 + m12) - (m11 + m13)));
    assert(f2_mul(t, a, f2_sub(t, b, c)).c1 == f2_sub(t, f2_mul(t, a, b), f2_mul(t, a, c)).c1);
    lemma_fp_mul_comm(t.p, b.c0, a.c0);
    lemma_fp_mul_comm(t.p, c.c0, a.c0);
    lemma_fp_mul_comm(t.p, b.c1, a.c1);
    lemma_fp_mul_comm(t.p, c.c1, a.c1);
    assert(((m2 - m3) + (m4 - m5)) == ((m2 + m4) - (m3 + m5)));
    assert(f2_mul(t, f2_sub(t, b, c), a).c0 == f2_sub(t, f2_mul(t, b, a), f2_mul(t, c, a)).c0);
    lemma_fp_mul_comm(t.p, b.c0, a.c1);
    lemma_fp_mul_comm(t.p, c.c0, a.c1);
    lemma_fp_mul_comm(t.p, b.c1, a.c0);
    lemma_fp_mul_comm(t.p, c.c1, a.c0);
    lemma_fp_add_lift(t.p, m15, m14, (m12 - m13), (m10 - m11));
    lemma_fp_add_lift(t.p, m12, m10, m12, m10);
    lemma_fp_add_lift(t.p, m13, m11, m13, m11);
    let m18 = fp_add(t.p, m12, m10);
    let m19 = fp_add(t.p, m13, m11);
    lemma_fp_sub_lift(t.p, m18, m19, (m12 + m10), (m13 + m11));
    assert(((m12 - m13) + (m10 - m11)) == ((m12 + m10) - (m13 + m11)));
    assert(f2_mul(t, f2_sub(t, b, c), a).c1 == f2_sub(t, f2_mul(t, b, a), f2_mul(t, c, a)).c1);
}

/// A sign moves out of a product.
pub proof fn lemma_f2_mul_neg(t: Tower, a: F2, b: F2)
    requires
        t.wf(),
    ensures
        f2_mul(t, a, f2_neg(t, b)) == f2_neg(t, f2_mul(t, a, b)),
        f2_mul(t, f2_neg(t, b), a) == f2_neg(t, f2_mul(t, b, a)),
{
    reveal(f2_mul);
    reveal(f2_neg);
    lemma_fp_mul_neg(t.p, a.c0, b.c0);
    lemma_fp_mul_neg(t.p, a.c1, b.c1);
    let m0 = fp_mul(t.p, a.c1, b.c1);
    lemma_fp_nr_neg(t, m0);
    let m1 = fp_mul(t.p, a.c0, b.c0);
    lemma_fp_neg_lift(t.p, m1, m1);
    let m2 = fp_nr(t, m0);
    lemma_fp_neg_lift(t.p, m2, m2);
    let m3 = fp_neg(t.p, m1);
    let m4 = fp_neg(t.p, m2);
    lemma_fp_add_lift(t.p, m3, m4, (-m1), (-m2));
    lemma_fp_add_lift(t.p, m1, m2, m1, m2);
    let m5 = fp_add(t.p, m1, m2);
    lemma_fp_neg_lift(t.p, m5, (m1 + m2));
    assert(((-m1) + (-m2)) == (-(m1 + m2)));
    assert(f2_mul(t, a, f2_neg(t, b)).c0 == f2_neg(t, f2_mul(t, a, b)).c0);
    lemma_fp_mul_neg(t.p, a.c0, b.c1);
    lemma_fp_mul_neg(t.p, a.c1, b.c0);
    let m6 = fp_mul(t.p, a.c0, b.c1);
    lemma_fp_neg_lift(t.p, m6, m6);
    let m7 = fp_mul(t.p, a.c1, b.c0);
    lemma_fp_neg_lift(t.p, m7, m7);
    let m8 = fp_neg(t.p, m6);
    let m9 = fp_neg(t.p, m7);
    lemma_fp_add_lift(t.p, m8, m9, (-m6), (-m7));
    lemma_fp_add_lift(t.p, m6, m7, m6, m7);
    let m10 = fp_add(t.p, m6, m7);
    lemma_fp_neg_lift(t.p, m10, (m6 + m7));
    assert(((-m6) + (-m7)) == (-(m6 + m7)));
    assert(f2_mul(t, a, f2_neg(t, b)).c1 == f2_neg(t, f2_mul(t, a, b)).c1);
    lemma_fp_mul_comm(t.p, b.c0, a.c0);
    lemma_fp_mul_comm(t.p, b.c1, a.c1);
    assert(((-m1) + (-m2)) == (-(m1 + m2)));
    assert(f2_mul(t, f2_neg(t, b), a).c0 == f2_neg(t, f2_mul(t, b, a)).c0);
    lemma_fp_mul_comm(t.p, b.c0, a.c1);
    lemma_fp_mul_comm(t.p, b.c1, a.c0);
    lemma_fp_add_lift(t.p, m9, m8, (-m7), (-m6));
    lemma_fp_add_lift(t.p, m7, m6, m7, m6);
    let m11 = fp_add(t.p, m7, m6);
    lemma_fp_neg_lift(t.p, m11, (m7 + m6));
    assert(((-m7) + (-m6)) == (-(m7 + m6)));
    assert(f2_mul(t, f2_neg(t, b), a).c1 == f2_neg(t, f2_mul(t, b, a)).c1);
}

/// Zero absorbs.
pub proof fn lemma_f2_mul_zero(t: Tower, a: F2)
    requires
        t.wf(),
    ensures
        f2_mul(t, a, f2_zero()) == f2_zero(),
        f2_mul(t, f2_zero(), a) == f2_zero(),
{
    reveal(f2_mul);
    lemma_fp_mul_zero(t.p, a.c0);
    lemma_fp_mul_zero(t.p, a.c1);
    lemma_fp_nr_zero(t);
    lemma_fp_add_lift(t.p, 0, 0, 0, 0);
    lemma_fp_consts_fixed(t.p);
    assert((0 + 0) == 0);
    assert(f2_mul(t, a, f2_zero()).c0 == f2_zero().c0);
    assert((0 + 0) == 0);
    assert(f2_mul(t, a, f2_zero()).c1 == f2_zero().c1);
    assert((0 + 0) == 0);
    assert(f2_mul(t, f2_zero(), a).c0 == f2_zero().c0);
    assert((0 + 0) == 0);
    assert(f2_mul(t, f2_zero(), a).c1 == f2_zero().c1);
}

/// `a(bc) = b(ac)`: a factor moves to the front of a product.
pub proof fn lemma_f2_mul_left_comm(t: Tower, a: F2, b: F2, c: F2)
    requires
        t.wf(),
    ensures
        f2_mul(t, a, f2_mul(t, b, c)) == f2_mul(t, b, f2_mul(t, a, c)),
{
    lemma_f2_mul_assoc(t, a, b, c);
    lemma_f2_mul_comm(t, a, b);
    lemma_f2_mul_assoc(t, b, a, c);
}

/// One is neutral.
pub proof fn lemma_f2_mul_one(t: Tower, a: F2)
    requires
        t.wf(),
        a.wf(t),
    ensures
        f2_mul(t, a, f2_one()) == a,
        f2_mul(t, f2_one(), a) == a,
{
    reveal(f2_mul);
    lemma_fp_wf_fixed(t.p, a.c0);
    lemma_fp_mul_one(t.p, a.c0);
    lemma_fp_mul_zero(t.p, a.c1);
    lemma_fp_nr_zero(t);
    lemma_fp_add_lift(t.p, a.c0, 0, a.c0, 0);
    assert((a.c0 + 0) == a.c0);
    assert(f2_mul(t, a, f2_one()).c0 == a.c0);
    lemma_fp_mul_zero(t.p, a.c0);
    lemma_fp_wf_fixed(t.p, a.c1);
    lemma_fp_mul_one(t.p, a.c1);
    lemma_fp_add_lift(t.p, 0, a.c1, 0, a.c1);
    assert((0 + a.c1) == a.c1);
    assert(f2_mul(t, a, f2_one()).c1 == a.c1);
    assert((a.c0 + 0) == a.c0);
    assert(f2_mul(t, f2_one(), a).c0 == a.c0);
    lemma_fp_add_lift(t.p, a.c1, 0, a.c1, 0);
    assert((a.c1 + 0) == a.c1);
    assert(f2_mul(t, f2_one(), a).c1 == a.c1);
}

/// Multiplication by `xi`, the cube of `v`.
#[verifier::opaque]
pub open spec fn f2_nr(t: Tower, x: F2) -> F2 {
    f2_mul(t, t.xi, x)
}

/// Multiplication by the non-residue respects sums.
pub proof fn lemma_f2_nr_add(t: Tower, a: F2, b: F2)
    requires
        t.wf(),
    ensures
        f2_nr(t, f2_add(t, a, b)) == f2_add(t, f2_nr(t, a), f2_nr(t, b)),
{
    reveal(f2_nr);
    lemma_f2_mul_add(t, t.xi, a, b);
}

/// Multiplication by the non-residue respects differences.
pub proof fn lemma_f2_nr_sub(t: Tower, a: F2, b: F2)
    requires
        t.wf(),
    ensures
        f2_nr(t, f2_sub(t, a, b)) == f2_sub(t, f2_nr(t, a), f2_nr(t, b)),
{
    reveal(f2_nr);
    lemma_f2_mul_sub(t, t.xi, a, b);
}

/// Multiplication by the non-residue respects signs.
pub proof fn lemma_f2_nr_neg(t: Tower, a: F2)
    requires
        t.wf(),
    ensures
        f2_nr(t, f2_neg(t, a)) == f2_neg(t, f2_nr(t, a)),
{
    reveal(f2_nr);
    lemma_f2_mul_neg(t, t.xi, a);
}

/// The non-residue moves out of a product, from either factor.
pub proof fn lemma_f2_nr_mul(t: Tower, a: F2, b: F2)
    requires
        t.wf(),
    ensures
        f2_mul(t, f2_nr(t, a), b) == f2_nr(t, f2_mul(t, a, b)),
        f2_mul(t, a, f2_nr(t, b)) == f2_nr(t, f2_mul(t, a, b)),
{
    reveal(f2_nr);
    lemma_f2_mul_assoc(t, t.xi, a, b);
    lemma_f2_mul_left_comm(t, a, t.xi, b);
}

/// The non-residue times zero is zero.
pub proof fn lemma_f2_nr_zero(t: Tower)
    requires
        t.wf(),
    ensures
        f2_nr(t, f2_zero()) == f2_zero(),
{
    reveal(f2_nr);
    lemma_f2_mul_zero(t, t.xi);
}

/// A multiple of the non-residue is well formed, whatever went in.
pub proof fn lemma_f2_nr_fixed(t: Tower, a: F2)
    requires
        t.wf(),
    ensures
        f2_red(t, f2_nr(t, a)) == f2_nr(t, a),
        f2_nr(t, a).wf(t),
{
    reveal(f2_nr);
    lemma_f2_mul_fixed(t, t.xi, a);
}

/// A product, from the five products and two sums below.
pub proof fn lemma_f2_mul_is(
    t: Tower,
    a: F2,
    b: F2,
    m00: int,
    m11: int,
    n11: int,
    m01: int,
    m10: int,
    r: F2,
)
    requires
        fp_mul(t.p, a.c0, b.c0) == m00,
        fp_mul(t.p, a.c1, b.c1) == m11,
        fp_mul(t.p, t.beta, m11) == n11,
        fp_mul(t.p, a.c0, b.c1) == m01,
        fp_mul(t.p, a.c1, b.c0) == m10,
        fp_add(t.p, m00, n11) == r.c0,
        fp_add(t.p, m01, m10) == r.c1,
    ensures
        f2_mul(t, a, b) == r,
{
    reveal(f2_mul);
    reveal(fp_nr);
}
/// The residue `k` as an element of the quadratic extension.
pub open spec fn f2_from_fp(k: int) -> F2 {
    F2 { c0: k, c1: 0 }
}

/// Both coordinates multiplied by the residue `k`.
pub open spec fn f2_scale(t: Tower, a: F2, k: int) -> F2 {
    F2 { c0: fp_mul(t.p, a.c0, k), c1: fp_mul(t.p, a.c1, k) }
}

/// `a0 - a1·u`.
pub open spec fn f2_conjugate(t: Tower, a: F2) -> F2 {
    F2 { c0: a.c0, c1: fp_neg(t.p, a.c1) }
}

/// The Frobenius map of the given power: the `u` coordinate is twisted by
/// the tabulated coefficient.
pub open spec fn f2_frobenius(t: Tower, a: F2, power: nat) -> F2 {
    F2 { c0: a.c0, c1: fp_mul(t.p, a.c1, t.frob2[(power % 2) as int]) }
}

/// `a0² - beta·a1²`, the product of `a` with its conjugate.
pub open spec fn f2_norm(t: Tower, a: F2) -> int {
    fp_sub(t.p, fp_mul(t.p, a.c0, a.c0), fp_nr(t, fp_mul(t.p, a.c1, a.c1)))
}

/// The conjugate divided by the norm, where the norm has an inverse.
pub open spec fn f2_inverse(t: Tower, a: F2) -> Option<F2> {
    match fp_inverse(t.p, f2_norm(t, a)) {
        Some(n) => Some(F2 { c0: fp_mul(t.p, a.c0, n), c1: fp_neg(t.p, fp_mul(t.p, a.c1, n)) }),
        None => None,
    }
}

/// `a` times its scaled conjugate is the norm times the scale.
pub proof fn lemma_f2_mul_conjugate_over(t: Tower, a: F2, n: int)
    requires
        t.wf(),
    ensures
        f2_mul(t, a, (F2 { c0: fp_mul(t.p, a.c0, n), c1: fp_neg(t.p, fp_mul(t.p, a.c1, n)) })) == (F2 { c0: fp_mul(t.p, f2_norm(t, a), n), c1: 0 }),
{
    reveal(f2_mul);
    let m0 = fp_mul(t.p, a.c1, n);
    lemma_fp_mul_neg(t.p, a.c1, m0);
    let m1 = fp_mul(t.p, a.c1, m0);
    lemma_fp_nr_neg(t, m1);
    let m2 = fp_mul(t.p, a.c0, a.c0);
    let m3 = fp_mul(t.p, a.c1, a.c1);
    let m4 = fp_nr(t, m3);
    lemma_fp_mul_sub(t.p, n, m2, m4);
    lemma_fp_mul_assoc(t.p, a.c0, a.c0, n);
    lemma_fp_nr_mul(t, m3, n);
    lemma_fp_mul_assoc(t.p, a.c1, a.c1, n);
    let m5 = fp_nr(t, m1);
    lemma_fp_neg_lift(t.p, m5, m5);
    let m6 = fp_mul(t.p, a.c0, n);
    let m7 = fp_mul(t.p, a.c0, m6);
    let m8 = fp_neg(t.p, m5);
    lemma_fp_add_lift(t.p, m7, m8, m7, (-m5));
    lemma_fp_sub_lift(t.p, m7, m5, m7, m5);
    assert((m7 + (-m5)) == (m7 - m5));
    assert(f2_mul(t, a, (F2 { c0: fp_mul(t.p, a.c0, n), c1: fp_neg(t.p, fp_mul(t.p, a.c1, n)) })).c0 == (F2 { c0: fp_mul(t.p, f2_norm(t, a), n), c1: 0 }).c0);
    lemma_fp_mul_neg(t.p, a.c0, m0);
    lemma_fp_mul_left_comm(t.p, a.c1, a.c0, n);
    let m9 = fp_mul(t.p, a.c0, m0);
    lemma_fp_neg_lift(t.p, m9, m9);
    let m10 = fp_neg(t.p, m9);
    lemma_fp_add_lift(t.p, m10, m9, (-m9), m9);
    lemma_fp_consts_fixed(t.p);
    assert(((-m9) + m9) == 0);
    assert(f2_mul(t, a, (F2 { c0: fp_mul(t.p, a.c0, n), c1: fp_neg(t.p, fp_mul(t.p, a.c1, n)) })).c1 == (F2 { c0: fp_mul(t.p, f2_norm(t, a), n), c1: 0 }).c1);
}

/// What `f2_inverse` returns is an inverse.
pub proof fn lemma_f2_inverse_mul(t: Tower, a: F2)
    requires
        t.wf(),
        f2_inverse(t, a) is Some,
    ensures
        f2_mul(t, a, f2_inverse(t, a).unwrap()) == f2_one(),
        f2_inverse(t, a).unwrap().wf(t),
{
    let n = fp_inverse(t.p, f2_norm(t, a)).unwrap();
    lemma_fp_inverse_mul(t.p, f2_norm(t, a));
    lemma_f2_mul_conjugate_over(t, a, n);
    lemma_fp_mul_fixed(t.p, a.c0, n);
    lemma_fp_add_wf(t.p, fp_mul(t.p, a.c1, n), 0);
}

/// Zero has no inverse.
pub proof fn lemma_f2_inverse_zero(t: Tower)
    requires
        t.wf(),
    ensures
        f2_inverse(t, f2_zero()) is None,
{
    lemma_fp_mul_zero(t.p, 0);
    lemma_fp_nr_zero(t);
    lemma_fp_sub_lift(t.p, 0, 0, 0, 0);
    lemma_fp_consts_fixed(t.p);
    lemma_fp_zero_not_invertible(t.p);
}

} // verus!
