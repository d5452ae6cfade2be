use vstd::prelude::*;
use crate::tower::{F2, F6, Tower};
use crate::alg_fp2::{
    f2_add, f2_sub, f2_neg, f2_mul, f2_nr, lemma_f2_wf_fixed, lemma_f2_consts_fixed,
    lemma_f2_add_wf, lemma_f2_add_lift, lemma_f2_sub_lift, lemma_f2_neg_lift, lemma_f2_mul_comm,
    lemma_f2_mul_assoc, lemma_f2_mul_left_comm, lemma_f2_mul_add, lemma_f2_mul_sub,
    lemma_f2_mul_neg, lemma_f2_mul_zero, lemma_f2_mul_one, lemma_f2_mul_fixed, lemma_f2_nr_add,
    lemma_f2_nr_sub, lemma_f2_nr_neg, lemma_f2_nr_mul, lemma_f2_nr_zero, lemma_f2_nr_fixed,
    f2_zero, f2_one, f2_red, f2_zadd, f2_zsub, f2_zneg, f2_scale, f2_frobenius, f2_inverse,
    lemma_f2_inverse_mul, lemma_f2_inverse_zero,
};

verus! {

/// Zero.
pub open spec fn f6_zero() -> F6 {
    F6 { c0: f2_zero(), c1: f2_zero(), c2: f2_zero() }
}

/// One.
pub open spec fn f6_one() -> F6 {
    F6 { c0: f2_one(), c1: f2_zero(), c2: f2_zero() }
}

/// The sum, coordinate by coordinate.
#[verifier::opaque]
pub open spec fn f6_add(t: Tower, a: F6, b: F6) -> F6 {
    F6 { c0: f2_add(t, a.c0, b.c0), c1: f2_add(t, a.c1, b.c1), c2: f2_add(t, a.c2, b.c2) }
}

/// The difference, coordinate by coordinate.
#[verifier::opaque]
pub open spec fn f6_sub(t: Tower, a: F6, b: F6) -> F6 {
    F6 { c0: f2_sub(t, a.c0, b.c0), c1: f2_sub(t, a.c1, b.c1), c2: f2_sub(t, a.c2, b.c2) }
}

/// The negation, coordinate by coordinate.
#[verifier::opaque]
pub open spec fn f6_neg(t: Tower, a: F6) -> F6 {
    F6 { c0: f2_neg(t, a.c0), c1: f2_neg(t, a.c1), c2: f2_neg(t, a.c2) }
}

/// Every coordinate replaced by its residue.
pub open spec fn f6_red(t: Tower, x: F6) -> F6 {
    F6 { c0: f2_red(t, x.c0), c1: f2_red(t, x.c1), c2: f2_red(t, x.c2) }
}

/// The sum of the coordinates as integers, with no reduction.
pub open spec fn f6_zadd(x: F6, y: F6) -> F6 {
    F6 { c0: f2_zadd(x.c0, y.c0), c1: f2_zadd(x.c1, y.c1), c2: f2_zadd(x.c2, y.c2) }
}

/// The difference of the coordinates as integers, with no reduction.
pub open spec fn f6_zsub(x: F6, y: F6) -> F6 {
    F6 { c0: f2_zsub(x.c0, y.c0), c1: f2_zsub(x.c1, y.c1), c2: f2_zsub(x.c2, y.c2) }
}

/// The negation of the coordinates as integers, with no reduction.
pub open spec fn f6_zneg(x: F6) -> F6 {
    F6 { c0: f2_zneg(x.c0), c1: f2_zneg(x.c1), c2: f2_zneg(x.c2) }
}

/// A well-formed element is its own reduction.
pub proof fn lemma_f6_wf_fixed(t: Tower, a: F6)
    requires
        t.wf(),
        a.wf(t),
    ensures
        f6_red(t, a) == a,
{
    lemma_f2_wf_fixed(t, a.c0);
    lemma_f2_wf_fixed(t, a.c1);
    lemma_f2_wf_fixed(t, a.c2);
}

/// Zero and one are well formed.
pub proof fn lemma_f6_consts_fixed(t: Tower)
    requires
        t.wf(),
    ensures
        f6_red(t, f6_zero()) == f6_zero(),
        f6_red(t, f6_one()) == f6_one(),
        f6_zero().wf(t),
        f6_one().wf(t),
{
    lemma_f2_consts_fixed(t);
}

/// Sums, differences and negations are well formed, whatever went in.
pub proof fn lemma_f6_add_wf(t: Tower, a: F6, b: F6)
    requires
        t.wf(),
    ensures
        f6_add(t, a, b).wf(t),
        f6_sub(t, a, b).wf(t),
        f6_neg(t, a).wf(t),
{
    reveal(f6_add);
    reveal(f6_sub);
    reveal(f6_neg);
    lemma_f2_add_wf(t, a.c0, b.c0);
    lemma_f2_add_wf(t, a.c1, b.c1);
    lemma_f2_add_wf(t, a.c2, b.c2);
}

/// A sum depends only on the residues of its terms.
pub proof fn lemma_f6_add_lift(t: Tower, x: F6, y: F6, zx: F6, zy: F6)
    requires
        t.wf(),
        f6_red(t, x) == f6_red(t, zx),
        f6_red(t, y) == f6_red(t, zy),
    ensures
        f6_add(t, x, y) == f6_red(t, f6_zadd(zx, zy)),
        f6_red(t, f6_add(t, x, y)) == f6_red(t, f6_zadd(zx, zy)),
{
    reveal(f6_add);
    lemma_f2_add_lift(t, x.c0, y.c0, zx.c0, zy.c0);
    lemma_f2_add_lift(t, x.c1, y.c1, zx.c1, zy.c1);
    lemma_f2_add_lift(t, x.c2, y.c2, zx.c2, zy.c2);
}

/// A difference depends only on the residues of its terms.
pub proof fn lemma_f6_sub_lift(t: Tower, x: F6, y: F6, zx: F6, zy: F6)
    requires
        t.wf(),
        f6_red(t, x) == f6_red(t, zx),
        f6_red(t, y) == f6_red(t, zy),
    ensures
        f6_sub(t, x, y) == f6_red(t, f6_zsub(zx, zy)),
        f6_red(t, f6_sub(t, x, y)) == f6_red(t, f6_zsub(zx, zy)),
{
    reveal(f6_sub);
    lemma_f2_sub_lift(t, x.c0, y.c0, zx.c0, zy.c0);
    lemma_f2_sub_lift(t, x.c1, y.c1, zx.c1, zy.c1);
    lemma_f2_sub_lift(t, x.c2, y.c2, zx.c2, zy.c2);
}

/// A negation depends only on the residue of its term.
pub proof fn lemma_f6_neg_lift(t: Tower, x: F6, zx: F6)
    requires
        t.wf(),
        f6_red(t, x) == f6_red(t, zx),
    ensures
        f6_neg(t, x) == f6_red(t, f6_zneg(zx)),
        f6_red(t, f6_neg(t, x)) == f6_red(t, f6_zneg(zx)),
{
    reveal(f6_neg);
    lemma_f2_neg_lift(t, x.c0, zx.c0);
    lemma_f2_neg_lift(t, x.c1, zx.c1);
    lemma_f2_neg_lift(t, x.c2, zx.c2);
}

/// `(a0 + a1·v + a2·v²)(b0 + b1·v + b2·v²)` with `v³ = xi`.
#[verifier::opaque]
pub open spec fn f6_mul(t: Tower, a: F6, b: F6) -> F6 {
    F6 {
        c0: f2_add(
            t,
            f2_mul(t, a.c0, b.c0),
            f2_nr(t, f2_add(t, f2_mul(t, a.c1, b.c2), f2_mul(t, a.c2, b.c1))),
        ),
        c1: f2_add(
            t,
            f2_add(t, f2_mul(t, a.c0, b.c1), f2_mul(t, a.c1, b.c0)),
            f2_nr(t, f2_mul(t, a.c2, b.c2)),
        ),
        c2: f2_add(
            t,
            f2_add(t, f2_mul(t, a.c0, b.c2), f2_mul(t, a.c1, b.c1)),
            f2_mul(t, a.c2, b.c0),
        ),
    }
}

/// The element `v`.
pub open spec fn f6_v() -> F6 {
    F6 { c0: f2_zero(), c1: f2_one(), c2: f2_zero() }
}

/// A product is well formed, whatever went in.
pub proof fn lemma_f6_mul_fixed(t: Tower, a: F6, b: F6)
    requires
        t.wf(),
    ensures
        f6_red(t, f6_mul(t, a, b)) == f6_mul(t, a, b),
        f6_mul(t, a, b).wf(t),
{
    reveal(f6_mul);
    lemma_f2_add_wf(t, f2_mul(t, a.c0, b.c0), f2_nr(t, f2_add(t, f2_mul(t, a.c1, b.c2), f2_mul(t, a.c2, b.c1))));
    lemma_f2_add_wf(t, f2_add(t, f2_mul(t, a.c0, b.c1), f2_mul(t, a.c1, b.c0)), f2_nr(t, f2_mul(t, a.c2, b.c2)));
    lemma_f2_add_wf(t, f2_add(t, f2_mul(t, a.c0, b.c2), f2_mul(t, a.c1, b.c1)), f2_mul(t, a.c2, b.c0));
    lemma_f6_wf_fixed(t, f6_mul(t, a, b));
}

/// Multiplication commutes.
pub proof fn lemma_f6_mul_comm(t: Tower, a: F6, b: F6)
    requires
        t.wf(),
    ensures
        f6_mul(t, a, b) == f6_mul(t, b, a),
{
    reveal(f6_mul);
    let m0 = f2_mul(t, a.c1, b.c2);
    let m1 = f2_mul(t, a.c2, b.c1);
    lemma_f2_nr_add(t, m0, m1);
    lemma_f2_mul_comm(t, b.c0, a.c0);
    lemma_f2_mul_comm(t, b.c1, a.c2);
    lemma_f2_mul_comm(t, b.c2, a.c1);
    lemma_f2_nr_add(t, m1, m0);
    let m2 = f2_nr(t, m0);
    let m3 = f2_nr(t, m1);
    lemma_f2_add_lift(t, m2, m3, m2, m3);
    let m4 = f2_mul(t, a.c0, b.c0);
    let m5 = f2_add(t, m2, m3);
    lemma_f2_add_lift(t, m4, m5, m4, f2_zadd(m2, m3));
    lemma_f2_add_lift(t, m3, m2, m3, m2);
    let m6 = f2_add(t, m3, m2);
    lemma_f2_add_lift(t, m4, m6, m4, f2_zadd(m3, m2));
    assert(f2_zadd(m4, f2_zadd(m2, m3)) == f2_zadd(m4, f2_zadd(m3, m2)));
    assert(f6_mul(t, a, b).c0 == f6_mul(t, b, a).c0);
    lemma_f2_mul_comm(t, b.c0, a.c1);
    lemma_f2_mul_comm(t, b.c1, a.c0);
    lemma_f2_mul_comm(t, b.c2, a.c2);
    let m7 = f2_mul(t, a.c0, b.c1);
    let m8 = f2_mul(t, a.c1, b.c0);
    lemma_f2_add_lift(t, m7, m8, m7, m8);
    let m9 = f2_add(t, m7, m8);
    let m10 = f2_mul(t, a.c2, b.c2);
    let m11 = f2_nr(t, m10);
    lemma_f2_add_lift(t, m9, m11, f2_zadd(m7, m8), m11);
    lemma_f2_add_lift(t, m8, m7, m8, m7);
    let m12 = f2_add(t, m8, m7);
    lemma_f2_add_lift(t, m12, m11, f2_zadd(m8, m7), m11);
    assert(f2_zadd(f2_zadd(m7, m8), m11) == f2_zadd(f2_zadd(m8, m7), m11));
    assert(f6_mul(t, a, b).c1 == f6_mul(t, b, a).c1);
    lemma_f2_mul_comm(t, b.c0, a.c2);
    lemma_f2_mul_comm(t, b.c1, a.c1);
    lemma_f2_mul_comm(t, b.c2, a.c0);
    let m13 = f2_mul(t, a.c0, b.c2);
    let m14 = f2_mul(t, a.c1, b.c1);
    lemma_f2_add_lift(t, m13, m14, m13, m14);
    let m15 = f2_add(t, m13, m14);
    let m16 = f2_mul(t, a.c2, b.c0);
    lemma_f2_add_lift(t, m15, m16, f2_zadd(m13, m14), m16);
    lemma_f2_add_lift(t, m16, m14, m16, m14);
    let m17 = f2_add(t, m16, m14);
    lemma_f2_add_lift(t, m17, m13, f2_zadd(m16, m14), m13);
    assert(f2_zadd(f2_zadd(m13, m14), m16) == f2_zadd(f2_zadd(m16, m14), m13));
    assert(f6_mul(t, a, b).c2 == f6_mul(t, b, a).c2);
}

/// Multiplication associates.
pub proof fn lemma_f6_mul_assoc(t: Tower, a: F6, b: F6, c: F6)
    requires
        t.wf(),
    ensures
        f6_mul(t, f6_mul(t, a, b), c) == f6_mul(t, a, f6_mul(t, b, c)),
{
    reveal(f6_mul);
    let m0 = f2_mul(t, a.c1, b.c2);
    let m1 = f2_mul(t, a.c2, b.c1);
    lemma_f2_nr_add(t, m0, m1);
    let m2 = f2_mul(t, a.c0, b.c0);
    let m3 = f2_nr(t, m0);
    let m4 = f2_nr(t, m1);
    let m5 = f2_add(t, m3, m4);
    lemma_f2_mul_add(t, c.c0, m2, m5);
    lemma_f2_mul_assoc(t, a.c0, b.c0, c.c0);
    lemma_f2_mul_add(t, c.c0, m3, m4);
    lemma_f2_nr_mul(t, m0, c.c0);
    lemma_f2_mul_assoc(t, a.c1, b.c2, c.c0);
    lemma_f2_nr_mul(t, m1, c.c0);
    lemma_f2_mul_assoc(t, a.c2, b.c1, c.c0);
    let m6 = f2_mul(t, a.c0, b.c1);
    let m7 = f2_mul(t, a.c1, b.c0);
    let m8 = f2_add(t, m6, m7);
    let m9 = f2_mul(t, a.c2, b.c2);
    let m10 = f2_nr(t, m9);
    lemma_f2_mul_add(t, c.c2, m8, m10);
    lemma_f2_mul_add(t, c.c2, m6, m7);
    lemma_f2_mul_assoc(t, a.c0, b.c1, c.c2);
    lemma_f2_mul_assoc(t, a.c1, b.c0, c.c2);
    lemma_f2_nr_mul(t, m9, c.c2);
    lemma_f2_mul_assoc(t, a.c2, b.c2, c.c2);
    let m11 = f2_mul(t, a.c0, b.c2);
    let m12 = f2_mul(t, a.c1, b.c1);
    let m13 = f2_add(t, m11, m12);
    let m14 = f2_mul(t, a.c2, b.c0);
    lemma_f2_mul_add(t, c.c1, m13, m14);
    lemma_f2_mul_add(t, c.c1, m11, m12);
    lemma_f2_mul_assoc(t, a.c0, b.c2, c.c1);
    lemma_f2_mul_assoc(t, a.c1, b.c1, c.c1);
    lemma_f2_mul_assoc(t, a.c2, b.c0, c.c1);
    let m15 = f2_mul(t, b.c1, c.c2);
    let m16 = f2_mul(t, a.c0, m15);
    let m17 = f2_mul(t, b.c0, c.c2);
    let m18 = f2_mul(t, a.c1, m17);
    let m19 = f2_add(t, m16, m18);
    let m20 = f2_mul(t, b.c2, c.c2);
    let m21 = f2_mul(t, a.c2, m20);
    let m22 = f2_nr(t, m21);
    let m23 = f2_add(t, m19, m22);
    let m24 = f2_mul(t, b.c2, c.c1);
    let m25 = f2_mul(t, a.c0, m24);
    let m26 = f2_mul(t, b.c1, c.c1);
    let m27 = f2_mul(t, a.c1, m26);
    let m28 = f2_add(t, m25, m27);
    let m29 = f2_mul(t, b.c0, c.c1);
    let m30 = f2_mul(t, a.c2, m29);
    let m31 = f2_add(t, m28, m30);
    lemma_f2_nr_add(t, m23, m31);
    lemma_f2_nr_add(t, m19, m22);
    lemma_f2_nr_add(t, m16, m18);
    lemma_f2_nr_add(t, m28, m30);
    lemma_f2_nr_add(t, m25, m27);
    lemma_f2_nr_add(t, m15, m24);
    let m32 = f2_mul(t, b.c0, c.c0);
    let m33 = f2_nr(t, m15);
    let m34 = f2_nr(t, m24);
    let m35 = f2_add(t, m33, m34);
    lemma_f2_mul_add(t, a.c0, m32, m35);
    lemma_f2_mul_add(t, a.c0, m33, m34);
    lemma_f2_nr_mul(t, a.c0, m15);
    lemma_f2_nr_mul(t, a.c0, m24);
    let m36 = f2_add(t, m17, m26);
    let m37 = f2_mul(t, b.c2, c.c0);
    lemma_f2_mul_add(t, a.c1, m36, m37);
    lemma_f2_mul_add(t, a.c1, m17, m26);
    let m38 = f2_mul(t, b.c1, c.c0);
    let m39 = f2_add(t, m29, m38);
    let m40 = f2_nr(t, m20);
    lemma_f2_mul_add(t, a.c2, m39, m40);
    lemma_f2_mul_add(t, a.c2, m29, m38);
    lemma_f2_nr_mul(t, a.c2, m20);
    let m41 = f2_add(t, m18, m27);
    let m42 = f2_mul(t, a.c1, m37);
    let m43 = f2_add(t, m41, m42);
    let m44 = f2_mul(t, a.c2, m38);
    let m45 = f2_add(t, m30, m44);
    let m46 = f2_add(t, m45, m22);
    lemma_f2_nr_add(t, m43, m46);
    lemma_f2_nr_add(t, m41, m42);
    lemma_f2_nr_add(t, m18, m27);
    lemma_f2_nr_add(t, m45, m22);
    lemma_f2_nr_add(t, m30, m44);
    let m47 = f2_nr(t, m42);
    let m48 = f2_nr(t, m44);
    lemma_f2_add_lift(t, m47, m48, m47, m48);
    let m49 = f2_mul(t, a.c0, m32);
    let m50 = f2_add(t, m47, m48);
    lemma_f2_add_lift(t, m49, m50, m49, f2_zadd(m47, m48));
    let m51 = f2_nr(t, m16);
    let m52 = f2_nr(t, m18);
    lemma_f2_add_lift(t, m51, m52, m51, m52);
    let m53 = f2_add(t, m51, m52);
    let m54 = f2_nr(t, m22);
    lemma_f2_add_lift(t, m53, m54, f2_zadd(m51, m52), m54);
    let m55 = f2_nr(t, m25);
    let m56 = f2_nr(t, m27);
    lemma_f2_add_lift(t, m55, m56, m55, m56);
    let m57 = f2_add(t, m55, m56);
    let m58 = f2_nr(t, m30);
    lemma_f2_add_lift(t, m57, m58, f2_zadd(m55, m56), m58);
    let m59 = f2_add(t, m53, m54);
    let m60 = f2_add(t, m57, m58);
    lemma_f2_add_lift(t, m59, m60, f2_zadd(f2_zadd(m51, m52), m54), f2_zadd(f2_zadd(m55, m56), m58));
    let m61 = f2_add(t, m49, m50);
    let m62 = f2_add(t, m59, m60);
    lemma_f2_add_lift(t, m61, m62, f2_zadd(m49, f2_zadd(m47, m48)), f2_zadd(f2_zadd(f2_zadd(m51, m52), m54), f2_zadd(f2_zadd(m55, m56), m58)));
    lemma_f2_add_lift(t, m51, m55, m51, m55);
    let m63 = f2_add(t, m51, m55);
    lemma_f2_add_lift(t, m49, m63, m49, f2_zadd(m51, m55));
    lemma_f2_add_lift(t, m52, m56, m52, m56);
    let m64 = f2_add(t, m52, m56);
    lemma_f2_add_lift(t, m64, m47, f2_zadd(m52, m56), m47);
    lemma_f2_add_lift(t, m58, m48, m58, m48);
    let m65 = f2_add(t, m58, m48);
    lemma_f2_add_lift(t, m65, m54, f2_zadd(m58, m48), m54);
    let m66 = f2_add(t, m64, m47);
    let m67 = f2_add(t, m65, m54);
    lemma_f2_add_lift(t, m66, m67, f2_zadd(f2_zadd(m52, m56), m47), f2_zadd(f2_zadd(m58, m48), m54));
    let m68 = f2_add(t, m49, m63);
    let m69 = f2_add(t, m66, m67);
    lemma_f2_add_lift(t, m68, m69, f2_zadd(m49, f2_zadd(m51, m55)), f2_zadd(f2_zadd(f2_zadd(m52, m56), m47), f2_zadd(f2_zadd(m58, m48), m54)));
    assert(f2_zadd(f2_zadd(m49, f2_zadd(m47, m48)), f2_zadd(f2_zadd(f2_zadd(m51, m52), m54), f2_zadd(f2_zadd(m55, m56), m58))) == f2_zadd(f2_zadd(m49, f2_zadd(m51, m55)), f2_zadd(f2_zadd(f2_zadd(m52, m56), m47), f2_zadd(f2_zadd(m58, m48), m54))));
    assert(f6_mul(t, f6_mul(t, a, b), c).c0 == f6_mul(t, a, f6_mul(t, b, c)).c0);
    lemma_f2_mul_add(t, c.c1, m2, m5);
    lemma_f2_mul_assoc(t, a.c0, b.c0, c.c1);
    lemma_f2_mul_add(t, c.c1, m3, m4);
    lemma_f2_nr_mul(t, m0, c.c1);
    lemma_f2_mul_assoc(t, a.c1, b.c2, c.c1);
    lemma_f2_nr_mul(t, m1, c.c1);
    lemma_f2_mul_assoc(t, a.c2, b.c1, c.c1);
    lemma_f2_mul_add(t, c.c0, m8, m10);
    lemma_f2_mul_add(t, c.c0, m6, m7);
    lemma_f2_mul_assoc(t, a.c0, b.c1, c.c0);
    lemma_f2_mul_assoc(t, a.c1, b.c0, c.c0);
    lemma_f2_nr_mul(t, m9, c.c0);
    lemma_f2_mul_assoc(t, a.c2, b.c2, c.c0);
    lemma_f2_mul_add(t, c.c2, m13, m14);
    lemma_f2_mul_add(t, c.c2, m11, m12);
    lemma_f2_mul_assoc(t, a.c0, b.c2, c.c2);
    lemma_f2_mul_assoc(t, a.c1, b.c1, c.c2);
    lemma_f2_mul_assoc(t, a.c2, b.c0, c.c2);
    let m70 = f2_mul(t, a.c0, m20);
    let m71 = f2_mul(t, a.c1, m15);
    let m72 = f2_add(t, m70, m71);
    let m73 = f2_mul(t, a.c2, m17);
    lemma_f2_nr_add(t, m72, m73);
    lemma_f2_nr_add(t, m70, m71);
    lemma_f2_mul_add(t, a.c0, m39, m40);
    lemma_f2_mul_add(t, a.c0, m29, m38);
    lemma_f2_nr_mul(t, a.c0, m20);
    lemma_f2_mul_add(t, a.c1, m32, m35);
    lemma_f2_mul_add(t, a.c1, m33, m34);
    lemma_f2_nr_mul(t, a.c1, m15);
    lemma_f2_nr_mul(t, a.c1, m24);
    lemma_f2_mul_add(t, a.c2, m36, m37);
    lemma_f2_mul_add(t, a.c2, m17, m26);
    let m74 = f2_mul(t, a.c2, m26);
    let m75 = f2_add(t, m73, m74);
    let m76 = f2_mul(t, a.c2, m37);
    lemma_f2_nr_add(t, m75, m76);
    lemma_f2_nr_add(t, m73, m74);
    let m77 = f2_mul(t, a.c1, m24);
    let m78 = f2_nr(t, m77);
    let m79 = f2_nr(t, m74);
    lemma_f2_add_lift(t, m78, m79, m78, m79);
    let m80 = f2_mul(t, a.c0, m29);
    let m81 = f2_add(t, m78, m79);
    lemma_f2_add_lift(t, m80, m81, m80, f2_zadd(m78, m79));
    let m82 = f2_mul(t, a.c0, m38);
    let m83 = f2_mul(t, a.c1, m32);
    lemma_f2_add_lift(t, m82, m83, m82, m83);
    let m84 = f2_add(t, m82, m83);
    let m85 = f2_nr(t, m76);
    lemma_f2_add_lift(t, m84, m85, f2_zadd(m82, m83), m85);
    let m86 = f2_add(t, m80, m81);
    let m87 = f2_add(t, m84, m85);
    lemma_f2_add_lift(t, m86, m87, f2_zadd(m80, f2_zadd(m78, m79)), f2_zadd(f2_zadd(m82, m83), m85));
    let m88 = f2_nr(t, m70);
    let m89 = f2_nr(t, m71);
    lemma_f2_add_lift(t, m88, m89, m88, m89);
    let m90 = f2_add(t, m88, m89);
    let m91 = f2_nr(t, m73);
    lemma_f2_add_lift(t, m90, m91, f2_zadd(m88, m89), m91);
    let m92 = f2_add(t, m86, m87);
    let m93 = f2_add(t, m90, m91);
    lemma_f2_add_lift(t, m92, m93, f2_zadd(f2_zadd(m80, f2_zadd(m78, m79)), f2_zadd(f2_zadd(m82, m83), m85)), f2_zadd(f2_zadd(m88, m89), m91));
    lemma_f2_add_lift(t, m80, m82, m80, m82);
    let m94 = f2_add(t, m80, m82);
    lemma_f2_add_lift(t, m94, m88, f2_zadd(m80, m82), m88);
    lemma_f2_add_lift(t, m89, m78, m89, m78);
    let m95 = f2_add(t, m89, m78);
    lemma_f2_add_lift(t, m83, m95, m83, f2_zadd(m89, m78));
    let m96 = f2_add(t, m94, m88);
    let m97 = f2_add(t, m83, m95);
    lemma_f2_add_lift(t, m96, m97, f2_zadd(f2_zadd(m80, m82), m88), f2_zadd(m83, f2_zadd(m89, m78)));
    lemma_f2_add_lift(t, m91, m79, m91, m79);
    let m98 = f2_add(t, m91, m79);
    lemma_f2_add_lift(t, m98, m85, f2_zadd(m91, m79), m85);
    let m99 = f2_add(t, m96, m97);
    let m100 = f2_add(t, m98, m85);
    lemma_f2_add_lift(t, m99, m100, f2_zadd(f2_zadd(f2_zadd(m80, m82), m88), f2_zadd(m83, f2_zadd(m89, m78))), f2_zadd(f2_zadd(m91, m79), m85));
    assert(f2_zadd(f2_zadd(f2_zadd(m80, f2_zadd(m78, m79)), f2_zadd(f2_zadd(m82, m83), m85)), f2_zadd(f2_zadd(m88, m89), m91)) == f2_zadd(f2_zadd(f2_zadd(f2_zadd(m80, m82), m88), f2_zadd(m83, f2_zadd(m89, m78))), f2_zadd(f2_zadd(m91, m79), m85)));
    assert(f6_mul(t, f6_mul(t, a, b), c).c1 == f6_mul(t, a, f6_mul(t, b, c)).c1);
    lemma_f2_mul_add(t, c.c2, m2, m5);
    lemma_f2_mul_assoc(t, a.c0, b.c0, c.c2);
    lemma_f2_mul_add(t, c.c2, m3, m4);
    lemma_f2_nr_mul(t, m0, c.c2);
    lemma_f2_mul_assoc(t, a.c1, b.c2, c.c2);
    lemma_f2_nr_mul(t, m1, c.c2);
    lemma_f2_mul_assoc(t, a.c2, b.c1, c.c2);
    lemma_f2_mul_add(t, c.c1, m8, m10);
    lemma_f2_mul_add(t, c.c1, m6, m7);
    lemma_f2_mul_assoc(t, a.c0, b.c1, c.c1);
    lemma_f2_mul_assoc(t, a.c1, b.c0, c.c1);
    lemma_f2_nr_mul(t, m9, c.c1);
    lemma_f2_mul_assoc(t, a.c2, b.c2, c.c1);
    lemma_f2_mul_add(t, c.c0, m13, m14);
    lemma_f2_mul_add(t, c.c0, m11, m12);
    lemma_f2_mul_assoc(t, a.c0, b.c2, c.c0);
    lemma_f2_mul_assoc(t, a.c1, b.c1, c.c0);
    lemma_f2_mul_assoc(t, a.c2, b.c0, c.c0);
    lemma_f2_mul_add(t, a.c0, m36, m37);
    lemma_f2_mul_add(t, a.c0, m17, m26);
    lemma_f2_mul_add(t, a.c1, m39, m40);
    lemma_f2_mul_add(t, a.c1, m29, m38);
    lemma_f2_nr_mul(t, a.c1, m20);
    lemma_f2_mul_add(t, a.c2, m32, m35);
    lemma_f2_mul_add(t, a.c2, m33, m34);
    lemma_f2_nr_mul(t, a.c2, m15);
    lemma_f2_nr_mul(t, a.c2, m24);
    let m101 = f2_mul(t, a.c1, m20);
    let m102 = f2_nr(t, m101);
    let m103 = f2_mul(t, a.c2, m15);
    let m104 = f2_nr(t, m103);
    lemma_f2_add_lift(t, m102, m104, m102, m104);
    let m105 = f2_mul(t, a.c0, m17);
    let m106 = f2_add(t, m102, m104);
    lemma_f2_add_lift(t, m105, m106, m105, f2_zadd(m102, m104));
    let m107 = f2_mul(t, a.c0, m26);
    let m108 = f2_mul(t, a.c1, m29);
    lemma_f2_add_lift(t, m107, m108, m107, m108);
    let m109 = f2_add(t, m107, m108);
    let m110 = f2_mul(t, a.c2, m24);
    let m111 = f2_nr(t, m110);
    lemma_f2_add_lift(t, m109, m111, f2_zadd(m107, m108), m111);
    let m112 = f2_add(t, m105, m106);
    let m113 = f2_add(t, m109, m111);
    lemma_f2_add_lift(t, m112, m113, f2_zadd(m105, f2_zadd(m102, m104)), f2_zadd(f2_zadd(m107, m108), m111));
    let m114 = f2_mul(t, a.c0, m37);
    let m115 = f2_mul(t, a.c1, m38);
    lemma_f2_add_lift(t, m114, m115, m114, m115);
    let m116 = f2_add(t, m114, m115);
    let m117 = f2_mul(t, a.c2, m32);
    lemma_f2_add_lift(t, m116, m117, f2_zadd(m114, m115), m117);
    let m118 = f2_add(t, m112, m113);
    let m119 = f2_add(t, m116, m117);
    lemma_f2_add_lift(t, m118, m119, f2_zadd(f2_zadd(m105, f2_zadd(m102, m104)), f2_zadd(f2_zadd(m107, m108), m111)), f2_zadd(f2_zadd(m114, m115), m117));
    lemma_f2_add_lift(t, m105, m107, m105, m107);
    let m120 = f2_add(t, m105, m107);
    lemma_f2_add_lift(t, m120, m114, f2_zadd(m105, m107), m114);
    lemma_f2_add_lift(t, m108, m115, m108, m115);
    let m121 = f2_add(t, m108, m115);
    lemma_f2_add_lift(t, m121, m102, f2_zadd(m108, m115), m102);
    let m122 = f2_add(t, m120, m114);
    let m123 = f2_add(t, m121, m102);
    lemma_f2_add_lift(t, m122, m123, f2_zadd(f2_zadd(m105, m107), m114), f2_zadd(f2_zadd(m108, m115), m102));
    lemma_f2_add_lift(t, m104, m111, m104, m111);
    let m124 = f2_add(t, m104, m111);
    lemma_f2_add_lift(t, m117, m124, m117, f2_zadd(m104, m111));
    let m125 = f2_add(t, m122, m123);
    let m126 = f2_add(t, m117, m124);
    lemma_f2_add_lift(t, m125, m126, f2_zadd(f2_zadd(f2_zadd(m105, m107), m114), f2_zadd(f2_zadd(m108, m115), m102)), f2_zadd(m117, f2_zadd(m104, m111)));
    assert(f2_zadd(f2_zadd(f2_zadd(m105, f2_zadd(m102, m104)), f2_zadd(f2_zadd(m107, m108), m111)), f2_zadd(f2_zadd(m114, m115), m117)) == f2_zadd(f2_zadd(f2_zadd(f2_zadd(m105, m107), m114), f2_zadd(f2_zadd(m108, m115), m102)), f2_zadd(m117, f2_zadd(m104, m111))));
    assert(f6_mul(t, f6_mul(t, a, b), c).c2 == f6_mul(t, a, f6_mul(t, b, c)).c2);
}

/// Multiplication distributes over addition, on either side.
pub proof fn lemma_f6_mul_add(t: Tower, a: F6, b: F6, c: F6)
    requires
        t.wf(),
    ensures
        f6_mul(t, a, f6_add(t, b, c)) == f6_add(t, f6_mul(t, a, b), f6_mul(t, a, c)),
        f6_mul(t, f6_add(t, b, c), a) == f6_add(t, f6_mul(t, b, a), f6_mul(t, c, a)),
{
    reveal(f6_mul);
    reveal(f6_add);
    lemma_f2_mul_add(t, a.c0, b.c0, c.c0);
    lemma_f2_mul_add(t, a.c1, b.c2, c.c2);
    lemma_f2_mul_add(t, a.c2, b.c1, c.c1);
    let m0 = f2_mul(t, a.c1, b.c2);
    let m1 = f2_mul(t, a.c1, c.c2);
    let m2 = f2_add(t, m0, m1);
    let m3 = f2_mul(t, a.c2, b.c1);
    let m4 = f2_mul(t, a.c2, c.c1);
    let m5 = f2_add(t, m3, m4);
    lemma_f2_nr_add(t, m2, m5);
    lemma_f2_nr_add(t, m0, m1);
    lemma_f2_nr_add(t, m3, m4);
    lemma_f2_nr_add(t, m0, m3);
    lemma_f2_nr_add(t, m1, m4);
    let m6 = f2_mul(t, a.c0, b.c0);
    let m7 = f2_mul(t, a.c0, c.c0);
    lemma_f2_add_lift(t, m6, m7, m6, m7);
    let m8 = f2_nr(t, m0);
    let m9 = f2_nr(t, m1);
    lemma_f2_add_lift(t, m8, m9, m8, m9);
    let m10 = f2_nr(t, m3);
    let m11 = f2_nr(t, m4);
    lemma_f2_add_lift(t, m10, m11, m10, m11);
    let m12 = f2_add(t, m8, m9);
    let m13 = f2_add(t, m10, m11);
    lemma_f2_add_lift(t, m12, m13, f2_zadd(m8, m9), f2_zadd(m10, m11));
    let m14 = f2_add(t, m6, m7);
    let m15 = f2_add(t, m12, m13);
    lemma_f2_add_lift(t, m14, m15, f2_zadd(m6, m7), f2_zadd(f2_zadd(m8, m9), f2_zadd(m10, m11)));
    lemma_f2_add_lift(t, m8, m10, m8, m10);
    let m16 = f2_add(t, m8, m10);
    lemma_f2_add_lift(t, m6, m16, m6, f2_zadd(m8, m10));
    lemma_f2_add_lift(t, m9, m11, m9, m11);
    let m17 = f2_add(t, m9, m11);
    lemma_f2_add_lift(t, m7, m17, m7, f2_zadd(m9, m11));
    let m18 = f2_add(t, m6, m16);
    let m19 = f2_add(t, m7, m17);
    lemma_f2_add_lift(t, m18, m19, f2_zadd(m6, f2_zadd(m8, m10)), f2_zadd(m7, f2_zadd(m9, m11)));
    assert(f2_zadd(f2_zadd(m6, m7), f2_zadd(f2_zadd(m8, m9), f2_zadd(m10, m11))) == f2_zadd(f2_zadd(m6, f2_zadd(m8, m10)), f2_zadd(m7, f2_zadd(m9, m11))));
    assert(f6_mul(t, a, f6_add(t, b, c)).c0 == f6_add(t, f6_mul(t, a, b), f6_mul(t, a, c)).c0);
    lemma_f2_mul_add(t, a.c0, b.c1, c.c1);
    lemma_f2_mul_add(t, a.c1, b.c0, c.c0);
    lemma_f2_mul_add(t, a.c2, b.c2, c.c2);
    let m20 = f2_mul(t, a.c2, b.c2);
    let m21 = f2_mul(t, a.c2, c.c2);
    lemma_f2_nr_add(t, m20, m21);
    let m22 = f2_mul(t, a.c0, b.c1);
    let m23 = f2_mul(t, a.c0, c.c1);
    lemma_f2_add_lift(t, m22, m23, m22, m23);
    let m24 = f2_mul(t, a.c1, b.c0);
    let m25 = f2_mul(t, a.c1, c.c0);
    lemma_f2_add_lift(t, m24, m25, m24, m25);
    let m26 = f2_add(t, m22, m23);
    let m27 = f2_add(t, m24, m25);
    lemma_f2_add_lift(t, m26, m27, f2_zadd(m22, m23), f2_zadd(m24, m25));
    let m28 = f2_nr(t, m20);
    let m29 = f2_nr(t, m21);
    lemma_f2_add_lift(t, m28, m29, m28, m29);
    let m30 = f2_add(t, m26, m27);
    let m31 = f2_add(t, m28, m29);
    lemma_f2_add_lift(t, m30, m31, f2_zadd(f2_zadd(m22, m23), f2_zadd(m24, m25)), f2_zadd(m28, m29));
    lemma_f2_add_lift(t, m22, m24, m22, m24);
    let m32 = f2_add(t, m22, m24);
    lemma_f2_add_lift(t, m32, m28, f2_zadd(m22, m24), m28);
    lemma_f2_add_lift(t, m23, m25, m23, m25);
    let m33 = f2_add(t, m23, m25);
    lemma_f2_add_lift(t, m33, m29, f2_zadd(m23, m25), m29);
    let m34 = f2_add(t, m32, m28);
    let m35 = f2_add(t, m33, m29);
    lemma_f2_add_lift(t, m34, m35, f2_zadd(f2_zadd(m22, m24), m28), f2_zadd(f2_zadd(m23, m25), m29));
    assert(f2_zadd(f2_zadd(f2_zadd(m22, m23), f2_zadd(m24, m25)), f2_zadd(m28, m29)) == f2_zadd(f2_zadd(f2_zadd(m22, m24), m28), f2_zadd(f2_zadd(m23, m25), m29)));
    assert(f6_mul(t, a, f6_add(t, b, c)).c1 == f6_add(t, f6_mul(t, a, b), f6_mul(t, a, c)).c1);
    lemma_f2_mul_add(t, a.c0, b.c2, c.c2);
    lemma_f2_mul_add(t, a.c1, b.c1, c.c1);
    lemma_f2_mul_add(t, a.c2, b.c0, c.c0);
    let m36 = f2_mul(t, a.c0, b.c2);
    let m37 = f2_mul(t, a.c0, c.c2);
    lemma_f2_add_lift(t, m36, m37, m36, m37);
    let m38 = f2_mul(t, a.c1, b.c1);
    let m39 = f2_mul(t, a.c1, c.c1);
    lemma_f2_add_lift(t, m38, m39, m38, m39);
    let m40 = f2_add(t, m36, m37);
    let m41 = f2_add(t, m38, m39);
    lemma_f2_add_lift(t, m40, m41, f2_zadd(m36, m37), f2_zadd(m38, m39));
    let m42 = f2_mul(t, a.c2, b.c0);
    let m43 = f2_mul(t, a.c2, c.c0);
    lemma_f2_add_lift(t, m42, m43, m42, m43);
    let m44 = f2_add(t, m40, m41);
    let m45 = f2_add(t, m42, m43);
    lemma_f2_add_lift(t, m44, m45, f2_zadd(f2_zadd(m36, m37), f2_zadd(m38, m39)), f2_zadd(m42, m43));
    lemma_f2_add_lift(t, m36, m38, m36, m38);
    let m46 = f2_add(t, m36, m38);
    lemma_f2_add_lift(t, m46, m42, f2_zadd(m36, m38), m42);
    lemma_f2_add_lift(t, m37, m39, m37, m39);
    let m47 = f2_add(t, m37, m39);
    lemma_f2_add_lift(t, m47, m43, f2_zadd(m37, m39), m43);
    let m48 = f2_add(t, m46, m42);
    let m49 = f2_add(t, m47, m43);
    lemma_f2_add_lift(t, m48, m49, f2_zadd(f2_zadd(m36, m38), m42), f2_zadd(f2_zadd(m37, m39), m43));
    assert(f2_zadd(f2_zadd(f2_zadd(m36, m37), f2_zadd(m38, m39)), f2_zadd(m42, m43)) == f2_zadd(f2_zadd(f2_zadd(m36, m38), m42), f2_zadd(f2_zadd(m37, m39), m43)));
    assert(f6_mul(t, a, f6_add(t, b, c)).c2 == f6_add(t, f6_mul(t, a, b), f6_mul(t, a, c)).c2);
    lemma_f2_mul_comm(t, b.c0, a.c0);
    lemma_f2_mul_comm(t, c.c0, a.c0);
    lemma_f2_mul_comm(t, b.c1, a.c2);
    lemma_f2_mul_comm(t, c.c1, a.c2);
    lemma_f2_mul_comm(t, b.c2, a.c1);
    lemma_f2_mul_comm(t, c.c2, a.c1);
    lemma_f2_nr_add(t, m5, m2);
    lemma_f2_nr_add(t, m3, m0);
    lemma_f2_nr_add(t, m4, m1);
    lemma_f2_add_lift(t, m13, m12, f2_zadd(m10, m11), f2_zadd(m8, m9));
    let m50 = f2_add(t, m13, m12);
    lemma_f2_add_lift(t, m14, m50, f2_zadd(m6, m7), f2_zadd(f2_zadd(m10, m11), f2_zadd(m8, m9)));
    lemma_f2_add_lift(t, m10, m8, m10, m8);
    let m51 = f2_add(t, m10, m8);
    lemma_f2_add_lift(t, m6, m51, m6, f2_zadd(m10, m8));
    lemma_f2_add_lift(t, m11, m9, m11, m9);
    let m52 = f2_add(t, m11, m9);
    lemma_f2_add_lift(t, m7, m52, m7, f2_zadd(m11, m9));
    let m53 = f2_add(t, m6, m51);
    let m54 = f2_add(t, m7, m52);
    lemma_f2_add_lift(t, m53, m54, f2_zadd(m6, f2_zadd(m10, m8)), f2_zadd(m7, f2_zadd(m11, m9)));
    assert(f2_zadd(f2_zadd(m6, m7), f2_zadd(f2_zadd(m10, m11), f2_zadd(m8, m9))) == f2_zadd(f2_zadd(m6, f2_zadd(m10, m8)), f2_zadd(m7, f2_zadd(m11, m9))));
    assert(f6_mul(t, f6_add(t, b, c), a).c0 == f6_add(t, f6_mul(t, b, a), f6_mul(t, c, a)).c0);
    lemma_f2_mul_comm(t, b.c0, a.c1);
    lemma_f2_mul_comm(t, c.c0, a.c1);
    lemma_f2_mul_comm(t, b.c1, a.c0);
    lemma_f2_mul_comm(t, c.c1, a.c0);
    lemma_f2_mul_comm(t, b.c2, a.c2);
    lemma_f2_mul_comm(t, c.c2, a.c2);
    lemma_f2_add_lift(t, m27, m26, f2_zadd(m24, m25), f2_zadd(m22, m23));
    let m55 = f2_add(t, m27, m26);
    lemma_f2_add_lift(t, m55, m31, f2_zadd(f2_zadd(m24, m25), f2_zadd(m22, m23)), f2_zadd(m28, m29));
    lemma_f2_add_lift(t, m24, m22, m24, m22);
    let m56 = f2_add(t, m24, m22);
    lemma_f2_add_lift(t, m56, m28, f2_zadd(m24, m22), m28);
    lemma_f2_add_lift(t, m25, m23, m25, m23);
    let m57 = f2_add(t, m25, m23);
    lemma_f2_add_lift(t, m57, m29, f2_zadd(m25, m23), m29);
    let m58 = f2_add(t, m56, m28);
    let m59 = f2_add(t, m57, m29);
    lemma_f2_add_lift(t, m58, m59, f2_zadd(f2_zadd(m24, m22), m28), f2_zadd(f2_zadd(m25, m23), m29));
    assert(f2_zadd(f2_zadd(f2_zadd(m24, m25), f2_zadd(m22, m23)), f2_zadd(m28, m29)) == f2_zadd(f2_zadd(f2_zadd(m24, m22), m28), f2_zadd(f2_zadd(m25, m23), m29)));
    assert(f6_mul(t, f6_add(t, b, c), a).c1 == f6_add(t, f6_mul(t, b, a), f6_mul(t, c, a)).c1);
    lemma_f2_mul_comm(t, b.c0, a.c2);
    lemma_f2_mul_comm(t, c.c0, a.c2);
    lemma_f2_mul_comm(t, b.c1, a.c1);
    lemma_f2_mul_comm(t, c.c1, a.c1);
    lemma_f2_mul_comm(t, b.c2, a.c0);
    lemma_f2_mul_comm(t, c.c2, a.c0);
    lemma_f2_add_lift(t, m45, m41, f2_zadd(m42, m43), f2_zadd(m38, m39));
    let m60 = f2_add(t, m45, m41);
    lemma_f2_add_lift(t, m60, m40, f2_zadd(f2_zadd(m42, m43), f2_zadd(m38, m39)), f2_zadd(m36, m37));
    lemma_f2_add_lift(t, m42, m38, m42, m38);
    let m61 = f2_add(t, m42, m38);
    lemma_f2_add_lift(t, m61, m36, f2_zadd(m42, m38), m36);
    lemma_f2_add_lift(t, m43, m39, m43, m39);
    let m62 = f2_add(t, m43, m39);
    lemma_f2_add_lift(t, m62, m37, f2_zadd(m43, m39), m37);
    let m63 = f2_add(t, m61, m36);
    let m64 = f2_add(t, m62, m37);
    lemma_f2_add_lift(t, m63, m64, f2_zadd(f2_zadd(m42, m38), m36), f2_zadd(f2_zadd(m43, m39), m37));
    assert(f2_zadd(f2_zadd(f2_zadd(m42, m43), f2_zadd(m38, m39)), f2_zadd(m36, m37)) == f2_zadd(f2_zadd(f2_zadd(m42, m38), m36), f2_zadd(f2_zadd(m43, m39), m37)));
    assert(f6_mul(t, f6_add(t, b, c), a).c2 == f6_add(t, f6_mul(t, b, a), f6_mul(t, c, a)).c2);
}

/// Multiplication distributes over subtraction, on either side.
pub proof fn lemma_f6_mul_sub(t: Tower, a: F6, b: F6, c: F6)
    requires
        t.wf(),
    ensures
        f6_mul(t, a, f6_sub(t, b, c)) == f6_sub(t, f6_mul(t, a, b), f6_mul(t, a, c)),
        f6_mul(t, f6_sub(t, b, c), a) == f6_sub(t, f6_mul(t, b, a), f6_mul(t, c, a)),
{
    reveal(f6_mul);
    reveal(f6_sub);
    lemma_f2_mul_sub(t, a.c0, b.c0, c.c0);
    lemma_f2_mul_sub(t, a.c1, b.c2, c.c2);
    lemma_f2_mul_sub(t, a.c2, b.c1, c.c1);
    let m0 = f2_mul(t, a.c1, b.c2);
    let m1 = f2_mul(t, a.c1, c.c2);
    let m2 = f2_sub(t, m0, m1);
    let m3 = f2_mul(t, a.c2, b.c1);
    let m4 = f2_mul(t, a.c2, c.c1);
    let m5 = f2_sub(t, m3, m4);
    lemma_f2_nr_add(t, m2, m5);
    lemma_f2_nr_sub(t, m0, m1);
    lemma_f2_nr_sub(t, m3, m4);
    lemma_f2_nr_add(t, m0, m3);
    lemma_f2_nr_add(t, m1, m4);
    let m6 = f2_mul(t, a.c0, b.c0);
    let m7 = f2_mul(t, a.c0, c.c0);
    lemma_f2_sub_lift(t, m6, m7, m6, m7);
    let m8 = f2_nr(t, m0);
    let m9 = f2_nr(t, m1);
    lemma_f2_sub_lift(t, m8, m9, m8, m9);
    let m10 = f2_nr(t, m3);
    let m11 = f2_nr(t, m4);
    lemma_f2_sub_lift(t, m10, m11, m10, m11);
    let m12 = f2_sub(t, m8, m9);
    let m13 = f2_sub(t, m10, m11);
    lemma_f2_add_lift(t, m12, m13, f2_zsub(m8, m9), f2_zsub(m10, m11));
    let m14 = f2_sub(t, m6, m7);
    let m15 = f2_add(t, m12, m13);
    lemma_f2_add_lift(t, m14, m15, f2_zsub(m6, m7), f2_zadd(f2_zsub(m8, m9), f2_zsub(m10, m11)));
    lemma_f2_add_lift(t, m8, m10, m8, m10);
    let m16 = f2_add(t, m8, m10);
    lemma_f2_add_lift(t, m6, m16, m6, f2_zadd(m8, m10));
    lemma_f2_add_lift(t, m9, m11, m9, m11);
    let m17 = f2_add(t, m9, m11);
    lemma_f2_add_lift(t, m7, m17, m7, f2_zadd(m9, m11));
    let m18 = f2_add(t, m6, m16);
    let m19 = f2_add(t, m7, m17);
    lemma_f2_sub_lift(t, m18, m19, f2_zadd(m6, f2_zadd(m8, m10)), f2_zadd(m7, f2_zadd(m9, m11)));
    assert(f2_zadd(f2_zsub(m6, m7), f2_zadd(f2_zsub(m8, m9), f2_zsub(m10, m11))) == f2_zsub(f2_zadd(m6, f2_zadd(m8, m10)), f2_zadd(m7, f2_zadd(m9, m11))));
    assert(f6_mul(t, a, f6_sub(t, b, c)).c0 == f6_sub(t, f6_mul(t, a, b), f6_mul(t, a, c)).c0);
    lemma_f2_mul_sub(t, a.c0, b.c1, c.c1);
    lemma_f2_mul_sub(t, a.c1, b.c0, c.c0);
    lemma_f2_mul_sub(t, a.c2, b.c2, c.c2);
    let m20 = f2_mul(t, a.c2, b.c2);
    let m21 = f2_mul(t, a.c2, c.c2);
    lemma_f2_nr_sub(t, m20, m21);
    let m22 = f2_mul(t, a.c0, b.c1);
    let m23 = f2_mul(t, a.c0, c.c1);
    lemma_f2_sub_lift(t, m22, m23, m22, m23);
    let m24 = f2_mul(t, a.c1, b.c0);
    let m25 = f2_mul(t, a.c1, c.c0);
    lemma_f2_sub_lift(t, m24, m25, m24, m25);
    let m26 = f2_sub(t, m22, m23);
    let m27 = f2_sub(t, m24, m25);
    lemma_f2_add_lift(t, m26, m27, f2_zsub(m22, m23), f2_zsub(m24, m25));
    let m28 = f2_nr(t, m20);
    let m29 = f2_nr(t, m21);
    lemma_f2_sub_lift(t, m28, m29, m28, m29);
    let m30 = f2_add(t, m26, m27);
    let m31 = f2_sub(t, m28, m29);
    lemma_f2_add_lift(t, m30, m31, f2_zadd(f2_zsub(m22, m23), f2_zsub(m24, m25)), f2_zsub(m28, m29));
    lemma_f2_add_lift(t, m22, m24, m22, m24);
    let m32 = f2_add(t, m22, m24);
    lemma_f2_add_lift(t, m32, m28, f2_zadd(m22, m24), m28);
    lemma_f2_add_lift(t, m23, m25, m23, m25);
    let m33 = f2_add(t, m23, m25);
    lemma_f2_add_lift(t, m33, m29, f2_zadd(m23, m25), m29);
    let m34 = f2_add(t, m32, m28);
    let m35 = f2_add(t, m33, m29);
    lemma_f2_sub_lift(t, m34, m35, f2_zadd(f2_zadd(m22, m24), m28), f2_zadd(f2_zadd(m23, m25), m29));
    assert(f2_zadd(f2_zadd(f2_zsub(m22, m23), f2_zsub(m24, m25)), f2_zsub(m28, m29)) == f2_zsub(f2_zadd(f2_zadd(m22, m24), m28), f2_zadd(f2_zadd(m23, m25), m29)));
    assert(f6_mul(t, a, f6_sub(t, b, c)).c1 == f6_sub(t, f6_mul(t, a, b), f6_mul(t, a, c)).c1);
    lemma_f2_mul_sub(t, a.c0, b.c2, c.c2);
    lemma_f2_mul_sub(t, a.c1, b.c1, c.c1);
    lemma_f2_mul_sub(t, a.c2, b.c0, c.c0);
    let m36 = f2_mul(t, a.c0, b.c2);
    let m37 = f2_mul(t, a.c0, c.c2);
    lemma_f2_sub_lift(t, m36, m37, m36, m37);
    let m38 = f2_mul(t, a.c1, b.c1);
    let m39 = f2_mul(t, a.c1, c.c1);
    lemma_f2_sub_lift(t, m38, m39, m38, m39);
    let m40 = f2_sub(t, m36, m37);
    let m41 = f2_sub(t, m38, m39);
    lemma_f2_add_lift(t, m40, m41, f2_zsub(m36, m37), f2_zsub(m38, m39));
    let m42 = f2_mul(t, a.c2, b.c0);
    let m43 = f2_mul(t, a.c2, c.c0);
    lemma_f2_sub_lift(t, m42, m43, m42, m43);
    let m44 = f2_add(t, m40, m41);
    let m45 = f2_sub(t, m42, m43);
    lemma_f2_add_lift(t, m44, m45, f2_zadd(f2_zsub(m36, m37), f2_zsub(m38, m39)), f2_zsub(m42, m43));
    lemma_f2_add_lift(t, m36, m38, m36, m38);
    let m46 = f2_add(t, m36, m38);
    lemma_f2_add_lift(t, m46, m42, f2_zadd(m36, m38), m42);
    lemma_f2_add_lift(t, m37, m39, m37, m39);
    let m47 = f2_add(t, m37, m39);
    lemma_f2_add_lift(t, m47, m43, f2_zadd(m37, m39), m43);
    let m48 = f2_add(t, m46, m42);
    let m49 = f2_add(t, m47, m43);
    lemma_f2_sub_lift(t, m48, m49, f2_zadd(f2_zadd(m36, m38), m42), f2_zadd(f2_zadd(m37, m39), m43));
    assert(f2_zadd(f2_zadd(f2_zsub(m36, m37), f2_zsub(m38, m39)), f2_zsub(m42, m43)) == f2_zsub(f2_zadd(f2_zadd(m36, m38), m42), f2_zadd(f2_zadd(m37, m39), m43)));
    assert(f6_mul(t, a, f6_sub(t, b, c)).c2 == f6_sub(t, f6_mul(t, a, b), f6_mul(t, a, c)).c2);
    lemma_f2_mul_comm(t, b.c0, a.c0);
    lemma_f2_mul_comm(t, c.c0, a.c0);
    lemma_f2_mul_comm(t, b.c1, a.c2);
    lemma_f2_mul_comm(t, c.c1, a.c2);
    lemma_f2_mul_comm(t, b.c2, a.c1);
    lemma_f2_mul_comm(t, c.c2, a.c1);
    lemma_f2_nr_add(t, m5, m2);
    lemma_f2_nr_add(t, m3, m0);
    lemma_f2_nr_add(t, m4, m1);
    lemma_f2_add_lift(t, m13, m12, f2_zsub(m10, m11), f2_zsub(m8, m9));
    let m50 = f2_add(t, m13, m12);
    lemma_f2_add_lift(t, m14, m50, f2_zsub(m6, m7), f2_zadd(f2_zsub(m10, m11), f2_zsub(m8, m9)));
    lemma_f2_add_lift(t, m10, m8, m10, m8);
    let m51 = f2_add(t, m10, m8);
    lemma_f2_add_lift(t, m6, m51, m6, f2_zadd(m10, m8));
    lemma_f2_add_lift(t, m11, m9, m11, m9);
    let m52 = f2_add(t, m11, m9);
    lemma_f2_add_lift(t, m7, m52, m7, f2_zadd(m11, m9));
    let m53 = f2_add(t, m6, m51);
    let m54 = f2_add(t, m7, m52);
    lemma_f2_sub_lift(t, m53, m54, f2_zadd(m6, f2_zadd(m10, m8)), f2_zadd(m7, f2_zadd(m11, m9)));
    assert(f2_zadd(f2_zsub(m6, m7), f2_zadd(f2_zsub(m10, m11), f2_zsub(m8, m9))) == f2_zsub(f2_zadd(m6, f2_zadd(m10, m8)), f2_zadd(m7, f2_zadd(m11, m9))));
    assert(f6_mul(t, f6_sub(t, b, c), a).c0 == f6_sub(t, f6_mul(t, b, a), f6_mul(t, c, a)).c0);
    lemma_f2_mul_comm(t, b.c0, a.c1);
    lemma_f2_mul_comm(t, c.c0, a.c1);
    lemma_f2_mul_comm(t, b.c1, a.c0);
    lemma_f2_mul_comm(t, c.c1, a.c0);
    lemma_f2_mul_comm(t, b.c2, a.c2);
    lemma_f2_mul_comm(t, c.c2, a.c2);
    lemma_f2_add_lift(t, m27, m26, f2_zsub(m24, m25), f2_zsub(m22, m23));
    let m55 = f2_add(t, m27, m26);
    lemma_f2_add_lift(t, m55, m31, f2_zadd(f2_zsub(m24, m25), f2_zsub(m22, m23)), f2_zsub(m28, m29));
    lemma_f2_add_lift(t, m24, m22, m24, m22);
    let m56 = f2_add(t, m24, m22);
    lemma_f2_add_lift(t, m56, m28, f2_zadd(m24, m22), m28);
    lemma_f2_add_lift(t, m25, m23, m25, m23);
    let m57 = f2_add(t, m25, m23);
    lemma_f2_add_lift(t, m57, m29, f2_zadd(m25, m23), m29);
    let m58 = f2_add(t, m56, m28);
    let m59 = f2_add(t, m57, m29);
    lemma_f2_sub_lift(t, m58, m59, f2_zadd(f2_zadd(m24, m22), m28), f2_zadd(f2_zadd(m25, m23), m29));
    assert(f2_zadd(f2_zadd(f2_zsub(m24, m25), f2_zsub(m22, m23)), f2_zsub(m28, m29)) == f2_zsub(f2_zadd(f2_zadd(m24, m22), m28), f2_zadd(f2_zadd(m25, m23), m29)));
    assert(f6_mul(t, f6_sub(t, b, c), a).c1 == f6_sub(t, f6_mul(t, b, a), f6_mul(t, c, a)).c1);
    lemma_f2_mul_comm(t, b.c0, a.c2);
    lemma_f2_mul_comm(t, c.c0, a.c2);
    lemma_f2_mul_comm(t, b.c1, a.c1);
    lemma_f2_mul_comm(t, c.c1, a.c1);
    lemma_f2_mul_comm(t, b.c2, a.c0);
    lemma_f2_mul_comm(t, c.c2, a.c0);
    lemma_f2_add_lift(t, m45, m41, f2_zsub(m42, m43), f2_zsub(m38, m39));
    let m60 = f2_add(t, m45, m41);
    lemma_f2_add_lift(t, m60, m40, f2_zadd(f2_zsub(m42, m43), f2_zsub(m38, m39)), f2_zsub(m36, m37));
    lemma_f2_add_lift(t, m42, m38, m42, m38);
    let m61 = f2_add(t, m42, m38);
    lemma_f2_add_lift(t, m61, m36, f2_zadd(m42, m38), m36);
    lemma_f2_add_lift(t, m43, m39, m43, m39);
    let m62 = f2_add(t, m43, m39);
    lemma_f2_add_lift(t, m62, m37, f2_zadd(m43, m39), m37);
    let m63 = f2_add(t, m61, m36);
    let m64 = f2_add(t, m62, m37);
    lemma_f2_sub_lift(t, m63, m64, f2_zadd(f2_zadd(m42, m38), m36), f2_zadd(f2_zadd(m43, m39), m37));
    assert(f2_zadd(f2_zadd(f2_zsub(m42, m43), f2_zsub(m38, m39)), f2_zsub(m36, m37)) == f2_zsub(f2_zadd(f2_zadd(m42, m38), m36), f2_zadd(f2_zadd(m43, m39), m37)));
    assert(f6_mul(t, f6_sub(t, b, c), a).c2 == f6_sub(t, f6_mul(t, b, a), f6_mul(t, c, a)).c2);
}

/// A sign moves out of a product.
pub proof fn lemma_f6_mul_neg(t: Tower, a: F6, b: F6)
    requires
        t.wf(),
    ensures
        f6_mul(t, a, f6_neg(t, b)) == f6_neg(t, f6_mul(t, a, b)),
        f6_mul(t, f6_neg(t, b), a) == f6_neg(t, f6_mul(t, b, a)),
{
    reveal(f6_mul);
    reveal(f6_neg);
    lemma_f2_mul_neg(t, a.c0, b.c0);
    lemma_f2_mul_neg(t, a.c1, b.c2);
    lemma_f2_mul_neg(t, a.c2, b.c1);
    let m0 = f2_mul(t, a.c1, b.c2);
    let m1 = f2_neg(t, m0);
    let m2 = f2_mul(t, a.c2, b.c1);
    let m3 = f2_neg(t, m2);
    lemma_f2_nr_add(t, m1, m3);
    lemma_f2_nr_neg(t, m0);
    lemma_f2_nr_neg(t, m2);
    lemma_f2_nr_add(t, m0, m2);
    let m4 = f2_mul(t, a.c0, b.c0);
    lemma_f2_neg_lift(t, m4, m4);
    let m5 = f2_nr(t, m0);
    lemma_f2_neg_lift(t, m5, m5);
    let m6 = f2_nr(t, m2);
    lemma_f2_neg_lift(t, m6, m6);
    let m7 = f2_neg(t, m5);
    let m8 = f2_neg(t, m6);
    lemma_f2_add_lift(t, m7, m8, f2_zneg(m5), f2_zneg(m6));
    let m9 = f2_neg(t, m4);
    let m10 = f2_add(t, m7, m8);
    lemma_f2_add_lift(t, m9, m10, f2_zneg(m4), f2_zadd(f2_zneg(m5), f2_zneg(m6)));
    lemma_f2_add_lift(t, m5, m6, m5, m6);
    let m11 = f2_add(t, m5, m6);
    lemma_f2_add_lift(t, m4, m11, m4, f2_zadd(m5, m6));
    let m12 = f2_add(t, m4, m11);
    lemma_f2_neg_lift(t, m12, f2_zadd(m4, f2_zadd(m5, m6)));
    assert(f2_zadd(f2_zneg(m4), f2_zadd(f2_zneg(m5), f2_zneg(m6))) == f2_zneg(f2_zadd(m4, f2_zadd(m5, m6))));
    assert(f6_mul(t, a, f6_neg(t, b)).c0 == f6_neg(t, f6_mul(t, a, b)).c0);
    lemma_f2_mul_neg(t, a.c0, b.c1);
    lemma_f2_mul_neg(t, a.c1, b.c0);
    lemma_f2_mul_neg(t, a.c2, b.c2);
    let m13 = f2_mul(t, a.c2, b.c2);
    lemma_f2_nr_neg(t, m13);
    let m14 = f2_mul(t, a.c0, b.c1);
    lemma_f2_neg_lift(t, m14, m14);
    let m15 = f2_mul(t, a.c1, b.c0);
    lemma_f2_neg_lift(t, m15, m15);
    let m16 = f2_neg(t, m14);
    let m17 = f2_neg(t, m15);
    lemma_f2_add_lift(t, m16, m17, f2_zneg(m14), f2_zneg(m15));
    let m18 = f2_nr(t, m13);
    lemma_f2_neg_lift(t, m18, m18);
    let m19 = f2_add(t, m16, m17);
    let m20 = f2_neg(t, m18);
    lemma_f2_add_lift(t, m19, m20, f2_zadd(f2_zneg(m14), f2_zneg(m15)), f2_zneg(m18));
    lemma_f2_add_lift(t, m14, m15, m14, m15);
    let m21 = f2_add(t, m14, m15);
    lemma_f2_add_lift(t, m21, m18, f2_zadd(m14, m15), m18);
    let m22 = f2_add(t, m21, m18);
    lemma_f2_neg_lift(t, m22, f2_zadd(f2_zadd(m14, m15), m18));
    assert(f2_zadd(f2_zadd(f2_zneg(m14), f2_zneg(m15)), f2_zneg(m18)) == f2_zneg(f2_zadd(f2_zadd(m14, m15), m18)));
    assert(f6_mul(t, a, f6_neg(t, b)).c1 == f6_neg(t, f6_mul(t, a, b)).c1);
    lemma_f2_mul_neg(t, a.c0, b.c2);
    lemma_f2_mul_neg(t, a.c1, b.c1);
    lemma_f2_mul_neg(t, a.c2, b.c0);
    let m23 = f2_mul(t, a.c0, b.c2);
    lemma_f2_neg_lift(t, m23, m23);
    let m24 = f2_mul(t, a.c1, b.c1);
    lemma_f2_neg_lift(t, m24, m24);
    let m25 = f2_neg(t, m23);
    let m26 = f2_neg(t, m24);
    lemma_f2_add_lift(t, m25, m26, f2_zneg(m23), f2_zneg(m24));
    let m27 = f2_mul(t, a.c2, b.c0);
    lemma_f2_neg_lift(t, m27, m27);
    let m28 = f2_add(t, m25, m26);
    let m29 = f2_neg(t, m27);
    lemma_f2_add_lift(t, m28, m29, f2_zadd(f2_zneg(m23), f2_zneg(m24)), f2_zneg(m27));
    lemma_f2_add_lift(t, m23, m24, m23, m24);
    let m30 = f2_add(t, m23, m24);
    lemma_f2_add_lift(t, m30, m27, f2_zadd(m23, m24), m27);
    let m31 = f2_add(t, m30, m27);
    lemma_f2_neg_lift(t, m31, f2_zadd(f2_zadd(m23, m24), m27));
    assert(f2_zadd(f2_zadd(f2_zneg(m23), f2_zneg(m24)), f2_zneg(m27)) == f2_zneg(f2_zadd(f2_zadd(m23, m24), m27)));
    assert(f6_mul(t, a, f6_neg(t, b)).c2 == f6_neg(t, f6_mul(t, a, b)).c2);
    lemma_f2_mul_comm(t, b.c0, a.c0);
    lemma_f2_mul_comm(t, b.c1, a.c2);
    lemma_f2_mul_comm(t, b.c2, a.c1);
    lemma_f2_nr_add(t, m3, m1);
    lemma_f2_nr_add(t, m2, m0);
    lemma_f2_add_lift(t, m8, m7, f2_zneg(m6), f2_zneg(m5));
    let m32 = f2_add(t, m8, m7);
    lemma_f2_add_lift(t, m9, m32, f2_zneg(m4), f2_zadd(f2_zneg(m6), f2_zneg(m5)));
    lemma_f2_add_lift(t, m6, m5, m6, m5);
    let m33 = f2_add(t, m6, m5);
    lemma_f2_add_lift(t, m4, m33, m4, f2_zadd(m6, m5));
    let m34 = f2_add(t, m4, m33);
    lemma_f2_neg_lift(t, m34, f2_zadd(m4, f2_zadd(m6, m5)));
    assert(f2_zadd(f2_zneg(m4), f2_zadd(f2_zneg(m6), f2_zneg(m5))) == f2_zneg(f2_zadd(m4, f2_zadd(m6, m5))));
    assert(f6_mul(t, f6_neg(t, b), a).c0 == f6_neg(t, f6_mul(t, b, a)).c0);
    lemma_f2_mul_comm(t, b.c0, a.c1);
    lemma_f2_mul_comm(t, b.c1, a.c0);
    lemma_f2_mul_comm(t, b.c2, a.c2);
    lemma_f2_add_lift(t, m17, m16, f2_zneg(m15), f2_zneg(m14));
    let m35 = f2_add(t, m17, m16);
    lemma_f2_add_lift(t, m35, m20, f2_zadd(f2_zneg(m15), f2_zneg(m14)), f2_zneg(m18));
    lemma_f2_add_lift(t, m15, m14, m15, m14);
    let m36 = f2_add(t, m15, m14);
    lemma_f2_add_lift(t, m36, m18, f2_zadd(m15, m14), m18);
    let m37 = f2_add(t, m36, m18);
    lemma_f2_neg_lift(t, m37, f2_zadd(f2_zadd(m15, m14), m18));
    assert(f2_zadd(f2_zadd(f2_zneg(m15), f2_zneg(m14)), f2_zneg(m18)) == f2_zneg(f2_zadd(f2_zadd(m15, m14), m18)));
    assert(f6_mul(t, f6_neg(t, b), a).c1 == f6_neg(t, f6_mul(t, b, a)).c1);
    lemma_f2_mul_comm(t, b.c0, a.c2);
    lemma_f2_mul_comm(t, b.c1, a.c1);
    lemma_f2_mul_comm(t, b.c2, a.c0);
    lemma_f2_add_lift(t, m29, m26, f2_zneg(m27), f2_zneg(m24));
    let m38 = f2_add(t, m29, m26);
    lemma_f2_add_lift(t, m38, m25, f2_zadd(f2_zneg(m27), f2_zneg(m24)), f2_zneg(m23));
    lemma_f2_add_lift(t, m27, m24, m27, m24);
    let m39 = f2_add(t, m27, m24);
    lemma_f2_add_lift(t, m39, m23, f2_zadd(m27, m24), m23);
    let m40 = f2_add(t, m39, m23);
    lemma_f2_neg_lift(t, m40, f2_zadd(f2_zadd(m27, m24), m23));
    assert(f2_zadd(f2_zadd(f2_zneg(m27), f2_zneg(m24)), f2_zneg(m23)) == f2_zneg(f2_zadd(f2_zadd(m27, m24), m23)));
    assert(f6_mul(t, f6_neg(t, b), a).c2 == f6_neg(t, f6_mul(t, b, a)).c2);
}

/// Zero absorbs.
pub proof fn lemma_f6_mul_zero(t: Tower, a: F6)
    requires
        t.wf(),
    ensures
        f6_mul(t, a, f6_zero()) == f6_zero(),
        f6_mul(t, f6_zero(), a) == f6_zero(),
{
    reveal(f6_mul);
    lemma_f2_mul_zero(t, a.c0);
    lemma_f2_mul_zero(t, a.c1);
    lemma_f2_mul_zero(t, a.c2);
    lemma_f2_nr_add(t, f2_zero(), f2_zero());
    lemma_f2_nr_zero(t);
    lemma_f2_add_lift(t, f2_zero(), f2_zero(), f2_zero(), f2_zero());
    let m0 = f2_add(t, f2_zero(), f2_zero());
    lemma_f2_add_lift(t, f2_zero(), m0, f2_zero(), f2_zadd(f2_zero(), f2_zero()));
    lemma_f2_consts_fixed(t);
    assert(f2_zadd(f2_zero(), f2_zadd(f2_zero(), f2_zero())) == f2_zero());
    assert(f6_mul(t, a, f6_zero()).c0 == f6_zero().c0);
    lemma_f2_add_lift(t, m0, f2_zero(), f2_zadd(f2_zero(), f2_zero()), f2_zero());
    assert(f2_zadd(f2_zadd(f2_zero(), f2_zero()), f2_zero()) == f2_zero());
    assert(f6_mul(t, a, f6_zero()).c1 == f6_zero().c1);
    assert(f2_zadd(f2_zadd(f2_zero(), f2_zero()), f2_zero()) == f2_zero());
    assert(f6_mul(t, a, f6_zero()).c2 == f6_zero().c2);
    assert(f2_zadd(f2_zero(), f2_zadd(f2_zero(), f2_zero())) == f2_zero());
    assert(f6_mul(t, f6_zero(), a).c0 == f6_zero().c0);
    assert(f2_zadd(f2_zadd(f2_zero(), f2_zero()), f2_zero()) == f2_zero());
    assert(f6_mul(t, f6_zero(), a).c1 == f6_zero().c1);
    assert(f2_zadd(f2_zadd(f2_zero(), f2_zero()), f2_zero()) == f2_zero());
    assert(f6_mul(t, f6_zero(), a).c2 == f6_zero().c2);
}

/// `a(bc) = b(ac)`: a factor moves to the front of a product.
pub proof fn lemma_f6_mul_left_comm(t: Tower, a: F6, b: F6, c: F6)
    requires
        t.wf(),
    ensures
        f6_mul(t, a, f6_mul(t, b, c)) == f6_mul(t, b, f6_mul(t, a, c)),
{
    lemma_f6_mul_assoc(t, a, b, c);
    lemma_f6_mul_comm(t, a, b);
    lemma_f6_mul_assoc(t, b, a, c);
}

/// One is neutral.
pub proof fn lemma_f6_mul_one(t: Tower, a: F6)
    requires
        t.wf(),
        a.wf(t),
    ensures
        f6_mul(t, a, f6_one()) == a,
        f6_mul(t, f6_one(), a) == a,
{
    reveal(f6_mul);
    lemma_f2_wf_fixed(t, a.c0);
    lemma_f2_mul_one(t, a.c0);
    lemma_f2_mul_zero(t, a.c1);
    lemma_f2_mul_zero(t, a.c2);
    lemma_f2_nr_add(t, f2_zero(), f2_zero());
    lemma_f2_nr_zero(t);
    lemma_f2_add_lift(t, f2_zero(), f2_zero(), f2_zero(), f2_zero());
    let m0 = f2_add(t, f2_zero(), f2_zero());
    lemma_f2_add_lift(t, a.c0, m0, a.c0, f2_zadd(f2_zero(), f2_zero()));
    assert(f2_zadd(a.c0, f2_zadd(f2_zero(), f2_zero())) == a.c0);
    assert(f6_mul(t, a, f6_one()).c0 == a.c0);
    lemma_f2_mul_zero(t, a.c0);
    lemma_f2_wf_fixed(t, a.c1);
    lemma_f2_mul_one(t, a.c1);
    lemma_f2_add_lift(t, f2_zero(), a.c1, f2_zero(), a.c1);
    let m1 = f2_add(t, f2_zero(), a.c1);
    lemma_f2_add_lift(t, m1, f2_zero(), f2_zadd(f2_zero(), a.c1), f2_zero());
    assert(f2_zadd(f2_zadd(f2_zero(), a.c1), f2_zero()) == a.c1);
    assert(f6_mul(t, a, f6_one()).c1 == a.c1);
    lemma_f2_wf_fixed(t, a.c2);
    lemma_f2_mul_one(t, a.c2);
    lemma_f2_add_lift(t, m0, a.c2, f2_zadd(f2_zero(), f2_zero()), a.c2);
    assert(f2_zadd(f2_zadd(f2_zero(), f2_zero()), a.c2) == a.c2);
    assert(f6_mul(t, a, f6_one()).c2 == a.c2);
    assert(f2_zadd(a.c0, f2_zadd(f2_zero(), f2_zero())) == a.c0);
    assert(f6_mul(t, f6_one(), a).c0 == a.c0);
    lemma_f2_add_lift(t, a.c1, f2_zero(), a.c1, f2_zero());
    let m2 = f2_add(t, a.c1, f2_zero());
    lemma_f2_add_lift(t, m2, f2_zero(), f2_zadd(a.c1, f2_zero()), f2_zero());
    assert(f2_zadd(f2_zadd(a.c1, f2_zero()), f2_zero()) == a.c1);
    assert(f6_mul(t, f6_one(), a).c1 == a.c1);
    lemma_f2_add_lift(t, a.c2, f2_zero(), a.c2, f2_zero());
    let m3 = f2_add(t, a.c2, f2_zero());
    lemma_f2_add_lift(t, m3, f2_zero(), f2_zadd(a.c2, f2_zero()), f2_zero());
    assert(f2_zadd(f2_zadd(a.c2, f2_zero()), f2_zero()) == a.c2);
    assert(f6_mul(t, f6_one(), a).c2 == a.c2);
}

/// Multiplication by `v`, the square of `w`.
#[verifier::opaque]
pub open spec fn f6_nr(t: Tower, x: F6) -> F6 {
    f6_mul(t, f6_v(), x)
}

/// Multiplication by the non-residue respects sums.
pub proof fn lemma_f6_nr_add(t: Tower, a: F6, b: F6)
    requires
        t.wf(),
    ensures
        f6_nr(t, f6_add(t, a, b)) == f6_add(t, f6_nr(t, a), f6_nr(t, b)),
{
    reveal(f6_nr);
    lemma_f6_mul_add(t, f6_v(), a, b);
}

/// Multiplication by the non-residue respects differences.
pub proof fn lemma_f6_nr_sub(t: Tower, a: F6, b: F6)
    requires
        t.wf(),
    ensures
        f6_nr(t, f6_sub(t, a, b)) == f6_sub(t, f6_nr(t, a), f6_nr(t, b)),
{
    reveal(f6_nr);
    lemma_f6_mul_sub(t, f6_v(), a, b);
}

/// Multiplication by the non-residue respects signs.
pub proof fn lemma_f6_nr_neg(t: Tower, a: F6)
    requires
        t.wf(),
    ensures
        f6_nr(t, f6_neg(t, a)) == f6_neg(t, f6_nr(t, a)),
{
    reveal(f6_nr);
    lemma_f6_mul_neg(t, f6_v(), a);
}

/// The non-residue moves out of a product, from either factor.
pub proof fn lemma_f6_nr_mul(t: Tower, a: F6, b: F6)
    requires
        t.wf(),
    ensures
        f6_mul(t, f6_nr(t, a), b) == f6_nr(t, f6_mul(t, a, b)),
        f6_mul(t, a, f6_nr(t, b)) == f6_nr(t, f6_mul(t, a, b)),
{
    reveal(f6_nr);
    lemma_f6_mul_assoc(t, f6_v(), a, b);
    lemma_f6_mul_left_comm(t, a, f6_v(), b);
}

/// The non-residue times zero is zero.
pub proof fn lemma_f6_nr_zero(t: Tower)
    requires
        t.wf(),
    ensures
        f6_nr(t, f6_zero()) == f6_zero(),
{
    reveal(f6_nr);
    lemma_f6_mul_zero(t, f6_v());
}

/// A multiple of the non-residue is well formed, whatever went in.
pub proof fn lemma_f6_nr_fixed(t: Tower, a: F6)
    requires
        t.wf(),
    ensures
        f6_red(t, f6_nr(t, a)) == f6_nr(t, a),
        f6_nr(t, a).wf(t),
{
    reveal(f6_nr);
    lemma_f6_mul_fixed(t, f6_v(), a);
}

/// The element `k` of the quadratic extension as an element of the cubic one.
pub open spec fn f6_from_f2(k: F2) -> F6 {
    F6 { c0: k, c1: f2_zero(), c2: f2_zero() }
}

/// The element `c0 + c1·v`, whose `v²` coordinate is zero.
pub open spec fn f6_sparse_01(c0: F2, c1: F2) -> F6 {
    F6 { c0: c0, c1: c1, c2: f2_zero() }
}

/// The element `c1·v`, whose other coordinates are zero.
pub open spec fn f6_sparse_1(c1: F2) -> F6 {
    F6 { c0: f2_zero(), c1: c1, c2: f2_zero() }
}

/// Every coordinate multiplied by `k`.
pub open spec fn f6_mul_by_f2(t: Tower, a: F6, k: F2) -> F6 {
    F6 { c0: f2_mul(t, a.c0, k), c1: f2_mul(t, a.c1, k), c2: f2_mul(t, a.c2, k) }
}

/// Every coordinate multiplied by the residue `k`.
pub open spec fn f6_scale(t: Tower, a: F6, k: int) -> F6 {
    F6 { c0: f2_scale(t, a.c0, k), c1: f2_scale(t, a.c1, k), c2: f2_scale(t, a.c2, k) }
}

/// The Frobenius map of the given power: each coordinate is mapped, and the
/// `v` and `v²` coordinates are twisted by the tabulated coefficients.
pub open spec fn f6_frobenius(t: Tower, a: F6, power: nat) -> F6 {
    F6 {
        c0: f2_frobenius(t, a.c0, power),
        c1: f2_mul(t, f2_frobenius(t, a.c1, power), t.frob6_c1[(power % 6) as int]),
        c2: f2_mul(t, f2_frobenius(t, a.c2, power), t.frob6_c2[(power % 6) as int]),
    }
}

/// The element whose product with `a` is the norm of `a`.
pub open spec fn f6_adjugate(t: Tower, a: F6) -> F6 {
    F6 {
        c0: f2_sub(t, f2_mul(t, a.c0, a.c0), f2_nr(t, f2_mul(t, a.c1, a.c2))),
        c1: f2_sub(t, f2_nr(t, f2_mul(t, a.c2, a.c2)), f2_mul(t, a.c0, a.c1)),
        c2: f2_sub(t, f2_mul(t, a.c1, a.c1), f2_mul(t, a.c0, a.c2)),
    }
}

/// The norm of `a` down to the quadratic extension.
pub open spec fn f6_norm(t: Tower, a: F6) -> F2 {
    f2_add(
        t,
        f2_mul(t, a.c0, f6_adjugate(t, a).c0),
        f2_nr(
            t,
            f2_add(
                t,
                f2_mul(t, a.c2, f6_adjugate(t, a).c1),
                f2_mul(t, a.c1, f6_adjugate(t, a).c2),
            ),
        ),
    )
}

/// The adjugate divided by the norm, where the norm has an inverse.
pub open spec fn f6_inverse(t: Tower, a: F6) -> Option<F6> {
    match f2_inverse(t, f6_norm(t, a)) {
        Some(n) => Some(f6_mul_by_f2(t, f6_adjugate(t, a), n)),
        None => None,
    }
}

/// Multiplying by `v` moves each coordinate up one place and takes the last
/// around through `xi`.
pub proof fn lemma_f6_nr_shift(t: Tower, a: F6)
    requires
        t.wf(),
        a.wf(t),
    ensures
        f6_nr(t, a) == (F6 { c0: f2_nr(t, a.c2), c1: a.c0, c2: a.c1 }),
{
    reveal(f6_mul);
    reveal(f6_nr);
    lemma_f2_mul_zero(t, a.c0);
    lemma_f2_wf_fixed(t, a.c2);
    lemma_f2_mul_one(t, a.c2);
    lemma_f2_mul_zero(t, a.c1);
    lemma_f2_nr_add(t, a.c2, f2_zero());
    lemma_f2_nr_zero(t);
    let m0 = f2_nr(t, a.c2);
    lemma_f2_add_lift(t, m0, f2_zero(), m0, f2_zero());
    let m1 = f2_add(t, m0, f2_zero());
    lemma_f2_add_lift(t, f2_zero(), m1, f2_zero(), f2_zadd(m0, f2_zero()));
    lemma_f2_nr_fixed(t, a.c2);
    assert(f2_zadd(f2_zero(), f2_zadd(m0, f2_zero())) == m0);
    assert(f6_nr(t, a).c0 == (F6 { c0: f2_nr(t, a.c2), c1: a.c0, c2: a.c1 }).c0);
    lemma_f2_wf_fixed(t, a.c0);
    lemma_f2_mul_one(t, a.c0);
    lemma_f2_mul_zero(t, a.c2);
    lemma_f2_add_lift(t, f2_zero(), a.c0, f2_zero(), a.c0);
    let m2 = f2_add(t, f2_zero(), a.c0);
    lemma_f2_add_lift(t, m2, f2_zero(), f2_zadd(f2_zero(), a.c0), f2_zero());
    assert(f2_zadd(f2_zadd(f2_zero(), a.c0), f2_zero()) == a.c0);
    assert(f6_nr(t, a).c1 == (F6 { c0: f2_nr(t, a.c2), c1: a.c0, c2: a.c1 }).c1);
    lemma_f2_wf_fixed(t, a.c1);
    lemma_f2_mul_one(t, a.c1);
    lemma_f2_add_lift(t, f2_zero(), a.c1, f2_zero(), a.c1);
    let m3 = f2_add(t, f2_zero(), a.c1);
    lemma_f2_add_lift(t, m3, f2_zero(), f2_zadd(f2_zero(), a.c1), f2_zero());
    assert(f2_zadd(f2_zadd(f2_zero(), a.c1), f2_zero()) == a.c1);
    assert(f6_nr(t, a).c2 == (F6 { c0: f2_nr(t, a.c2), c1: a.c0, c2: a.c1 }).c2);
}

/// Multiplying by an element of the quadratic extension multiplies every
/// coordinate by it.
pub proof fn lemma_f6_mul_by_f2(t: Tower, a: F6, k: F2)
    requires
        t.wf(),
    ensures
        f6_mul(t, a, f6_from_f2(k)) == f6_mul_by_f2(t, a, k),
{
    reveal(f6_mul);
    lemma_f2_mul_zero(t, a.c1);
    lemma_f2_mul_zero(t, a.c2);
    lemma_f2_nr_add(t, f2_zero(), f2_zero());
    lemma_f2_nr_zero(t);
    lemma_f2_add_lift(t, f2_zero(), f2_zero(), f2_zero(), f2_zero());
    let m0 = f2_mul(t, a.c0, k);
    let m1 = f2_add(t, f2_zero(), f2_zero());
    lemma_f2_add_lift(t, m0, m1, m0, f2_zadd(f2_zero(), f2_zero()));
    lemma_f2_mul_fixed(t, a.c0, k);
    assert(f2_zadd(m0, f2_zadd(f2_zero(), f2_zero())) == m0);
    assert(f6_mul(t, a, f6_from_f2(k)).c0 == f6_mul_by_f2(t, a, k).c0);
    lemma_f2_mul_zero(t, a.c0);
    let m2 = f2_mul(t, a.c1, k);
    lemma_f2_add_lift(t, f2_zero(), m2, f2_zero(), m2);
    let m3 = f2_add(t, f2_zero(), m2);
    lemma_f2_add_lift(t, m3, f2_zero(), f2_zadd(f2_zero(), m2), f2_zero());
    lemma_f2_mul_fixed(t, a.c1, k);
    assert(f2_zadd(f2_zadd(f2_zero(), m2), f2_zero()) == m2);
    assert(f6_mul(t, a, f6_from_f2(k)).c1 == f6_mul_by_f2(t, a, k).c1);
    let m4 = f2_mul(t, a.c2, k);
    lemma_f2_add_lift(t, m1, m4, f2_zadd(f2_zero(), f2_zero()), m4);
    lemma_f2_mul_fixed(t, a.c2, k);
    assert(f2_zadd(f2_zadd(f2_zero(), f2_zero()), m4) == m4);
    assert(f6_mul(t, a, f6_from_f2(k)).c2 == f6_mul_by_f2(t, a, k).c2);
}

/// The product with `c0 + c1·v`, with the vanishing terms left out.
pub proof fn lemma_f6_mul_by_01(t: Tower, a: F6, c0: F2, c1: F2)
    requires
        t.wf(),
    ensures
        f6_mul(t, a, f6_sparse_01(c0, c1)) == (F6 { c0: f2_add(t, f2_mul(t, a.c0, c0), f2_nr(t, f2_mul(t, a.c2, c1))), c1: f2_add(t, f2_mul(t, a.c0, c1), f2_mul(t, a.c1, c0)), c2: f2_add(t, f2_mul(t, a.c1, c1), f2_mul(t, a.c2, c0)) }),
{
    reveal(f6_mul);
    lemma_f2_mul_zero(t, a.c1);
    let m0 = f2_mul(t, a.c2, c1);
    lemma_f2_nr_add(t, f2_zero(), m0);
    lemma_f2_nr_zero(t);
    let m1 = f2_nr(t, m0);
    lemma_f2_add_lift(t, f2_zero(), m1, f2_zero(), m1);
    let m2 = f2_mul(t, a.c0, c0);
    let m3 = f2_add(t, f2_zero(), m1);
    lemma_f2_add_lift(t, m2, m3, m2, f2_zadd(f2_zero(), m1));
    lemma_f2_add_lift(t, m2, m1, m2, m1);
    assert(f2_zadd(m2, f2_zadd(f2_zero(), m1)) == f2_zadd(m2, m1));
    assert(f6_mul(t, a, f6_sparse_01(c0, c1)).c0 == (F6 { c0: f2_add(t, f2_mul(t, a.c0, c0), f2_nr(t, f2_mul(t, a.c2, c1))), c1: f2_add(t, f2_mul(t, a.c0, c1), f2_mul(t, a.c1, c0)), c2: f2_add(t, f2_mul(t, a.c1, c1), f2_mul(t, a.c2, c0)) }).c0);
    lemma_f2_mul_zero(t, a.c2);
    let m4 = f2_mul(t, a.c0, c1);
    let m5 = f2_mul(t, a.c1, c0);
    lemma_f2_add_lift(t, m4, m5, m4, m5);
    let m6 = f2_add(t, m4, m5);
    lemma_f2_add_lift(t, m6, f2_zero(), f2_zadd(m4, m5), f2_zero());
    assert(f2_zadd(f2_zadd(m4, m5), f2_zero()) == f2_zadd(m4, m5));
    assert(f6_mul(t, a, f6_sparse_01(c0, c1)).c1 == (F6 { c0: f2_add(t, f2_mul(t, a.c0, c0), f2_nr(t, f2_mul(t, a.c2, c1))), c1: f2_add(t, f2_mul(t, a.c0, c1), f2_mul(t, a.c1, c0)), c2: f2_add(t, f2_mul(t, a.c1, c1), f2_mul(t, a.c2, c0)) }).c1);
    lemma_f2_mul_zero(t, a.c0);
    let m7 = f2_mul(t, a.c1, c1);
    lemma_f2_add_lift(t, f2_zero(), m7, f2_zero(), m7);
    let m8 = f2_add(t, f2_zero(), m7);
    let m9 = f2_mul(t, a.c2, c0);
    lemma_f2_add_lift(t, m8, m9, f2_zadd(f2_zero(), m7), m9);
    lemma_f2_add_lift(t, m7, m9, m7, m9);
    assert(f2_zadd(f2_zadd(f2_zero(), m7), m9) == f2_zadd(m7, m9));
    assert(f6_mul(t, a, f6_sparse_01(c0, c1)).c2 == (F6 { c0: f2_add(t, f2_mul(t, a.c0, c0), f2_nr(t, f2_mul(t, a.c2, c1))), c1: f2_add(t, f2_mul(t, a.c0, c1), f2_mul(t, a.c1, c0)), c2: f2_add(t, f2_mul(t, a.c1, c1), f2_mul(t, a.c2, c0)) }).c2);
}

/// The product with `c1·v`, with the vanishing terms left out.
pub proof fn lemma_f6_mul_by_1(t: Tower, a: F6, c1: F2)
    requires
        t.wf(),
    ensures
        f6_mul(t, a, f6_sparse_1(c1)) == (F6 { c0: f2_nr(t, f2_mul(t, a.c2, c1)), c1: f2_mul(t, a.c0, c1), c2: f2_mul(t, a.c1, c1) }),
{
    reveal(f6_mul);
    lemma_f2_mul_zero(t, a.c0);
    lemma_f2_mul_zero(t, a.c1);
    let m0 = f2_mul(t, a.c2, c1);
    lemma_f2_nr_add(t, f2_zero(), m0);
    lemma_f2_nr_zero(t);
    let m1 = f2_nr(t, m0);
    lemma_f2_add_lift(t, f2_zero(), m1, f2_zero(), m1);
    let m2 = f2_add(t, f2_zero(), m1);
    lemma_f2_add_lift(t, f2_zero(), m2, f2_zero(), f2_zadd(f2_zero(), m1));
    lemma_f2_nr_fixed(t, m0);
    assert(f2_zadd(f2_zero(), f2_zadd(f2_zero(), m1)) == m1);
    assert(f6_mul(t, a, f6_sparse_1(c1)).c0 == (F6 { c0: f2_nr(t, f2_mul(t, a.c2, c1)), c1: f2_mul(t, a.c0, c1), c2: f2_mul(t, a.c1, c1) }).c0);
    lemma_f2_mul_zero(t, a.c2);
    let m3 = f2_mul(t, a.c0, c1);
    lemma_f2_add_lift(t, m3, f2_zero(), m3, f2_zero());
    let m4 = f2_add(t, m3, f2_zero());
    lemma_f2_add_lift(t, m4, f2_zero(), f2_zadd(m3, f2_zero()), f2_zero());
    lemma_f2_mul_fixed(t, a.c0, c1);
    assert(f2_zadd(f2_zadd(m3, f2_zero()), f2_zero()) == m3);
    assert(f6_mul(t, a, f6_sparse_1(c1)).c1 == (F6 { c0: f2_nr(t, f2_mul(t, a.c2, c1)), c1: f2_mul(t, a.c0, c1), c2: f2_mul(t, a.c1, c1) }).c1);
    let m5 = f2_mul(t, a.c1, c1);
    lemma_f2_add_lift(t, f2_zero(), m5, f2_zero(), m5);
    let m6 = f2_add(t, f2_zero(), m5);
    lemma_f2_add_lift(t, m6, f2_zero(), f2_zadd(f2_zero(), m5), f2_zero());
    lemma_f2_mul_fixed(t, a.c1, c1);
    assert(f2_zadd(f2_zadd(f2_zero(), m5), f2_zero()) == m5);
    assert(f6_mul(t, a, f6_sparse_1(c1)).c2 == (F6 { c0: f2_nr(t, f2_mul(t, a.c2, c1)), c1: f2_mul(t, a.c0, c1), c2: f2_mul(t, a.c1, c1) }).c2);
}

/// The sum of `c0` and `c3 + c4·v`, as an element with the `v²` coordinate
/// zero.
pub proof fn lemma_f6_sparse_sum_034(t: Tower, c0: F2, c3: F2, c4: F2)
    requires
        t.wf(),
        c4.wf(t),
    ensures
        f6_add(t, f6_from_f2(c0), f6_sparse_01(c3, c4)) == f6_sparse_01(f2_add(t, c0, c3), c4),
{
    reveal(f6_add);
    lemma_f2_add_lift(t, f2_zero(), c4, f2_zero(), c4);
    lemma_f2_wf_fixed(t, c4);
    assert(f2_zadd(f2_zero(), c4) == c4);
    assert(f6_add(t, f6_from_f2(c0), f6_sparse_01(c3, c4)).c1 == f6_sparse_01(f2_add(t, c0, c3), c4).c1);
    lemma_f2_add_lift(t, f2_zero(), f2_zero(), f2_zero(), f2_zero());
    lemma_f2_consts_fixed(t);
    assert(f2_zadd(f2_zero(), f2_zero()) == f2_zero());
    assert(f6_add(t, f6_from_f2(c0), f6_sparse_01(c3, c4)).c2 == f6_sparse_01(f2_add(t, c0, c3), c4).c2);
}

/// The sum of `c0 + c1·v` and `c4·v`, as an element with the `v²` coordinate
/// zero.
pub proof fn lemma_f6_sparse_sum_014(t: Tower, c0: F2, c1: F2, c4: F2)
    requires
        t.wf(),
        c0.wf(t),
    ensures
        f6_add(t, f6_sparse_01(c0, c1), f6_sparse_1(c4)) == f6_sparse_01(c0, f2_add(t, c1, c4)),
{
    reveal(f6_add);
    lemma_f2_add_lift(t, c0, f2_zero(), c0, f2_zero());
    lemma_f2_wf_fixed(t, c0);
    assert(f2_zadd(c0, f2_zero()) == c0);
    assert(f6_add(t, f6_sparse_01(c0, c1), f6_sparse_1(c4)).c0 == f6_sparse_01(c0, f2_add(t, c1, c4)).c0);
    lemma_f2_add_lift(t, f2_zero(), f2_zero(), f2_zero(), f2_zero());
    lemma_f2_consts_fixed(t);
    assert(f2_zadd(f2_zero(), f2_zero()) == f2_zero());
    assert(f6_add(t, f6_sparse_01(c0, c1), f6_sparse_1(c4)).c2 == f6_sparse_01(c0, f2_add(t, c1, c4)).c2);
}

/// `a` times its scaled adjugate is the norm times the scale.
pub proof fn lemma_f6_mul_adjugate_over(t: Tower, a: F6, n: F2)
    requires
        t.wf(),
    ensures
        f6_mul(t, a, f6_mul_by_f2(t, f6_adjugate(t, a), n)) == f6_from_f2(f2_mul(t, f6_norm(t, a), n)),
{
    reveal(f6_mul);
    let m0 = f2_mul(t, a.c0, a.c0);
    let m1 = f2_mul(t, a.c1, a.c2);
    let m2 = f2_nr(t, m1);
    lemma_f2_mul_sub(t, n, m0, m2);
    lemma_f2_mul_assoc(t, a.c0, a.c0, n);
    lemma_f2_nr_mul(t, m1, n);
    lemma_f2_mul_assoc(t, a.c1, a.c2, n);
    let m3 = f2_mul(t, a.c0, n);
    let m4 = f2_mul(t, a.c0, m3);
    let m5 = f2_mul(t, a.c2, n);
    let m6 = f2_mul(t, a.c1, m5);
    let m7 = f2_nr(t, m6);
    lemma_f2_mul_sub(t, a.c0, m4, m7);
    lemma_f2_nr_mul(t, a.c0, m6);
    let m8 = f2_mul(t, a.c1, a.c1);
    let m9 = f2_mul(t, a.c0, a.c2);
    lemma_f2_mul_sub(t, n, m8, m9);
    lemma_f2_mul_assoc(t, a.c1, a.c1, n);
    lemma_f2_mul_assoc(t, a.c0, a.c2, n);
    let m10 = f2_mul(t, a.c1, n);
    let m11 = f2_mul(t, a.c1, m10);
    let m12 = f2_mul(t, a.c0, m5);
    lemma_f2_mul_sub(t, a.c1, m11, m12);
    lemma_f2_mul_left_comm(t, a.c1, a.c0, m5);
    let m13 = f2_mul(t, a.c2, a.c2);
    let m14 = f2_nr(t, m13);
    let m15 = f2_mul(t, a.c0, a.c1);
    lemma_f2_mul_sub(t, n, m14, m15);
    lemma_f2_nr_mul(t, m13, n);
    lemma_f2_mul_assoc(t, a.c2, a.c2, n);
    lemma_f2_mul_assoc(t, a.c0, a.c1, n);
    let m16 = f2_mul(t, a.c2, m5);
    let m17 = f2_nr(t, m16);
    let m18 = f2_mul(t, a.c0, m10);
    lemma_f2_mul_sub(t, a.c2, m17, m18);
    lemma_f2_nr_mul(t, a.c2, m16);
    lemma_f2_mul_left_comm(t, a.c2, a.c0, m10);
    lemma_f2_mul_left_comm(t, a.c2, a.c1, n);
    let m19 = f2_mul(t, a.c1, m11);
    let m20 = f2_mul(t, a.c0, m6);
    let m21 = f2_sub(t, m19, m20);
    let m22 = f2_mul(t, a.c2, m16);
    let m23 = f2_nr(t, m22);
    let m24 = f2_sub(t, m23, m20);
    lemma_f2_nr_add(t, m21, m24);
    lemma_f2_nr_sub(t, m19, m20);
    lemma_f2_nr_sub(t, m23, m20);
    lemma_f2_mul_sub(t, a.c0, m0, m2);
    lemma_f2_nr_mul(t, a.c0, m1);
    lemma_f2_mul_sub(t, a.c2, m14, m15);
    lemma_f2_nr_mul(t, a.c2, m13);
    lemma_f2_mul_left_comm(t, a.c2, a.c0, a.c1);
    lemma_f2_mul_comm(t, a.c2, a.c1);
    lemma_f2_mul_sub(t, a.c1, m8, m9);
    lemma_f2_mul_left_comm(t, a.c1, a.c0, a.c2);
    let m25 = f2_mul(t, a.c2, m13);
    let m26 = f2_nr(t, m25);
    let m27 = f2_mul(t, a.c0, m1);
    let m28 = f2_sub(t, m26, m27);
    let m29 = f2_mul(t, a.c1, m8);
    let m30 = f2_sub(t, m29, m27);
    lemma_f2_nr_add(t, m28, m30);
    lemma_f2_nr_sub(t, m26, m27);
    lemma_f2_nr_sub(t, m29, m27);
    let m31 = f2_mul(t, a.c0, m0);
    let m32 = f2_nr(t, m27);
    let m33 = f2_sub(t, m31, m32);
    let m34 = f2_nr(t, m26);
    let m35 = f2_sub(t, m34, m32);
    let m36 = f2_nr(t, m29);
    let m37 = f2_sub(t, m36, m32);
    let m38 = f2_add(t, m35, m37);
    lemma_f2_mul_add(t, n, m33, m38);
    lemma_f2_mul_sub(t, n, m31, m32);
    lemma_f2_mul_assoc(t, a.c0, m0, n);
    lemma_f2_nr_mul(t, m27, n);
    lemma_f2_mul_assoc(t, a.c0, m1, n);
    lemma_f2_mul_add(t, n, m35, m37);
    lemma_f2_mul_sub(t, n, m34, m32);
    lemma_f2_nr_mul(t, m26, n);
    lemma_f2_nr_mul(t, m25, n);
    lemma_f2_mul_assoc(t, a.c2, m13, n);
    lemma_f2_mul_sub(t, n, m36, m32);
    lemma_f2_nr_mul(t, m29, n);
    lemma_f2_mul_assoc(t, a.c1, m8, n);
    let m39 = f2_mul(t, a.c0, m4);
    let m40 = f2_nr(t, m20);
    lemma_f2_sub_lift(t, m39, m40, m39, m40);
    let m41 = f2_nr(t, m19);
    lemma_f2_sub_lift(t, m41, m40, m41, m40);
    let m42 = f2_nr(t, m23);
    lemma_f2_sub_lift(t, m42, m40, m42, m40);
    let m43 = f2_sub(t, m41, m40);
    let m44 = f2_sub(t, m42, m40);
    lemma_f2_add_lift(t, m43, m44, f2_zsub(m41, m40), f2_zsub(m42, m40));
    let m45 = f2_sub(t, m39, m40);
    let m46 = f2_add(t, m43, m44);
    lemma_f2_add_lift(t, m45, m46, f2_zsub(m39, m40), f2_zadd(f2_zsub(m41, m40), f2_zsub(m42, m40)));
    lemma_f2_add_lift(t, m44, m43, f2_zsub(m42, m40), f2_zsub(m41, m40));
    let m47 = f2_add(t, m44, m43);
    lemma_f2_add_lift(t, m45, m47, f2_zsub(m39, m40), f2_zadd(f2_zsub(m42, m40), f2_zsub(m41, m40)));
    assert(f2_zadd(f2_zsub(m39, m40), f2_zadd(f2_zsub(m41, m40), f2_zsub(m42, m40))) == f2_zadd(f2_zsub(m39, m40), f2_zadd(f2_zsub(m42, m40), f2_zsub(m41, m40))));
    assert(f6_mul(t, a, f6_mul_by_f2(t, f6_adjugate(t, a), n)).c0 == f6_from_f2(f2_mul(t, f6_norm(t, a), n)).c0);
    lemma_f2_mul_sub(t, a.c0, m17, m18);
    lemma_f2_nr_mul(t, a.c0, m16);
    lemma_f2_mul_sub(t, a.c1, m4, m7);
    lemma_f2_mul_left_comm(t, a.c1, a.c0, m3);
    lemma_f2_mul_left_comm(t, a.c1, a.c0, n);
    lemma_f2_nr_mul(t, a.c1, m6);
    lemma_f2_mul_sub(t, a.c2, m11, m12);
    lemma_f2_mul_left_comm(t, a.c2, a.c1, m10);
    lemma_f2_mul_left_comm(t, a.c2, a.c0, m5);
    let m48 = f2_mul(t, a.c1, m6);
    let m49 = f2_mul(t, a.c0, m16);
    lemma_f2_nr_sub(t, m48, m49);
    let m50 = f2_nr(t, m49);
    let m51 = f2_mul(t, a.c0, m18);
    lemma_f2_sub_lift(t, m50, m51, m50, m51);
    let m52 = f2_nr(t, m48);
    lemma_f2_sub_lift(t, m51, m52, m51, m52);
    let m53 = f2_sub(t, m50, m51);
    let m54 = f2_sub(t, m51, m52);
    lemma_f2_add_lift(t, m53, m54, f2_zsub(m50, m51), f2_zsub(m51, m52));
    lemma_f2_sub_lift(t, m52, m50, m52, m50);
    let m55 = f2_add(t, m53, m54);
    let m56 = f2_sub(t, m52, m50);
    lemma_f2_add_lift(t, m55, m56, f2_zadd(f2_zsub(m50, m51), f2_zsub(m51, m52)), f2_zsub(m52, m50));
    lemma_f2_consts_fixed(t);
    assert(f2_zadd(f2_zadd(f2_zsub(m50, m51), f2_zsub(m51, m52)), f2_zsub(m52, m50)) == f2_zero());
    assert(f6_mul(t, a, f6_mul_by_f2(t, f6_adjugate(t, a), n)).c1 == f6_from_f2(f2_mul(t, f6_norm(t, a), n)).c1);
    lemma_f2_mul_sub(t, a.c0, m11, m12);
    lemma_f2_mul_sub(t, a.c1, m17, m18);
    lemma_f2_nr_mul(t, a.c1, m16);
    lemma_f2_mul_left_comm(t, a.c1, a.c0, m10);
    lemma_f2_mul_sub(t, a.c2, m4, m7);
    lemma_f2_mul_left_comm(t, a.c2, a.c0, m3);
    lemma_f2_mul_left_comm(t, a.c2, a.c0, n);
    lemma_f2_nr_mul(t, a.c2, m6);
    lemma_f2_mul_left_comm(t, a.c2, a.c1, m5);
    let m57 = f2_mul(t, a.c0, m11);
    let m58 = f2_mul(t, a.c0, m12);
    lemma_f2_sub_lift(t, m57, m58, m57, m58);
    let m59 = f2_mul(t, a.c1, m16);
    let m60 = f2_nr(t, m59);
    lemma_f2_sub_lift(t, m60, m57, m60, m57);
    let m61 = f2_sub(t, m57, m58);
    let m62 = f2_sub(t, m60, m57);
    lemma_f2_add_lift(t, m61, m62, f2_zsub(m57, m58), f2_zsub(m60, m57));
    lemma_f2_sub_lift(t, m58, m60, m58, m60);
    let m63 = f2_add(t, m61, m62);
    let m64 = f2_sub(t, m58, m60);
    lemma_f2_add_lift(t, m63, m64, f2_zadd(f2_zsub(m57, m58), f2_zsub(m60, m57)), f2_zsub(m58, m60));
    assert(f2_zadd(f2_zadd(f2_zsub(m57, m58), f2_zsub(m60, m57)), f2_zsub(m58, m60)) == f2_zero());
    assert(f6_mul(t, a, f6_mul_by_f2(t, f6_adjugate(t, a), n)).c2 == f6_from_f2(f2_mul(t, f6_norm(t, a), n)).c2);
}

/// What `f6_inverse` returns is an inverse.
pub proof fn lemma_f6_inverse_mul(t: Tower, a: F6)
    requires
        t.wf(),
        f6_inverse(t, a) is Some,
    ensures
        f6_mul(t, a, f6_inverse(t, a).unwrap()) == f6_one(),
        f6_inverse(t, a).unwrap().wf(t),
{
    let n = f2_inverse(t, f6_norm(t, a)).unwrap();
    lemma_f2_inverse_mul(t, f6_norm(t, a));
    lemma_f6_mul_adjugate_over(t, a, n);
    lemma_f2_mul_fixed(t, f6_adjugate(t, a).c0, n);
    lemma_f2_mul_fixed(t, f6_adjugate(t, a).c1, n);
    lemma_f2_mul_fixed(t, f6_adjugate(t, a).c2, n);
}

/// The norm of zero is zero.
pub proof fn lemma_f6_norm_zero(t: Tower)
    requires
        t.wf(),
    ensures
        f6_norm(t, f6_zero()) == f2_zero(),
{
    lemma_f2_mul_zero(t, f2_zero());
    lemma_f2_nr_zero(t);
    let m0 = f2_sub(t, f2_zero(), f2_zero());
    lemma_f2_mul_zero(t, m0);
    lemma_f2_nr_add(t, f2_zero(), f2_zero());
    lemma_f2_add_lift(t, f2_zero(), f2_zero(), f2_zero(), f2_zero());
    let m1 = f2_add(t, f2_zero(), f2_zero());
    lemma_f2_add_lift(t, f2_zero(), m1, f2_zero(), f2_zadd(f2_zero(), f2_zero()));
    lemma_f2_consts_fixed(t);
    assert(f2_zadd(f2_zero(), f2_zadd(f2_zero(), f2_zero())) == f2_zero());
}

/// Zero has no inverse.
pub proof fn lemma_f6_inverse_zero(t: Tower)
    requires
        t.wf(),
    ensures
        f6_inverse(t, f6_zero()) is None,
{
    lemma_f6_norm_zero(t);
    lemma_f2_inverse_zero(t);
}

} // verus!
