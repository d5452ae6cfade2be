use vstd::prelude::*;
use crate::tower::{F12, Tower};
use crate::alg_fp6::{
    f6_neg, f6_zero, f6_zneg, lemma_f6_neg_lift, lemma_f6_wf_fixed, lemma_f6_consts_fixed,
};
use crate::alg_fp12::{
    f12_add, f12_sub, f12_neg, f12_mul, f12_zero, f12_one, f12_zadd, f12_zsub, f12_zneg,
    f12_square, f12_conjugate, f12_inverse, lemma_f12_add_lift, lemma_f12_sub_lift,
    lemma_f12_neg_lift, lemma_f12_wf_fixed, lemma_f12_consts_fixed, lemma_f12_mul_comm,
    lemma_f12_mul_assoc, lemma_f12_mul_add, lemma_f12_mul_sub, lemma_f12_mul_neg,
    lemma_f12_mul_zero, lemma_f12_mul_one, lemma_f12_mul_fixed, lemma_f12_add_wf,
    lemma_f12_inverse_mul, lemma_f12_inverse_zero,
};

verus! {

/// Addition commutes.
pub proof fn law_add_commutative(t: Tower, a: F12, b: F12)
    requires
        t.wf(),
    ensures
        f12_add(t, a, b) == f12_add(t, b, a),
{
    lemma_f12_add_lift(t, a, b, a, b);
    lemma_f12_add_lift(t, b, a, b, a);
    assert(f12_zadd(a, b) == f12_zadd(b, a));
}

/// Addition associates.
pub proof fn law_add_associative(t: Tower, a: F12, b: F12, c: F12)
    requires
        t.wf(),
    ensures
        f12_add(t, f12_add(t, a, b), c) == f12_add(t, a, f12_add(t, b, c)),
{
    lemma_f12_add_lift(t, a, b, a, b);
    let m0 = f12_add(t, a, b);
    lemma_f12_add_lift(t, m0, c, f12_zadd(a, b), c);
    lemma_f12_add_lift(t, b, c, b, c);
    let m1 = f12_add(t, b, c);
    lemma_f12_add_lift(t, a, m1, a, f12_zadd(b, c));
    assert(f12_zadd(f12_zadd(a, b), c) == f12_zadd(a, f12_zadd(b, c)));
}

/// Zero is neutral for addition.
pub proof fn law_add_identity(t: Tower, a: F12)
    requires
        t.wf(),
        a.wf(t),
    ensures
        f12_add(t, a, f12_zero()) == a,
        f12_add(t, f12_zero(), a) == a,
{
    lemma_f12_add_lift(t, a, f12_zero(), a, f12_zero());
    lemma_f12_wf_fixed(t, a);
    assert(f12_zadd(a, f12_zero()) == a);
    lemma_f12_add_lift(t, f12_zero(), a, f12_zero(), a);
    assert(f12_zadd(f12_zero(), a) == a);
}

/// The negation is the additive inverse, and subtraction adds it.
pub proof fn law_additive_inverse(t: Tower, a: F12, b: F12)
    requires
        t.wf(),
    ensures
        f12_add(t, a, f12_neg(t, a)) == f12_zero(),
        f12_sub(t, a, a) == f12_zero(),
        f12_sub(t, a, b) == f12_add(t, a, f12_neg(t, b)),
{
    lemma_f12_neg_lift(t, a, a);
    let m0 = f12_neg(t, a);
    lemma_f12_add_lift(t, a, m0, a, f12_zneg(a));
    lemma_f12_consts_fixed(t);
    assert(f12_zadd(a, f12_zneg(a)) == f12_zero());
    lemma_f12_sub_lift(t, a, a, a, a);
    assert(f12_zsub(a, a) == f12_zero());
    lemma_f12_sub_lift(t, a, b, a, b);
    lemma_f12_neg_lift(t, b, b);
    let m1 = f12_neg(t, b);
    lemma_f12_add_lift(t, a, m1, a, f12_zneg(b));
    assert(f12_zsub(a, b) == f12_zadd(a, f12_zneg(b)));
}

/// Negating twice gives the element back.
pub proof fn law_double_negation(t: Tower, a: F12)
    requires
        t.wf(),
        a.wf(t),
    ensures
        f12_neg(t, f12_neg(t, a)) == a,
{
    lemma_f12_neg_lift(t, a, a);
    let m0 = f12_neg(t, a);
    lemma_f12_neg_lift(t, m0, f12_zneg(a));
    lemma_f12_wf_fixed(t, a);
    assert(f12_zneg(f12_zneg(a)) == a);
}

/// Multiplication commutes.
pub proof fn law_mul_commutative(t: Tower, a: F12, b: F12)
    requires
        t.wf(),
    ensures
        f12_mul(t, a, b) == f12_mul(t, b, a),
{
    lemma_f12_mul_comm(t, a, b);
}

/// Multiplication associates.
pub proof fn law_mul_associative(t: Tower, a: F12, b: F12, c: F12)
    requires
        t.wf(),
    ensures
        f12_mul(t, f12_mul(t, a, b), c) == f12_mul(t, a, f12_mul(t, b, c)),
{
    lemma_f12_mul_assoc(t, a, b, c);
}

/// Multiplication distributes over addition, on either side.
pub proof fn law_mul_distributive(t: Tower, a: F12, b: F12, c: F12)
    requires
        t.wf(),
    ensures
        f12_mul(t, a, f12_add(t, b, c)) == f12_add(t, f12_mul(t, a, b), f12_mul(t, a, c)),
        f12_mul(t, f12_add(t, b, c), a) == f12_add(t, f12_mul(t, b, a), f12_mul(t, c, a)),
{
    lemma_f12_mul_add(t, a, b, c);
}

/// Multiplication distributes over subtraction, and a sign moves out of a
/// product.
pub proof fn law_mul_signs(t: Tower, a: F12, b: F12, c: F12)
    requires
        t.wf(),
    ensures
        f12_mul(t, a, f12_sub(t, b, c)) == f12_sub(t, f12_mul(t, a, b), f12_mul(t, a, c)),
        f12_mul(t, a, f12_neg(t, b)) == f12_neg(t, f12_mul(t, a, b)),
{
    lemma_f12_mul_sub(t, a, b, c);
    lemma_f12_mul_neg(t, a, b);
}

/// Zero absorbs.
pub proof fn law_mul_zero(t: Tower, a: F12)
    requires
        t.wf(),
    ensures
        f12_mul(t, a, f12_zero()) == f12_zero(),
        f12_mul(t, f12_zero(), a) == f12_zero(),
{
    lemma_f12_mul_zero(t, a);
}

/// Whatever goes in, a sum, a difference, a negation and a product are
/// well formed.
pub proof fn law_results_well_formed(t: Tower, a: F12, b: F12)
    requires
        t.wf(),
    ensures
        f12_add(t, a, b).wf(t),
        f12_sub(t, a, b).wf(t),
        f12_neg(t, a).wf(t),
        f12_mul(t, a, b).wf(t),
{
    lemma_f12_add_wf(t, a, b);
    lemma_f12_mul_fixed(t, a, b);
}

/// One is neutral for multiplication.
pub proof fn law_mul_identity(t: Tower, a: F12)
    requires
        t.wf(),
        a.wf(t),
    ensures
        f12_mul(t, a, f12_one()) == a,
        f12_mul(t, f12_one(), a) == a,
{
    lemma_f12_mul_one(t, a);
}

/// The square is the product of the element with itself.
pub proof fn law_square_is_self_product(t: Tower, a: F12)
    ensures
        f12_square(t, a) == f12_mul(t, a, a),
{
}

/// An element times its inverse is one, on either side, wherever there is
/// an inverse.
pub proof fn law_inverse(t: Tower, a: F12)
    requires
        t.wf(),
        f12_inverse(t, a) is Some,
    ensures
        f12_mul(t, a, f12_inverse(t, a).unwrap()) == f12_one(),
        f12_mul(t, f12_inverse(t, a).unwrap(), a) == f12_one(),
{
    lemma_f12_inverse_mul(t, a);
    lemma_f12_mul_comm(t, a, f12_inverse(t, a).unwrap());
}

/// An element has at most one inverse.
pub proof fn law_inverse_unique(t: Tower, a: F12, v: F12, w: F12)
    requires
        t.wf(),
        v.wf(t),
        w.wf(t),
        f12_mul(t, a, v) == f12_one(),
        f12_mul(t, a, w) == f12_one(),
    ensures
        v == w,
{
    lemma_f12_mul_one(t, v);
    lemma_f12_mul_one(t, w);
    lemma_f12_mul_assoc(t, v, a, w);
    lemma_f12_mul_comm(t, v, a);
}

/// Zero has no inverse.
pub proof fn law_inverse_of_zero(t: Tower)
    requires
        t.wf(),
    ensures
        f12_inverse(t, f12_zero()) is None,
{
    lemma_f12_inverse_zero(t);
}

/// Conjugating twice gives the element back.
pub proof fn law_conjugate_involution(t: Tower, a: F12)
    requires
        t.wf(),
        a.wf(t),
    ensures
        f12_conjugate(t, f12_conjugate(t, a)) == a,
{
    let x = a.c1;
    lemma_f6_neg_lift(t, x, x);
    let m0 = f6_neg(t, x);
    lemma_f6_neg_lift(t, m0, f6_zneg(x));
    lemma_f6_wf_fixed(t, x);
    assert(f6_zneg(f6_zneg(x)) == x);
}

/// Conjugation fixes the elements whose `w` coordinate is zero.
pub proof fn law_conjugate_fixes_base(t: Tower, a: F12)
    requires
        t.wf(),
        a.c1 == f6_zero(),
    ensures
        f12_conjugate(t, a) == a,
{
    lemma_f6_neg_lift(t, f6_zero(), f6_zero());
    lemma_f6_consts_fixed(t);
    assert(f6_zneg(f6_zero()) == f6_zero());
}

} // verus!
