use vstd::prelude::*;
use crate::tower::Tower;
use vstd::arithmetic::div_mod::{
    lemma_add_mod_noop, lemma_sub_mod_noop, lemma_mul_mod_noop_general, lemma_mod_bound,
    lemma_mod_twice, lemma_small_mod, lemma_fundamental_div_mod, lemma_mod_multiples_basic,
    lemma_fundamental_div_mod_converse,
};

verus! {

/// `a` is a least non-negative residue modulo `p`.
pub open spec fn fp_reduced(p: int, a: int) -> bool {
    0 <= a < p
}

/// The sum of two integers, as a residue.
#[verifier::opaque]
pub open spec fn fp_add(p: int, a: int, b: int) -> int {
    (a + b) % p
}

/// The difference of two integers, as a residue.
#[verifier::opaque]
pub open spec fn fp_sub(p: int, a: int, b: int) -> int {
    (a - b) % p
}

/// The negation of an integer, as a residue.
#[verifier::opaque]
pub open spec fn fp_neg(p: int, a: int) -> int {
    (-a) % p
}

/// The product of two integers, as a residue.
#[verifier::opaque]
pub open spec fn fp_mul(p: int, a: int, b: int) -> int {
    (a * b) % p
}

/// Sums, differences and negations are residues, whatever went in.
pub proof fn lemma_fp_add_wf(p: int, a: int, b: int)
    requires
        p > 0,
    ensures
        fp_reduced(p, fp_add(p, a, b)),
        fp_reduced(p, fp_sub(p, a, b)),
        fp_reduced(p, fp_neg(p, a)),
{
    reveal(fp_add);
    reveal(fp_sub);
    reveal(fp_neg);
    lemma_mod_bound(a + b, p);
    lemma_mod_bound(a - b, p);
    lemma_mod_bound(-a, p);
}

/// A product is a residue, whatever went in.
pub proof fn lemma_fp_mul_fixed(p: int, a: int, b: int)
    requires
        p > 0,
    ensures
        fp_mul(p, a, b) % p == fp_mul(p, a, b),
        fp_reduced(p, fp_mul(p, a, b)),
{
    reveal(fp_mul);
    lemma_mod_bound(a * b, p);
    lemma_mod_twice(a * b, p);
}

/// Zero and one are well formed.
pub proof fn lemma_fp_consts_fixed(p: int)
    requires
        p >= 2,
    ensures
        0int % p == 0,
        1int % p == 1,
{
    lemma_small_mod(0, p as nat);
    lemma_small_mod(1, p as nat);
}

/// A residue is its own remainder.
pub proof fn lemma_fp_wf_fixed(p: int, a: int)
    requires
        fp_reduced(p, a),
    ensures
        a % p == a,
{
    lemma_small_mod(a as nat, p as nat);
}

/// A sum depends only on the residues of its terms.
pub proof fn lemma_fp_add_lift(p: int, x: int, y: int, zx: int, zy: int)
    requires
        p > 0,
        x % p == zx % p,
        y % p == zy % p,
    ensures
        fp_add(p, x, y) == (zx + zy) % p,
        fp_add(p, x, y) % p == (zx + zy) % p,
{
    reveal(fp_add);
    lemma_add_mod_noop(x, y, p);
    lemma_add_mod_noop(zx, zy, p);
    lemma_mod_twice(zx + zy, p);
}

/// A difference depends only on the residues of its terms.
pub proof fn lemma_fp_sub_lift(p: int, x: int, y: int, zx: int, zy: int)
    requires
        p > 0,
        x % p == zx % p,
        y % p == zy % p,
    ensures
        fp_sub(p, x, y) == (zx - zy) % p,
        fp_sub(p, x, y) % p == (zx - zy) % p,
{
    reveal(fp_sub);
    lemma_sub_mod_noop(x, y, p);
    lemma_sub_mod_noop(zx, zy, p);
    lemma_mod_twice(zx - zy, p);
}

/// A negation depends only on the residue of its term.
pub proof fn lemma_fp_neg_lift(p: int, x: int, zx: int)
    requires
        p > 0,
        x % p == zx % p,
    ensures
        fp_neg(p, x) == (-zx) % p,
        fp_neg(p, x) % p == (-zx) % p,
{
    reveal(fp_neg);
    lemma_sub_mod_noop(0, x, p);
    lemma_sub_mod_noop(0, zx, p);
    lemma_mod_twice(-zx, p);
}

/// Multiplication commutes.
pub proof fn lemma_fp_mul_comm(p: int, a: int, b: int)
    ensures
        fp_mul(p, a, b) == fp_mul(p, b, a),
{
    reveal(fp_mul);
    assert(a * b == b * a) by (nonlinear_arith);
}

/// Multiplication associates.
pub proof fn lemma_fp_mul_assoc(p: int, a: int, b: int, c: int)
    requires
        p > 0,
    ensures
        fp_mul(p, fp_mul(p, a, b), c) == fp_mul(p, a, fp_mul(p, b, c)),
{
    reveal(fp_mul);
    lemma_mul_mod_noop_general(a * b, c, p);
    lemma_mul_mod_noop_general(a, b * c, p);
    assert((a * b) * c == a * (b * c)) by (nonlinear_arith);
}

/// `a(bc) = b(ac)`: a factor moves to the front of a product.
pub proof fn lemma_fp_mul_left_comm(p: int, a: int, b: int, c: int)
    requires
        p > 0,
    ensures
        fp_mul(p, a, fp_mul(p, b, c)) == fp_mul(p, b, fp_mul(p, a, c)),
{
    lemma_fp_mul_assoc(p, a, b, c);
    lemma_fp_mul_comm(p, a, b);
    lemma_fp_mul_assoc(p, b, a, c);
}

/// Multiplication distributes over addition, on either side.
pub proof fn lemma_fp_mul_add(p: int, a: int, b: int, c: int)
    requires
        p > 0,
    ensures
        fp_mul(p, a, fp_add(p, b, c)) == fp_add(p, fp_mul(p, a, b), fp_mul(p, a, c)),
        fp_mul(p, fp_add(p, b, c), a) == fp_add(p, fp_mul(p, b, a), fp_mul(p, c, a)),
{
    reveal(fp_mul);
    reveal(fp_add);
    lemma_mul_mod_noop_general(a, b + c, p);
    assert(a * (b + c) == a * b + a * c) by (nonlinear_arith);
    lemma_add_mod_noop(a * b, a * c, p);
    lemma_fp_mul_comm(p, fp_add(p, b, c), a);
    lemma_fp_mul_comm(p, b, a);
    lemma_fp_mul_comm(p, c, a);
}

/// Multiplication distributes over subtraction, on either side.
pub proof fn lemma_fp_mul_sub(p: int, a: int, b: int, c: int)
    requires
        p > 0,
    ensures
        fp_mul(p, a, fp_sub(p, b, c)) == fp_sub(p, fp_mul(p, a, b), fp_mul(p, a, c)),
        fp_mul(p, fp_sub(p, b, c), a) == fp_sub(p, fp_mul(p, b, a), fp_mul(p, c, a)),
{
    reveal(fp_mul);
    reveal(fp_sub);
    lemma_mul_mod_noop_general(a, b - c, p);
    assert(a * (b - c) == a * b - a * c) by (nonlinear_arith);
    lemma_sub_mod_noop(a * b, a * c, p);
    lemma_fp_mul_comm(p, fp_sub(p, b, c), a);
    lemma_fp_mul_comm(p, b, a);
    lemma_fp_mul_comm(p, c, a);
}

/// A sign moves out of a product.
pub proof fn lemma_fp_mul_neg(p: int, a: int, b: int)
    requires
        p > 0,
    ensures
        fp_mul(p, a, fp_neg(p, b)) == fp_neg(p, fp_mul(p, a, b)),
        fp_mul(p, fp_neg(p, b), a) == fp_neg(p, fp_mul(p, b, a)),
{
    reveal(fp_mul);
    reveal(fp_neg);
    lemma_mul_mod_noop_general(a, -b, p);
    assert(a * (-b) == 0 - a * b) by (nonlinear_arith);
    lemma_sub_mod_noop(0, a * b, p);
    lemma_fp_mul_comm(p, fp_neg(p, b), a);
    lemma_fp_mul_comm(p, b, a);
}

/// Zero absorbs.
pub proof fn lemma_fp_mul_zero(p: int, a: int)
    requires
        p > 0,
    ensures
        fp_mul(p, a, 0) == 0,
        fp_mul(p, 0, a) == 0,
{
    reveal(fp_mul);
    assert(a * 0 == 0 && 0 * a == 0) by (nonlinear_arith);
    lemma_small_mod(0, p as nat);
}

/// One is neutral.
pub proof fn lemma_fp_mul_one(p: int, a: int)
    requires
        fp_reduced(p, a),
    ensures
        fp_mul(p, a, 1) == a,
        fp_mul(p, 1, a) == a,
{
    reveal(fp_mul);
    assert(a * 1 == a && 1 * a == a) by (nonlinear_arith);
    lemma_small_mod(a as nat, p as nat);
}


/// Multiplication by `beta`, the square of `u`.
#[verifier::opaque]
pub open spec fn fp_nr(t: Tower, x: int) -> int {
    fp_mul(t.p, t.beta, x)
}

/// Multiplication by the non-residue respects sums.
pub proof fn lemma_fp_nr_add(t: Tower, a: int, b: int)
    requires
        t.wf(),
    ensures
        fp_nr(t, fp_add(t.p, a, b)) == fp_add(t.p, fp_nr(t, a), fp_nr(t, b)),
{
    reveal(fp_nr);
    lemma_fp_mul_add(t.p, t.beta, a, b);
}

/// Multiplication by the non-residue respects differences.
pub proof fn lemma_fp_nr_sub(t: Tower, a: int, b: int)
    requires
        t.wf(),
    ensures
        fp_nr(t, fp_sub(t.p, a, b)) == fp_sub(t.p, fp_nr(t, a), fp_nr(t, b)),
{
    reveal(fp_nr);
    lemma_fp_mul_sub(t.p, t.beta, a, b);
}

/// Multiplication by the non-residue respects signs.
pub proof fn lemma_fp_nr_neg(t: Tower, a: int)
    requires
        t.wf(),
    ensures
        fp_nr(t, fp_neg(t.p, a)) == fp_neg(t.p, fp_nr(t, a)),
{
    reveal(fp_nr);
    lemma_fp_mul_neg(t.p, t.beta, a);
}

/// The non-residue moves out of a product, from either factor.
pub proof fn lemma_fp_nr_mul(t: Tower, a: int, b: int)
    requires
        t.wf(),
    ensures
        fp_mul(t.p, fp_nr(t, a), b) == fp_nr(t, fp_mul(t.p, a, b)),
        fp_mul(t.p, a, fp_nr(t, b)) == fp_nr(t, fp_mul(t.p, a, b)),
{
    reveal(fp_nr);
    lemma_fp_mul_assoc(t.p, t.beta, a, b);
    lemma_fp_mul_left_comm(t.p, a, t.beta, b);
}

/// The non-residue times zero is zero.
pub proof fn lemma_fp_nr_zero(t: Tower)
    requires
        t.wf(),
    ensures
        fp_nr(t, 0) == 0,
{
    reveal(fp_nr);
    lemma_fp_mul_zero(t.p, t.beta);
}

/// A multiple of the non-residue is well formed, whatever went in.
pub proof fn lemma_fp_nr_fixed(t: Tower, a: int)
    requires
        t.wf(),
    ensures
        fp_nr(t, a) % t.p == fp_nr(t, a),
        fp_reduced(t.p, fp_nr(t, a)),
{
    reveal(fp_nr);
    lemma_fp_mul_fixed(t.p, t.beta, a);
}

/// The product, from its quotient and remainder.
pub proof fn lemma_fp_mul_is(p: int, a: int, b: int, q: int, r: int)
    requires
        0 <= r < p,
        a * b == q * p + r,
    ensures
        fp_mul(p, a, b) == r,
{
    reveal(fp_mul);
    lemma_fundamental_div_mod_converse(a * b, p, q, r);
}

/// The sum, from its quotient and remainder.
pub proof fn lemma_fp_add_is(p: int, a: int, b: int, q: int, r: int)
    requires
        0 <= r < p,
        a + b == q * p + r,
    ensures
        fp_add(p, a, b) == r,
{
    reveal(fp_add);
    lemma_fundamental_div_mod_converse(a + b, p, q, r);
}

/// `a` has a multiplicative inverse among the residues.
pub open spec fn fp_invertible(p: int, a: int) -> bool {
    exists|v: int| 0 <= v < p && #[trigger] fp_mul(p, a, v) == 1
}

/// The residue `v` with `a·v = 1`, where there is one.
pub open spec fn fp_inverse(p: int, a: int) -> Option<int> {
    if fp_invertible(p, a) {
        Some(choose|v: int| 0 <= v < p && #[trigger] fp_mul(p, a, v) == 1)
    } else {
        None
    }
}

/// A residue has at most one inverse.
pub proof fn lemma_fp_inverse_unique(p: int, a: int, v: int, w: int)
    requires
        p > 0,
        fp_reduced(p, v),
        fp_reduced(p, w),
        fp_mul(p, a, v) == 1,
        fp_mul(p, a, w) == 1,
    ensures
        v == w,
{
    lemma_fp_mul_one(p, v);
    lemma_fp_mul_one(p, w);
    lemma_fp_mul_assoc(p, v, a, w);
    lemma_fp_mul_comm(p, v, a);
}

/// Whoever exhibits an inverse has found the inverse.
pub proof fn lemma_fp_inverse_is(p: int, a: int, v: int)
    requires
        p > 0,
        fp_reduced(p, v),
        fp_mul(p, a, v) == 1,
    ensures
        fp_inverse(p, a) == Some(v),
{
    let w = choose|w: int| 0 <= w < p && #[trigger] fp_mul(p, a, w) == 1;
    lemma_fp_inverse_unique(p, a, v, w);
}

/// What `fp_inverse` returns is an inverse.
pub proof fn lemma_fp_inverse_mul(p: int, a: int)
    requires
        fp_inverse(p, a) is Some,
    ensures
        fp_reduced(p, fp_inverse(p, a).unwrap()),
        fp_mul(p, a, fp_inverse(p, a).unwrap()) == 1,
{
}

/// Zero has no inverse.
pub proof fn lemma_fp_zero_not_invertible(p: int)
    requires
        p >= 2,
    ensures
        fp_inverse(p, 0) is None,
{
    assert forall|v: int| 0 <= v < p implies #[trigger] fp_mul(p, 0, v) != 1 by {
        lemma_fp_mul_zero(p, v);
    }
}

/// `d` divides `x`.
pub open spec fn divides(d: int, x: int) -> bool {
    x % d == 0
}

/// A common divisor of two numbers divides their combinations.
pub proof fn lemma_divides_combination(d: int, q: int, x: int, y: int)
    requires
        d > 0,
        divides(d, x),
        divides(d, y),
    ensures
        divides(d, q * x + y),
{
    lemma_fundamental_div_mod(x, d);
    lemma_fundamental_div_mod(y, d);
    let k = q * (x / d) + y / d;
    assert(q * x + y == k * d) by (nonlinear_arith)
        requires
            x == d * (x / d),
            y == d * (y / d),
            k == q * (x / d) + y / d,
    ;
    lemma_mod_multiples_basic(k, d);
}

/// A residue that shares a factor with the modulus has no inverse.
pub proof fn lemma_fp_common_factor(p: int, a: int, g: int)
    requires
        p > 0,
        g >= 2,
        divides(g, p),
        divides(g, a),
    ensures
        !fp_invertible(p, a),
{
    if fp_invertible(p, a) {
        let v = choose|v: int| 0 <= v < p && #[trigger] fp_mul(p, a, v) == 1;
        reveal(fp_mul);
        lemma_fundamental_div_mod(a * v, p);
        lemma_fundamental_div_mod(a, g);
        lemma_fundamental_div_mod(p, g);
        let k = (a / g) * v - (p / g) * ((a * v) / p);
        assert(g * k == 1) by (nonlinear_arith)
            requires
                a * v == p * ((a * v) / p) + 1,
                a == g * (a / g),
                p == g * (p / g),
                k == (a / g) * v - (p / g) * ((a * v) / p),
        ;
        assert(false) by (nonlinear_arith)
            requires
                g * k == 1,
                g >= 2,
        ;
    }
}

} // verus!
