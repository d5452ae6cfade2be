use vstd::prelude::*;
use vstd::arithmetic::div_mod::{
    lemma_fundamental_div_mod, lemma_mod_self_0, lemma_small_mod, lemma_mod_is_zero,
    lemma_mod_bound, lemma_mul_mod_noop_general, lemma_mod_multiples_vanish,
};
use crate::tower::{F2, F6, F12, Tower};
use crate::alg_fp::{
    fp_reduced, fp_sub, fp_mul, fp_nr, fp_inverse, divides, lemma_divides_combination,
    lemma_fp_inverse_mul, lemma_fp_mul_comm, lemma_fp_mul_assoc, lemma_fp_mul_left_comm,
    lemma_fp_mul_one, lemma_fp_mul_zero, lemma_fp_mul_fixed, lemma_fp_nr_mul, lemma_fp_nr_zero,
    lemma_fp_nr_fixed, lemma_fp_add_wf,
};
use crate::alg_fp2::{
    f2_add, f2_sub, f2_mul, f2_nr, f2_zero, f2_one, f2_zadd, f2_zsub, f2_norm, f2_inverse,
    lemma_f2_inverse_mul, lemma_f2_mul_comm, lemma_f2_mul_assoc, lemma_f2_mul_left_comm,
    lemma_f2_mul_one, lemma_f2_mul_zero, lemma_f2_mul_fixed, lemma_f2_mul_add, lemma_f2_mul_sub,
    lemma_f2_nr_add, lemma_f2_nr_sub, lemma_f2_nr_mul, lemma_f2_nr_zero, lemma_f2_nr_fixed,
    lemma_f2_add_wf, lemma_f2_consts_fixed, lemma_f2_add_lift, lemma_f2_sub_lift,
};
use crate::alg_fp6::{
    f6_sub, f6_mul, f6_nr, f6_v, f6_zero, f6_one, f6_adjugate, f6_norm, f6_inverse, f6_mul_by_f2,
    lemma_f6_inverse_mul, lemma_f6_mul_comm, lemma_f6_mul_assoc, lemma_f6_mul_left_comm,
    lemma_f6_mul_one, lemma_f6_mul_zero, lemma_f6_mul_fixed, lemma_f6_nr_mul, lemma_f6_nr_zero,
    lemma_f6_nr_fixed, lemma_f6_add_wf, lemma_f6_consts_fixed,
};
use crate::alg_fp12::{
    f12_mul, f12_zero, f12_one, f12_norm, f12_inverse, lemma_f12_inverse_mul, lemma_f12_mul_comm,
};

verus! {

/// `p` has no divisor between one and itself.
pub open spec fn is_prime(p: int) -> bool {
    p >= 2 && forall|d: int| 1 < d < p ==> !#[trigger] divides(d, p)
}

/// The tower is a tower of fields: the modulus is prime, `beta` is no
/// square among the residues, `xi` no cube in the quadratic extension, and
/// `v` no square in the cubic one.
pub open spec fn tower_is_field(t: Tower) -> bool {
    &&& is_prime(t.p)
    &&& forall|x: int| 0 <= x < t.p ==> #[trigger] fp_mul(t.p, x, x) != t.beta
    &&& forall|x: F2| x.wf(t) ==> #[trigger] f2_mul(t, x, f2_mul(t, x, x)) != t.xi
    &&& forall|x: F6| x.wf(t) ==> #[trigger] f6_mul(t, x, x) != f6_v()
}

// ---------------------------------------------------------------- the residues

/// A common divisor of `a` and `b` that is a combination of them.
proof fn lemma_bezout(a: int, b: int) -> (r: (int, int, int))
    requires
        a >= 0,
        b >= 0,
        a + b > 0,
    ensures
        r.0 > 0,
        divides(r.0, a),
        divides(r.0, b),
        r.0 == r.1 * a + r.2 * b,
    decreases b,
{
    if b == 0 {
        lemma_mod_self_0(a);
        lemma_small_mod(0, a as nat);
        assert(a == 1 * a + 0 * b) by (nonlinear_arith);
        (a, 1, 0)
    } else {
        let q = a / b;
        let m = a % b;
        lemma_fundamental_div_mod(a, b);
        lemma_mod_bound(a, b);
        let (g, x, y) = lemma_bezout(b, m);
        lemma_divides_combination(g, q, b, m);
        assert(q * b + m == a) by (nonlinear_arith)
            requires
                a == b * q + m,
        ;
        assert(g == y * a + (x - y * q) * b) by (nonlinear_arith)
            requires
                g == x * b + y * m,
                a == b * q + m,
        ;
        (g, y, x - y * q)
    }
}

/// Modulo a prime every residue but zero has an inverse.
pub proof fn lemma_fp_inverse_exists(p: int, a: int)
    requires
        is_prime(p),
        0 < a < p,
    ensures
        fp_inverse(p, a) is Some,
{
    let (g, x, y) = lemma_bezout(a, p);
    lemma_mod_is_zero(a as nat, g as nat);
    assert(g == 1) by {
        if g != 1 {
            assert(divides(g, p));
        }
    }
    let v = x % p;
    lemma_mod_bound(x, p);
    reveal(fp_mul);
    lemma_mul_mod_noop_general(a, x, p);
    assert(a * x == p * (-y) + 1) by (nonlinear_arith)
        requires
            1 == x * a + y * p,
    ;
    lemma_mod_multiples_vanish(-y, 1, p);
    lemma_small_mod(1, p as nat);
    assert(fp_mul(p, a, v) == 1);
}

/// Modulo a prime a product is zero only where a factor is.
pub proof fn lemma_fp_no_zero_divisors(p: int, a: int, b: int)
    requires
        is_prime(p),
        fp_reduced(p, a),
        fp_reduced(p, b),
        fp_mul(p, a, b) == 0,
    ensures
        a == 0 || b == 0,
{
    if a != 0 {
        lemma_fp_inverse_exists(p, a);
        let v = fp_inverse(p, a).unwrap();
        lemma_fp_inverse_mul(p, a);
        lemma_fp_mul_comm(p, a, v);
        lemma_fp_mul_assoc(p, v, a, b);
        lemma_fp_mul_one(p, b);
        lemma_fp_mul_zero(p, v);
    }
}

/// Residues whose difference is zero are equal.
pub proof fn lemma_fp_sub_zero(p: int, x: int, y: int)
    requires
        p > 0,
        fp_reduced(p, x),
        fp_reduced(p, y),
        fp_sub(p, x, y) == 0,
    ensures
        x == y,
{
    reveal(fp_sub);
    lemma_fundamental_div_mod(x - y, p);
    let q = (x - y) / p;
    assert(q == 0) by (nonlinear_arith)
        requires
            x - y == p * q,
            -p < x - y < p,
            p > 0,
    ;
}

// ---------------------------------------------------------------- the quadratic extension

/// Elements of the quadratic extension whose difference is zero are equal.
pub proof fn lemma_f2_sub_zero(t: Tower, x: F2, y: F2)
    requires
        t.wf(),
        x.wf(t),
        y.wf(t),
        f2_sub(t, x, y) == f2_zero(),
    ensures
        x == y,
{
    reveal(f2_sub);
    lemma_fp_sub_zero(t.p, x.c0, y.c0);
    lemma_fp_sub_zero(t.p, x.c1, y.c1);
}

/// In a tower of fields every element of the quadratic extension but zero
/// has an inverse.
pub proof fn lemma_f2_inverse_exists(t: Tower, a: F2)
    requires
        t.wf(),
        tower_is_field(t),
        a.wf(t),
        a != f2_zero(),
    ensures
        f2_inverse(t, a) is Some,
{
    let p = t.p;
    let n = f2_norm(t, a);
    let s0 = fp_mul(p, a.c0, a.c0);
    let s1 = fp_mul(p, a.c1, a.c1);
    lemma_fp_mul_fixed(p, a.c0, a.c0);
    lemma_fp_mul_fixed(p, a.c1, a.c1);
    lemma_fp_nr_fixed(t, s1);
    lemma_fp_add_wf(p, s0, fp_nr(t, s1));
    if n == 0 {
        lemma_fp_sub_zero(p, s0, fp_nr(t, s1));
        if a.c1 == 0 {
            lemma_fp_mul_zero(p, 0);
            lemma_fp_nr_zero(t);
            lemma_fp_no_zero_divisors(p, a.c0, a.c0);
            assert(false);
        } else {
            lemma_fp_inverse_exists(p, a.c1);
            let j = fp_inverse(p, a.c1).unwrap();
            lemma_fp_inverse_mul(p, a.c1);
            let x = a.c0;
            let y = a.c1;
            lemma_fp_mul_comm(t.p, x, j);
            let m0 = fp_mul(t.p, j, x);
            lemma_fp_mul_assoc(t.p, j, x, m0);
            lemma_fp_mul_left_comm(t.p, x, j, x);
            let m1 = fp_mul(t.p, j, j);
            lemma_fp_mul_assoc(t.p, x, x, m1);
            lemma_fp_mul_left_comm(t.p, x, j, j);
            lemma_fp_mul_left_comm(t.p, x, j, m0);
            let m2 = fp_mul(t.p, y, y);
            lemma_fp_nr_mul(t, m2, m1);
            lemma_fp_mul_assoc(t.p, y, y, m1);
            lemma_fp_mul_left_comm(t.p, y, j, j);
            lemma_fp_mul_comm(t.p, y, j);
            let m3 = fp_mul(t.p, j, y);
            lemma_fp_mul_left_comm(t.p, y, j, m3);
            lemma_fp_mul_left_comm(t.p, y, j, y);
            lemma_fp_mul_assoc(t.p, j, y, m3);
            lemma_fp_mul_one(p, 1);
            reveal(fp_nr);
            lemma_fp_mul_one(p, t.beta);
            let r = fp_mul(p, x, j);
            lemma_fp_mul_fixed(p, x, j);
            assert(fp_mul(p, r, r) == t.beta);
            assert(false);
        }
    }
    lemma_fp_inverse_exists(p, n);
}

/// In a tower of fields a product in the quadratic extension is zero only
/// where a factor is.
pub proof fn lemma_f2_no_zero_divisors(t: Tower, a: F2, b: F2)
    requires
        t.wf(),
        tower_is_field(t),
        a.wf(t),
        b.wf(t),
        f2_mul(t, a, b) == f2_zero(),
    ensures
        a == f2_zero() || b == f2_zero(),
{
    if a != f2_zero() {
        lemma_f2_inverse_exists(t, a);
        let v = f2_inverse(t, a).unwrap();
        lemma_f2_inverse_mul(t, a);
        lemma_f2_mul_comm(t, a, v);
        lemma_f2_mul_assoc(t, v, a, b);
        lemma_f2_mul_one(t, b);
        lemma_f2_mul_zero(t, v);
    }
}

// ---------------------------------------------------------------- the cubic extension

/// Elements of the cubic extension whose difference is zero are equal.
pub proof fn lemma_f6_sub_zero(t: Tower, x: F6, y: F6)
    requires
        t.wf(),
        x.wf(t),
        y.wf(t),
        f6_sub(t, x, y) == f6_zero(),
    ensures
        x == y,
{
    reveal(f6_sub);
    lemma_f2_sub_zero(t, x.c0, y.c0);
    lemma_f2_sub_zero(t, x.c1, y.c1);
    lemma_f2_sub_zero(t, x.c2, y.c2);
}

/// The cube of `x1 / x2` is `xi`, where `x1² = x0·x2` and
/// `xi·x2² = x0·x1`.
proof fn lemma_f2_ratio_cube(t: Tower, x0: F2, x1: F2, x2: F2, j: F2)
    requires
        t.wf(),
        f2_mul(t, x1, x1) == f2_mul(t, x0, x2),
        f2_nr(t, f2_mul(t, x2, x2)) == f2_mul(t, x0, x1),
        f2_mul(t, x2, j) == f2_one(),
    ensures
        f2_mul(t, f2_mul(t, x1, j), f2_mul(t, f2_mul(t, x1, j), f2_mul(t, x1, j))) == t.xi,
{
    lemma_f2_mul_comm(t, x1, j);
    let m0 = f2_mul(t, j, x1);
    lemma_f2_mul_assoc(t, j, x1, m0);
    lemma_f2_mul_left_comm(t, x1, j, x1);
    let m1 = f2_mul(t, x1, x1);
    let m2 = f2_mul(t, j, m1);
    let m3 = f2_mul(t, j, m2);
    lemma_f2_mul_assoc(t, j, x1, m3);
    lemma_f2_mul_left_comm(t, x1, j, m2);
    lemma_f2_mul_left_comm(t, x1, j, m1);
    let m4 = f2_mul(t, j, j);
    let m5 = f2_mul(t, j, m4);
    lemma_f2_mul_assoc(t, x1, m1, m5);
    lemma_f2_mul_assoc(t, x1, x1, m5);
    lemma_f2_mul_left_comm(t, x1, j, m4);
    lemma_f2_mul_left_comm(t, x1, j, j);
    let m6 = f2_mul(t, j, m0);
    lemma_f2_mul_left_comm(t, x1, j, m6);
    lemma_f2_mul_left_comm(t, x1, j, m0);
    lemma_f2_mul_left_comm(t, x1, j, m3);
    lemma_f2_mul_left_comm(t, x1, x0, x2);
    let m7 = f2_mul(t, x1, x2);
    lemma_f2_mul_assoc(t, x0, m7, m5);
    lemma_f2_mul_assoc(t, x1, x2, m5);
    lemma_f2_mul_left_comm(t, x2, j, m4);
    lemma_f2_mul_left_comm(t, x2, j, j);
    lemma_f2_mul_comm(t, x2, j);
    let m8 = f2_mul(t, j, x2);
    let m9 = f2_mul(t, j, m8);
    lemma_f2_mul_left_comm(t, x1, j, m9);
    lemma_f2_mul_left_comm(t, x1, j, m8);
    lemma_f2_mul_left_comm(t, x1, j, x2);
    let m10 = f2_mul(t, j, m7);
    let m11 = f2_mul(t, j, m10);
    lemma_f2_mul_left_comm(t, x0, j, m11);
    lemma_f2_mul_left_comm(t, x0, j, m10);
    lemma_f2_mul_left_comm(t, x0, j, m7);
    lemma_f2_mul_assoc(t, x0, x1, x2);
    let m12 = f2_mul(t, x2, x2);
    lemma_f2_nr_mul(t, m12, x2);
    lemma_f2_mul_assoc(t, x2, x2, x2);
    let m13 = f2_mul(t, x2, m12);
    lemma_f2_nr_mul(t, m13, m5);
    lemma_f2_mul_assoc(t, x2, m12, m5);
    lemma_f2_mul_assoc(t, x2, x2, m5);
    lemma_f2_mul_left_comm(t, x2, j, m9);
    lemma_f2_mul_left_comm(t, x2, j, m8);
    lemma_f2_mul_left_comm(t, x2, j, x2);
    let m14 = f2_mul(t, j, m12);
    let m15 = f2_mul(t, j, m14);
    lemma_f2_mul_left_comm(t, x2, j, m15);
    lemma_f2_mul_left_comm(t, x2, j, m14);
    lemma_f2_mul_left_comm(t, x2, j, m12);
    lemma_f2_mul_assoc(t, j, x2, m8);
    lemma_f2_mul_assoc(t, j, x2, m15);
    lemma_f2_consts_fixed(t);
    lemma_f2_mul_one(t, f2_one());
    reveal(f2_nr);
    lemma_f2_mul_one(t, t.xi);
}

/// In a tower of fields only zero has the adjugate zero.
proof fn lemma_f6_adjugate_nonzero(t: Tower, x: F6)
    requires
        t.wf(),
        tower_is_field(t),
        x.wf(t),
        f6_adjugate(t, x) == f6_zero(),
    ensures
        x == f6_zero(),
{
    let (x0, x1, x2) = (x.c0, x.c1, x.c2);
    lemma_f2_mul_fixed(t, x0, x0);
    lemma_f2_mul_fixed(t, x1, x1);
    lemma_f2_mul_fixed(t, x2, x2);
    lemma_f2_mul_fixed(t, x0, x1);
    lemma_f2_mul_fixed(t, x0, x2);
    lemma_f2_mul_fixed(t, x1, x2);
    lemma_f2_nr_fixed(t, f2_mul(t, x1, x2));
    lemma_f2_nr_fixed(t, f2_mul(t, x2, x2));
    lemma_f2_sub_zero(t, f2_mul(t, x0, x0), f2_nr(t, f2_mul(t, x1, x2)));
    lemma_f2_sub_zero(t, f2_nr(t, f2_mul(t, x2, x2)), f2_mul(t, x0, x1));
    lemma_f2_sub_zero(t, f2_mul(t, x1, x1), f2_mul(t, x0, x2));
    lemma_f2_consts_fixed(t);
    if x2 == f2_zero() {
        lemma_f2_mul_zero(t, x0);
        lemma_f2_no_zero_divisors(t, x1, x1);
        lemma_f2_mul_zero(t, x1);
        lemma_f2_nr_zero(t);
        lemma_f2_no_zero_divisors(t, x0, x0);
    } else if x1 == f2_zero() {
        lemma_f2_mul_zero(t, x0);
        reveal(f2_nr);
        lemma_f2_no_zero_divisors(t, t.xi, f2_mul(t, x2, x2));
        if f2_mul(t, x2, x2) == f2_zero() {
            lemma_f2_no_zero_divisors(t, x2, x2);
        }
        lemma_f2_mul_zero(t, f2_zero());
        assert(f2_mul(t, f2_zero(), f2_mul(t, f2_zero(), f2_zero())) == t.xi);
        assert(false);
    } else {
        lemma_f2_inverse_exists(t, x2);
        let j = f2_inverse(t, x2).unwrap();
        lemma_f2_inverse_mul(t, x2);
        lemma_f2_ratio_cube(t, x0, x1, x2, j);
        let y = f2_mul(t, x1, j);
        lemma_f2_mul_fixed(t, x1, j);
        assert(f2_mul(t, y, f2_mul(t, y, y)) == t.xi);
        assert(false);
    }
}

/// The adjugate of the adjugate is the element times its norm.
proof fn lemma_f6_adjugate_twice(t: Tower, a: F6)
    requires
        t.wf(),
    ensures
        f6_adjugate(t, f6_adjugate(t, a)) == f6_mul_by_f2(t, a, f6_norm(t, a)),
{
    let m0 = f2_mul(t, a.c0, a.c0);
    let m1 = f2_mul(t, a.c1, a.c2);
    let m2 = f2_nr(t, m1);
    let m3 = f2_sub(t, m0, m2);
    lemma_f2_mul_sub(t, m3, m0, m2);
    lemma_f2_mul_sub(t, m0, m0, m2);
    lemma_f2_mul_assoc(t, a.c0, a.c0, m0);
    lemma_f2_nr_mul(t, m0, m1);
    lemma_f2_mul_assoc(t, a.c0, a.c0, m1);
    lemma_f2_mul_sub(t, m2, m0, m2);
    lemma_f2_nr_mul(t, m1, m0);
    lemma_f2_mul_assoc(t, a.c1, a.c2, m0);
    lemma_f2_mul_left_comm(t, a.c2, a.c0, a.c0);
    lemma_f2_mul_comm(t, a.c2, a.c0);
    let m4 = f2_mul(t, a.c0, a.c2);
    lemma_f2_mul_left_comm(t, a.c1, a.c0, m4);
    lemma_f2_mul_left_comm(t, a.c1, a.c0, a.c2);
    lemma_f2_nr_mul(t, m1, m2);
    lemma_f2_nr_mul(t, m1, m1);
    lemma_f2_mul_assoc(t, a.c1, a.c2, m1);
    lemma_f2_mul_left_comm(t, a.c2, a.c1, a.c2);
    let m5 = f2_mul(t, a.c1, a.c1);
    let m6 = f2_sub(t, m5, m4);
    let m7 = f2_mul(t, a.c2, a.c2);
    let m8 = f2_nr(t, m7);
    let m9 = f2_mul(t, a.c0, a.c1);
    lemma_f2_mul_sub(t, m6, m8, m9);
    lemma_f2_mul_sub(t, m8, m5, m4);
    lemma_f2_nr_mul(t, m7, m5);
    lemma_f2_mul_assoc(t, a.c2, a.c2, m5);
    lemma_f2_mul_left_comm(t, a.c2, a.c1, a.c1);
    lemma_f2_mul_comm(t, a.c2, a.c1);
    lemma_f2_mul_left_comm(t, a.c2, a.c1, m1);
    lemma_f2_nr_mul(t, m7, m4);
    lemma_f2_mul_assoc(t, a.c2, a.c2, m4);
    lemma_f2_mul_left_comm(t, a.c2, a.c0, a.c2);
    lemma_f2_mul_left_comm(t, a.c2, a.c0, m7);
    lemma_f2_mul_sub(t, m9, m5, m4);
    lemma_f2_mul_assoc(t, a.c0, a.c1, m5);
    lemma_f2_mul_assoc(t, a.c0, a.c1, m4);
    let m10 = f2_mul(t, a.c1, m7);
    let m11 = f2_mul(t, a.c1, m10);
    let m12 = f2_nr(t, m11);
    let m13 = f2_mul(t, a.c2, m7);
    let m14 = f2_mul(t, a.c0, m13);
    let m15 = f2_nr(t, m14);
    let m16 = f2_sub(t, m12, m15);
    let m17 = f2_mul(t, a.c1, m5);
    let m18 = f2_mul(t, a.c0, m17);
    let m19 = f2_mul(t, a.c0, m1);
    let m20 = f2_mul(t, a.c0, m19);
    let m21 = f2_sub(t, m18, m20);
    lemma_f2_nr_sub(t, m16, m21);
    lemma_f2_nr_sub(t, m12, m15);
    lemma_f2_nr_sub(t, m18, m20);
    lemma_f2_mul_sub(t, a.c0, m0, m2);
    lemma_f2_nr_mul(t, a.c0, m1);
    lemma_f2_mul_sub(t, a.c2, m8, m9);
    lemma_f2_nr_mul(t, a.c2, m7);
    lemma_f2_mul_left_comm(t, a.c2, a.c0, a.c1);
    lemma_f2_mul_sub(t, a.c1, m5, m4);
    let m22 = f2_nr(t, m13);
    let m23 = f2_sub(t, m22, m19);
    let m24 = f2_sub(t, m17, m19);
    lemma_f2_nr_add(t, m23, m24);
    lemma_f2_nr_sub(t, m22, m19);
    lemma_f2_nr_sub(t, m17, m19);
    let m25 = f2_mul(t, a.c0, m0);
    let m26 = f2_nr(t, m19);
    let m27 = f2_sub(t, m25, m26);
    let m28 = f2_nr(t, m22);
    let m29 = f2_sub(t, m28, m26);
    let m30 = f2_nr(t, m17);
    let m31 = f2_sub(t, m30, m26);
    let m32 = f2_add(t, m29, m31);
    lemma_f2_mul_add(t, a.c0, m27, m32);
    lemma_f2_mul_sub(t, a.c0, m25, m26);
    lemma_f2_nr_mul(t, a.c0, m19);
    lemma_f2_mul_add(t, a.c0, m29, m31);
    lemma_f2_mul_sub(t, a.c0, m28, m26);
    lemma_f2_nr_mul(t, a.c0, m22);
    lemma_f2_nr_mul(t, a.c0, m13);
    lemma_f2_mul_sub(t, a.c0, m30, m26);
    lemma_f2_nr_mul(t, a.c0, m17);
    let m33 = f2_mul(t, a.c0, m25);
    let m34 = f2_nr(t, m20);
    lemma_f2_sub_lift(t, m33, m34, m33, m34);
    let m35 = f2_nr(t, m12);
    lemma_f2_sub_lift(t, m34, m35, m34, m35);
    let m36 = f2_sub(t, m33, m34);
    let m37 = f2_sub(t, m34, m35);
    lemma_f2_sub_lift(t, m36, m37, f2_zsub(m33, m34), f2_zsub(m34, m35));
    let m38 = f2_nr(t, m15);
    lemma_f2_sub_lift(t, m35, m38, m35, m38);
    let m39 = f2_nr(t, m18);
    lemma_f2_sub_lift(t, m39, m34, m39, m34);
    let m40 = f2_sub(t, m35, m38);
    let m41 = f2_sub(t, m39, m34);
    lemma_f2_sub_lift(t, m40, m41, f2_zsub(m35, m38), f2_zsub(m39, m34));
    let m42 = f2_sub(t, m36, m37);
    let m43 = f2_sub(t, m40, m41);
    lemma_f2_sub_lift(t, m42, m43, f2_zsub(f2_zsub(m33, m34), f2_zsub(m34, m35)), f2_zsub(f2_zsub(m35, m38), f2_zsub(m39, m34)));
    lemma_f2_sub_lift(t, m38, m34, m38, m34);
    let m44 = f2_sub(t, m38, m34);
    lemma_f2_add_lift(t, m44, m41, f2_zsub(m38, m34), f2_zsub(m39, m34));
    let m45 = f2_add(t, m44, m41);
    lemma_f2_add_lift(t, m36, m45, f2_zsub(m33, m34), f2_zadd(f2_zsub(m38, m34), f2_zsub(m39, m34)));
    assert(f2_zsub(f2_zsub(f2_zsub(m33, m34), f2_zsub(m34, m35)), f2_zsub(f2_zsub(m35, m38), f2_zsub(m39, m34))) == f2_zadd(f2_zsub(m33, m34), f2_zadd(f2_zsub(m38, m34), f2_zsub(m39, m34))));
    assert(f6_adjugate(t, f6_adjugate(t, a)).c0 == f6_mul_by_f2(t, a, f6_norm(t, a)).c0);
    lemma_f2_mul_sub(t, m6, m5, m4);
    lemma_f2_mul_sub(t, m5, m5, m4);
    lemma_f2_mul_assoc(t, a.c1, a.c1, m5);
    lemma_f2_mul_assoc(t, a.c1, a.c1, m4);
    lemma_f2_mul_left_comm(t, a.c1, a.c0, m1);
    lemma_f2_mul_sub(t, m4, m5, m4);
    lemma_f2_mul_assoc(t, a.c0, a.c2, m5);
    lemma_f2_mul_assoc(t, a.c0, a.c2, m4);
    let m46 = f2_mul(t, a.c1, m17);
    let m47 = f2_mul(t, a.c1, m1);
    let m48 = f2_mul(t, a.c0, m47);
    let m49 = f2_sub(t, m46, m48);
    let m50 = f2_mul(t, a.c0, m7);
    let m51 = f2_mul(t, a.c0, m50);
    let m52 = f2_sub(t, m48, m51);
    lemma_f2_nr_sub(t, m49, m52);
    lemma_f2_nr_sub(t, m46, m48);
    lemma_f2_nr_sub(t, m48, m51);
    let m53 = f2_sub(t, m8, m9);
    lemma_f2_mul_sub(t, m53, m0, m2);
    lemma_f2_mul_sub(t, m0, m8, m9);
    lemma_f2_nr_mul(t, m0, m7);
    lemma_f2_mul_assoc(t, a.c0, a.c0, m7);
    lemma_f2_mul_assoc(t, a.c0, a.c0, m9);
    lemma_f2_mul_sub(t, m2, m8, m9);
    lemma_f2_nr_mul(t, m1, m8);
    lemma_f2_nr_mul(t, m1, m7);
    lemma_f2_mul_assoc(t, a.c1, a.c2, m7);
    lemma_f2_nr_mul(t, m1, m9);
    lemma_f2_mul_assoc(t, a.c1, a.c2, m9);
    lemma_f2_mul_add(t, a.c1, m27, m32);
    lemma_f2_mul_sub(t, a.c1, m25, m26);
    lemma_f2_mul_left_comm(t, a.c1, a.c0, m0);
    lemma_f2_mul_left_comm(t, a.c1, a.c0, a.c0);
    lemma_f2_mul_comm(t, a.c1, a.c0);
    lemma_f2_nr_mul(t, a.c1, m19);
    lemma_f2_mul_add(t, a.c1, m29, m31);
    lemma_f2_mul_sub(t, a.c1, m28, m26);
    lemma_f2_nr_mul(t, a.c1, m22);
    lemma_f2_nr_mul(t, a.c1, m13);
    lemma_f2_mul_sub(t, a.c1, m30, m26);
    lemma_f2_nr_mul(t, a.c1, m17);
    let m54 = f2_nr(t, m46);
    let m55 = f2_nr(t, m48);
    lemma_f2_sub_lift(t, m54, m55, m54, m55);
    let m56 = f2_nr(t, m51);
    lemma_f2_sub_lift(t, m55, m56, m55, m56);
    let m57 = f2_sub(t, m54, m55);
    let m58 = f2_sub(t, m55, m56);
    lemma_f2_sub_lift(t, m57, m58, f2_zsub(m54, m55), f2_zsub(m55, m56));
    let m59 = f2_mul(t, a.c0, m9);
    let m60 = f2_mul(t, a.c0, m59);
    lemma_f2_sub_lift(t, m56, m60, m56, m60);
    let m61 = f2_mul(t, a.c1, m13);
    let m62 = f2_nr(t, m61);
    let m63 = f2_nr(t, m62);
    lemma_f2_sub_lift(t, m63, m55, m63, m55);
    let m64 = f2_sub(t, m56, m60);
    let m65 = f2_sub(t, m63, m55);
    lemma_f2_sub_lift(t, m64, m65, f2_zsub(m56, m60), f2_zsub(m63, m55));
    let m66 = f2_sub(t, m57, m58);
    let m67 = f2_sub(t, m64, m65);
    lemma_f2_sub_lift(t, m66, m67, f2_zsub(f2_zsub(m54, m55), f2_zsub(m55, m56)), f2_zsub(f2_zsub(m56, m60), f2_zsub(m63, m55)));
    lemma_f2_sub_lift(t, m60, m55, m60, m55);
    lemma_f2_add_lift(t, m65, m57, f2_zsub(m63, m55), f2_zsub(m54, m55));
    let m68 = f2_sub(t, m60, m55);
    let m69 = f2_add(t, m65, m57);
    lemma_f2_add_lift(t, m68, m69, f2_zsub(m60, m55), f2_zadd(f2_zsub(m63, m55), f2_zsub(m54, m55)));
    assert(f2_zsub(f2_zsub(f2_zsub(m54, m55), f2_zsub(m55, m56)), f2_zsub(f2_zsub(m56, m60), f2_zsub(m63, m55))) == f2_zadd(f2_zsub(m60, m55), f2_zadd(f2_zsub(m63, m55), f2_zsub(m54, m55))));
    assert(f6_adjugate(t, f6_adjugate(t, a)).c1 == f6_mul_by_f2(t, a, f6_norm(t, a)).c1);
    lemma_f2_mul_sub(t, m53, m8, m9);
    lemma_f2_mul_sub(t, m8, m8, m9);
    lemma_f2_nr_mul(t, m7, m8);
    lemma_f2_nr_mul(t, m7, m7);
    lemma_f2_mul_assoc(t, a.c2, a.c2, m7);
    lemma_f2_nr_mul(t, m7, m9);
    lemma_f2_mul_assoc(t, a.c2, a.c2, m9);
    lemma_f2_mul_left_comm(t, a.c2, a.c0, m1);
    lemma_f2_mul_sub(t, m9, m8, m9);
    lemma_f2_nr_mul(t, m9, m7);
    lemma_f2_mul_assoc(t, a.c0, a.c1, m7);
    lemma_f2_mul_assoc(t, a.c0, a.c1, m9);
    lemma_f2_mul_left_comm(t, a.c1, a.c0, a.c1);
    lemma_f2_mul_sub(t, m6, m0, m2);
    lemma_f2_mul_sub(t, m0, m5, m4);
    lemma_f2_mul_assoc(t, a.c0, a.c0, m5);
    lemma_f2_mul_assoc(t, a.c0, a.c0, m4);
    lemma_f2_mul_sub(t, m2, m5, m4);
    lemma_f2_nr_mul(t, m1, m5);
    lemma_f2_mul_assoc(t, a.c1, a.c2, m5);
    lemma_f2_nr_mul(t, m1, m4);
    lemma_f2_mul_assoc(t, a.c1, a.c2, m4);
    lemma_f2_mul_left_comm(t, a.c1, a.c0, m7);
    lemma_f2_mul_add(t, a.c2, m27, m32);
    lemma_f2_mul_sub(t, a.c2, m25, m26);
    lemma_f2_mul_left_comm(t, a.c2, a.c0, m0);
    lemma_f2_nr_mul(t, a.c2, m19);
    lemma_f2_mul_add(t, a.c2, m29, m31);
    lemma_f2_mul_sub(t, a.c2, m28, m26);
    lemma_f2_nr_mul(t, a.c2, m22);
    lemma_f2_nr_mul(t, a.c2, m13);
    lemma_f2_mul_sub(t, a.c2, m30, m26);
    lemma_f2_nr_mul(t, a.c2, m17);
    lemma_f2_mul_left_comm(t, a.c2, a.c1, m5);
    let m70 = f2_mul(t, a.c2, m13);
    let m71 = f2_nr(t, m70);
    let m72 = f2_nr(t, m71);
    let m73 = f2_mul(t, a.c0, m10);
    let m74 = f2_nr(t, m73);
    lemma_f2_sub_lift(t, m72, m74, m72, m74);
    let m75 = f2_mul(t, a.c0, m5);
    let m76 = f2_mul(t, a.c0, m75);
    lemma_f2_sub_lift(t, m74, m76, m74, m76);
    let m77 = f2_sub(t, m72, m74);
    let m78 = f2_sub(t, m74, m76);
    lemma_f2_sub_lift(t, m77, m78, f2_zsub(m72, m74), f2_zsub(m74, m76));
    let m79 = f2_mul(t, a.c0, m4);
    let m80 = f2_mul(t, a.c0, m79);
    lemma_f2_sub_lift(t, m76, m80, m76, m80);
    let m81 = f2_mul(t, a.c1, m47);
    let m82 = f2_nr(t, m81);
    lemma_f2_sub_lift(t, m82, m74, m82, m74);
    let m83 = f2_sub(t, m76, m80);
    let m84 = f2_sub(t, m82, m74);
    lemma_f2_sub_lift(t, m83, m84, f2_zsub(m76, m80), f2_zsub(m82, m74));
    let m85 = f2_sub(t, m77, m78);
    let m86 = f2_sub(t, m83, m84);
    lemma_f2_sub_lift(t, m85, m86, f2_zsub(f2_zsub(m72, m74), f2_zsub(m74, m76)), f2_zsub(f2_zsub(m76, m80), f2_zsub(m82, m74)));
    lemma_f2_sub_lift(t, m80, m74, m80, m74);
    lemma_f2_add_lift(t, m77, m84, f2_zsub(m72, m74), f2_zsub(m82, m74));
    let m87 = f2_sub(t, m80, m74);
    let m88 = f2_add(t, m77, m84);
    lemma_f2_add_lift(t, m87, m88, f2_zsub(m80, m74), f2_zadd(f2_zsub(m72, m74), f2_zsub(m82, m74)));
    assert(f2_zsub(f2_zsub(f2_zsub(m72, m74), f2_zsub(m74, m76)), f2_zsub(f2_zsub(m76, m80), f2_zsub(m82, m74))) == f2_zadd(f2_zsub(m80, m74), f2_zadd(f2_zsub(m72, m74), f2_zsub(m82, m74))));
    assert(f6_adjugate(t, f6_adjugate(t, a)).c2 == f6_mul_by_f2(t, a, f6_norm(t, a)).c2);
}

/// In a tower of fields every element of the cubic extension but zero has
/// an inverse.
pub proof fn lemma_f6_inverse_exists(t: Tower, a: F6)
    requires
        t.wf(),
        tower_is_field(t),
        a.wf(t),
        a != f6_zero(),
    ensures
        f6_inverse(t, a) is Some,
{
    let n = f6_norm(t, a);
    let d = f6_adjugate(t, a);
    lemma_f2_add_wf(t, f2_mul(t, a.c0, a.c0), f2_nr(t, f2_mul(t, a.c1, a.c2)));
    lemma_f2_add_wf(t, f2_nr(t, f2_mul(t, a.c2, a.c2)), f2_mul(t, a.c0, a.c1));
    lemma_f2_add_wf(t, f2_mul(t, a.c1, a.c1), f2_mul(t, a.c0, a.c2));
    lemma_f2_add_wf(
        t,
        f2_mul(t, a.c0, d.c0),
        f2_nr(t, f2_add(t, f2_mul(t, a.c2, d.c1), f2_mul(t, a.c1, d.c2))),
    );
    if n == f2_zero() {
        lemma_f6_adjugate_twice(t, a);
        lemma_f2_mul_zero(t, a.c0);
        lemma_f2_mul_zero(t, a.c1);
        lemma_f2_mul_zero(t, a.c2);
        lemma_f6_adjugate_nonzero(t, d);
        lemma_f6_adjugate_nonzero(t, a);
        assert(false);
    }
    lemma_f2_inverse_exists(t, n);
}

/// In a tower of fields a product in the cubic extension is zero only where
/// a factor is.
pub proof fn lemma_f6_no_zero_divisors(t: Tower, a: F6, b: F6)
    requires
        t.wf(),
        tower_is_field(t),
        a.wf(t),
        b.wf(t),
        f6_mul(t, a, b) == f6_zero(),
    ensures
        a == f6_zero() || b == f6_zero(),
{
    if a != f6_zero() {
        lemma_f6_inverse_exists(t, a);
        let v = f6_inverse(t, a).unwrap();
        lemma_f6_inverse_mul(t, a);
        lemma_f6_mul_comm(t, a, v);
        lemma_f6_mul_assoc(t, v, a, b);
        lemma_f6_mul_one(t, b);
        lemma_f6_mul_zero(t, v);
    }
}

// ---------------------------------------------------------------- the tower

/// In a tower of fields every element but zero has an inverse, and the
/// element times its inverse is one.
pub proof fn law_inverse_exists(t: Tower, a: F12)
    requires
        t.wf(),
        tower_is_field(t),
        a.wf(t),
        a != f12_zero(),
    ensures
        f12_inverse(t, a) is Some,
        f12_mul(t, a, f12_inverse(t, a).unwrap()) == f12_one(),
        f12_mul(t, f12_inverse(t, a).unwrap(), a) == f12_one(),
{
    let n = f12_norm(t, a);
    let s0 = f6_mul(t, a.c0, a.c0);
    let s1 = f6_mul(t, a.c1, a.c1);
    lemma_f6_mul_fixed(t, a.c0, a.c0);
    lemma_f6_mul_fixed(t, a.c1, a.c1);
    lemma_f6_nr_fixed(t, s1);
    lemma_f6_add_wf(t, s0, f6_nr(t, s1));
    lemma_f6_consts_fixed(t);
    if n == f6_zero() {
        lemma_f6_sub_zero(t, s0, f6_nr(t, s1));
        if a.c1 == f6_zero() {
            lemma_f6_mul_zero(t, f6_zero());
            lemma_f6_nr_zero(t);
            lemma_f6_no_zero_divisors(t, a.c0, a.c0);
            assert(false);
        } else {
            lemma_f6_inverse_exists(t, a.c1);
            let j = f6_inverse(t, a.c1).unwrap();
            lemma_f6_inverse_mul(t, a.c1);
            let x = a.c0;
            let y = a.c1;
            lemma_f6_mul_comm(t, x, j);
            let m0 = f6_mul(t, j, x);
            lemma_f6_mul_assoc(t, j, x, m0);
            lemma_f6_mul_left_comm(t, x, j, x);
            let m1 = f6_mul(t, j, j);
            lemma_f6_mul_assoc(t, x, x, m1);
            lemma_f6_mul_left_comm(t, x, j, j);
            lemma_f6_mul_left_comm(t, x, j, m0);
            let m2 = f6_mul(t, y, y);
            lemma_f6_nr_mul(t, m2, m1);
            lemma_f6_mul_assoc(t, y, y, m1);
            lemma_f6_mul_left_comm(t, y, j, j);
            lemma_f6_mul_comm(t, y, j);
            let m3 = f6_mul(t, j, y);
            lemma_f6_mul_left_comm(t, y, j, m3);
            lemma_f6_mul_left_comm(t, y, j, y);
            lemma_f6_mul_assoc(t, j, y, m3);
            lemma_f6_mul_one(t, f6_one());
            reveal(f6_nr);
            lemma_f2_consts_fixed(t);
            lemma_f6_mul_one(t, f6_v());
            let r = f6_mul(t, x, j);
            lemma_f6_mul_fixed(t, x, j);
            assert(f6_mul(t, r, r) == f6_v());
            assert(false);
        }
    }
    lemma_f6_inverse_exists(t, n);
    lemma_f12_inverse_mul(t, a);
    lemma_f12_mul_comm(t, a, f12_inverse(t, a).unwrap());
}

} // verus!
