use vstd::prelude::*;
use crate::tower::{F2, F6, F12, Tower};
use crate::alg_fp::{
    fp_add, fp_mul, fp_nr, lemma_fp_mul_add, lemma_fp_mul_assoc, lemma_fp_mul_comm,
    lemma_fp_mul_left_comm, lemma_fp_mul_fixed, lemma_fp_mul_one, lemma_fp_mul_zero,
};
use crate::alg_fp2::{
    f2_add, f2_mul, f2_nr, f2_zero, f2_one, f2_frobenius, lemma_f2_mul_add, lemma_f2_mul_assoc,
    lemma_f2_mul_comm, lemma_f2_mul_left_comm, lemma_f2_mul_one, lemma_f2_mul_zero,
    lemma_f2_nr_add, lemma_f2_nr_mul,
};
use crate::alg_fp6::{
    f6_add, f6_mul, f6_nr, f6_v, f6_from_f2, f6_mul_by_f2, f6_frobenius, lemma_f6_mul_add,
    lemma_f6_mul_assoc, lemma_f6_mul_comm, lemma_f6_mul_left_comm, lemma_f6_mul_by_f2,
    lemma_f6_nr_mul,
};
use crate::alg_fp12::{f12_add, f12_mul, f12_frobenius};

verus! {

/// The coefficients of power zero are one, in every table.
pub open spec fn frobenius_unit(t: Tower) -> bool {
    &&& t.frob2[0] == 1
    &&& t.frob6_c1[0] == f2_one()
    &&& t.frob6_c2[0] == f2_one()
    &&& t.frob12[0] == f2_one()
}

/// The coefficients of this power are those of a map that respects
/// products: the twist of `u` squares to one, the twist of `v²` is the
/// square of the twist of `v`, `xi` times both is the image of `xi`, and
/// the twist of `w` squares to the twist of `v`.
pub open spec fn frobenius_multiplicative(t: Tower, power: nat) -> bool {
    let k = t.frob2[(power % 2) as int];
    let k1 = t.frob6_c1[(power % 6) as int];
    let k2 = t.frob6_c2[(power % 6) as int];
    let kk = t.frob12[(power % 12) as int];
    &&& fp_mul(t.p, k, k) == 1
    &&& f2_mul(t, k1, k1) == k2
    &&& f2_nr(t, f2_mul(t, k1, k2)) == f2_frobenius(t, t.xi, power)
    &&& f2_mul(t, kk, kk) == k1
}

/// The coefficients of powers `m`, `n` and `m + n` fit together: in every
/// table the entry of `m + n` is the image under power `m` of the entry of
/// `n`, times the entry of `m`.
pub open spec fn frobenius_chain(t: Tower, m: nat, n: nat) -> bool {
    &&& fp_mul(t.p, t.frob2[(m % 2) as int], t.frob2[(m % 2) as int]) == 1
    &&& fp_mul(t.p, t.frob2[(n % 2) as int], t.frob2[(m % 2) as int]) == t.frob2[((m + n)
        % 2) as int]
    &&& f2_mul(t, f2_frobenius(t, t.frob6_c1[(n % 6) as int], m), t.frob6_c1[(m % 6) as int])
        == t.frob6_c1[((m + n) % 6) as int]
    &&& f2_mul(t, f2_frobenius(t, t.frob6_c2[(n % 6) as int], m), t.frob6_c2[(m % 6) as int])
        == t.frob6_c2[((m + n) % 6) as int]
    &&& f2_mul(t, f2_frobenius(t, t.frob12[(n % 12) as int], m), t.frob12[(m % 12) as int])
        == t.frob12[((m + n) % 12) as int]
}

/// The Frobenius map of power one, applied `steps` times.
pub open spec fn f12_frobenius_iter(t: Tower, a: F12, steps: nat) -> F12
    decreases steps,
{
    if steps == 0 {
        a
    } else {
        f12_frobenius(t, f12_frobenius_iter(t, a, (steps - 1) as nat), 1)
    }
}

proof fn lemma_f2_frobenius_mul_expand(t: Tower, a: F2, b: F2, power: nat, k: int)
    requires
        t.wf(),
        k == t.frob2[(power % 2) as int],
    ensures
        f2_mul(t, f2_frobenius(t, a, power), f2_frobenius(t, b, power)) == (F2 { c0: fp_add(t.p, fp_mul(t.p, a.c0, b.c0), fp_nr(t, fp_mul(t.p, fp_mul(t.p, a.c1, b.c1), fp_mul(t.p, k, k)))), c1: fp_mul(t.p, fp_add(t.p, fp_mul(t.p, a.c0, b.c1), fp_mul(t.p, a.c1, b.c0)), k) }),
{
    reveal(f2_mul);
    let m0 = fp_mul(t.p, b.c1, k);
    lemma_fp_mul_assoc(t.p, a.c1, k, m0);
    lemma_fp_mul_left_comm(t.p, k, b.c1, k);
    let m1 = fp_mul(t.p, k, k);
    lemma_fp_mul_assoc(t.p, a.c1, b.c1, m1);
    assert(f2_mul(t, f2_frobenius(t, a, power), f2_frobenius(t, b, power)).c0 == (F2 { c0: fp_add(t.p, fp_mul(t.p, a.c0, b.c0), fp_nr(t, fp_mul(t.p, fp_mul(t.p, a.c1, b.c1), fp_mul(t.p, k, k)))), c1: fp_mul(t.p, fp_add(t.p, fp_mul(t.p, a.c0, b.c1), fp_mul(t.p, a.c1, b.c0)), k) }).c0);
    lemma_fp_mul_assoc(t.p, a.c1, k, b.c0);
    lemma_fp_mul_comm(t.p, k, b.c0);
    let m2 = fp_mul(t.p, a.c0, b.c1);
    let m3 = fp_mul(t.p, a.c1, b.c0);
    lemma_fp_mul_add(t.p, k, m2, m3);
    lemma_fp_mul_assoc(t.p, a.c0, b.c1, k);
    lemma_fp_mul_assoc(t.p, a.c1, b.c0, k);
    assert(f2_mul(t, f2_frobenius(t, a, power), f2_frobenius(t, b, power)).c1 == (F2 { c0: fp_add(t.p, fp_mul(t.p, a.c0, b.c0), fp_nr(t, fp_mul(t.p, fp_mul(t.p, a.c1, b.c1), fp_mul(t.p, k, k)))), c1: fp_mul(t.p, fp_add(t.p, fp_mul(t.p, a.c0, b.c1), fp_mul(t.p, a.c1, b.c0)), k) }).c1);
}

proof fn lemma_f6_frobenius_mul_expand(t: Tower, x0: F2, x1: F2, x2: F2, y0: F2, y1: F2, y2: F2, k1: F2)
    requires
        t.wf(),
    ensures
        f6_mul(t, (F6 { c0: x0, c1: f2_mul(t, x1, k1), c2: f2_mul(t, x2, f2_mul(t, k1, k1)) }), (F6 { c0: y0, c1: f2_mul(t, y1, k1), c2: f2_mul(t, y2, f2_mul(t, k1, k1)) })) == (F6 { c0: f2_add(t, f2_mul(t, x0, y0), f2_mul(t, f2_nr(t, f2_mul(t, k1, f2_mul(t, k1, k1))), f2_add(t, f2_mul(t, x1, y2), f2_mul(t, x2, y1)))), c1: f2_mul(t, f2_add(t, f2_add(t, f2_mul(t, x0, y1), f2_mul(t, x1, y0)), f2_mul(t, f2_nr(t, f2_mul(t, k1, f2_mul(t, k1, k1))), f2_mul(t, x2, y2))), k1), c2: f2_mul(t, f2_add(t, f2_add(t, f2_mul(t, x0, y2), f2_mul(t, x1, y1)), f2_mul(t, x2, y0)), f2_mul(t, k1, k1)) }),
{
    reveal(f6_mul);
    lemma_f2_mul_comm(t, x1, k1);
    lemma_f2_mul_left_comm(t, y2, k1, k1);
    lemma_f2_mul_comm(t, y2, k1);
    let m0 = f2_mul(t, k1, y2);
    let m1 = f2_mul(t, k1, m0);
    lemma_f2_mul_assoc(t, k1, x1, m1);
    lemma_f2_mul_left_comm(t, x1, k1, m0);
    lemma_f2_mul_left_comm(t, x1, k1, y2);
    lemma_f2_mul_left_comm(t, x2, k1, k1);
    lemma_f2_mul_comm(t, x2, k1);
    lemma_f2_mul_comm(t, y1, k1);
    let m2 = f2_mul(t, k1, x2);
    let m3 = f2_mul(t, k1, y1);
    lemma_f2_mul_assoc(t, k1, m2, m3);
    lemma_f2_mul_assoc(t, k1, x2, m3);
    lemma_f2_mul_left_comm(t, x2, k1, y1);
    let m4 = f2_mul(t, x1, y2);
    let m5 = f2_mul(t, k1, m4);
    let m6 = f2_mul(t, k1, m5);
    let m7 = f2_mul(t, k1, m6);
    let m8 = f2_mul(t, x2, y1);
    let m9 = f2_mul(t, k1, m8);
    let m10 = f2_mul(t, k1, m9);
    let m11 = f2_mul(t, k1, m10);
    lemma_f2_nr_add(t, m7, m11);
    let m12 = f2_mul(t, k1, k1);
    let m13 = f2_mul(t, k1, m12);
    let m14 = f2_nr(t, m13);
    lemma_f2_mul_add(t, m14, m4, m8);
    lemma_f2_nr_mul(t, m13, m4);
    lemma_f2_mul_assoc(t, k1, m12, m4);
    lemma_f2_mul_assoc(t, k1, k1, m4);
    lemma_f2_nr_mul(t, m13, m8);
    lemma_f2_mul_assoc(t, k1, m12, m8);
    lemma_f2_mul_assoc(t, k1, k1, m8);
    assert(f6_mul(t, (F6 { c0: x0, c1: f2_mul(t, x1, k1), c2: f2_mul(t, x2, f2_mul(t, k1, k1)) }), (F6 { c0: y0, c1: f2_mul(t, y1, k1), c2: f2_mul(t, y2, f2_mul(t, k1, k1)) })).c0 == (F6 { c0: f2_add(t, f2_mul(t, x0, y0), f2_mul(t, f2_nr(t, f2_mul(t, k1, f2_mul(t, k1, k1))), f2_add(t, f2_mul(t, x1, y2), f2_mul(t, x2, y1)))), c1: f2_mul(t, f2_add(t, f2_add(t, f2_mul(t, x0, y1), f2_mul(t, x1, y0)), f2_mul(t, f2_nr(t, f2_mul(t, k1, f2_mul(t, k1, k1))), f2_mul(t, x2, y2))), k1), c2: f2_mul(t, f2_add(t, f2_add(t, f2_mul(t, x0, y2), f2_mul(t, x1, y1)), f2_mul(t, x2, y0)), f2_mul(t, k1, k1)) }).c0);
    lemma_f2_mul_left_comm(t, x0, k1, y1);
    lemma_f2_mul_assoc(t, k1, x1, y0);
    lemma_f2_mul_assoc(t, k1, m2, m1);
    lemma_f2_mul_assoc(t, k1, x2, m1);
    lemma_f2_mul_left_comm(t, x2, k1, m0);
    lemma_f2_mul_left_comm(t, x2, k1, y2);
    let m15 = f2_mul(t, x2, y2);
    lemma_f2_nr_mul(t, m13, m15);
    lemma_f2_mul_assoc(t, k1, m12, m15);
    lemma_f2_mul_assoc(t, k1, k1, m15);
    let m16 = f2_mul(t, x0, y1);
    let m17 = f2_mul(t, x1, y0);
    let m18 = f2_add(t, m16, m17);
    let m19 = f2_mul(t, k1, m15);
    let m20 = f2_mul(t, k1, m19);
    let m21 = f2_mul(t, k1, m20);
    let m22 = f2_nr(t, m21);
    lemma_f2_mul_add(t, k1, m18, m22);
    lemma_f2_mul_add(t, k1, m16, m17);
    lemma_f2_mul_assoc(t, x0, y1, k1);
    lemma_f2_mul_assoc(t, x1, y0, k1);
    lemma_f2_mul_comm(t, y0, k1);
    lemma_f2_mul_left_comm(t, x1, k1, y0);
    lemma_f2_nr_mul(t, m21, k1);
    lemma_f2_mul_assoc(t, k1, m20, k1);
    lemma_f2_mul_assoc(t, k1, m19, k1);
    lemma_f2_mul_assoc(t, k1, m15, k1);
    lemma_f2_mul_assoc(t, x2, y2, k1);
    assert(f6_mul(t, (F6 { c0: x0, c1: f2_mul(t, x1, k1), c2: f2_mul(t, x2, f2_mul(t, k1, k1)) }), (F6 { c0: y0, c1: f2_mul(t, y1, k1), c2: f2_mul(t, y2, f2_mul(t, k1, k1)) })).c1 == (F6 { c0: f2_add(t, f2_mul(t, x0, y0), f2_mul(t, f2_nr(t, f2_mul(t, k1, f2_mul(t, k1, k1))), f2_add(t, f2_mul(t, x1, y2), f2_mul(t, x2, y1)))), c1: f2_mul(t, f2_add(t, f2_add(t, f2_mul(t, x0, y1), f2_mul(t, x1, y0)), f2_mul(t, f2_nr(t, f2_mul(t, k1, f2_mul(t, k1, k1))), f2_mul(t, x2, y2))), k1), c2: f2_mul(t, f2_add(t, f2_add(t, f2_mul(t, x0, y2), f2_mul(t, x1, y1)), f2_mul(t, x2, y0)), f2_mul(t, k1, k1)) }).c1);
    lemma_f2_mul_left_comm(t, x0, k1, m0);
    lemma_f2_mul_left_comm(t, x0, k1, y2);
    lemma_f2_mul_assoc(t, k1, x1, m3);
    lemma_f2_mul_left_comm(t, x1, k1, y1);
    lemma_f2_mul_assoc(t, k1, m2, y0);
    lemma_f2_mul_assoc(t, k1, x2, y0);
    let m23 = f2_mul(t, x0, y2);
    let m24 = f2_mul(t, x1, y1);
    let m25 = f2_add(t, m23, m24);
    let m26 = f2_mul(t, x2, y0);
    lemma_f2_mul_add(t, m12, m25, m26);
    lemma_f2_mul_add(t, m12, m23, m24);
    lemma_f2_mul_assoc(t, x0, y2, m12);
    lemma_f2_mul_assoc(t, x1, y1, m12);
    lemma_f2_mul_left_comm(t, y1, k1, k1);
    lemma_f2_mul_left_comm(t, x1, k1, m3);
    lemma_f2_mul_assoc(t, x2, y0, m12);
    lemma_f2_mul_left_comm(t, y0, k1, k1);
    let m27 = f2_mul(t, k1, y0);
    lemma_f2_mul_left_comm(t, x2, k1, m27);
    lemma_f2_mul_left_comm(t, x2, k1, y0);
    assert(f6_mul(t, (F6 { c0: x0, c1: f2_mul(t, x1, k1), c2: f2_mul(t, x2, f2_mul(t, k1, k1)) }), (F6 { c0: y0, c1: f2_mul(t, y1, k1), c2: f2_mul(t, y2, f2_mul(t, k1, k1)) })).c2 == (F6 { c0: f2_add(t, f2_mul(t, x0, y0), f2_mul(t, f2_nr(t, f2_mul(t, k1, f2_mul(t, k1, k1))), f2_add(t, f2_mul(t, x1, y2), f2_mul(t, x2, y1)))), c1: f2_mul(t, f2_add(t, f2_add(t, f2_mul(t, x0, y1), f2_mul(t, x1, y0)), f2_mul(t, f2_nr(t, f2_mul(t, k1, f2_mul(t, k1, k1))), f2_mul(t, x2, y2))), k1), c2: f2_mul(t, f2_add(t, f2_add(t, f2_mul(t, x0, y2), f2_mul(t, x1, y1)), f2_mul(t, x2, y0)), f2_mul(t, k1, k1)) }).c2);
}

proof fn lemma_f12_frobenius_mul_expand(t: Tower, x0: F6, x1: F6, y0: F6, y1: F6, kk: F6)
    requires
        t.wf(),
    ensures
        f12_mul(t, (F12 { c0: x0, c1: f6_mul(t, x1, kk) }), (F12 { c0: y0, c1: f6_mul(t, y1, kk) })) == (F12 { c0: f6_add(t, f6_mul(t, x0, y0), f6_mul(t, f6_nr(t, f6_mul(t, kk, kk)), f6_mul(t, x1, y1))), c1: f6_mul(t, f6_add(t, f6_mul(t, x0, y1), f6_mul(t, x1, y0)), kk) }),
{
    reveal(f12_mul);
    lemma_f6_mul_comm(t, x1, kk);
    lemma_f6_mul_comm(t, y1, kk);
    let m0 = f6_mul(t, kk, y1);
    lemma_f6_mul_assoc(t, kk, x1, m0);
    lemma_f6_mul_left_comm(t, x1, kk, y1);
    let m1 = f6_mul(t, kk, kk);
    let m2 = f6_mul(t, x1, y1);
    lemma_f6_nr_mul(t, m1, m2);
    lemma_f6_mul_assoc(t, kk, kk, m2);
    assert(f12_mul(t, (F12 { c0: x0, c1: f6_mul(t, x1, kk) }), (F12 { c0: y0, c1: f6_mul(t, y1, kk) })).c0 == (F12 { c0: f6_add(t, f6_mul(t, x0, y0), f6_mul(t, f6_nr(t, f6_mul(t, kk, kk)), f6_mul(t, x1, y1))), c1: f6_mul(t, f6_add(t, f6_mul(t, x0, y1), f6_mul(t, x1, y0)), kk) }).c0);
    lemma_f6_mul_left_comm(t, x0, kk, y1);
    lemma_f6_mul_assoc(t, kk, x1, y0);
    let m3 = f6_mul(t, x0, y1);
    let m4 = f6_mul(t, x1, y0);
    lemma_f6_mul_add(t, kk, m3, m4);
    lemma_f6_mul_assoc(t, x0, y1, kk);
    lemma_f6_mul_assoc(t, x1, y0, kk);
    lemma_f6_mul_comm(t, y0, kk);
    lemma_f6_mul_left_comm(t, x1, kk, y0);
    assert(f12_mul(t, (F12 { c0: x0, c1: f6_mul(t, x1, kk) }), (F12 { c0: y0, c1: f6_mul(t, y1, kk) })).c1 == (F12 { c0: f6_add(t, f6_mul(t, x0, y0), f6_mul(t, f6_nr(t, f6_mul(t, kk, kk)), f6_mul(t, x1, y1))), c1: f6_mul(t, f6_add(t, f6_mul(t, x0, y1), f6_mul(t, x1, y0)), kk) }).c1);
}


// ---------------------------------------------------------------- the quadratic extension

/// The Frobenius map of the quadratic extension respects sums.
pub proof fn lemma_f2_frobenius_add(t: Tower, a: F2, b: F2, power: nat)
    requires
        t.wf(),
    ensures
        f2_frobenius(t, f2_add(t, a, b), power) == f2_add(
            t,
            f2_frobenius(t, a, power),
            f2_frobenius(t, b, power),
        ),
{
    reveal(f2_add);
    lemma_fp_mul_add(t.p, t.frob2[(power % 2) as int], a.c1, b.c1);
}

/// The Frobenius map of the quadratic extension respects products, for a power whose
/// coefficients are those of such a map.
pub proof fn lemma_f2_frobenius_mul(t: Tower, a: F2, b: F2, power: nat)
    requires
        t.wf(),
        fp_mul(t.p, t.frob2[(power % 2) as int], t.frob2[(power % 2) as int]) == 1,
    ensures
        f2_frobenius(t, f2_mul(t, a, b), power) == f2_mul(
            t,
            f2_frobenius(t, a, power),
            f2_frobenius(t, b, power),
        ),
{
    let k = t.frob2[(power % 2) as int];
    lemma_f2_frobenius_mul_expand(t, a, b, power, k);
    reveal(f2_mul);
    lemma_fp_mul_fixed(t.p, a.c1, b.c1);
    lemma_fp_mul_one(t.p, fp_mul(t.p, a.c1, b.c1));
}

/// In the quadratic extension the map of power `m` after that of power `n` is the map of
/// power `m + n`, where the coefficients fit together.
pub proof fn lemma_f2_frobenius_compose(t: Tower, a: F2, m: nat, n: nat)
    requires
        t.wf(),
        fp_mul(t.p, t.frob2[(n % 2) as int], t.frob2[(m % 2) as int]) == t.frob2[((m + n)
            % 2) as int],
    ensures
        f2_frobenius(t, f2_frobenius(t, a, n), m) == f2_frobenius(t, a, m + n),
{
    lemma_fp_mul_assoc(t.p, a.c1, t.frob2[(n % 2) as int], t.frob2[(m % 2) as int]);
}

/// In the quadratic extension the Frobenius map with coefficients one is the identity.
pub proof fn lemma_f2_frobenius_unit(t: Tower, a: F2, power: nat)
    requires
        t.wf(),
        a.wf(t),
        t.frob2[(power % 2) as int] == 1,
    ensures
        f2_frobenius(t, a, power) == a,
{
    lemma_fp_mul_one(t.p, a.c1);
}

/// Zero and one are fixed.
pub proof fn lemma_f2_frobenius_consts(t: Tower, power: nat)
    requires
        t.wf(),
    ensures
        f2_frobenius(t, f2_zero(), power) == f2_zero(),
        f2_frobenius(t, f2_one(), power) == f2_one(),
{
    lemma_fp_mul_zero(t.p, t.frob2[(power % 2) as int]);
}

// ---------------------------------------------------------------- the cubic extension

/// The Frobenius map of the cubic extension respects sums.
pub proof fn lemma_f6_frobenius_add(t: Tower, a: F6, b: F6, power: nat)
    requires
        t.wf(),
    ensures
        f6_frobenius(t, f6_add(t, a, b), power) == f6_add(
            t,
            f6_frobenius(t, a, power),
            f6_frobenius(t, b, power),
        ),
{
    reveal(f6_add);
    lemma_f2_frobenius_add(t, a.c0, b.c0, power);
    lemma_f2_frobenius_add(t, a.c1, b.c1, power);
    lemma_f2_frobenius_add(t, a.c2, b.c2, power);
    lemma_f2_mul_add(
        t,
        t.frob6_c1[(power % 6) as int],
        f2_frobenius(t, a.c1, power),
        f2_frobenius(t, b.c1, power),
    );
    lemma_f2_mul_add(
        t,
        t.frob6_c2[(power % 6) as int],
        f2_frobenius(t, a.c2, power),
        f2_frobenius(t, b.c2, power),
    );
}

/// The image of a product of two coordinates, and of `xi` times it.
proof fn lemma_f2_frobenius_pair(t: Tower, x: F2, y: F2, power: nat)
    requires
        t.wf(),
        fp_mul(t.p, t.frob2[(power % 2) as int], t.frob2[(power % 2) as int]) == 1,
    ensures
        f2_frobenius(t, f2_mul(t, x, y), power) == f2_mul(
            t,
            f2_frobenius(t, x, power),
            f2_frobenius(t, y, power),
        ),
        f2_frobenius(t, f2_nr(t, x), power) == f2_mul(
            t,
            f2_frobenius(t, t.xi, power),
            f2_frobenius(t, x, power),
        ),
{
    reveal(f2_nr);
    lemma_f2_frobenius_mul(t, x, y, power);
    lemma_f2_frobenius_mul(t, t.xi, x, power);
}

/// The Frobenius map of the cubic extension respects products, for a power whose
/// coefficients are those of such a map.
pub proof fn lemma_f6_frobenius_mul(t: Tower, a: F6, b: F6, power: nat)
    requires
        t.wf(),
        frobenius_multiplicative(t, power),
    ensures
        f6_frobenius(t, f6_mul(t, a, b), power) == f6_mul(
            t,
            f6_frobenius(t, a, power),
            f6_frobenius(t, b, power),
        ),
{
    let k1 = t.frob6_c1[(power % 6) as int];
    let (x0, x1, x2) = (
        f2_frobenius(t, a.c0, power),
        f2_frobenius(t, a.c1, power),
        f2_frobenius(t, a.c2, power),
    );
    let (y0, y1, y2) = (
        f2_frobenius(t, b.c0, power),
        f2_frobenius(t, b.c1, power),
        f2_frobenius(t, b.c2, power),
    );
    lemma_f6_frobenius_mul_expand(t, x0, x1, x2, y0, y1, y2, k1);
    reveal(f6_mul);
    lemma_f2_frobenius_pair(t, a.c0, b.c0, power);
    lemma_f2_frobenius_pair(t, a.c0, b.c1, power);
    lemma_f2_frobenius_pair(t, a.c0, b.c2, power);
    lemma_f2_frobenius_pair(t, a.c1, b.c0, power);
    lemma_f2_frobenius_pair(t, a.c1, b.c1, power);
    lemma_f2_frobenius_pair(t, a.c1, b.c2, power);
    lemma_f2_frobenius_pair(t, a.c2, b.c0, power);
    lemma_f2_frobenius_pair(t, a.c2, b.c1, power);
    lemma_f2_frobenius_pair(t, a.c2, b.c2, power);
    // the first coordinate
    let s0 = f2_add(t, f2_mul(t, a.c1, b.c2), f2_mul(t, a.c2, b.c1));
    lemma_f2_frobenius_add(t, f2_mul(t, a.c1, b.c2), f2_mul(t, a.c2, b.c1), power);
    lemma_f2_frobenius_pair(t, s0, s0, power);
    lemma_f2_frobenius_add(t, f2_mul(t, a.c0, b.c0), f2_nr(t, s0), power);
    // the second
    let s1 = f2_add(t, f2_mul(t, a.c0, b.c1), f2_mul(t, a.c1, b.c0));
    lemma_f2_frobenius_add(t, f2_mul(t, a.c0, b.c1), f2_mul(t, a.c1, b.c0), power);
    lemma_f2_frobenius_pair(t, f2_mul(t, a.c2, b.c2), s1, power);
    lemma_f2_frobenius_add(t, s1, f2_nr(t, f2_mul(t, a.c2, b.c2)), power);
    // the third
    let s2 = f2_add(t, f2_mul(t, a.c0, b.c2), f2_mul(t, a.c1, b.c1));
    lemma_f2_frobenius_add(t, f2_mul(t, a.c0, b.c2), f2_mul(t, a.c1, b.c1), power);
    lemma_f2_frobenius_add(t, s2, f2_mul(t, a.c2, b.c0), power);
}

/// Two factors after the first change places.
proof fn lemma_f2_mul_swap(t: Tower, x: F2, fk: F2, k1: F2)
    requires
        t.wf(),
    ensures
        f2_mul(t, f2_mul(t, x, fk), k1) == f2_mul(t, f2_mul(t, x, k1), fk),
{
    lemma_f2_mul_comm(t, x, fk);
    lemma_f2_mul_assoc(t, fk, x, k1);
    lemma_f2_mul_comm(t, x, k1);
    lemma_f2_mul_assoc(t, k1, x, fk);
    lemma_f2_mul_left_comm(t, k1, fk, x);
}

/// The image of a coordinatewise multiple is the multiple of the image by
/// the image of the factor.
pub proof fn lemma_f6_frobenius_mul_by_f2(t: Tower, x: F6, k: F2, power: nat)
    requires
        t.wf(),
        fp_mul(t.p, t.frob2[(power % 2) as int], t.frob2[(power % 2) as int]) == 1,
    ensures
        f6_frobenius(t, f6_mul_by_f2(t, x, k), power) == f6_mul_by_f2(
            t,
            f6_frobenius(t, x, power),
            f2_frobenius(t, k, power),
        ),
{
    let fk = f2_frobenius(t, k, power);
    lemma_f2_frobenius_mul(t, x.c0, k, power);
    lemma_f2_frobenius_mul(t, x.c1, k, power);
    lemma_f2_frobenius_mul(t, x.c2, k, power);
    lemma_f2_mul_swap(t, f2_frobenius(t, x.c1, power), fk, t.frob6_c1[(power % 6) as int]);
    lemma_f2_mul_swap(t, f2_frobenius(t, x.c2, power), fk, t.frob6_c2[(power % 6) as int]);
}

/// In the cubic extension the map of power `m` after that of power `n` is the map of
/// power `m + n`, where the coefficients fit together.
pub proof fn lemma_f6_frobenius_compose(t: Tower, a: F6, m: nat, n: nat)
    requires
        t.wf(),
        frobenius_chain(t, m, n),
    ensures
        f6_frobenius(t, f6_frobenius(t, a, n), m) == f6_frobenius(t, a, m + n),
{
    let (k1n, k2n) = (t.frob6_c1[(n % 6) as int], t.frob6_c2[(n % 6) as int]);
    let (k1m, k2m) = (t.frob6_c1[(m % 6) as int], t.frob6_c2[(m % 6) as int]);
    lemma_f2_frobenius_compose(t, a.c0, m, n);
    lemma_f2_frobenius_compose(t, a.c1, m, n);
    lemma_f2_frobenius_compose(t, a.c2, m, n);
    lemma_f2_frobenius_mul(t, f2_frobenius(t, a.c1, n), k1n, m);
    lemma_f2_frobenius_mul(t, f2_frobenius(t, a.c2, n), k2n, m);
    lemma_f2_mul_assoc(t, f2_frobenius(t, a.c1, m + n), f2_frobenius(t, k1n, m), k1m);
    lemma_f2_mul_assoc(t, f2_frobenius(t, a.c2, m + n), f2_frobenius(t, k2n, m), k2m);
}

/// In the cubic extension the Frobenius map with coefficients one is the identity.
pub proof fn lemma_f6_frobenius_unit(t: Tower, a: F6, power: nat)
    requires
        t.wf(),
        a.wf(t),
        t.frob2[(power % 2) as int] == 1,
        t.frob6_c1[(power % 6) as int] == f2_one(),
        t.frob6_c2[(power % 6) as int] == f2_one(),
    ensures
        f6_frobenius(t, a, power) == a,
{
    lemma_f2_frobenius_unit(t, a.c0, power);
    lemma_f2_frobenius_unit(t, a.c1, power);
    lemma_f2_frobenius_unit(t, a.c2, power);
    lemma_f2_mul_one(t, a.c1);
    lemma_f2_mul_one(t, a.c2);
}

/// The image of `v` is `v` times the twist of `v`.
proof fn lemma_f6_frobenius_v(t: Tower, power: nat)
    requires
        t.wf(),
    ensures
        f6_frobenius(t, f6_v(), power) == f6_nr(
            t,
            f6_from_f2(t.frob6_c1[(power % 6) as int]),
        ),
{
    let k1 = t.frob6_c1[(power % 6) as int];
    let k2 = t.frob6_c2[(power % 6) as int];
    reveal(f6_nr);
    lemma_f2_frobenius_consts(t, power);
    lemma_f6_mul_by_f2(t, f6_v(), k1);
    lemma_f2_mul_zero(t, k1);
    lemma_f2_mul_zero(t, k2);
    lemma_f2_mul_one(t, k1);
}

/// The embedding of the quadratic extension respects products.
proof fn lemma_f6_from_f2_mul(t: Tower, x: F2, y: F2)
    requires
        t.wf(),
    ensures
        f6_mul(t, f6_from_f2(x), f6_from_f2(y)) == f6_from_f2(f2_mul(t, x, y)),
{
    lemma_f6_mul_by_f2(t, f6_from_f2(x), y);
    lemma_f2_mul_zero(t, y);
}

proof fn lemma_f6_mul_by_f2_add(t: Tower, x: F6, y: F6, k: F2)
    requires
        t.wf(),
    ensures
        f6_mul_by_f2(t, f6_add(t, x, y), k) == f6_add(
            t,
            f6_mul_by_f2(t, x, k),
            f6_mul_by_f2(t, y, k),
        ),
{
    reveal(f6_add);
    lemma_f2_mul_add(t, k, x.c0, y.c0);
    lemma_f2_mul_add(t, k, x.c1, y.c1);
    lemma_f2_mul_add(t, k, x.c2, y.c2);
}

proof fn lemma_f6_mul_by_f2_twice(t: Tower, x: F6, k: F2, l: F2)
    requires
        t.wf(),
    ensures
        f6_mul_by_f2(t, f6_mul_by_f2(t, x, k), l) == f6_mul_by_f2(t, x, f2_mul(t, k, l)),
{
    lemma_f2_mul_assoc(t, x.c0, k, l);
    lemma_f2_mul_assoc(t, x.c1, k, l);
    lemma_f2_mul_assoc(t, x.c2, k, l);
}

// ---------------------------------------------------------------- the tower

/// The Frobenius map respects sums.
pub proof fn law_frobenius_additive(t: Tower, a: F12, b: F12, power: nat)
    requires
        t.wf(),
    ensures
        f12_frobenius(t, f12_add(t, a, b), power) == f12_add(
            t,
            f12_frobenius(t, a, power),
            f12_frobenius(t, b, power),
        ),
{
    reveal(f12_add);
    lemma_f6_frobenius_add(t, a.c0, b.c0, power);
    lemma_f6_frobenius_add(t, a.c1, b.c1, power);
    lemma_f6_mul_by_f2_add(
        t,
        f6_frobenius(t, a.c1, power),
        f6_frobenius(t, b.c1, power),
        t.frob12[(power % 12) as int],
    );
}

/// The Frobenius map respects products, for a power whose coefficients are
/// those of such a map.
pub proof fn law_frobenius_multiplicative(t: Tower, a: F12, b: F12, power: nat)
    requires
        t.wf(),
        frobenius_multiplicative(t, power),
    ensures
        f12_frobenius(t, f12_mul(t, a, b), power) == f12_mul(
            t,
            f12_frobenius(t, a, power),
            f12_frobenius(t, b, power),
        ),
{
    let kk = t.frob12[(power % 12) as int];
    let k1 = t.frob6_c1[(power % 6) as int];
    let big = f6_from_f2(kk);
    let (x0, x1) = (f6_frobenius(t, a.c0, power), f6_frobenius(t, a.c1, power));
    let (y0, y1) = (f6_frobenius(t, b.c0, power), f6_frobenius(t, b.c1, power));
    lemma_f12_frobenius_mul_expand(t, x0, x1, y0, y1, big);
    reveal(f12_mul);
    reveal(f6_nr);
    lemma_f6_mul_by_f2(t, x1, kk);
    lemma_f6_mul_by_f2(t, y1, kk);
    lemma_f6_from_f2_mul(t, kk, kk);
    lemma_f6_frobenius_v(t, power);
    lemma_f6_frobenius_mul(t, a.c0, b.c0, power);
    lemma_f6_frobenius_mul(t, a.c0, b.c1, power);
    lemma_f6_frobenius_mul(t, a.c1, b.c0, power);
    lemma_f6_frobenius_mul(t, a.c1, b.c1, power);
    // the first half
    let m11 = f6_mul(t, a.c1, b.c1);
    lemma_f6_frobenius_mul(t, f6_v(), m11, power);
    lemma_f6_frobenius_add(t, f6_mul(t, a.c0, b.c0), f6_nr(t, m11), power);
    // the second half
    let cross = f6_add(t, f6_mul(t, a.c0, b.c1), f6_mul(t, a.c1, b.c0));
    lemma_f6_frobenius_add(t, f6_mul(t, a.c0, b.c1), f6_mul(t, a.c1, b.c0), power);
    lemma_f6_mul_by_f2(t, f6_frobenius(t, cross, power), kk);
}

/// The map of power `m` after the map of power `n` is the map of power
/// `m + n`, where the coefficients of the three powers fit together.
pub proof fn law_frobenius_compose(t: Tower, a: F12, m: nat, n: nat)
    requires
        t.wf(),
        frobenius_chain(t, m, n),
    ensures
        f12_frobenius(t, f12_frobenius(t, a, n), m) == f12_frobenius(t, a, m + n),
{
    let kn = t.frob12[(n % 12) as int];
    let km = t.frob12[(m % 12) as int];
    lemma_f6_frobenius_compose(t, a.c0, m, n);
    lemma_f6_frobenius_compose(t, a.c1, m, n);
    lemma_f6_frobenius_mul_by_f2(t, f6_frobenius(t, a.c1, n), kn, m);
    lemma_f6_mul_by_f2_twice(t, f6_frobenius(t, a.c1, m + n), f2_frobenius(t, kn, m), km);
}

/// The Frobenius map of a power whose coefficients are one is the identity;
/// so is that of power zero, where the tables begin with one.
pub proof fn law_frobenius_identity(t: Tower, a: F12, power: nat)
    requires
        t.wf(),
        a.wf(t),
        frobenius_unit(t),
        power % 12 == 0,
    ensures
        f12_frobenius(t, a, power) == a,
{
    assert(power % 2 == 0 && power % 6 == 0) by (nonlinear_arith)
        requires
            power % 12 == 0,
    ;
    lemma_f6_frobenius_unit(t, a.c0, power);
    lemma_f6_frobenius_unit(t, a.c1, power);
    lemma_f2_mul_one(t, a.c1.c0);
    lemma_f2_mul_one(t, a.c1.c1);
    lemma_f2_mul_one(t, a.c1.c2);
}

/// Applying the map of power one `steps` times is the map of power `steps`.
pub proof fn lemma_frobenius_iter(t: Tower, a: F12, steps: nat)
    requires
        t.wf(),
        a.wf(t),
        frobenius_unit(t),
        forall|n: nat| n < steps ==> #[trigger] frobenius_chain(t, 1, n),
    ensures
        f12_frobenius_iter(t, a, steps) == f12_frobenius(t, a, steps),
    decreases steps,
{
    if steps == 0 {
        law_frobenius_identity(t, a, 0);
    } else {
        let n = (steps - 1) as nat;
        lemma_frobenius_iter(t, a, n);
        assert(frobenius_chain(t, 1, n));
        law_frobenius_compose(t, a, 1, n);
    }
}

/// Twelve applications of the map of power one give the element back.
pub proof fn law_frobenius_twelve(t: Tower, a: F12)
    requires
        t.wf(),
        a.wf(t),
        frobenius_unit(t),
        forall|n: nat| n < 12 ==> #[trigger] frobenius_chain(t, 1, n),
    ensures
        f12_frobenius_iter(t, a, 12) == a,
{
    lemma_frobenius_iter(t, a, 12);
    law_frobenius_identity(t, a, 12);
}

} // verus!
