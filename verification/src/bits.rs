use vstd::prelude::*;
use vstd::arithmetic::power2::{pow2, lemma_pow2_unfold, lemma2_to64};
use snarkvm_utilities::bititerator::BitIteratorBE;
use crate::params::Fp12Parameters;
use crate::tower::{F2, F6, F12};
use crate::fp::Fp;
use crate::fp2::Fp2;
use crate::fp6::Fp6;
use crate::fp12::Fp12;

verus! {

/// Bit `i` of the number whose 64-bit limbs are `limbs`, least significant
/// limb first.
pub open spec fn limb_bit(limbs: Seq<u64>, i: int) -> bool {
    limbs[i / 64] & (1u64 << ((i % 64) as u64)) > 0
}

/// The bits of `limbs`, most significant first.
pub open spec fn bits_be_of(limbs: Seq<u64>) -> Seq<bool> {
    Seq::new(64 * limbs.len(), |k: int| limb_bit(limbs, 64 * limbs.len() - 1 - k))
}

/// The number that a sequence of bits spells, most significant bit first.
pub open spec fn bits_value(bits: Seq<bool>) -> nat
    decreases bits.len(),
{
    if bits.len() == 0 {
        0
    } else {
        2 * bits_value(bits.drop_last()) + if bits.last() {
            1nat
        } else {
            0nat
        }
    }
}

/// The number whose 64-bit limbs are `limbs`, least significant limb first.
pub open spec fn limbs_value(limbs: Seq<u64>) -> nat
    decreases limbs.len(),
{
    if limbs.len() == 0 {
        0
    } else {
        limbs_value(limbs.drop_last()) + limbs.last() as nat * pow2(
            (64 * (limbs.len() - 1)) as nat,
        )
    }
}

/// Calls `snarkvm_utilities::bititerator::BitIteratorBE::new` and collects
/// what it yields. The iterator starts at bit `64·len - 1` and counts down
/// to bit 0; for bit `n` it yields `limbs[n / 64] & (1 << (n % 64)) > 0`.
/// The contract says exactly that of the collected bits. `new` computes
/// `64·len` in a `usize`, so that product must fit.
#[verifier::external_body]
pub(crate) fn bits_be(limbs: &[u64]) -> (bits: Vec<bool>)
    requires
        64 * limbs@.len() <= usize::MAX,
    ensures
        bits@.len() == 64 * limbs@.len(),
        forall|k: int|
            0 <= k < bits@.len() ==> bits@[k] == limb_bit(limbs@, 64 * limbs@.len() - 1 - k),
{
    BitIteratorBE::new(limbs).collect()
}

/// One more bit on the right doubles the value and adds the bit.
pub proof fn lemma_bits_value_step(bits: Seq<bool>, i: int)
    requires
        0 <= i < bits.len(),
    ensures
        bits_value(bits.take(i + 1)) == 2 * bits_value(bits.take(i)) + if bits[i] {
            1nat
        } else {
            0nat
        },
{
    assert(bits.take(i + 1).drop_last() == bits.take(i));
}

/// Bits written after others shift them up.
pub proof fn lemma_bits_value_concat(x: Seq<bool>, y: Seq<bool>)
    ensures
        bits_value(x + y) == bits_value(x) * pow2(y.len()) + bits_value(y),
    decreases y.len(),
{
    if y.len() == 0 {
        assert(x + y == x);
        assert(pow2(0) == 1) by {
            lemma2_to64();
        }
        assert(bits_value(x) * 1 == bits_value(x)) by (nonlinear_arith);
    } else {
        let z = y.drop_last();
        assert((x + y).drop_last() == x + z);
        lemma_bits_value_concat(x, z);
        lemma_pow2_unfold(y.len());
        assert(bits_value(x) * (2 * pow2(z.len())) == 2 * (bits_value(x) * pow2(z.len())))
            by (nonlinear_arith);
    }
}

/// The first `m` bits of a word spell the word shifted down to them.
proof fn lemma_word_bits_prefix(w: u64, m: nat)
    requires
        1 <= m <= 64,
    ensures
        bits_value(word_bits_be(w).take(m as int)) == (w >> ((64 - m) as u64)) as nat,
    decreases m,
{
    let bits = word_bits_be(w);
    let s: u64 = (64 - m) as u64;
    lemma_bits_value_step(bits, m - 1);
    assert(bits[m - 1] == word_bit(w, s as int));
    if m == 1 {
        assert(bits.take(0).len() == 0);
        assert((w >> 63) == (if w & (1u64 << 63) > 0 {
            1u64
        } else {
            0u64
        })) by (bit_vector);
    } else {
        lemma_word_bits_prefix(w, (m - 1) as nat);
        let s1: u64 = (s + 1) as u64;
        assert((w >> s) == 2 * (w >> s1) + (if w & (1u64 << s) > 0 {
            1u64
        } else {
            0u64
        })) by (bit_vector)
            requires
                s1 == s + 1,
                s < 63,
        ;
    }
}

/// The bits of a word spell the word.
pub proof fn lemma_word_bits_value(w: u64)
    ensures
        bits_value(word_bits_be(w)) == w as nat,
{
    lemma_word_bits_prefix(w, 64);
    assert(word_bits_be(w).take(64) == word_bits_be(w));
    assert(w >> 0 == w) by (bit_vector);
}

/// The bits of a number spell it: the value of `bits_be_of(limbs)` is the
/// sum of the limbs, limb `i` weighted by `2^(64·i)`.
pub proof fn lemma_limbs_value(limbs: Seq<u64>)
    ensures
        bits_value(bits_be_of(limbs)) == limbs_value(limbs),
    decreases limbs.len(),
{
    if limbs.len() == 0 {
        assert(bits_be_of(limbs).len() == 0);
    } else {
        let rest = limbs.drop_last();
        let top = word_bits_be(limbs.last());
        let n = limbs.len() as int;
        assert(bits_be_of(limbs) == top + bits_be_of(rest)) by {
            assert forall|k: int| 0 <= k < 64 * n implies bits_be_of(limbs)[k] == (top
                + bits_be_of(rest))[k] by {
                let i = 64 * n - 1 - k;
                if k < 64 {
                    assert(i / 64 == n - 1 && i % 64 == 63 - k);
                } else {
                    assert(i / 64 < n - 1);
                    assert(rest[i / 64] == limbs[i / 64]);
                    assert(i == 64 * (n - 1) - 1 - (k - 64));
                }
            }
        }
        lemma_bits_value_concat(top, bits_be_of(rest));
        lemma_word_bits_value(limbs.last());
        lemma_limbs_value(rest);
    }
}

/// Bit `i` of a word.
pub open spec fn word_bit(w: u64, i: int) -> bool {
    w & (1u64 << (i as u64)) > 0
}

/// The 64 bits of a residue, least significant first.
pub open spec fn fp_bits_le(v: int) -> Seq<bool> {
    Seq::new(64, |i: int| word_bit(v as u64, i))
}

/// The 64 bits of a word, most significant first.
pub open spec fn word_bits_be(w: u64) -> Seq<bool> {
    Seq::new(64, |i: int| word_bit(w, 63 - i))
}

/// The 64 bits of a residue, most significant first.
pub open spec fn fp_bits_be(v: int) -> Seq<bool> {
    word_bits_be(v as u64)
}

/// The bits of the coordinates in order, each residue least significant bit
/// first.
pub open spec fn f2_bits_le(a: F2) -> Seq<bool> {
    fp_bits_le(a.c0) + fp_bits_le(a.c1)
}

/// The bits of the coordinates in order, each residue most significant bit
/// first.
pub open spec fn f2_bits_be(a: F2) -> Seq<bool> {
    fp_bits_be(a.c0) + fp_bits_be(a.c1)
}

/// The bits of the coordinates in order, each residue least significant bit
/// first.
pub open spec fn f6_bits_le(a: F6) -> Seq<bool> {
    f2_bits_le(a.c0) + f2_bits_le(a.c1) + f2_bits_le(a.c2)
}

/// The bits of the coordinates in order, each residue most significant bit
/// first.
pub open spec fn f6_bits_be(a: F6) -> Seq<bool> {
    f2_bits_be(a.c0) + f2_bits_be(a.c1) + f2_bits_be(a.c2)
}

/// The bits of `c0`, then those of `c1`, each residue least significant
/// bit first.
pub open spec fn f12_bits_le(a: F12) -> Seq<bool> {
    f6_bits_le(a.c0) + f6_bits_le(a.c1)
}

/// The bits of `c0`, then those of `c1`, each residue most significant
/// bit first.
pub open spec fn f12_bits_be(a: F12) -> Seq<bool> {
    f6_bits_be(a.c0) + f6_bits_be(a.c1)
}

impl<P: Fp12Parameters> Fp<P> {
    /// The bits of the coordinates in order, each residue least significant bit
    /// first.
    pub fn to_bits_le(&self) -> (r: Vec<bool>)
        ensures
            r@ == fp_bits_le(self@),
    {
        let w = self.to_u64();
        let mut r: Vec<bool> = Vec::new();
        let mut i: u64 = 0;
        while i < 64
            invariant
                i <= 64,
                w as int == self@,
                r@.len() == i,
                forall|k: int| 0 <= k < i ==> r@[k] == word_bit(w, k),
            decreases 64 - i,
        {
            r.push(w & (1u64 << i) > 0);
            i = i + 1;
        }
        assert(r@ == fp_bits_le(self@));
        r
    }

    /// The bits of the coordinates in order, each residue most significant bit
    /// first.
    pub fn to_bits_be(&self) -> (r: Vec<bool>)
        ensures
            r@ == fp_bits_be(self@),
    {
        let w = self.to_u64();
        let mut r: Vec<bool> = Vec::new();
        let mut i: u64 = 0;
        while i < 64
            invariant
                i <= 64,
                w as int == self@,
                r@.len() == i,
                forall|k: int| 0 <= k < i ==> r@[k] == word_bit(w, 63 - k),
            decreases 64 - i,
        {
            r.push(w & (1u64 << (63 - i)) > 0);
            i = i + 1;
        }
        assert(r@ == fp_bits_be(self@));
        r
    }
}

impl<P: Fp12Parameters> Fp2<P> {
    /// The bits of the coordinates in order, each residue least significant bit
    /// first.
    pub fn to_bits_le(&self) -> (r: Vec<bool>)
        ensures
            r@ == f2_bits_le(self@),
    {
        let mut r = self.c0.to_bits_le();
        let mut s = self.c1.to_bits_le();
        r.append(&mut s);
        r
    }

    /// The bits of the coordinates in order, each residue most significant bit
    /// first.
    pub fn to_bits_be(&self) -> (r: Vec<bool>)
        ensures
            r@ == f2_bits_be(self@),
    {
        let mut r = self.c0.to_bits_be();
        let mut s = self.c1.to_bits_be();
        r.append(&mut s);
        r
    }
}

impl<P: Fp12Parameters> Fp6<P> {
    /// The bits of the coordinates in order, each residue least significant bit
    /// first.
    pub fn to_bits_le(&self) -> (r: Vec<bool>)
        ensures
            r@ == f6_bits_le(self@),
    {
        let mut r = self.c0.to_bits_le();
        let mut s = self.c1.to_bits_le();
        let mut u = self.c2.to_bits_le();
        r.append(&mut s);
        r.append(&mut u);
        r
    }

    /// The bits of the coordinates in order, each residue most significant bit
    /// first.
    pub fn to_bits_be(&self) -> (r: Vec<bool>)
        ensures
            r@ == f6_bits_be(self@),
    {
        let mut r = self.c0.to_bits_be();
        let mut s = self.c1.to_bits_be();
        let mut u = self.c2.to_bits_be();
        r.append(&mut s);
        r.append(&mut u);
        r
    }
}

impl<P: Fp12Parameters> Fp12<P> {
    /// The bits of `c0`, then those of `c1`, each residue least
    /// significant bit first.
    pub fn to_bits_le(&self) -> (r: Vec<bool>)
        ensures
            r@ == f12_bits_le(self@),
    {
        let mut r = self.c0.to_bits_le();
        let mut s = self.c1.to_bits_le();
        r.append(&mut s);
        r
    }

    /// The bits of `c0`, then those of `c1`, each residue most significant
    /// bit first.
    pub fn to_bits_be(&self) -> (r: Vec<bool>)
        ensures
            r@ == f12_bits_be(self@),
    {
        let mut r = self.c0.to_bits_be();
        let mut s = self.c1.to_bits_be();
        r.append(&mut s);
        r
    }
}

} // verus!
