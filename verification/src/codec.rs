use vstd::prelude::*;
use vstd::bytes::{
    spec_u64_to_le_bytes, spec_u64_from_le_bytes, u64_to_le_bytes, u64_from_le_bytes,
    lemma_auto_spec_u64_to_from_le_bytes, spec_u64_to_le_bytes_to_open,
};
use vstd::slice::{slice_subrange, slice_to_vec};
use crate::params::Fp12Parameters;
use crate::tower::{F2, F6, F12, Tower};
use crate::fp::Fp;
use crate::fp2::Fp2;
use crate::fp6::Fp6;
use crate::fp12::Fp12;

verus! {

/// Why a byte string is no encoding, or why an element with flags has none.
#[derive(Clone, Copy, Debug, PartialEq, Eq)]
pub enum CodecError {
    /// Fewer than eight bytes are left for the coordinate of this index.
    UnexpectedEnd { coordinate: usize },
    /// The word of the coordinate of this index is not below the modulus.
    NotCanonical { coordinate: usize },
    /// The flags use bits of the last byte that residues need.
    FlagsDoNotFit,
}

/// Whether an encoding may come compressed. Elements of the tower have one
/// encoding, so either choice gives the same bytes.
#[derive(Clone, Copy, Debug, PartialEq, Eq)]
pub enum Compress {
    Yes,
    No,
}

/// Whether a decoded element is to be checked further. Every decoded element
/// is valid, so either choice gives the same result.
#[derive(Clone, Copy, Debug, PartialEq, Eq)]
pub enum Validate {
    Yes,
    No,
}

/// The same error, for a coordinate `k` places further on.
pub open spec fn err_shift(e: CodecError, k: usize) -> CodecError {
    match e {
        CodecError::UnexpectedEnd { coordinate } => CodecError::UnexpectedEnd {
            coordinate: (coordinate + k) as usize,
        },
        CodecError::NotCanonical { coordinate } => CodecError::NotCanonical {
            coordinate: (coordinate + k) as usize,
        },
        CodecError::FlagsDoNotFit => CodecError::FlagsDoNotFit,
    }
}

/// The error names no coordinate, or one below `n`.
pub open spec fn err_below(e: CodecError, n: usize) -> bool {
    match e {
        CodecError::UnexpectedEnd { coordinate } => coordinate < n,
        CodecError::NotCanonical { coordinate } => coordinate < n,
        CodecError::FlagsDoNotFit => true,
    }
}

impl CodecError {
    fn shifted(self, k: usize) -> (r: Self)
        requires
            k <= 12,
            err_below(self, 12),
        ensures
            r == err_shift(self, k),
    {
        match self {
            CodecError::UnexpectedEnd { coordinate } => CodecError::UnexpectedEnd {
                coordinate: coordinate + k,
            },
            CodecError::NotCanonical { coordinate } => CodecError::NotCanonical {
                coordinate: coordinate + k,
            },
            CodecError::FlagsDoNotFit => CodecError::FlagsDoNotFit,
        }
    }
}

/// The high bits of a byte that lie above every bit of `top`.
pub open spec fn spare_bits(top: u8) -> u8 {
    if top == 0 {
        0xffu8
    } else if top < 2 {
        0xfeu8
    } else if top < 4 {
        0xfcu8
    } else if top < 8 {
        0xf8u8
    } else if top < 16 {
        0xf0u8
    } else if top < 32 {
        0xe0u8
    } else if top < 64 {
        0xc0u8
    } else if top < 128 {
        0x80u8
    } else {
        0u8
    }
}

/// The bits of the last byte of a word that no residue uses: there the
/// flags of an encoding go.
pub open spec fn fp_flag_mask(p: int) -> u8 {
    spare_bits(((((p - 1) as u64) >> 56) & 0xff) as u8)
}

/// The eight bytes of the residue, least significant first, with the flags
/// set in the last.
pub open spec fn fp_encode(v: int, flags: u8) -> Seq<u8> {
    let b = spec_u64_to_le_bytes(v as u64);
    b.update(7, b[7] | flags)
}

/// Reads one residue from the front of `bytes`. Where `flagged`, the spare
/// bits of the last byte are flags and are handed back; where not, they
/// belong to the word.
pub open spec fn fp_decode(p: int, bytes: Seq<u8>, flagged: bool) -> Result<(int, u8), CodecError> {
    if bytes.len() < 8 {
        Err(CodecError::UnexpectedEnd { coordinate: 0 })
    } else {
        let mask = if flagged {
            fp_flag_mask(p)
        } else {
            0u8
        };
        let w = spec_u64_from_le_bytes(bytes.take(8).update(7, bytes[7] & !mask));
        if w < p {
            Ok((w as int, bytes[7] & mask))
        } else {
            Err(CodecError::NotCanonical { coordinate: 0 })
        }
    }
}

/// The encodings of the coordinates in order, the flags with the last.
pub open spec fn f2_encode(a: F2, flags: u8) -> Seq<u8> {
    fp_encode(a.c0, 0) + fp_encode(a.c1, flags)
}

/// Reads the coordinates in order, the last with flags where `flagged`; the
/// error is that of the first coordinate that fails.
pub open spec fn f2_decode(t: Tower, bytes: Seq<u8>, flagged: bool) -> Result<(F2, u8), CodecError> {
    match fp_decode(t.p, bytes, false) {
        Err(e) => Err(e),
        Ok((c0, _)) => match fp_decode(t.p, bytes.skip(8), flagged) {
            Err(e) => Err(err_shift(e, 1)),
            Ok((c1, flags)) => Ok((F2 { c0, c1 }, flags)),
        },
    }
}

/// The encodings of the coordinates in order, the flags with the last.
pub open spec fn f6_encode(a: F6, flags: u8) -> Seq<u8> {
    f2_encode(a.c0, 0) + f2_encode(a.c1, 0) + f2_encode(a.c2, flags)
}

/// Reads the coordinates in order, the last with flags where `flagged`; the
/// error is that of the first coordinate that fails.
pub open spec fn f6_decode(t: Tower, bytes: Seq<u8>, flagged: bool) -> Result<(F6, u8), CodecError> {
    match f2_decode(t, bytes, false) {
        Err(e) => Err(e),
        Ok((c0, _)) => match f2_decode(t, bytes.skip(16), false) {
            Err(e) => Err(err_shift(e, 2)),
            Ok((c1, _)) => match f2_decode(t, bytes.skip(32), flagged) {
                Err(e) => Err(err_shift(e, 4)),
                Ok((c2, flags)) => Ok((F6 { c0, c1, c2 }, flags)),
            },
        },
    }
}

/// The encoding of an element of the tower: its twelve residues in order,
/// the first half without flags, the flags in the last byte of the second.
pub open spec fn f12_encode(a: F12, flags: u8) -> Seq<u8> {
    f6_encode(a.c0, 0) + f6_encode(a.c1, flags)
}

/// Reads one element from the front of `bytes`: the exact inverse of
/// `f12_encode`, with the error of the first coordinate that fails.
pub open spec fn f12_decode(t: Tower, bytes: Seq<u8>, flagged: bool) -> Result<(F12, u8), CodecError> {
    match f6_decode(t, bytes, false) {
        Err(e) => Err(e),
        Ok((c0, _)) => match f6_decode(t, bytes.skip(48), flagged) {
            Err(e) => Err(err_shift(e, 6)),
            Ok((c1, flags)) => Ok((F12 { c0, c1 }, flags)),
        },
    }
}

/// The flags fit beside every residue.
pub open spec fn flags_fit(p: int, flags: u8) -> bool {
    flags & !fp_flag_mask(p) == 0
}

proof fn lemma_top_byte(x: u64, y: u64)
    requires
        x <= y,
    ensures
        (x >> 56) & 0xff <= (y >> 56) & 0xff,
        (x >> 56) & 0xff < 256,
{
    assert((x >> 56) & 0xff <= (y >> 56) & 0xff && (x >> 56) & 0xff < 256) by (bit_vector)
        requires
            x <= y,
    ;
}

proof fn lemma_spare_bits(low: u8, top: u8, flags: u8)
    requires
        low <= top,
        flags & !spare_bits(top) == 0,
    ensures
        (low | flags) & spare_bits(top) == flags,
        (low | flags) & !spare_bits(top) == low,
{
    let m = spare_bits(top);
    assert((low | flags) & m == flags && (low | flags) & !m == low) by (bit_vector)
        requires
            low <= top,
            flags & !m == 0,
            (top == 0 && m == 0xffu8) || (0 < top < 2 && m == 0xfeu8) || (2 <= top < 4 && m
                == 0xfcu8) || (4 <= top < 8 && m == 0xf8u8) || (8 <= top < 16 && m == 0xf0u8) || (16
                <= top < 32 && m == 0xe0u8) || (32 <= top < 64 && m == 0xc0u8) || (64 <= top < 128
                && m == 0x80u8) || (128 <= top && m == 0u8),
    ;
}

/// Decoding undoes encoding, whatever follows the eight bytes.
pub proof fn lemma_fp_round_trip(p: int, v: int, flags: u8, flagged: bool, rest: Seq<u8>)
    requires
        2 <= p <= u64::MAX,
        0 <= v < p,
        if flagged {
            flags_fit(p, flags)
        } else {
            flags == 0
        },
    ensures
        fp_decode(p, fp_encode(v, flags) + rest, flagged) == Ok::<(int, u8), CodecError>(
            (v, flags),
        ),
        fp_encode(v, flags).len() == 8,
{
    let x = v as u64;
    let b = spec_u64_to_le_bytes(x);
    lemma_auto_spec_u64_to_from_le_bytes();
    spec_u64_to_le_bytes_to_open(x);
    let bytes = fp_encode(v, flags) + rest;
    let low = b[7];
    assert(low == ((x >> 56) & 0xff) as u8);
    lemma_top_byte(x, (p - 1) as u64);
    lemma_top_byte((p - 1) as u64, (p - 1) as u64);
    let top = ((((p - 1) as u64) >> 56) & 0xff) as u8;
    let mask = if flagged {
        spare_bits(top)
    } else {
        0u8
    };
    if flagged {
        lemma_spare_bits(low, top, flags);
    } else {
        assert((low | 0u8) & 0u8 == 0u8 && (low | 0u8) & !0u8 == low) by (bit_vector);
    }
    assert(bytes[7] == low | flags);
    assert(bytes.take(8).update(7, bytes[7] & !mask) == b);
}

/// Decoding undoes encoding, whatever follows the sixteen bytes.
pub proof fn lemma_f2_round_trip(t: Tower, a: F2, flags: u8, flagged: bool, rest: Seq<u8>)
    requires
        t.wf(),
        a.wf(t),
        if flagged {
            flags_fit(t.p, flags)
        } else {
            flags == 0
        },
    ensures
        f2_decode(t, f2_encode(a, flags) + rest, flagged) == Ok::<(F2, u8), CodecError>(
            (a, flags),
        ),
        f2_encode(a, flags).len() == 16,
{
    let tail = fp_encode(a.c1, flags) + rest;
    lemma_fp_round_trip(t.p, a.c0, 0, false, tail);
    lemma_fp_round_trip(t.p, a.c1, flags, flagged, rest);
    let bytes = f2_encode(a, flags) + rest;
    assert(bytes == fp_encode(a.c0, 0) + tail);
    assert(bytes.skip(8) == tail);
}

/// Decoding undoes encoding, whatever follows the forty-eight bytes.
pub proof fn lemma_f6_round_trip(t: Tower, a: F6, flags: u8, flagged: bool, rest: Seq<u8>)
    requires
        t.wf(),
        a.wf(t),
        if flagged {
            flags_fit(t.p, flags)
        } else {
            flags == 0
        },
    ensures
        f6_decode(t, f6_encode(a, flags) + rest, flagged) == Ok::<(F6, u8), CodecError>(
            (a, flags),
        ),
        f6_encode(a, flags).len() == 48,
{
    let tail2 = f2_encode(a.c2, flags) + rest;
    let tail1 = f2_encode(a.c1, 0) + tail2;
    lemma_f2_round_trip(t, a.c0, 0, false, tail1);
    lemma_f2_round_trip(t, a.c1, 0, false, tail2);
    lemma_f2_round_trip(t, a.c2, flags, flagged, rest);
    let bytes = f6_encode(a, flags) + rest;
    assert(bytes == f2_encode(a.c0, 0) + tail1);
    assert(bytes.skip(16) == tail1);
    assert(bytes.skip(32) == tail2);
}

/// Decoding undoes encoding, whatever follows the ninety-six bytes; and the
/// encoding is twice as long as that of either half.
pub proof fn lemma_f12_round_trip(t: Tower, a: F12, flags: u8, flagged: bool, rest: Seq<u8>)
    requires
        t.wf(),
        a.wf(t),
        if flagged {
            flags_fit(t.p, flags)
        } else {
            flags == 0
        },
    ensures
        f12_decode(t, f12_encode(a, flags) + rest, flagged) == Ok::<(F12, u8), CodecError>(
            (a, flags),
        ),
        f12_encode(a, flags).len() == 96,
        f12_encode(a, flags).len() == 2 * f6_encode(a.c0, 0).len(),
{
    let tail = f6_encode(a.c1, flags) + rest;
    lemma_f6_round_trip(t, a.c0, 0, false, tail);
    lemma_f6_round_trip(t, a.c1, flags, flagged, rest);
    let bytes = f12_encode(a, flags) + rest;
    assert(bytes == f6_encode(a.c0, 0) + tail);
    assert(bytes.skip(48) == tail);
}

impl<P: Fp12Parameters> Fp<P> {
    /// The bits of the last byte of an encoding that are free for flags.
    pub fn flag_mask() -> (mask: u8)
        ensures
            mask == fp_flag_mask(P::tower().p),
    {
        proof {
            P::lemma_tower_wf();
        }
        let m: u64 = P::modulus();
        let top: u8 = (((m - 1) >> 56) & 0xff) as u8;
        if top == 0 {
            0xff
        } else if top < 2 {
            0xfe
        } else if top < 4 {
            0xfc
        } else if top < 8 {
            0xf8
        } else if top < 16 {
            0xf0
        } else if top < 32 {
            0xe0
        } else if top < 64 {
            0xc0
        } else if top < 128 {
            0x80
        } else {
            0
        }
    }

    /// The encodings of the coordinates in order, the flags in the spare bits of
    /// the last byte.
    pub fn encode(&self, flags: u8) -> (r: Vec<u8>)
        ensures
            r@ == fp_encode(self@, flags),
            r@.len() == 8,
    {
        let mut b = u64_to_le_bytes(self.to_u64());
        let last: u8 = b[7];
        b.set(7, last | flags);
        b
    }

    /// Reads the coordinates in order from the front of `bytes`, the last with
    /// flags where `flagged`.
    pub fn decode(bytes: &[u8], flagged: bool) -> (r: Result<(Self, u8), CodecError>)
        ensures
            match r {
                Ok((x, flags)) => fp_decode(P::tower().p, bytes@, flagged) == Ok::<
                    (int, u8),
                    CodecError,
                >((x@, flags)) && bytes@.len() >= 8,
                Err(e) => fp_decode(P::tower().p, bytes@, flagged) == Err::<(int, u8), CodecError>(
                    e,
                ) && err_below(e, 1),
            },
    {
        if bytes.len() < 8 {
            return Err(CodecError::UnexpectedEnd { coordinate: 0 });
        }
        let mask: u8 = if flagged {
            Self::flag_mask()
        } else {
            0
        };
        let mut word = slice_to_vec(slice_subrange(bytes, 0, 8));
        let last: u8 = word[7];
        word.set(7, last & !mask);
        let w = u64_from_le_bytes(word.as_slice());
        proof {
            assert(bytes@.subrange(0, 8) == bytes@.take(8));
        }
        match Fp::<P>::from_canonical(w) {
            Some(x) => Ok((x, last & mask)),
            None => Err(CodecError::NotCanonical { coordinate: 0 }),
        }
    }
}

impl<P: Fp12Parameters> Fp2<P> {
    /// The encodings of the coordinates in order, the flags in the spare bits of
    /// the last byte.
    pub fn encode(&self, flags: u8) -> (r: Vec<u8>)
        ensures
            r@ == f2_encode(self@, flags),
            r@.len() == 16,
    {
        let mut r = self.c0.encode(0);
        let mut s = self.c1.encode(flags);
        r.append(&mut s);
        r
    }

    /// Reads the coordinates in order from the front of `bytes`, the last with
    /// flags where `flagged`.
    pub fn decode(bytes: &[u8], flagged: bool) -> (r: Result<(Self, u8), CodecError>)
        ensures
            match r {
                Ok((x, flags)) => f2_decode(P::tower(), bytes@, flagged) == Ok::<
                    (F2, u8),
                    CodecError,
                >((x@, flags)) && bytes@.len() >= 16,
                Err(e) => f2_decode(P::tower(), bytes@, flagged) == Err::<(F2, u8), CodecError>(e)
                    && err_below(e, 2),
            },
    {
        let c0 = match Fp::<P>::decode(bytes, false) {
            Ok((x, _)) => x,
            Err(e) => {
                return Err(e);
            },
        };
        let rest = slice_subrange(bytes, 8, bytes.len());
        proof {
            assert(bytes@.subrange(8, bytes@.len() as int) == bytes@.skip(8));
        }
        match Fp::<P>::decode(rest, flagged) {
            Ok((c1, flags)) => Ok((Fp2 { c0, c1 }, flags)),
            Err(e) => Err(e.shifted(1)),
        }
    }
}

impl<P: Fp12Parameters> Fp6<P> {
    /// The encodings of the coordinates in order, the flags in the spare bits of
    /// the last byte.
    pub fn encode(&self, flags: u8) -> (r: Vec<u8>)
        ensures
            r@ == f6_encode(self@, flags),
            r@.len() == 48,
    {
        let mut r = self.c0.encode(0);
        let mut s = self.c1.encode(0);
        let mut u = self.c2.encode(flags);
        r.append(&mut s);
        r.append(&mut u);
        r
    }

    /// Reads the coordinates in order from the front of `bytes`, the last with
    /// flags where `flagged`.
    pub fn decode(bytes: &[u8], flagged: bool) -> (r: Result<(Self, u8), CodecError>)
        ensures
            match r {
                Ok((x, flags)) => f6_decode(P::tower(), bytes@, flagged) == Ok::<
                    (F6, u8),
                    CodecError,
                >((x@, flags)) && bytes@.len() >= 48,
                Err(e) => f6_decode(P::tower(), bytes@, flagged) == Err::<(F6, u8), CodecError>(e)
                    && err_below(e, 6),
            },
    {
        let c0 = match Fp2::<P>::decode(bytes, false) {
            Ok((x, _)) => x,
            Err(e) => {
                return Err(e);
            },
        };
        let rest1 = slice_subrange(bytes, 16, bytes.len());
        proof {
            assert(bytes@.subrange(16, bytes@.len() as int) == bytes@.skip(16));
        }
        let c1 = match Fp2::<P>::decode(rest1, false) {
            Ok((x, _)) => x,
            Err(e) => {
                return Err(e.shifted(2));
            },
        };
        let rest2 = slice_subrange(bytes, 32, bytes.len());
        proof {
            assert(bytes@.subrange(32, bytes@.len() as int) == bytes@.skip(32));
        }
        match Fp2::<P>::decode(rest2, flagged) {
            Ok((c2, flags)) => Ok((Fp6 { c0, c1, c2 }, flags)),
            Err(e) => Err(e.shifted(4)),
        }
    }
}

impl<P: Fp12Parameters> Fp12<P> {
    /// The twelve residues as bytes, eight each, least significant first.
    pub fn to_bytes_le(&self) -> (r: Vec<u8>)
        ensures
            r@ == f12_encode(self@, 0),
            r@.len() == 96,
    {
        let mut r = self.c0.encode(0);
        let mut s = self.c1.encode(0);
        r.append(&mut s);
        r
    }

    /// Reads an element from the first ninety-six bytes.
    pub fn from_bytes_le(bytes: &[u8]) -> (r: Result<Self, CodecError>)
        ensures
            match r {
                Ok(x) => f12_decode(P::tower(), bytes@, false) == Ok::<(F12, u8), CodecError>(
                    (x@, 0u8),
                ),
                Err(e) => f12_decode(P::tower(), bytes@, false) == Err::<(F12, u8), CodecError>(e),
            },
    {
        match Self::decode(bytes, false) {
            Ok((x, flags)) => {
                proof {
                    Self::lemma_plain_has_no_flags(bytes@);
                }
                Ok(x)
            },
            Err(e) => Err(e),
        }
    }

    /// The canonical encoding with flags: `c0` without flags, then `c1`
    /// carrying the flags in the spare bits of its last byte. Flags that
    /// need other bits are refused.
    pub fn serialize_with_flags(&self, flags: u8) -> (r: Result<Vec<u8>, CodecError>)
        ensures
            match r {
                Ok(bytes) => flags_fit(P::tower().p, flags) && bytes@ == f12_encode(self@, flags)
                    && bytes@.len() == 96,
                Err(e) => !flags_fit(P::tower().p, flags) && e == CodecError::FlagsDoNotFit,
            },
    {
        let mask = Fp::<P>::flag_mask();
        if flags & !mask != 0 {
            return Err(CodecError::FlagsDoNotFit);
        }
        let mut r = self.c0.encode(0);
        let mut s = self.c1.encode(flags);
        r.append(&mut s);
        Ok(r)
    }

    /// The length of the encoding with flags.
    pub fn serialized_size_with_flags(&self) -> (n: usize)
        ensures
            n == 96,
            forall|flags: u8| n == #[trigger] f12_encode(self@, flags).len(),
    {
        proof {
            assert forall|flags: u8| 96 == #[trigger] f12_encode(self@, flags).len() by {
                Self::lemma_encode_len(self@, flags);
            }
        }
        96
    }

    /// The canonical encoding without flags.
    pub fn serialize_with_mode(&self, compress: Compress) -> (r: Vec<u8>)
        ensures
            r@ == f12_encode(self@, 0),
            r@.len() == 96,
    {
        self.to_bytes_le()
    }

    /// The length of the encoding without flags.
    pub fn serialized_size(&self, compress: Compress) -> (n: usize)
        ensures
            n == 96,
            n == f12_encode(self@, 0).len(),
    {
        proof {
            Self::lemma_encode_len(self@, 0);
        }
        96
    }

    /// Reads an element and its flags: the exact inverse of
    /// `serialize_with_flags`.
    pub fn deserialize_with_flags(bytes: &[u8]) -> (r: Result<(Self, u8), CodecError>)
        ensures
            match r {
                Ok((x, flags)) => f12_decode(P::tower(), bytes@, true) == Ok::<
                    (F12, u8),
                    CodecError,
                >((x@, flags)),
                Err(e) => f12_decode(P::tower(), bytes@, true) == Err::<(F12, u8), CodecError>(e),
            },
    {
        Self::decode(bytes, true)
    }

    /// Reads an element encoded without flags.
    pub fn deserialize_with_mode(bytes: &[u8], compress: Compress, validate: Validate) -> (r:
        Result<Self, CodecError>)
        ensures
            match r {
                Ok(x) => f12_decode(P::tower(), bytes@, false) == Ok::<(F12, u8), CodecError>(
                    (x@, 0u8),
                ),
                Err(e) => f12_decode(P::tower(), bytes@, false) == Err::<(F12, u8), CodecError>(e),
            },
    {
        Self::from_bytes_le(bytes)
    }

    /// Every element is valid: there is nothing to check.
    pub fn check(&self) -> (r: Result<(), CodecError>)
        ensures
            r is Ok,
    {
        Ok(())
    }

    /// Every element is valid: there is nothing to check.
    pub fn batch_check(batch: &[Self]) -> (r: Result<(), CodecError>)
        ensures
            r is Ok,
    {
        Ok(())
    }

    fn decode(bytes: &[u8], flagged: bool) -> (r: Result<(Self, u8), CodecError>)
        ensures
            match r {
                Ok((x, flags)) => f12_decode(P::tower(), bytes@, flagged) == Ok::<
                    (F12, u8),
                    CodecError,
                >((x@, flags)) && bytes@.len() >= 96,
                Err(e) => f12_decode(P::tower(), bytes@, flagged) == Err::<(F12, u8), CodecError>(
                    e,
                ) && err_below(e, 12),
            },
    {
        let c0 = match Fp6::<P>::decode(bytes, false) {
            Ok((x, _)) => x,
            Err(e) => {
                return Err(e);
            },
        };
        let rest = slice_subrange(bytes, 48, bytes.len());
        proof {
            assert(bytes@.subrange(48, bytes@.len() as int) == bytes@.skip(48));
        }
        match Fp6::<P>::decode(rest, flagged) {
            Ok((c1, flags)) => Ok((Fp12 { c0, c1 }, flags)),
            Err(e) => Err(e.shifted(6)),
        }
    }

    proof fn lemma_encode_len(a: F12, flags: u8)
        ensures
            f12_encode(a, flags).len() == 96,
    {
        lemma_auto_spec_u64_to_from_le_bytes();
    }

    /// Read without flags, an encoding yields no flags.
    proof fn lemma_plain_has_no_flags(bytes: Seq<u8>)
        ensures
            match f12_decode(P::tower(), bytes, false) {
                Ok((_, flags)) => flags == 0,
                Err(_) => true,
            },
    {
        assert forall|b: u8| b & 0u8 == 0u8 by {
            assert(b & 0u8 == 0u8) by (bit_vector);
        }
    }
}

} // verus!
