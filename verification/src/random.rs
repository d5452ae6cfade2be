use vstd::prelude::*;
use vstd::bytes::{spec_u64_from_le_bytes, u64_from_le_bytes};
use vstd::slice::slice_subrange;
use crate::params::Fp12Parameters;
use crate::tower::{F2, F6, F12, Tower};
use crate::fp::Fp;
use crate::fp2::Fp2;
use crate::fp6::Fp6;
use crate::fp12::Fp12;
use crate::codec::fp_flag_mask;

verus! {

/// The first eight bytes, with zeros where there are fewer.
pub open spec fn padded_word(bytes: Seq<u8>) -> Seq<u8> {
    Seq::new(
        8,
        |i: int|
            if i < bytes.len() {
                bytes[i]
            } else {
                0u8
            },
    )
}

/// A residue from arbitrary bytes: the first eight as a word, its spare
/// bits taken off as flags; nothing where the word is not below the
/// modulus.
pub open spec fn fp_from_random_bytes(p: int, bytes: Seq<u8>) -> Option<(int, u8)> {
    let word = padded_word(bytes);
    let mask = fp_flag_mask(p);
    let w = spec_u64_from_le_bytes(word.update(7, word[7] & !mask));
    if w < p {
        Some((w as int, word[7] & mask))
    } else {
        None
    }
}

/// The first half of the bytes gives `c0`, the second `c1` and the flags.
pub open spec fn f2_from_random_bytes(t: Tower, bytes: Seq<u8>) -> Option<(F2, u8)> {
    let split = bytes.len() / 2;
    match fp_from_random_bytes(t.p, bytes.take(split as int)) {
        None => None,
        Some((c0, _)) => match fp_from_random_bytes(t.p, bytes.skip(split as int)) {
            None => None,
            Some((c1, flags)) => Some((F2 { c0, c1 }, flags)),
        },
    }
}

/// The three thirds of the bytes give the three coordinates, the last with
/// the flags.
pub open spec fn f6_from_random_bytes(t: Tower, bytes: Seq<u8>) -> Option<(F6, u8)> {
    let split = bytes.len() / 3;
    match f2_from_random_bytes(t, bytes.take(split as int)) {
        None => None,
        Some((c0, _)) => match f2_from_random_bytes(t, bytes.subrange(split as int, 2 * split as int)) {
            None => None,
            Some((c1, _)) => match f2_from_random_bytes(t, bytes.skip(2 * split as int)) {
                None => None,
                Some((c2, flags)) => Some((F6 { c0, c1, c2 }, flags)),
            },
        },
    }
}

/// The first half of the bytes gives `c0`, the second `c1` and the flags.
pub open spec fn f12_from_random_bytes(t: Tower, bytes: Seq<u8>) -> Option<(F12, u8)> {
    let split = bytes.len() / 2;
    match f6_from_random_bytes(t, bytes.take(split as int)) {
        None => None,
        Some((c0, _)) => match f6_from_random_bytes(t, bytes.skip(split as int)) {
            None => None,
            Some((c1, flags)) => Some((F12 { c0, c1 }, flags)),
        },
    }
}

impl<P: Fp12Parameters> Fp<P> {
    /// An element and flags from arbitrary bytes, each coordinate from its share
    /// of them; nothing where a word is not below the modulus.
    pub fn from_random_bytes_with_flags(bytes: &[u8]) -> (r: Option<(Self, u8)>)
        ensures
            match r {
                Some((x, flags)) => fp_from_random_bytes(P::tower().p, bytes@) == Some(
                    (x@, flags),
                ),
                None => fp_from_random_bytes(P::tower().p, bytes@) is None,
            },
    {
        let mut word: Vec<u8> = Vec::new();
        let mut i: usize = 0;
        while i < 8
            invariant
                i <= 8,
                word@.len() == i,
                forall|k: int| 0 <= k < i ==> word@[k] == padded_word(bytes@)[k],
            decreases 8 - i,
        {
            let b: u8 = if i < bytes.len() {
                bytes[i]
            } else {
                0
            };
            word.push(b);
            i = i + 1;
        }
        assert(word@ == padded_word(bytes@));
        let mask = Self::flag_mask();
        let last: u8 = word[7];
        word.set(7, last & !mask);
        let w = u64_from_le_bytes(word.as_slice());
        match Fp::<P>::from_canonical(w) {
            Some(x) => Some((x, last & mask)),
            None => None,
        }
    }
}

impl<P: Fp12Parameters> Fp2<P> {
    /// An element and flags from arbitrary bytes, each coordinate from its share
    /// of them; nothing where a word is not below the modulus.
    pub fn from_random_bytes_with_flags(bytes: &[u8]) -> (r: Option<(Self, u8)>)
        ensures
            match r {
                Some((x, flags)) => f2_from_random_bytes(P::tower(), bytes@) == Some((x@, flags)),
                None => f2_from_random_bytes(P::tower(), bytes@) is None,
            },
    {
        let split = bytes.len() / 2;
        proof {
            assert(bytes@.subrange(0, split as int) == bytes@.take(split as int));
            assert(bytes@.subrange(split as int, bytes@.len() as int) == bytes@.skip(
                split as int,
            ));
        }
        let c0 = match Fp::<P>::from_random_bytes_with_flags(slice_subrange(bytes, 0, split)) {
            Some((x, _)) => x,
            None => {
                return None;
            },
        };
        match Fp::<P>::from_random_bytes_with_flags(slice_subrange(bytes, split, bytes.len())) {
            Some((c1, flags)) => Some((Fp2 { c0, c1 }, flags)),
            None => None,
        }
    }
}

impl<P: Fp12Parameters> Fp6<P> {
    /// An element and flags from arbitrary bytes, each coordinate from its share
    /// of them; nothing where a word is not below the modulus.
    pub fn from_random_bytes_with_flags(bytes: &[u8]) -> (r: Option<(Self, u8)>)
        ensures
            match r {
                Some((x, flags)) => f6_from_random_bytes(P::tower(), bytes@) == Some((x@, flags)),
                None => f6_from_random_bytes(P::tower(), bytes@) is None,
            },
    {
        let split = bytes.len() / 3;
        proof {
            assert(bytes@.subrange(0, split as int) == bytes@.take(split as int));
            assert(bytes@.subrange(2 * split, bytes@.len() as int) == bytes@.skip(2 * split));
        }
        let c0 = match Fp2::<P>::from_random_bytes_with_flags(slice_subrange(bytes, 0, split)) {
            Some((x, _)) => x,
            None => {
                return None;
            },
        };
        let c1 = match Fp2::<P>::from_random_bytes_with_flags(
            slice_subrange(bytes, split, 2 * split),
        ) {
            Some((x, _)) => x,
            None => {
                return None;
            },
        };
        match Fp2::<P>::from_random_bytes_with_flags(
            slice_subrange(bytes, 2 * split, bytes.len()),
        ) {
            Some((c2, flags)) => Some((Fp6 { c0, c1, c2 }, flags)),
            None => None,
        }
    }
}

impl<P: Fp12Parameters> Fp12<P> {
    /// An element and flags from arbitrary bytes: the first half of the
    /// bytes gives `c0`, the second `c1` and the flags; nothing where a
    /// word is not below the modulus.
    pub fn from_random_bytes_with_flags(bytes: &[u8]) -> (r: Option<(Self, u8)>)
        ensures
            match r {
                Some((x, flags)) => f12_from_random_bytes(P::tower(), bytes@) == Some(
                    (x@, flags),
                ),
                None => f12_from_random_bytes(P::tower(), bytes@) is None,
            },
    {
        let split_at = bytes.len() / 2;
        proof {
            assert(bytes@.subrange(0, split_at as int) == bytes@.take(split_at as int));
            assert(bytes@.subrange(split_at as int, bytes@.len() as int) == bytes@.skip(
                split_at as int,
            ));
        }
        if let Some((c0, _)) = Fp6::<P>::from_random_bytes_with_flags(
            slice_subrange(bytes, 0, split_at),
        ) {
            if let Some((c1, flags)) = Fp6::<P>::from_random_bytes_with_flags(
                slice_subrange(bytes, split_at, bytes.len()),
            ) {
                return Some((Fp12::new(c0, c1), flags));
            }
        }
        None
    }

    /// An element from arbitrary bytes, the flags dropped.
    pub fn from_random_bytes(bytes: &[u8]) -> (r: Option<Self>)
        ensures
            match r {
                Some(x) => f12_from_random_bytes(P::tower(), bytes@) is Some
                    && f12_from_random_bytes(P::tower(), bytes@).unwrap().0 == x@,
                None => f12_from_random_bytes(P::tower(), bytes@) is None,
            },
    {
        match Self::from_random_bytes_with_flags(bytes) {
            Some((x, _)) => Some(x),
            None => None,
        }
    }
}

} // verus!
