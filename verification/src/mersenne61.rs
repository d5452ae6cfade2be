use vstd::prelude::*;
use crate::params::Fp12Parameters;
use crate::tower::{F2, Tower};

verus! {

/// The tower over the Mersenne prime `2^61 - 1`, with `u² = -1` and
/// `v³ = 4 + u`.
#[derive(Clone, Copy, Debug, PartialEq, Eq, Hash)]
pub struct Mersenne61;

impl Mersenne61 {
    /// `beta^((p^i - 1) / 2)`.
    pub open spec fn frob2_at(i: int) -> int {
        if i == 0 {
            1
        } else {
            2305843009213693950
        }
    }

    /// `xi^((p^i - 1) / 3)`.
    pub open spec fn frob6_c1_at(i: int) -> F2 {
        if i == 0 {
            F2 { c0: 1, c1: 0 }
        } else if i == 1 {
            F2 { c0: 1776781251329465812, c1: 1930085167172986323 }
        } else if i == 2 {
            F2 { c0: 636260618972345635, c1: 0 }
        } else if i == 3 {
            F2 { c0: 2093520362388135145, c1: 1278637353010052768 }
        } else if i == 4 {
            F2 { c0: 1669582390241348315, c1: 0 }
        } else {
            F2 { c0: 741384404709786945, c1: 1402963498244348811 }
        }
    }

    /// `xi^(2(p^i - 1) / 3)`.
    pub open spec fn frob6_c2_at(i: int) -> F2 {
        if i == 0 {
            F2 { c0: 1, c1: 0 }
        } else if i == 1 {
            F2 { c0: 536495889502752323, c1: 583409437416210323 }
        } else if i == 2 {
            F2 { c0: 1669582390241348315, c1: 0 }
        } else if i == 3 {
            F2 { c0: 838598681417677834, c1: 870636647555611426 }
        } else if i == 4 {
            F2 { c0: 636260618972345635, c1: 0 }
        } else {
            F2 { c0: 930748438293263794, c1: 851796924241872202 }
        }
    }

    /// `xi^((p^i - 1) / 6)`.
    pub open spec fn frob12_at(i: int) -> F2 {
        if i == 0 {
            F2 { c0: 1, c1: 0 }
        } else if i == 1 {
            F2 { c0: 884783226220888461, c1: 433516364344364222 }
        } else if i == 2 {
            F2 { c0: 636260618972345636, c1: 0 }
        } else if i == 3 {
            F2 { c0: 1106921589666616606, c1: 1497760003622695683 }
        } else if i == 4 {
            F2 { c0: 636260618972345635, c1: 0 }
        } else if i == 5 {
            F2 { c0: 222138363445728145, c1: 1064243639278331461 }
        } else if i == 6 {
            F2 { c0: 2305843009213693950, c1: 0 }
        } else if i == 7 {
            F2 { c0: 1421059782992805490, c1: 1872326644869329729 }
        } else if i == 8 {
            F2 { c0: 1669582390241348315, c1: 0 }
        } else if i == 9 {
            F2 { c0: 1198921419547077345, c1: 808083005590998268 }
        } else if i == 10 {
            F2 { c0: 1669582390241348316, c1: 0 }
        } else {
            F2 { c0: 2083704645767965806, c1: 1241599369935362490 }
        }
    }
}

impl Fp12Parameters for Mersenne61 {
    open spec fn tower() -> Tower {
        Tower {
            p: 2305843009213693951,
            beta: 2305843009213693950,
            xi: F2 { c0: 4, c1: 1 },
            frob2: Seq::new(2, |i: int| Self::frob2_at(i)),
            frob6_c1: Seq::new(6, |i: int| Self::frob6_c1_at(i)),
            frob6_c2: Seq::new(6, |i: int| Self::frob6_c2_at(i)),
            frob12: Seq::new(12, |i: int| Self::frob12_at(i)),
        }
    }

    proof fn lemma_tower_wf() {
    }

    fn modulus() -> (m: u64) {
        2305843009213693951
    }

    fn fp2_nonresidue() -> (r: u64) {
        2305843009213693950
    }

    fn fp6_nonresidue() -> (r: (u64, u64)) {
        (4, 1)
    }

    fn frobenius_coeff_fp2_c1(i: usize) -> (r: u64) {
        match i {
            0 => 1,
            _ => 2305843009213693950,
        }
    }

    fn frobenius_coeff_fp6_c1(i: usize) -> (r: (u64, u64)) {
        match i {
            0 => (1, 0),
            1 => (1776781251329465812, 1930085167172986323),
            2 => (636260618972345635, 0),
            3 => (2093520362388135145, 1278637353010052768),
            4 => (1669582390241348315, 0),
            _ => (741384404709786945, 1402963498244348811),
        }
    }

    fn frobenius_coeff_fp6_c2(i: usize) -> (r: (u64, u64)) {
        match i {
            0 => (1, 0),
            1 => (536495889502752323, 583409437416210323),
            2 => (1669582390241348315, 0),
            3 => (838598681417677834, 870636647555611426),
            4 => (636260618972345635, 0),
            _ => (930748438293263794, 851796924241872202),
        }
    }

    fn frobenius_coeff_fp12_c1(i: usize) -> (r: (u64, u64)) {
        match i {
            0 => (1, 0),
            1 => (884783226220888461, 433516364344364222),
            2 => (636260618972345636, 0),
            3 => (1106921589666616606, 1497760003622695683),
            4 => (636260618972345635, 0),
            5 => (222138363445728145, 1064243639278331461),
            6 => (2305843009213693950, 0),
            7 => (1421059782992805490, 1872326644869329729),
            8 => (1669582390241348315, 0),
            9 => (1198921419547077345, 808083005590998268),
            10 => (1669582390241348316, 0),
            _ => (2083704645767965806, 1241599369935362490),
        }
    }
}

} // verus!
