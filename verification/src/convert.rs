use vstd::prelude::*;
use crate::params::Fp12Parameters;
use crate::fp::Fp;
use crate::fp12::Fp12;
use crate::alg_fp12::f12_from_int;

verus! {

impl<P: Fp12Parameters> From<u128> for Fp12<P> {
    /// The integer as an element of the base field, the other coordinates
    /// zero.
    fn from(other: u128) -> (r: Self)
        ensures
            r@ == f12_from_int(P::tower(), other as int),
    {
        Fp12::from_base_prime_field(Fp::from_u128(other))
    }
}

impl<P: Fp12Parameters> vstd::std_specs::convert::FromSpecImpl<u128> for Fp12<P> {
    open spec fn obeys_from_spec() -> bool {
        true
    }

    open spec fn from_spec(other: u128) -> Self {
        Fp12::spec_from_fp(Fp::residue(other as int))
    }
}

impl<P: Fp12Parameters> From<u64> for Fp12<P> {
    /// The integer as an element of the base field, the other coordinates
    /// zero.
    fn from(other: u64) -> (r: Self)
        ensures
            r@ == f12_from_int(P::tower(), other as int),
    {
        Fp12::from_base_prime_field(Fp::new(other))
    }
}

impl<P: Fp12Parameters> vstd::std_specs::convert::FromSpecImpl<u64> for Fp12<P> {
    open spec fn obeys_from_spec() -> bool {
        true
    }

    open spec fn from_spec(other: u64) -> Self {
        Fp12::spec_from_fp(Fp::residue(other as int))
    }
}

impl<P: Fp12Parameters> From<u32> for Fp12<P> {
    /// The integer as an element of the base field, the other coordinates
    /// zero.
    fn from(other: u32) -> (r: Self)
        ensures
            r@ == f12_from_int(P::tower(), other as int),
    {
        Fp12::from_base_prime_field(Fp::new(other as u64))
    }
}

impl<P: Fp12Parameters> vstd::std_specs::convert::FromSpecImpl<u32> for Fp12<P> {
    open spec fn obeys_from_spec() -> bool {
        true
    }

    open spec fn from_spec(other: u32) -> Self {
        Fp12::spec_from_fp(Fp::residue(other as int))
    }
}

impl<P: Fp12Parameters> From<u16> for Fp12<P> {
    /// The integer as an element of the base field, the other coordinates
    /// zero.
    fn from(other: u16) -> (r: Self)
        ensures
            r@ == f12_from_int(P::tower(), other as int),
    {
        Fp12::from_base_prime_field(Fp::new(other as u64))
    }
}

impl<P: Fp12Parameters> vstd::std_specs::convert::FromSpecImpl<u16> for Fp12<P> {
    open spec fn obeys_from_spec() -> bool {
        true
    }

    open spec fn from_spec(other: u16) -> Self {
        Fp12::spec_from_fp(Fp::residue(other as int))
    }
}

impl<P: Fp12Parameters> From<u8> for Fp12<P> {
    /// The integer as an element of the base field, the other coordinates
    /// zero.
    fn from(other: u8) -> (r: Self)
        ensures
            r@ == f12_from_int(P::tower(), other as int),
    {
        Fp12::from_base_prime_field(Fp::new(other as u64))
    }
}

impl<P: Fp12Parameters> vstd::std_specs::convert::FromSpecImpl<u8> for Fp12<P> {
    open spec fn obeys_from_spec() -> bool {
        true
    }

    open spec fn from_spec(other: u8) -> Self {
        Fp12::spec_from_fp(Fp::residue(other as int))
    }
}

} // verus!
