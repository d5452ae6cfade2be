use vstd::prelude::*;
use crate::tower::Tower;

verus! {

/// One instantiation of the tower: a word-sized prime, the non-residues that
/// build the extensions on it, and the Frobenius coefficient tables.
///
/// The executable accessors hand out the raw numbers; `tower` is what they
/// mean, and every contract in this crate is stated over it.
pub trait Fp12Parameters: Copy {
    /// The parameter set as mathematics.
    spec fn tower() -> Tower;

    /// The modulus fits a machine word and every constant is a residue.
    proof fn lemma_tower_wf()
        ensures
            Self::tower().wf(),
    ;

    /// The modulus of the base field.
    fn modulus() -> (m: u64)
        ensures
            m as int == Self::tower().p,
    ;

    /// `beta`, with `u² = beta`.
    fn fp2_nonresidue() -> (r: u64)
        ensures
            r as int == Self::tower().beta,
    ;

    /// `xi`, with `v³ = xi`, as its two coordinates.
    fn fp6_nonresidue() -> (r: (u64, u64))
        ensures
            r.0 as int == Self::tower().xi.c0,
            r.1 as int == Self::tower().xi.c1,
    ;

    /// Coefficient of `u` under the Frobenius map of the given power.
    fn frobenius_coeff_fp2_c1(i: usize) -> (r: u64)
        requires
            i < 2,
        ensures
            r as int == Self::tower().frob2[i as int],
    ;

    /// Coefficient of `v` under the Frobenius map of the given power.
    fn frobenius_coeff_fp6_c1(i: usize) -> (r: (u64, u64))
        requires
            i < 6,
        ensures
            r.0 as int == Self::tower().frob6_c1[i as int].c0,
            r.1 as int == Self::tower().frob6_c1[i as int].c1,
    ;

    /// Coefficient of `v²` under the Frobenius map of the given power.
    fn frobenius_coeff_fp6_c2(i: usize) -> (r: (u64, u64))
        requires
            i < 6,
        ensures
            r.0 as int == Self::tower().frob6_c2[i as int].c0,
            r.1 as int == Self::tower().frob6_c2[i as int].c1,
    ;

    /// Coefficient of `w` under the Frobenius map of the given power.
    fn frobenius_coeff_fp12_c1(i: usize) -> (r: (u64, u64))
        requires
            i < 12,
        ensures
            r.0 as int == Self::tower().frob12[i as int].c0,
            r.1 as int == Self::tower().frob12[i as int].c1,
    ;
}

} // verus!
