use vstd::prelude::*;

verus! {

/// An element `c0 + c1·u` of the quadratic extension, `u² = beta`.
pub struct F2 {
    pub c0: int,
    pub c1: int,
}

/// An element `c0 + c1·v + c2·v²` of the cubic extension, `v³ = xi`.
pub struct F6 {
    pub c0: F2,
    pub c1: F2,
    pub c2: F2,
}

/// An element `c0 + c1·w` of the degree-twelve extension, `w² = v`.
pub struct F12 {
    pub c0: F6,
    pub c1: F6,
}

/// The numbers that fix one tower: the prime, the two non-residues and the
/// Frobenius coefficient tables.
pub struct Tower {
    /// The modulus of the base field.
    pub p: int,
    /// `u² = beta` in the quadratic extension.
    pub beta: int,
    /// `v³ = xi` in the cubic extension.
    pub xi: F2,
    /// Twists the `u` coefficient under Frobenius; indexed by `power mod 2`.
    pub frob2: Seq<int>,
    /// Twists the `v` coefficient under Frobenius; indexed by `power mod 6`.
    pub frob6_c1: Seq<F2>,
    /// Twists the `v²` coefficient under Frobenius; indexed by `power mod 6`.
    pub frob6_c2: Seq<F2>,
    /// Twists the `w` coefficient under Frobenius; indexed by `power mod 12`.
    pub frob12: Seq<F2>,
}

impl F2 {
    /// Both coordinates are least non-negative residues.
    pub open spec fn wf(self, t: Tower) -> bool {
        &&& 0 <= self.c0 < t.p
        &&& 0 <= self.c1 < t.p
    }
}

impl F6 {
    /// Every coordinate is well formed.
    pub open spec fn wf(self, t: Tower) -> bool {
        &&& self.c0.wf(t)
        &&& self.c1.wf(t)
        &&& self.c2.wf(t)
    }
}

impl F12 {
    /// Every coordinate is well formed.
    pub open spec fn wf(self, t: Tower) -> bool {
        &&& self.c0.wf(t)
        &&& self.c1.wf(t)
    }
}

impl Tower {
    /// The modulus fits a machine word and every constant is reduced.
    pub open spec fn wf(self) -> bool {
        &&& 2 <= self.p <= u64::MAX
        &&& 0 <= self.beta < self.p
        &&& self.xi.wf(self)
        &&& self.frob2.len() == 2
        &&& self.frob6_c1.len() == 6
        &&& self.frob6_c2.len() == 6
        &&& self.frob12.len() == 12
        &&& forall|i: int| 0 <= i < 2 ==> 0 <= #[trigger] self.frob2[i] < self.p
        &&& forall|i: int| 0 <= i < 6 ==> (#[trigger] self.frob6_c1[i]).wf(self)
        &&& forall|i: int| 0 <= i < 6 ==> (#[trigger] self.frob6_c2[i]).wf(self)
        &&& forall|i: int| 0 <= i < 12 ==> (#[trigger] self.frob12[i]).wf(self)
    }
}

} // verus!
