//! Permission bitmasks and the containment check that gates every route.

use vstd::prelude::*;

verus! {

/// A capability bitmask: each set bit grants one capability.
#[derive(Clone, Copy, Debug, PartialEq, Eq, Structural)]
pub struct Permissions(pub i64);

impl Permissions {
    /// A required mask applies to a held mask exactly when every required
    /// bit is also held.
    pub open spec fn applies_to_spec(self, held: Permissions) -> bool {
        self.0 & held.0 == self.0
    }

    /// Whether the capabilities required by `self` are all granted by
    /// `user_roles`.
    pub fn applies_to(self, user_roles: Permissions) -> (r: bool)
        ensures
            r == self.applies_to_spec(user_roles),
    {
        self.0 & user_roles.0 == self.0
    }
}

impl core::convert::From<i64> for Permissions {
    fn from(i: i64) -> (r: Permissions)
        ensures
            r == Permissions(i),
    {
        Permissions(i)
    }
}

impl vstd::std_specs::convert::FromSpecImpl<i64> for Permissions {
    open spec fn obeys_from_spec() -> bool {
        true
    }

    open spec fn from_spec(i: i64) -> Permissions {
        Permissions(i)
    }
}

/// A required mask applies to a held mask exactly when the held bits contain
/// the required bits: `R` applies to `H` iff `R & H == R`, equivalently iff
/// no required bit is missing from `H` (`R & !H == 0`), equivalently iff
/// adding the required bits to `H` changes nothing (`R | H == H`).
pub proof fn lemma_applies_to_is_containment(r: Permissions, h: Permissions)
    ensures
        r.applies_to_spec(h) <==> (r.0 & h.0 == r.0),
        r.applies_to_spec(h) <==> (r.0 & !h.0 == 0),
        r.applies_to_spec(h) <==> (r.0 | h.0 == h.0),
{
    let a = r.0;
    let b = h.0;
    assert((a & b == a) <==> (a & !b == 0)) by (bit_vector);
    assert((a & b == a) <==> (a | b == b)) by (bit_vector);
}

} // verus!
