//! Block heights as IBC sees them: a revision number paired with a revision
//! height, ordered lexicographically. The pair `(0, 0)` stands for "absent".

use vstd::prelude::*;

verus! {

/// A height on a chain: `(revision_number, revision_height)`.
#[derive(Clone, Copy, Debug, PartialEq, Eq, Structural)]
pub struct Height {
    pub revision_number: u64,
    pub revision_height: u64,
}

impl Height {
    /// True when both components are zero, i.e. the height denotes "absent".
    pub open spec fn spec_is_zero(&self) -> bool {
        self.revision_number == 0 && self.revision_height == 0
    }

    /// Lexicographic order on `(revision_number, revision_height)`.
    pub open spec fn spec_lt(&self, other: &Height) -> bool {
        self.revision_number < other.revision_number
            || (self.revision_number == other.revision_number
                && self.revision_height < other.revision_height)
    }

    pub fn new(revision_number: u64, revision_height: u64) -> (r: Height)
        ensures
            r.revision_number == revision_number,
            r.revision_height == revision_height,
    {
        Height { revision_number, revision_height }
    }

    pub fn zero() -> (r: Height)
        ensures
            r.spec_is_zero(),
    {
        Height { revision_number: 0, revision_height: 0 }
    }

    #[verifier::when_used_as_spec(spec_is_zero)]
    pub fn is_zero(&self) -> (r: bool)
        ensures
            r == self.spec_is_zero(),
    {
        self.revision_number == 0 && self.revision_height == 0
    }

    /// Strictly-less-than in the lexicographic order.
    #[verifier::when_used_as_spec(spec_lt)]
    pub fn lt(&self, other: &Height) -> (r: bool)
        ensures
            r == self.spec_lt(other),
    {
        self.revision_number < other.revision_number
            || (self.revision_number == other.revision_number
                && self.revision_height < other.revision_height)
    }
}

/// The order is total: of two distinct heights one is strictly below the other.
pub proof fn lemma_height_order_total(a: Height, b: Height)
    ensures
        a == b || a.spec_lt(&b) || b.spec_lt(&a),
        !(a.spec_lt(&b) && b.spec_lt(&a)),
{
}

} // verus!
