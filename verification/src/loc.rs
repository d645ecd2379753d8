//! Source positions.

use vstd::prelude::*;

verus! {

/// A position in the source text.
#[derive(Clone, Copy, Debug, PartialEq, Eq, Hash, Structural)]
pub struct Loc {
    pub line: u32,
    pub col: u32,
}

impl Loc {
    /// Whether `self` comes strictly earlier in the text than `other`:
    /// on an earlier line, or on the same line in an earlier column.
    pub open spec fn spec_before(self, other: Loc) -> bool {
        self.line < other.line || (self.line == other.line && self.col < other.col)
    }

    #[verifier::when_used_as_spec(spec_before)]
    pub fn before(self, other: Loc) -> (b: bool)
        ensures
            b == self.spec_before(other),
    {
        self.line < other.line || (self.line == other.line && self.col < other.col)
    }
}

/// Two positions are either equal or one comes before the other, never both.
pub proof fn before_is_strict_total_order(a: Loc, b: Loc, c: Loc)
    ensures
        !a.before(a),
        a.before(b) && b.before(c) ==> a.before(c),
        a == b || a.before(b) || b.before(a),
        !(a.before(b) && b.before(a)),
{
}

} // verus!
