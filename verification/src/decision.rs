//! The outcome of a permission request, and the structured result handed
//! back to the invoking tool.

use vstd::prelude::*;

verus! {

/// The operator's decision on a permission request.
///
/// `AlwaysAllow` is a meta-decision: it resolves the current request as
/// an approval and additionally asks for the tool to be put on the
/// persistent allow-list. At the outward boundary it is always reported
/// as plain "allow".
#[derive(Debug, Clone, Copy, PartialEq, Eq, Structural)]
pub enum Decision {
    Allow,
    Deny,
    AlwaysAllow,
}

impl Decision {
    /// The behavior string reported at the outward boundary: `"allow"`
    /// for `Allow` and `AlwaysAllow`, `"deny"` for `Deny`.
    pub fn to_behavior(self) -> (r: &'static str)
        ensures
            r@ == self.behavior_spec(),
    {
        match self {
            Decision::Allow | Decision::AlwaysAllow => "allow",
            Decision::Deny => "deny",
        }
    }

    /// What `to_behavior` returns.
    pub open spec fn behavior_spec(self) -> Seq<char> {
        match self {
            Decision::Deny => "deny"@,
            _ => "allow"@,
        }
    }
}

} // verus!
