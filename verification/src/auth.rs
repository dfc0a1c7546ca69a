//! Who makes a request.
use vstd::prelude::*;

use crate::text;

verus! {

/// The identity that a request was made under.
#[derive(Debug, Clone, PartialEq, Eq)]
pub struct AuthContext {
    /// Whether the caller is signed in.
    pub authenticated: bool,
    /// The caller, empty for an anonymous one.
    pub user_id: String,
    /// The roles that the caller holds.
    pub roles: Vec<String>,
}

impl AuthContext {
    /// The caller holds the role `role`.
    pub open spec fn holds(&self, role: Seq<char>) -> bool {
        exists|i: int| 0 <= i < self.roles@.len() && #[trigger] self.roles@[i]@ == role
    }

    /// A caller who is not signed in.
    pub fn anonymous() -> (r: AuthContext)
        ensures
            !r.authenticated,
            r.user_id@.len() == 0,
            r.roles@.len() == 0,
    {
        AuthContext { authenticated: false, user_id: String::new(), roles: Vec::new() }
    }

    /// Whether the caller holds the role `role`.
    pub fn has_role(&self, role: &str) -> (r: bool)
        ensures
            r == self.holds(role@),
    {
        let mut i: usize = 0;
        while i < self.roles.len()
            invariant
                i <= self.roles@.len(),
                forall|j: int| 0 <= j < i ==> #[trigger] self.roles@[j]@ != role@,
            decreases self.roles@.len() - i,
        {
            if text::same(self.roles[i].as_str(), role) {
                return true;
            }
            i = i + 1;
        }
        false
    }
}

} // verus!
