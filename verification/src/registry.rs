//! Role registry: the immutable allow-list of self-assignable role names,
//! loaded once at startup and consulted as a case-insensitive membership
//! oracle. Entries are kept in their configured (lower-cased) form.

use vstd::prelude::*;

use crate::text::{lower_of, lowercase, str_eq, views_of};

verus! {

pub struct RoleRegistry {
    pub names: Vec<String>,
}

impl RoleRegistry {
    /// A name is allowed when its lower-cased form is one of the configured
    /// entries.
    pub open spec fn allows(self, name: Seq<char>) -> bool {
        views_of(self.names@).contains(lower_of(name))
    }

    pub fn new(names: Vec<String>) -> (r: RoleRegistry)
        ensures
            r.names == names,
    {
        RoleRegistry { names }
    }

    /// Case-insensitive membership test against the allow-list.
    pub fn is_public(&self, name: &str) -> (r: bool)
        ensures
            r == self.allows(name@),
    {
        let low = lowercase(name);
        let n: usize = self.names.len();
        let mut i: usize = 0;
        while i < n
            invariant
                i <= n,
                n == self.names@.len(),
                low@ == lower_of(name@),
                forall|k: int| 0 <= k < i ==> self.names@[k]@ != low@,
            decreases n - i,
        {
            if str_eq(self.names[i].as_str(), low.as_str()) {
                proof {
                    assert(views_of(self.names@)[i as int] == lower_of(name@));
                }
                return true;
            }
            i += 1;
        }
        proof {
            assert forall|k: int| 0 <= k < views_of(self.names@).len() implies views_of(
                self.names@,
            )[k] != lower_of(name@) by {
                assert(views_of(self.names@)[k] == self.names@[k]@);
            }
        }
        false
    }
}

} // verus!
