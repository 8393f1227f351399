//! The coarse privilege level carried by a token.

use vstd::prelude::*;
use vstd::string::*;

use crate::text::same_text;

verus! {

/// Privilege level attached to an identity when its token is issued.
#[derive(Clone, Copy, Debug, PartialEq, Eq, Structural)]
pub enum Role {
    User,
    Admin,
}

/// The name under which a role travels inside a token.
pub open spec fn role_name(r: Role) -> Seq<char> {
    match r {
        Role::User => seq!['U', 's', 'e', 'r'],
        Role::Admin => seq!['A', 'd', 'm', 'i', 'n'],
    }
}

/// The role whose name is exactly `s`, if any.
pub open spec fn role_named(s: Seq<char>) -> Option<Role> {
    if s == role_name(Role::Admin) {
        Some(Role::Admin)
    } else if s == role_name(Role::User) {
        Some(Role::User)
    } else {
        None
    }
}

/// Reading a role's own name gives the role back.
pub proof fn lemma_role_name_round_trip(r: Role)
    ensures
        role_named(role_name(r)) == Some(r),
{
    assert(role_name(Role::User) != role_name(Role::Admin)) by {
        assert(role_name(Role::User).len() != role_name(Role::Admin).len());
    }
}

impl Role {
    /// Reads a role name: only the exact names `"User"` and `"Admin"` are
    /// accepted; any other text is rejected.
    pub fn from_str(role: &str) -> (r: Option<Role>)
        ensures
            r == role_named(role@),
    {
        if same_text(role, Role::Admin.name().as_str()) {
            Some(Role::Admin)
        } else if same_text(role, Role::User.name().as_str()) {
            Some(Role::User)
        } else {
            None
        }
    }

    /// The role's name, as written into tokens.
    pub fn name(&self) -> (r: String)
        ensures
            r@ == role_name(*self),
    {
        match self {
            Role::User => {
                let s = String::from_str("User");
                proof {
                    reveal_strlit("User");
                }
                assert(s@ =~= role_name(Role::User));
                s
            },
            Role::Admin => {
                let s = String::from_str("Admin");
                proof {
                    reveal_strlit("Admin");
                }
                assert(s@ =~= role_name(Role::Admin));
                s
            },
        }
    }
}

} // verus!
