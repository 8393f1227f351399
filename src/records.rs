//! Decisions taken on records read from the database: which user an email
//! names, what role a login grants, and where a caller's like is recorded.

use vstd::prelude::*;
use vstd::string::*;

use crate::error::Error;
use crate::identity::{same_identity, Identity};
use crate::jwt::{clock_reading, create_jwt, issued_token, MAX_TTL_MINUTES};
use crate::models::User;
use crate::role::Role;

verus! {

/// The role a stored user logs in with.
pub open spec fn role_of(user: User) -> Role {
    if user.is_admin {
        Role::Admin
    } else {
        Role::User
    }
}

impl User {
    /// The role this user logs in with: `Admin` for an admin, `User` otherwise.
    pub fn role(&self) -> (r: Role)
        ensures
            r == role_of(*self),
    {
        if self.is_admin {
            Role::Admin
        } else {
            Role::User
        }
    }
}

/// Issues the login token of `user`, valid for `minutes` minutes from the
/// current time, with the role the user's record grants.
pub fn login_token(user: &User, secret: &[u8], minutes: i64) -> (r: Result<String, Error>)
    ensures
        minutes < 0 || minutes > MAX_TTL_MINUTES ==> r is Err,
        r is Err ==> minutes < 0 || exists|now: u64| now + 60 * minutes > u64::MAX && #[trigger] clock_reading(now),
        r is Ok ==> exists|now: u64|
            now + 60 * minutes <= u64::MAX
                && r->Ok_0@ == #[trigger] issued_token(user.id, role_of(*user), secret@, now, 60 * minutes),
        r is Err ==> r->Err_0 is JWTTokenCreationError,
{
    let role = user.role();
    create_jwt(&user.id, &role, secret, minutes)
}

/// The one user that a lookup by `email` returned. No user is a not-found
/// error naming the email; more than one breaks the uniqueness of emails.
pub fn user_with_email(email: &str, users: Vec<User>) -> (r: Result<User, Error>)
    ensures
        users@.len() == 0 ==> r is Err && r->Err_0 is DBCouldNotSelectRecord
            && r->Err_0->DBCouldNotSelectRecord_0@ == email@,
        users@.len() > 1 ==> r is Err && r->Err_0 is DBDuplicateUserEmail,
        users@.len() == 1 ==> r is Ok && r->Ok_0 == users@[0],
{
    if users.len() == 0 {
        return Err(Error::DBCouldNotSelectRecord(
            String::from_str(email),
            String::from_str("There's no user with such email"),
        ));
    }
    if users.len() > 1 {
        return Err(Error::DBDuplicateUserEmail);
    }
    let mut users = users;
    let user = users.remove(0);
    Ok(user)
}

/// Where `user`'s like is recorded in a record's `liked_by` list: the first
/// position holding that identity, or `None` when the list is absent or
/// does not hold it.
pub fn liked_position(liked_by: &Option<Vec<Identity>>, user: &Identity) -> (r: Option<usize>)
    ensures
        match liked_by {
            None => r is None,
            Some(ids) => match r {
                Some(i) => i < ids@.len() && same_identity(ids@[i as int], *user)
                    && forall|j: int| 0 <= j < i ==> !same_identity(#[trigger] ids@[j], *user),
                None => forall|j: int| 0 <= j < ids@.len() ==> !same_identity(#[trigger] ids@[j], *user),
            },
        },
{
    let ids = match liked_by {
        Some(ids) => ids,
        None => {
            return None;
        },
    };
    let mut i: usize = 0;
    while i < ids.len()
        invariant
            *liked_by == Some(*ids),
            i <= ids@.len(),
            forall|j: int| 0 <= j < i ==> !same_identity(#[trigger] ids@[j], *user),
        decreases ids@.len() - i,
    {
        if ids[i].same_as(user) {
            return Some(i);
        }
        i = i + 1;
    }
    None
}

} // verus!
