//! The request context built from a verified credential, and the permission
//! check every mutating operation runs against it.

use vstd::prelude::*;
use vstd::string::*;

use crate::error::Error;
use crate::identity::{same_identity, Identity};
use crate::jwt::{authorize_at, header_verdict, header_view, unix_now_seconds};
use crate::role::Role;
use crate::text::{is_visible_ascii, visible_ascii};

verus! {

/// The authenticated caller of one request.
pub struct Context {
    pub user_id: Identity,
    pub user_role: Role,
}

/// The decision table of the permission check: an admin-only action needs
/// the admin role; an action on an owned resource needs the owner or an
/// admin; an action with no single owner needs an admin.
pub open spec fn permitted(ctx: Context, owner: Option<Identity>, require_admin: bool) -> bool {
    if require_admin {
        ctx.user_role == Role::Admin
    } else {
        match owner {
            Some(o) => same_identity(ctx.user_id, o) || ctx.user_role == Role::Admin,
            None => ctx.user_role == Role::Admin,
        }
    }
}

/// The context that a header verdict `v` yields: the caller it names, or an
/// unauthorized-user error whatever the cause.
pub open spec fn context_from(v: Result<(Identity, Role), Error>, r: Result<Context, Error>) -> bool {
    match v {
        Ok((id, role)) => r is Ok && same_identity(r->Ok_0.user_id, id) && r->Ok_0.user_role == role,
        Err(_) => r is Err && r->Err_0 is ServerUnauthorizedUser,
    }
}

/// The text a refused action is reported with.
pub open spec fn denial_text() -> Seq<char> {
    "Could not perform action(s)"@
}

/// `r` is the refusal of an action: a permission-denied error with the
/// denial text.
pub open spec fn denied(r: Result<(), Error>) -> bool {
    r is Err && r->Err_0 is ServerPermissionDenied && r->Err_0->ServerPermissionDenied_0@ == denial_text()
}

/// What building the context of a request from its `Authorization` header
/// value (`None` when absent) at instant `now` returns: an unauthorized-user
/// error for an absent or empty value or one holding anything but visible
/// ASCII, and otherwise the context that the header's verdict yields.
pub open spec fn context_verdict(header: Option<Seq<char>>, secret: Seq<u8>, now: u64, r: Result<Context, Error>) -> bool {
    match header {
        Some(h) => if h.len() == 0 || !visible_ascii(h) {
            r is Err && r->Err_0 is ServerUnauthorizedUser
        } else {
            exists|v: Result<(Identity, Role), Error>|
                header_verdict(Some(h), secret, now, v) && #[trigger] context_from(v, r)
        },
        None => r is Err && r->Err_0 is ServerUnauthorizedUser,
    }
}

/// The optional `Option<&Identity>`, as a value.
pub open spec fn owner_view(owner: Option<&Identity>) -> Option<Identity> {
    match owner {
        Some(o) => Some(*o),
        None => None,
    }
}

impl Context {
    /// Decides whether the caller may act on a resource owned by `owner`
    /// (`None`: a resource with no single owner), or on an admin-only one when
    /// `require_admin` holds. Refusal is a permission-denied error.
    pub fn check_permission(&self, owner: Option<&Identity>, require_admin: bool) -> (r: Result<(), Error>)
        ensures
            r is Ok <==> permitted(*self, owner_view(owner), require_admin),
            r is Err ==> denied(r),
            require_admin ==> (r is Ok <==> self.user_role == Role::Admin),
            !require_admin && owner is Some ==> (r is Ok <==> (same_identity(self.user_id, *owner->Some_0)
                || self.user_role == Role::Admin)),
            !require_admin && owner is None ==> (r is Ok <==> self.user_role == Role::Admin),
            r is Err ==> r->Err_0 is ServerPermissionDenied,
    {
        let is_admin = match self.user_role {
            Role::Admin => true,
            Role::User => false,
        };
        let allowed = if require_admin {
            is_admin
        } else {
            match owner {
                Some(o) => is_admin || self.user_id.same_as(o),
                None => is_admin,
            }
        };
        if allowed {
            Ok(())
        } else {
            Err(Error::ServerPermissionDenied(String::from_str("Could not perform action(s)")))
        }
    }

    /// Decides whether the caller may act on a resource owned by `id`
    /// (`None`: a resource with no single owner).
    pub fn check_permissions(&self, id: Option<Identity>) -> (r: Result<(), Error>)
        ensures
            r is Ok <==> permitted(*self, id, false),
            r is Err ==> denied(r),
    {
        match &id {
            Some(o) => self.check_permission(Some(o), false),
            None => self.check_permission(None, false),
        }
    }

    /// Builds the context of a request from its `Authorization` header value
    /// (`None` when absent) at instant `now`. An absent or empty header, one
    /// that is not visible ASCII, and every verification failure, are
    /// answered as an unauthorized user.
    pub fn from_header_at(header: Option<&str>, secret: &[u8], now: u64) -> (r: Result<Context, Error>)
        ensures
            context_verdict(header_view(header), secret@, now, r),
    {
        match header {
            None => Err(Error::ServerUnauthorizedUser),
            Some(h) => {
                if h.unicode_len() == 0 || !is_visible_ascii(h) {
                    return Err(Error::ServerUnauthorizedUser);
                }
                let v = authorize_at(header, secret, now);
                let ghost gv = v;
                let r = match v {
                    Ok((id, role)) => Ok(Context { user_id: id, user_role: role }),
                    Err(_) => Err(Error::ServerUnauthorizedUser),
                };
                assert(context_from(gv, r));
                r
            },
        }
    }

    /// Builds the context of a request from its `Authorization` header value
    /// at the current time.
    pub fn from_header(header: Option<&str>, secret: &[u8]) -> (r: Result<Context, Error>)
        ensures
            exists|now: u64| #[trigger] context_verdict(header_view(header), secret@, now, r),
    {
        let now = unix_now_seconds();
        Context::from_header_at(header, secret, now)
    }
}

} // verus!
