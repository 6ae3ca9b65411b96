//! Access control for the administrative routes.
//!
//! An admin request carries `Authorization: Bearer <token>`. The token is first
//! checked against the identity provider (Authentik), whose answer lists the
//! user's groups: membership of the admin group grants access. When the
//! provider does not recognise the token, a token signed by this backend is
//! accepted for a user whose role in the database is `admin` or `superadmin`.
//! The network call, the token decoding and the database lookup are made by the
//! application; the rules here decide what their answers mean.
use vstd::prelude::*;
use crate::text::{chars_of, has_prefix, slice_chars, starts_with, str_equal, string_from_chars};

verus! {

/// The claims that the identity provider's userinfo endpoint answers with.
#[derive(Debug, Clone)]
pub struct AuthentikClaims {
    pub sub: String,
    pub email: Option<String>,
    pub name: Option<String>,
    pub groups: Option<Vec<String>>,
}

/// The admin middleware.
pub struct AdminMiddleware;

impl AdminMiddleware {
    pub fn new() -> (r: Self) {
        AdminMiddleware
    }
}

/// The admin middleware wrapped around a service.
pub struct AdminMiddlewareService<S> {
    pub service: S,
}

impl<S> AdminMiddlewareService<S> {
    pub fn wrap(service: S) -> (r: Self)
        ensures
            r.service == service,
    {
        AdminMiddlewareService { service }
    }
}

/// The group whose members are administrators when none is configured.
pub open spec fn default_admin_group() -> Seq<char> {
    "quiz-admins"@
}

/// The admin group: the configured one, or `quiz-admins`.
pub fn admin_group(configured: Option<String>) -> (r: String)
    ensures
        configured matches Some(g) ==> r == g,
        configured is None ==> r@ == default_admin_group(),
{
    match configured {
        Some(g) => g,
        None => {
            let v = chars_of("quiz-admins");
            string_from_chars(v.as_slice())
        },
    }
}

/// The bearer token of an `Authorization` header's text, if it has one.
pub fn admin_bearer_token(header_text: Option<&str>) -> (r: Option<String>)
    ensures
        header_text is None ==> r is None,
        header_text matches Some(t) ==> (if has_prefix(t@, "Bearer "@) {
            r matches Some(tok) && tok@ == t@.subrange("Bearer "@.len() as int, t@.len() as int)
        } else {
            r is None
        }),
{
    match header_text {
        None => None,
        Some(t) => {
            let tv = chars_of(t);
            let prefix = chars_of("Bearer ");
            if starts_with(tv.as_slice(), prefix.as_slice()) {
                let tok = slice_chars(tv.as_slice(), prefix.len(), tv.len());
                Some(string_from_chars(tok.as_slice()))
            } else {
                None
            }
        },
    }
}

/// The characters of the `i`-th string of a sequence.
pub open spec fn string_view_at(s: Seq<String>, i: int) -> Seq<char> {
    s[i]@
}

/// Whether the claims list `group` among the user's groups.
pub open spec fn in_group(claims: AuthentikClaims, group: Seq<char>) -> bool {
    match claims.groups {
        Some(gs) => exists|i: int| 0 <= i < gs.len() && #[trigger] string_view_at(gs@, i) == group,
        None => false,
    }
}

/// Whether the identity provider's claims make the user an administrator:
/// the admin group is among the user's groups.
pub fn is_admin_member(claims: &AuthentikClaims, group: &str) -> (r: bool)
    ensures
        r == in_group(*claims, group@),
{
    match &claims.groups {
        None => false,
        Some(gs) => {
            let mut i: usize = 0;
            while i < gs.len()
                invariant
                    i <= gs@.len(),
                    claims.groups == Some(*gs),
                    forall|j: int| 0 <= j < i ==> #[trigger] string_view_at(gs@, j) != group@,
                decreases gs@.len() - i,
            {
                if str_equal(gs[i].as_str(), group) {
                    assert(string_view_at(gs@, i as int) == group@);
                    assert(claims.groups is Some);
                    assert(claims.groups->0 == *gs);
                    assert(claims.groups->0@ == gs@);
                    return true;
                }
                i = i + 1;
            }
            false
        },
    }
}

/// Whether a role stored in the database is an administrator's role.
pub open spec fn is_admin_role_spec(role: Seq<char>) -> bool {
    role == "admin"@ || role == "superadmin"@
}

/// The answer of the database to "which role has this user?": `Some(Some(r))`
/// when the user exists with role `r`. The user is an administrator exactly
/// when the role is `admin` or `superadmin`.
pub fn check_admin_role(lookup: Option<Option<String>>) -> (r: bool)
    ensures
        r == (lookup matches Some(Some(role)) && is_admin_role_spec(role@)),
{
    match lookup {
        Some(Some(role)) => str_equal(role.as_str(), "admin") || str_equal(
            role.as_str(),
            "superadmin",
        ),
        _ => false,
    }
}

/// Why an admin request was refused.
#[derive(Debug, Clone, Copy, PartialEq, Eq)]
pub enum AdminRejection {
    /// No bearer token: status 401.
    Unauthenticated,
    /// Authenticated, but not an administrator: status 403.
    NotInAdminGroup,
    /// Authenticated by a token of this backend, but not an administrator: 403.
    NotAdminRole,
    /// No check accepted the token: status 401.
    InvalidToken,
}

impl AdminRejection {
    /// The HTTP status of the refusal.
    pub fn status(&self) -> (r: u16)
        ensures
            r == match self {
                AdminRejection::Unauthenticated => 401u16,
                AdminRejection::NotInAdminGroup => 403u16,
                AdminRejection::NotAdminRole => 403u16,
                AdminRejection::InvalidToken => 401u16,
            },
    {
        match self {
            AdminRejection::Unauthenticated => 401,
            AdminRejection::NotInAdminGroup => 403,
            AdminRejection::NotAdminRole => 403,
            AdminRejection::InvalidToken => 401,
        }
    }

    /// The `error` field of the refusal's JSON body.
    pub fn error_code(&self) -> (r: &'static str)
        ensures
            r@ == match self {
                AdminRejection::Unauthenticated => "unauthenticated"@,
                AdminRejection::NotInAdminGroup => "insufficient_permissions"@,
                AdminRejection::NotAdminRole => "insufficient_permissions"@,
                AdminRejection::InvalidToken => "invalid_token"@,
            },
    {
        match self {
            AdminRejection::Unauthenticated => "unauthenticated",
            AdminRejection::NotInAdminGroup => "insufficient_permissions",
            AdminRejection::NotAdminRole => "insufficient_permissions",
            AdminRejection::InvalidToken => "invalid_token",
        }
    }

    /// The `message` field of the refusal's JSON body.
    pub fn message(&self) -> (r: &'static str)
        ensures
            r@ == match self {
                AdminRejection::Unauthenticated =>
                    "Authorization header required for admin access."@,
                AdminRejection::NotInAdminGroup => "Admin group membership required."@,
                AdminRejection::NotAdminRole => "You don't have admin permissions."@,
                AdminRejection::InvalidToken => "Invalid or expired token."@,
            },
    {
        match self {
            AdminRejection::Unauthenticated => "Authorization header required for admin access.",
            AdminRejection::NotInAdminGroup => "Admin group membership required.",
            AdminRejection::NotAdminRole => "You don't have admin permissions.",
            AdminRejection::InvalidToken => "Invalid or expired token.",
        }
    }
}

/// The decision on an admin request once the identity provider has answered
/// with claims: members of the admin group pass as the claims' subject, anyone
/// else is refused.
pub fn decide_with_claims(claims: &AuthentikClaims, group: &str) -> (r: Result<String, AdminRejection>)
    ensures
        in_group(*claims, group@) ==> r == Ok::<String, AdminRejection>(claims.sub),
        !in_group(*claims, group@) ==> r == Err::<String, AdminRejection>(
            AdminRejection::NotInAdminGroup,
        ),
{
    if is_admin_member(claims, group) {
        Ok(claims.sub.clone())
    } else {
        Err(AdminRejection::NotInAdminGroup)
    }
}

/// The decision on an admin request by the fallback check: `subject` is the
/// subject of a token of this backend that decoded, if one did, and `lookup`
/// the database's answer for that subject (`Err(())` when the lookup failed).
/// A confirmed administrator passes, a user confirmed not to be one is refused
/// with 403, and everything else is refused as an invalid token.
pub fn decide_fallback(
    subject: Option<String>,
    lookup: Result<Option<Option<String>>, ()>,
) -> (r: Result<String, AdminRejection>)
    ensures
        subject is None ==> r == Err::<String, AdminRejection>(AdminRejection::InvalidToken),
        subject matches Some(s) ==> match lookup {
            Ok(l) => if (l matches Some(Some(role)) && is_admin_role_spec(role@)) {
                r == Ok::<String, AdminRejection>(s)
            } else {
                r == Err::<String, AdminRejection>(AdminRejection::NotAdminRole)
            },
            Err(_) => r == Err::<String, AdminRejection>(AdminRejection::InvalidToken),
        },
{
    match subject {
        None => Err(AdminRejection::InvalidToken),
        Some(s) => match lookup {
            Ok(l) => {
                if check_admin_role(l) {
                    Ok(s)
                } else {
                    Err(AdminRejection::NotAdminRole)
                }
            },
            Err(_) => Err(AdminRejection::InvalidToken),
        },
    }
}

} // verus!
