//! Authentication of incoming requests.
//!
//! Every request passes through this check. Requests to public routes pass
//! untouched. Any other request must carry `Authorization: Bearer <token>`;
//! the token is tried first as a token issued by this backend (Google sign-in)
//! and then as a Supabase token, which must carry the `authenticated` role.
//! The decoding of tokens is done by the application with `jsonwebtoken`; the
//! rules here decide what its outcomes mean.
use vstd::prelude::*;
use crate::text::{chars_equal, chars_of, has_prefix, starts_with, str_equal};

verus! {

/// The authenticated caller of a request, as handlers see it.
#[derive(Debug, Clone)]
pub struct AuthenticatedUser {
    pub user_id: String,
    pub email: Option<String>,
}

/// The caller of a request: present exactly when the request carries the
/// `user_id` header that authentication sets. The e-mail comes from the
/// claims of the token that authenticated the request, a Google sign-in token
/// before a Supabase one.
pub fn authenticated_user(
    user_id_header: Option<String>,
    google_email: Option<String>,
    supabase_email: Option<String>,
) -> (r: Option<AuthenticatedUser>)
    ensures
        user_id_header is None ==> r is None,
        user_id_header matches Some(id) ==> (r matches Some(u) && u.user_id == id && u.email == (
        if google_email is Some {
            google_email
        } else {
            supabase_email
        })),
{
    let email = match google_email {
        Some(e) => Some(e),
        None => supabase_email,
    };
    match user_id_header {
        Some(id) => Some(AuthenticatedUser { user_id: id, email }),
        None => None,
    }
}

/// The authentication middleware; it holds the secret that signs the tokens
/// this backend issues.
pub struct AuthMiddleware {
    pub jwt_secret: String,
}

impl AuthMiddleware {
    pub fn new(jwt_secret: String) -> (r: Self)
        ensures
            r.jwt_secret == jwt_secret,
    {
        AuthMiddleware { jwt_secret }
    }
}

/// The middleware wrapped around a service.
pub struct AuthMiddlewareService<S> {
    pub service: S,
    pub jwt_secret: String,
}

impl<S> AuthMiddlewareService<S> {
    /// Wraps `service` with the secret of `middleware`.
    pub fn wrap(middleware: &AuthMiddleware, service: S) -> (r: Self)
        ensures
            r.service == service,
            r.jwt_secret@ == middleware.jwt_secret@,
    {
        AuthMiddlewareService { service, jwt_secret: middleware.jwt_secret.clone() }
    }
}

/// The number of public routes.
pub const PUBLIC_ROUTE_COUNT: usize = 10;

/// The public routes, which need no authentication.
pub open spec fn public_route(i: int) -> Seq<char> {
    if i == 0 {
        "/signup"@
    } else if i == 1 {
        "/auth/v1/token"@
    } else if i == 2 {
        "/swagger-ui"@
    } else if i == 3 {
        "/api-docs/openapi.json"@
    } else if i == 4 {
        "/auth/google/callback"@
    } else if i == 5 {
        "/user/check-phone"@
    } else if i == 6 {
        "/user/update-phone"@
    } else if i == 7 {
        "/api/user/update-phone"@
    } else if i == 8 {
        "/payment/webhook"@
    } else {
        "/license-public"@
    }
}

fn public_route_text(i: usize) -> (r: &'static str)
    requires
        i < PUBLIC_ROUTE_COUNT,
    ensures
        r@ == public_route(i as int),
{
    if i == 0 {
        "/signup"
    } else if i == 1 {
        "/auth/v1/token"
    } else if i == 2 {
        "/swagger-ui"
    } else if i == 3 {
        "/api-docs/openapi.json"
    } else if i == 4 {
        "/auth/google/callback"
    } else if i == 5 {
        "/user/check-phone"
    } else if i == 6 {
        "/user/update-phone"
    } else if i == 7 {
        "/api/user/update-phone"
    } else if i == 8 {
        "/payment/webhook"
    } else {
        "/license-public"
    }
}

/// `path` is `route` itself or a path below it.
pub open spec fn route_matches(path: Seq<char>, route: Seq<char>) -> bool {
    path == route || has_prefix(path, route.push('/'))
}

/// `path` is a public route or lies below one.
pub open spec fn is_public_path(path: Seq<char>) -> bool {
    exists|i: int| 0 <= i < PUBLIC_ROUTE_COUNT && #[trigger] route_matches(path, public_route(i))
}

fn matches_route(path: &[char], route: &[char]) -> (r: bool)
    ensures
        r == route_matches(path@, route@),
{
    if chars_equal(path, route) {
        return true;
    }
    let pre = starts_with(path, route);
    if pre && path.len() > route.len() && path[route.len()] == '/' {
        assert(path@.subrange(0, route@.len() as int + 1) =~= route@.push('/'));
        return true;
    }
    proof {
        if has_prefix(path@, route@.push('/')) {
            let n = route@.len() as int;
            let head = path@.subrange(0, n + 1);
            assert(head == route@.push('/'));
            assert(path@.subrange(0, n) =~= head.subrange(0, n));
            assert(head.subrange(0, n) =~= route@);
            assert(has_prefix(path@, route@));
            assert(path@[n] == head[n]);
        }
    }
    false
}

/// Whether a request path needs no authentication.
pub fn is_public_route(path: &str) -> (r: bool)
    ensures
        r == is_public_path(path@),
{
    let p = chars_of(path);
    let mut i: usize = 0;
    while i < PUBLIC_ROUTE_COUNT
        invariant
            i <= PUBLIC_ROUTE_COUNT,
            p@ == path@,
            forall|j: int| 0 <= j < i ==> !route_matches(path@, #[trigger] public_route(j)),
        decreases PUBLIC_ROUTE_COUNT - i,
    {
        let route = chars_of(public_route_text(i));
        if matches_route(p.as_slice(), route.as_slice()) {
            assert(route_matches(path@, public_route(i as int)));
            return true;
        }
        i = i + 1;
    }
    false
}

/// The `Authorization` header of a request, as the application reads it.
pub enum AuthHeader {
    /// The request has no `Authorization` header.
    Missing,
    /// The header is present but is not visible ASCII text.
    Unreadable,
    /// The header's text.
    Text(String),
}

/// Why a request was refused; each is answered with status 401.
#[derive(Debug, Clone, Copy, PartialEq, Eq)]
pub enum AuthRejection {
    MissingAuthHeader,
    InvalidAuthHeader,
    SessionExpired,
    InvalidRole,
    InvalidToken,
}

/// The HTTP status of every refusal.
pub const REJECTION_STATUS: u16 = 401;

impl AuthRejection {
    /// The `error` field of the refusal's JSON body.
    pub fn error_code(&self) -> (r: &'static str)
        ensures
            r@ == match self {
                AuthRejection::MissingAuthHeader => "missing_auth_header"@,
                AuthRejection::InvalidAuthHeader => "invalid_auth_header"@,
                AuthRejection::SessionExpired => "session_expired"@,
                AuthRejection::InvalidRole => "invalid_role"@,
                AuthRejection::InvalidToken => "invalid_token"@,
            },
    {
        match self {
            AuthRejection::MissingAuthHeader => "missing_auth_header",
            AuthRejection::InvalidAuthHeader => "invalid_auth_header",
            AuthRejection::SessionExpired => "session_expired",
            AuthRejection::InvalidRole => "invalid_role",
            AuthRejection::InvalidToken => "invalid_token",
        }
    }

    /// The `message` field of the refusal's JSON body.
    pub fn message(&self) -> (r: &'static str)
        ensures
            r@ == match self {
                AuthRejection::MissingAuthHeader =>
                    "Missing authorization header. Please log in to access this resource."@,
                AuthRejection::InvalidAuthHeader =>
                    "Invalid authorization header. Please log in again."@,
                AuthRejection::SessionExpired => "Your session has expired. Please log in again."@,
                AuthRejection::InvalidRole =>
                    "Invalid role. Please log in with appropriate permissions."@,
                AuthRejection::InvalidToken => "Invalid token. Please log in again."@,
            },
    {
        match self {
            AuthRejection::MissingAuthHeader =>
                "Missing authorization header. Please log in to access this resource.",
            AuthRejection::InvalidAuthHeader => "Invalid authorization header. Please log in again.",
            AuthRejection::SessionExpired => "Your session has expired. Please log in again.",
            AuthRejection::InvalidRole =>
                "Invalid role. Please log in with appropriate permissions.",
            AuthRejection::InvalidToken => "Invalid token. Please log in again.",
        }
    }
}

/// The token that follows `Bearer ` in a header's text, if it starts so.
pub open spec fn bearer_token_spec(text: Seq<char>) -> Option<Seq<char>> {
    if has_prefix(text, "Bearer "@) {
        Some(text.subrange("Bearer "@.len() as int, text.len() as int))
    } else {
        None
    }
}

/// The bearer token of a request: a missing header is refused as such, an
/// unreadable one or one that does not start with `Bearer ` as invalid.
pub fn bearer_token(header: &AuthHeader) -> (r: Result<Vec<char>, AuthRejection>)
    ensures
        header is Missing ==> r == Err::<Vec<char>, AuthRejection>(AuthRejection::MissingAuthHeader),
        header is Unreadable ==> r == Err::<Vec<char>, AuthRejection>(
            AuthRejection::InvalidAuthHeader,
        ),
        header matches AuthHeader::Text(t) ==> match bearer_token_spec(t@) {
            Some(tok) => r matches Ok(v) && v@ == tok,
            None => r == Err::<Vec<char>, AuthRejection>(AuthRejection::InvalidAuthHeader),
        },
{
    match header {
        AuthHeader::Missing => Err(AuthRejection::MissingAuthHeader),
        AuthHeader::Unreadable => Err(AuthRejection::InvalidAuthHeader),
        AuthHeader::Text(t) => {
            let tv = chars_of(t.as_str());
            let prefix = chars_of("Bearer ");
            if starts_with(tv.as_slice(), prefix.as_slice()) {
                let tok = crate::text::slice_chars(tv.as_slice(), prefix.len(), tv.len());
                Ok(tok)
            } else {
                Err(AuthRejection::InvalidAuthHeader)
            }
        },
    }
}

/// The outcome of decoding a token with the backend's secret.
pub enum TokenCheck {
    /// The signature and expiry check out; the claims' subject and role.
    Valid { sub: String, role: Option<String> },
    /// The token's signature checks out but it has expired.
    Expired,
    /// Any other failure.
    Invalid,
}

/// What follows the check of a token as a Google sign-in token.
pub enum GoogleStep {
    /// The token authenticates this user.
    Accept(String),
    /// The request is refused.
    Reject(AuthRejection),
    /// The token is tried as a Supabase token.
    TrySupabase,
}

/// A valid Google sign-in token authenticates its subject; an expired one is
/// refused as an expired session; any other failure leads to the Supabase
/// check.
pub fn after_google_check(check: TokenCheck) -> (r: GoogleStep)
    ensures
        check matches TokenCheck::Valid { sub, .. } ==> (r matches GoogleStep::Accept(u) && u
            == sub),
        check is Expired ==> r matches GoogleStep::Reject(AuthRejection::SessionExpired),
        check is Invalid ==> r is TrySupabase,
{
    match check {
        TokenCheck::Valid { sub, .. } => GoogleStep::Accept(sub),
        TokenCheck::Expired => GoogleStep::Reject(AuthRejection::SessionExpired),
        TokenCheck::Invalid => GoogleStep::TrySupabase,
    }
}

/// A valid Supabase token authenticates its subject when its role is
/// `authenticated` and is refused for its role otherwise; an expired token is
/// refused as an expired session and any other failure as an invalid token.
pub fn after_supabase_check(check: TokenCheck) -> (r: Result<String, AuthRejection>)
    ensures
        check matches TokenCheck::Valid { sub, role } ==> (if role matches Some(ro) && ro@
            == "authenticated"@ {
            r matches Ok(u) && u == sub
        } else {
            r == Err::<String, AuthRejection>(AuthRejection::InvalidRole)
        }),
        check is Expired ==> r == Err::<String, AuthRejection>(AuthRejection::SessionExpired),
        check is Invalid ==> r == Err::<String, AuthRejection>(AuthRejection::InvalidToken),
{
    match check {
        TokenCheck::Valid { sub, role } => {
            let ok = match &role {
                Some(ro) => str_equal(ro.as_str(), "authenticated"),
                None => false,
            };
            if ok {
                Ok(sub)
            } else {
                Err(AuthRejection::InvalidRole)
            }
        },
        TokenCheck::Expired => Err(AuthRejection::SessionExpired),
        TokenCheck::Invalid => Err(AuthRejection::InvalidToken),
    }
}

} // verus!
