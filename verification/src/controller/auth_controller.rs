//! Sign-in: administrator log-in, Google sign-in, sessions.
//!
//! The handlers alternate calls to Google, to the database and to the token
//! encoder with decisions; the decisions are the step functions here, which
//! the application drives (it performs each action and reports its outcome).
use vstd::prelude::*;
use crate::text::{
    char_utf8_len, chars_of, has_prefix, is_alphanumeric, lemma_utf8_len_push,
    lemma_utf8_prefix_increasing, prefix_with_bytes, push_decimal, push_str, slice_chars,
    string_from_chars, to_lowercase, utf8_len, char_alphanumeric, char_len_utf8, lowercase_of,
    decimal_spec,
};
use crate::middleware::admin_middleware::is_admin_role_spec;

verus! {

/// Request payload for the Google OAuth callback.
#[derive(Debug)]
pub struct GoogleAuthRequest {
    pub code: String,
}

/// Request payload for session validation.
#[derive(Debug)]
pub struct ValidateSessionRequest {
    pub token: String,
}

/// Response for session validation.
#[derive(Debug)]
pub struct ValidateSessionResponse {
    pub valid: bool,
    pub message: String,
    pub user_id: Option<String>,
}

/// Request payload for logout.
#[derive(Debug)]
pub struct LogoutRequest {
    pub token: String,
}

// ---------------------------------------------------------------------------
// Usernames derived from display names
// ---------------------------------------------------------------------------

/// The longest slug, in bytes.
pub const SLUG_MAX_BYTES: usize = 25;

/// A character of a slug: alphanumeric characters stay, any other becomes `_`.
pub open spec fn slug_char(c: char) -> char {
    if char_alphanumeric(c) {
        c
    } else {
        '_'
    }
}

/// The non-empty runs of characters other than `_`, joined by single `_`s
/// (`split('_')`, dropping empty parts, `join("_")`): each character other
/// than `_` is kept, preceded by one `_` when a `_` precedes it and something
/// was kept already.
pub open spec fn collapse_separators(s: Seq<char>) -> Seq<char>
    decreases s.len(),
{
    if s.len() == 0 {
        seq![]
    } else {
        let init = s.drop_last();
        let kept = collapse_separators(init);
        if s.last() == '_' {
            kept
        } else if kept.len() > 0 && init.last() == '_' {
            kept.push('_').push(s.last())
        } else {
            kept.push(s.last())
        }
    }
}

/// The slug of a display name before it is shortened: lower-cased, every
/// non-alphanumeric character turned into `_`, runs of `_` collapsed and `_`
/// removed at both ends.
pub open spec fn slug_base(name: Seq<char>) -> Seq<char> {
    collapse_separators(lowercase_of(name).map_values(|c: char| slug_char(c)))
}

/// The slug can be cut after its first `SLUG_MAX_BYTES` bytes: it is short
/// enough already, or that many bytes end at a character boundary.
pub open spec fn slug_cut_ok(b: Seq<char>) -> bool {
    utf8_len(b) <= SLUG_MAX_BYTES || exists|k: int|
        0 <= k <= b.len() && #[trigger] utf8_len(b.take(k)) == SLUG_MAX_BYTES
}

/// The slug of a display name: its base cut to `SLUG_MAX_BYTES` bytes when
/// longer, `user` when empty.
pub open spec fn slugify_ok(name: Seq<char>, r: Seq<char>) -> bool {
    let b = slug_base(name);
    if utf8_len(b) > SLUG_MAX_BYTES {
        has_prefix(b, r) && utf8_len(r) == SLUG_MAX_BYTES
    } else if b.len() == 0 {
        r == "user"@
    } else {
        r == b
    }
}

fn collapse(s: &[char]) -> (r: Vec<char>)
    ensures
        r@ == collapse_separators(s@),
{
    let mut r: Vec<char> = Vec::new();
    let mut i: usize = 0;
    assert(s@.take(0) =~= Seq::<char>::empty());
    while i < s.len()
        invariant
            i <= s@.len(),
            r@ == collapse_separators(s@.take(i as int)),
        decreases s@.len() - i,
    {
        let c = s[i];
        proof {
            let t = s@.take(i + 1);
            assert(t.drop_last() =~= s@.take(i as int));
            assert(t.last() == c);
            if i > 0 {
                assert(s@.take(i as int).last() == s@[i - 1]);
            }
        }
        if c != '_' {
            if r.len() > 0 && i > 0 && s[i - 1] == '_' {
                r.push('_');
            }
            r.push(c);
        }
        i = i + 1;
    }
    assert(s@.take(s@.len() as int) =~= s@);
    r
}

fn slug_base_of(name: &str) -> (r: Vec<char>)
    ensures
        r@ == slug_base(name@),
{
    let lower = to_lowercase(name);
    let cs = chars_of(lower.as_str());
    let mut mapped: Vec<char> = Vec::new();
    let mut i: usize = 0;
    while i < cs.len()
        invariant
            i <= cs@.len(),
            cs@ == lowercase_of(name@),
            mapped@ == cs@.take(i as int).map_values(|c: char| slug_char(c)),
        decreases cs@.len() - i,
    {
        let c = cs[i];
        if is_alphanumeric(c) {
            mapped.push(c);
        } else {
            mapped.push('_');
        }
        proof {
            assert(cs@.take(i + 1).map_values(|c: char| slug_char(c)) =~= cs@.take(
                i as int,
            ).map_values(|c: char| slug_char(c)).push(slug_char(c)));
        }
        i = i + 1;
    }
    assert(cs@.take(cs@.len() as int) =~= cs@);
    collapse(mapped.as_slice())
}

/// Whether the encoding of `s` has at most `limit` bytes.
fn utf8_len_le(s: &[char], limit: usize) -> (r: bool)
    ensures
        r == (utf8_len(s@) <= limit),
{
    let mut k: usize = 0;
    let mut bytes: usize = 0;
    assert(s@.take(0) =~= Seq::<char>::empty());
    while k < s.len()
        invariant
            k <= s@.len(),
            bytes == utf8_len(s@.take(k as int)),
            bytes <= limit,
        decreases s@.len() - k,
    {
        let n = char_len_utf8(s[k]);
        proof {
            assert(s@.take(k + 1) =~= s@.take(k as int).push(s@[k as int]));
            lemma_utf8_len_push(s@.take(k as int), s@[k as int]);
        }
        if n > limit - bytes {
            proof {
                if k + 1 < s@.len() {
                    lemma_utf8_prefix_increasing(s@, k + 1, s@.len() as int);
                }
                assert(s@.take(s@.len() as int) =~= s@);
            }
            return false;
        }
        bytes = bytes + n;
        k = k + 1;
    }
    assert(s@.take(s@.len() as int) =~= s@);
    true
}

/// A candidate username derived from a display name.
///
/// The display name is lower-cased; each character that is not alphanumeric
/// becomes `_`; the `_`-separated parts that are not empty are joined with
/// single `_`s; a result longer than `SLUG_MAX_BYTES` bytes is cut to its
/// first `SLUG_MAX_BYTES` bytes, and an empty one becomes `user`. The cut must
/// fall on a character boundary (`try_slugify_display_name` checks it).
pub fn slugify_display_name(name: &str) -> (r: String)
    requires
        slug_cut_ok(slug_base(name@)),
    ensures
        slugify_ok(name@, r@),
{
    let b = slug_base_of(name);
    if !utf8_len_le(b.as_slice(), SLUG_MAX_BYTES) {
        match prefix_with_bytes(b.as_slice(), SLUG_MAX_BYTES) {
            Some(k) => {
                let head = slice_chars(b.as_slice(), 0, k);
                assert(head@ =~= b@.take(k as int));
                string_from_chars(head.as_slice())
            },
            None => {
                // The requirement rules this out: some prefix has exactly
                // `SLUG_MAX_BYTES` bytes.
                String::new()
            },
        }
    } else if b.len() == 0 {
        "user".to_string()
    } else {
        string_from_chars(b.as_slice())
    }
}

/// `slugify_display_name` where its cut falls on a character boundary;
/// `None` where the cut after `SLUG_MAX_BYTES` bytes would split a character.
pub fn try_slugify_display_name(name: &str) -> (r: Option<String>)
    ensures
        r is Some <==> slug_cut_ok(slug_base(name@)),
        r matches Some(s) ==> slugify_ok(name@, s@),
{
    let b = slug_base_of(name);
    if utf8_len_le(b.as_slice(), SLUG_MAX_BYTES) {
        return Some(slugify_display_name(name));
    }
    match prefix_with_bytes(b.as_slice(), SLUG_MAX_BYTES) {
        Some(k) => {
            assert(utf8_len(b@.take(k as int)) == SLUG_MAX_BYTES);
            Some(slugify_display_name(name))
        },
        None => None,
    }
}

/// The number of numbered candidates tried after the bare slug.
pub const USERNAME_ATTEMPTS: u32 = 999;

/// The `n`-th candidate username: the slug itself first, then `slug_n`.
pub open spec fn username_candidate_spec(base: Seq<char>, n: nat) -> Seq<char> {
    if n == 0 {
        base
    } else {
        base + "_"@ + decimal_spec(n)
    }
}

/// The `n`-th candidate username for a slug.
pub fn username_candidate(base: &str, n: u32) -> (r: String)
    ensures
        r@ == username_candidate_spec(base@, n as nat),
{
    let mut v = chars_of(base);
    if n > 0 {
        v.push('_');
        push_decimal(&mut v, n as u64);
        proof {
            reveal_strlit("_");
            assert(v@ =~= base@ + "_"@ + decimal_spec(n as nat));
        }
    }
    string_from_chars(v.as_slice())
}

/// What to do after a candidate username was looked up.
#[derive(Debug, PartialEq, Eq)]
pub enum UsernameProbe {
    /// The candidate is free: set it as the user's username.
    Claim(String),
    /// Look up the next candidate, with this number.
    Probe(u32, String),
    /// Every candidate is taken; the username stays unset.
    GiveUp,
}

/// The step of the search for a free username: candidate `attempt` was
/// looked up and found free (`free`) or taken (or the lookup failed).
pub fn next_username_probe(base: &str, attempt: u32, free: bool) -> (r: UsernameProbe)
    requires
        attempt <= USERNAME_ATTEMPTS,
    ensures
        free ==> (r matches UsernameProbe::Claim(c) && c@ == username_candidate_spec(
            base@,
            attempt as nat,
        )),
        !free && attempt < USERNAME_ATTEMPTS ==> (r matches UsernameProbe::Probe(n, c) && n
            == attempt + 1 && c@ == username_candidate_spec(base@, n as nat)),
        !free && attempt == USERNAME_ATTEMPTS ==> r is GiveUp,
{
    if free {
        UsernameProbe::Claim(username_candidate(base, attempt))
    } else if attempt < USERNAME_ATTEMPTS {
        UsernameProbe::Probe(attempt + 1, username_candidate(base, attempt + 1))
    } else {
        UsernameProbe::GiveUp
    }
}


// ---------------------------------------------------------------------------
// Access tokens
// ---------------------------------------------------------------------------

/// How long an access token is valid, in seconds.
pub const ACCESS_TOKEN_SECONDS: u64 = 3600;

/// The claims of an access token issued by this backend.
#[derive(Debug)]
pub struct TokenClaims {
    pub sub: String,
    pub exp: u64,
    pub iat: u64,
    pub aud: String,
    pub iss: String,
    pub email: String,
    pub name: String,
}

/// The claims of an access token for a user, issued at `now` (seconds since
/// the epoch): valid for `ACCESS_TOKEN_SECONDS`, with the application's URL
/// as audience and issuer.
pub open spec fn token_claims_spec(
    user_id: String,
    email: String,
    name: String,
    app_url: String,
    now: u64,
) -> TokenClaims {
    TokenClaims {
        sub: user_id,
        exp: (now + ACCESS_TOKEN_SECONDS) as u64,
        iat: now,
        aud: app_url,
        iss: app_url,
        email,
        name,
    }
}

/// The claims of an access token for a user, issued at `now`.
pub fn access_token_claims(user_id: String, email: String, name: String, app_url: String, now: u64) -> (r:
    TokenClaims)
    requires
        now <= u64::MAX - ACCESS_TOKEN_SECONDS,
    ensures
        r == token_claims_spec(user_id, email, name, app_url, now),
{
    TokenClaims {
        sub: user_id,
        exp: now + ACCESS_TOKEN_SECONDS,
        iat: now,
        aud: app_url.clone(),
        iss: app_url,
        email,
        name,
    }
}

/// A user as stored in the database.
#[derive(Debug)]
pub struct LoginUser {
    pub id: String,
    pub email: String,
    pub display_name: String,
    pub role: Option<String>,
    pub picture_url: Option<String>,
}

/// Whether a stored user may log in as an administrator: the role, `user`
/// when unset, is `admin` or `superadmin`.
pub open spec fn may_log_in_as_admin(user: LoginUser) -> bool {
    match user.role {
        Some(r) => is_admin_role_spec(r@),
        None => is_admin_role_spec("user"@),
    }
}

fn is_admin_login_role(role: &Option<String>) -> (r: bool)
    ensures
        r == match role {
            Some(ro) => is_admin_role_spec(ro@),
            None => is_admin_role_spec("user"@),
        },
{
    let ro: &str = match role {
        Some(x) => x.as_str(),
        None => "user",
    };
    crate::text::str_equal(ro, "admin") || crate::text::str_equal(ro, "superadmin")
}

// ---------------------------------------------------------------------------
// Administrator log-in
// ---------------------------------------------------------------------------

/// Where an administrator log-in stands.
#[derive(Debug)]
pub enum AdminLoginState {
    /// The user is being looked up by e-mail.
    AwaitUser,
    /// The access token of this administrator is being encoded.
    AwaitToken(LoginUser),
    /// The last log-in time is being recorded and old sessions deleted.
    AwaitReset(LoginUser, String),
    /// A new session is being created.
    AwaitSession(LoginUser, String),
    /// The answer has been given.
    Finished,
}

/// What the application reports back.
#[derive(Debug)]
pub enum AdminLoginEvent {
    /// The user with the e-mail of the request, if the lookup found one.
    UserLookedUp(Option<LoginUser>),
    /// The encoded token, or `None` when encoding failed.
    TokenEncoded(Option<String>),
    /// Recording the log-in and deleting old sessions is done (their outcome
    /// does not matter).
    SessionsReset,
    /// Whether the new session was created.
    SessionCreated(bool),
}

/// The answer to an administrator log-in.
#[derive(Debug)]
pub enum AdminLoginReply {
    /// 200 with the token and the user.
    Success { token: String, user: LoginUser },
    /// 400: no user has this e-mail.
    InvalidCredentials,
    /// 401: the user is not an administrator.
    NotAdmin,
    /// 500: the token could not be encoded.
    TokenFailed,
    /// 500: the session could not be created.
    SessionFailed,
}

impl AdminLoginReply {
    /// The HTTP status of the answer.
    pub fn status(&self) -> (r: u16)
        ensures
            r == match self {
                AdminLoginReply::Success { .. } => 200u16,
                AdminLoginReply::InvalidCredentials => 400u16,
                AdminLoginReply::NotAdmin => 401u16,
                _ => 500u16,
            },
    {
        match self {
            AdminLoginReply::Success { .. } => 200,
            AdminLoginReply::InvalidCredentials => 400,
            AdminLoginReply::NotAdmin => 401,
            _ => 500,
        }
    }

    /// The `error` and `message` fields of a refusal.
    pub fn error_fields(&self) -> (r: Option<(&'static str, &'static str)>)
        ensures
            r == match self {
                AdminLoginReply::Success { .. } => None,
                AdminLoginReply::InvalidCredentials => Some(
                    ("invalid_credentials", "Invalid email or password"),
                ),
                AdminLoginReply::NotAdmin => Some(("unauthorized", "User is not an admin")),
                AdminLoginReply::TokenFailed => Some(
                    ("token_generation_failed", "Failed to generate token"),
                ),
                AdminLoginReply::SessionFailed => Some(
                    ("session_creation_failed", "Failed to create session"),
                ),
            },
    {
        match self {
            AdminLoginReply::Success { .. } => None,
            AdminLoginReply::InvalidCredentials => Some(
                ("invalid_credentials", "Invalid email or password"),
            ),
            AdminLoginReply::NotAdmin => Some(("unauthorized", "User is not an admin")),
            AdminLoginReply::TokenFailed => Some(
                ("token_generation_failed", "Failed to generate token"),
            ),
            AdminLoginReply::SessionFailed => Some(
                ("session_creation_failed", "Failed to create session"),
            ),
        }
    }
}

/// What the application does next.
#[derive(Debug)]
pub enum AdminLoginAction {
    /// Encode an access token with these claims.
    EncodeToken(TokenClaims),
    /// Record the log-in time of this user and delete their sessions.
    ResetSessions(String),
    /// Create a session for this user.
    CreateSession(String),
    /// Answer the request.
    Reply(AdminLoginReply),
}

/// The event fits the state: it reports the outcome of the action that led
/// to the state.
pub open spec fn admin_login_fits(state: AdminLoginState, event: AdminLoginEvent) -> bool {
    match state {
        AdminLoginState::AwaitUser => event is UserLookedUp,
        AdminLoginState::AwaitToken(_) => event is TokenEncoded,
        AdminLoginState::AwaitReset(..) => event is SessionsReset,
        AdminLoginState::AwaitSession(..) => event is SessionCreated,
        AdminLoginState::Finished => false,
    }
}

/// The administrator log-in, step by step: a missing user is refused as
/// invalid credentials and a user whose role is not an administrator's as
/// unauthorized (no password is checked); an administrator gets a token valid
/// for an hour, their log-in is recorded, their old sessions are deleted and
/// a new session is created; a failure to encode the token or to create the
/// session is an internal error.
pub open spec fn admin_login_next(
    state: AdminLoginState,
    event: AdminLoginEvent,
    app_url: String,
    now: u64,
) -> (AdminLoginState, AdminLoginAction) {
    match (state, event) {
        (AdminLoginState::AwaitUser, AdminLoginEvent::UserLookedUp(found)) => match found {
            None => (
                AdminLoginState::Finished,
                AdminLoginAction::Reply(AdminLoginReply::InvalidCredentials),
            ),
            Some(user) => if may_log_in_as_admin(user) {
                (
                    AdminLoginState::AwaitToken(user),
                    AdminLoginAction::EncodeToken(
                        token_claims_spec(user.id, user.email, user.display_name, app_url, now),
                    ),
                )
            } else {
                (AdminLoginState::Finished, AdminLoginAction::Reply(AdminLoginReply::NotAdmin))
            },
        },
        (AdminLoginState::AwaitToken(user), AdminLoginEvent::TokenEncoded(jwt)) => match jwt {
            None => (AdminLoginState::Finished, AdminLoginAction::Reply(AdminLoginReply::TokenFailed)),
            Some(t) => (AdminLoginState::AwaitReset(user, t), AdminLoginAction::ResetSessions(user.id)),
        },
        (AdminLoginState::AwaitReset(user, t), AdminLoginEvent::SessionsReset) => (
            AdminLoginState::AwaitSession(user, t),
            AdminLoginAction::CreateSession(user.id),
        ),
        (AdminLoginState::AwaitSession(user, t), AdminLoginEvent::SessionCreated(ok)) => if ok {
            (
                AdminLoginState::Finished,
                AdminLoginAction::Reply(AdminLoginReply::Success { token: t, user }),
            )
        } else {
            (AdminLoginState::Finished, AdminLoginAction::Reply(AdminLoginReply::SessionFailed))
        },
        _ => (AdminLoginState::Finished, AdminLoginAction::Reply(AdminLoginReply::SessionFailed)),
    }
}

/// One step of the administrator log-in.
pub fn admin_login_step(state: AdminLoginState, event: AdminLoginEvent, app_url: String, now: u64) -> (r:
    (AdminLoginState, AdminLoginAction))
    requires
        admin_login_fits(state, event),
        now <= u64::MAX - ACCESS_TOKEN_SECONDS,
    ensures
        r == admin_login_next(state, event, app_url, now),
{
    match (state, event) {
        (AdminLoginState::AwaitUser, AdminLoginEvent::UserLookedUp(found)) => match found {
            None => (
                AdminLoginState::Finished,
                AdminLoginAction::Reply(AdminLoginReply::InvalidCredentials),
            ),
            Some(user) => {
                if is_admin_login_role(&user.role) {
                    let claims = access_token_claims(
                        user.id.clone(),
                        user.email.clone(),
                        user.display_name.clone(),
                        app_url,
                        now,
                    );
                    (AdminLoginState::AwaitToken(user), AdminLoginAction::EncodeToken(claims))
                } else {
                    (AdminLoginState::Finished, AdminLoginAction::Reply(AdminLoginReply::NotAdmin))
                }
            },
        },
        (AdminLoginState::AwaitToken(user), AdminLoginEvent::TokenEncoded(jwt)) => match jwt {
            None => (AdminLoginState::Finished, AdminLoginAction::Reply(AdminLoginReply::TokenFailed)),
            Some(t) => {
                let id = user.id.clone();
                (AdminLoginState::AwaitReset(user, t), AdminLoginAction::ResetSessions(id))
            },
        },
        (AdminLoginState::AwaitReset(user, t), AdminLoginEvent::SessionsReset) => {
            let id = user.id.clone();
            (AdminLoginState::AwaitSession(user, t), AdminLoginAction::CreateSession(id))
        },
        (AdminLoginState::AwaitSession(user, t), AdminLoginEvent::SessionCreated(ok)) => {
            if ok {
                (
                    AdminLoginState::Finished,
                    AdminLoginAction::Reply(AdminLoginReply::Success { token: t, user }),
                )
            } else {
                (AdminLoginState::Finished, AdminLoginAction::Reply(AdminLoginReply::SessionFailed))
            }
        },
        _ => (AdminLoginState::Finished, AdminLoginAction::Reply(AdminLoginReply::SessionFailed)),
    }
}


// ---------------------------------------------------------------------------
// Google sign-in
// ---------------------------------------------------------------------------

/// The profile Google returns for an access token.
#[derive(Debug)]
pub struct GoogleProfile {
    pub email: String,
    pub name: String,
    pub picture: Option<String>,
}

/// The user part of a sign-in answer.
#[derive(Debug)]
pub struct SupabaseUser {
    pub id: String,
    pub email: String,
    pub display_name: String,
    pub picture: Option<String>,
}

/// The answer to a successful sign-in.
#[derive(Debug)]
pub struct AuthResponse {
    pub access_token: String,
    pub token_type: &'static str,
    pub expires_in: u64,
    pub refresh_token: String,
    pub user: SupabaseUser,
}

/// Where a Google sign-in stands.
#[derive(Debug)]
pub enum GoogleLoginState {
    /// The authorization code is being exchanged for an access token.
    AwaitExchange,
    /// Google's profile of the user is being fetched.
    AwaitProfile,
    /// The user with the profile's e-mail is being looked up.
    AwaitLookup(GoogleProfile),
    /// The stored picture of an existing user is being replaced.
    AwaitPictureUpdate(SupabaseUser),
    /// A new user with this id is being stored.
    AwaitCreate(GoogleProfile, String),
    /// The new user is being given a username.
    AwaitUsername(SupabaseUser),
    /// The access token is being encoded.
    AwaitToken(SupabaseUser),
    /// The user's old sessions are being deleted.
    AwaitReset(SupabaseUser, String),
    /// A new session is being created.
    AwaitSession(SupabaseUser, String),
    /// The answer has been given.
    Finished,
}

/// What the application reports back.
#[derive(Debug)]
pub enum GoogleLoginEvent {
    /// The access token, or `None` when the exchange failed.
    CodeExchanged(Option<String>),
    /// Google's profile, or `None` when it could not be fetched.
    ProfileFetched(Option<GoogleProfile>),
    /// A stored user has the profile's e-mail.
    UserFound(LoginUser),
    /// No stored user has it; a fresh id for a new one.
    UserMissing(String),
    /// The picture update is done (its outcome does not matter).
    PictureUpdated,
    /// Whether the new user was stored.
    UserCreated(bool),
    /// The search for a username is over (its outcome does not matter).
    UsernameAssigned,
    /// The encoded token, or `None` when encoding failed.
    TokenEncoded(Option<String>),
    /// The old sessions are deleted (the outcome does not matter).
    SessionsReset,
    /// The new session's token, or `None` when it could not be created.
    SessionCreated(Option<String>),
}

/// The answer to a Google sign-in.
#[derive(Debug)]
pub enum GoogleLoginReply {
    /// 200 with the tokens and the user.
    Success(AuthResponse),
    /// 400: the code could not be exchanged.
    ExchangeFailed,
    /// 400: the profile could not be fetched.
    ProfileFailed,
    /// 500: the new user could not be stored.
    StoreFailed,
    /// 500: the token could not be encoded.
    TokenFailed,
    /// 500: the session could not be created.
    SessionFailed,
}

impl GoogleLoginReply {
    /// The HTTP status of the answer.
    pub fn status(&self) -> (r: u16)
        ensures
            r == match self {
                GoogleLoginReply::Success(_) => 200u16,
                GoogleLoginReply::ExchangeFailed => 400u16,
                GoogleLoginReply::ProfileFailed => 400u16,
                _ => 500u16,
            },
    {
        match self {
            GoogleLoginReply::Success(_) => 200,
            GoogleLoginReply::ExchangeFailed => 400,
            GoogleLoginReply::ProfileFailed => 400,
            _ => 500,
        }
    }

    /// The text body of a failure.
    pub fn failure_text(&self) -> (r: Option<&'static str>)
        ensures
            r == match self {
                GoogleLoginReply::Success(_) => None,
                GoogleLoginReply::ExchangeFailed => Some(
                    "Failed to exchange authorization code for token",
                ),
                GoogleLoginReply::ProfileFailed => Some(
                    "Failed to get user information from Google",
                ),
                GoogleLoginReply::StoreFailed => Some("Failed to store user data"),
                GoogleLoginReply::TokenFailed => Some("Failed to generate token"),
                GoogleLoginReply::SessionFailed => Some("Failed to create session"),
            },
    {
        match self {
            GoogleLoginReply::Success(_) => None,
            GoogleLoginReply::ExchangeFailed => Some(
                "Failed to exchange authorization code for token",
            ),
            GoogleLoginReply::ProfileFailed => Some("Failed to get user information from Google"),
            GoogleLoginReply::StoreFailed => Some("Failed to store user data"),
            GoogleLoginReply::TokenFailed => Some("Failed to generate token"),
            GoogleLoginReply::SessionFailed => Some("Failed to create session"),
        }
    }
}

/// What the application does next.
#[derive(Debug)]
pub enum GoogleLoginAction {
    /// Fetch Google's profile with this access token.
    FetchProfile(String),
    /// Look up the user with this e-mail.
    LookupUser(String),
    /// Store a new picture for a user (id, display name, picture URL).
    UpdatePicture(String, String, String),
    /// Store a new user (id, e-mail, display name, picture URL).
    CreateUser(String, String, String, Option<String>),
    /// Search a username for the user (id, display name), with
    /// `next_username_probe`.
    AssignUsername(String, String),
    /// Encode an access token with these claims.
    EncodeToken(TokenClaims),
    /// Delete the sessions of this user.
    ResetSessions(String),
    /// Create a session for this user.
    CreateSession(String),
    /// Answer the request.
    Reply(GoogleLoginReply),
}

/// The event fits the state: it reports the outcome of the action that led
/// to the state.
pub open spec fn google_login_fits(state: GoogleLoginState, event: GoogleLoginEvent) -> bool {
    match state {
        GoogleLoginState::AwaitExchange => event is CodeExchanged,
        GoogleLoginState::AwaitProfile => event is ProfileFetched,
        GoogleLoginState::AwaitLookup(_) => event is UserFound || event is UserMissing,
        GoogleLoginState::AwaitPictureUpdate(_) => event is PictureUpdated,
        GoogleLoginState::AwaitCreate(..) => event is UserCreated,
        GoogleLoginState::AwaitUsername(_) => event is UsernameAssigned,
        GoogleLoginState::AwaitToken(_) => event is TokenEncoded,
        GoogleLoginState::AwaitReset(..) => event is SessionsReset,
        GoogleLoginState::AwaitSession(..) => event is SessionCreated,
        GoogleLoginState::Finished => false,
    }
}

/// Google's picture differs from the stored one and replaces it.
pub open spec fn picture_changed(stored: Option<String>, google: Option<String>) -> bool {
    match google {
        Some(p) => !(stored matches Some(s) && s@ == p@),
        None => false,
    }
}

/// The claims of the access token for a signed-in user.
pub open spec fn user_claims(u: SupabaseUser, app_url: String, now: u64) -> TokenClaims {
    token_claims_spec(u.id, u.email, u.display_name, app_url, now)
}

/// The Google sign-in, step by step. The code is exchanged for an access
/// token and Google's profile fetched (a failure of either is a bad request).
/// An existing user keeps their stored data, their picture replaced when
/// Google's differs (the answer still shows the stored one); a new user is
/// stored with Google's name and picture and given a username. The signed-in
/// user gets an access token valid for an hour; their old sessions are
/// deleted and a new session created, whose token is the refresh token.
pub open spec fn google_login_next(
    state: GoogleLoginState,
    event: GoogleLoginEvent,
    app_url: String,
    now: u64,
) -> (GoogleLoginState, GoogleLoginAction) {
    match (state, event) {
        (GoogleLoginState::AwaitExchange, GoogleLoginEvent::CodeExchanged(tok)) => match tok {
            None => (
                GoogleLoginState::Finished,
                GoogleLoginAction::Reply(GoogleLoginReply::ExchangeFailed),
            ),
            Some(t) => (GoogleLoginState::AwaitProfile, GoogleLoginAction::FetchProfile(t)),
        },
        (GoogleLoginState::AwaitProfile, GoogleLoginEvent::ProfileFetched(p)) => match p {
            None => (
                GoogleLoginState::Finished,
                GoogleLoginAction::Reply(GoogleLoginReply::ProfileFailed),
            ),
            Some(profile) => (
                GoogleLoginState::AwaitLookup(profile),
                GoogleLoginAction::LookupUser(profile.email),
            ),
        },
        (GoogleLoginState::AwaitLookup(profile), GoogleLoginEvent::UserFound(user)) => {
            let u = SupabaseUser {
                id: user.id,
                email: user.email,
                display_name: user.display_name,
                picture: user.picture_url,
            };
            if picture_changed(user.picture_url, profile.picture) {
                (
                    GoogleLoginState::AwaitPictureUpdate(u),
                    GoogleLoginAction::UpdatePicture(
                        user.id,
                        user.display_name,
                        profile.picture->0,
                    ),
                )
            } else {
                (
                    GoogleLoginState::AwaitToken(u),
                    GoogleLoginAction::EncodeToken(user_claims(u, app_url, now)),
                )
            }
        },
        (GoogleLoginState::AwaitLookup(profile), GoogleLoginEvent::UserMissing(id)) => (
            GoogleLoginState::AwaitCreate(profile, id),
            GoogleLoginAction::CreateUser(id, profile.email, profile.name, profile.picture),
        ),
        (GoogleLoginState::AwaitPictureUpdate(u), GoogleLoginEvent::PictureUpdated) => (
            GoogleLoginState::AwaitToken(u),
            GoogleLoginAction::EncodeToken(user_claims(u, app_url, now)),
        ),
        (GoogleLoginState::AwaitCreate(profile, id), GoogleLoginEvent::UserCreated(ok)) => if ok {
            (
                GoogleLoginState::AwaitUsername(
                    SupabaseUser {
                        id,
                        email: profile.email,
                        display_name: profile.name,
                        picture: profile.picture,
                    },
                ),
                GoogleLoginAction::AssignUsername(id, profile.name),
            )
        } else {
            (GoogleLoginState::Finished, GoogleLoginAction::Reply(GoogleLoginReply::StoreFailed))
        },
        (GoogleLoginState::AwaitUsername(u), GoogleLoginEvent::UsernameAssigned) => (
            GoogleLoginState::AwaitToken(u),
            GoogleLoginAction::EncodeToken(user_claims(u, app_url, now)),
        ),
        (GoogleLoginState::AwaitToken(u), GoogleLoginEvent::TokenEncoded(jwt)) => match jwt {
            None => (GoogleLoginState::Finished, GoogleLoginAction::Reply(GoogleLoginReply::TokenFailed)),
            Some(t) => (GoogleLoginState::AwaitReset(u, t), GoogleLoginAction::ResetSessions(u.id)),
        },
        (GoogleLoginState::AwaitReset(u, t), GoogleLoginEvent::SessionsReset) => (
            GoogleLoginState::AwaitSession(u, t),
            GoogleLoginAction::CreateSession(u.id),
        ),
        (GoogleLoginState::AwaitSession(u, t), GoogleLoginEvent::SessionCreated(refresh)) => match refresh {
            None => (
                GoogleLoginState::Finished,
                GoogleLoginAction::Reply(GoogleLoginReply::SessionFailed),
            ),
            Some(rt) => (
                GoogleLoginState::Finished,
                GoogleLoginAction::Reply(
                    GoogleLoginReply::Success(
                        AuthResponse {
                            access_token: t,
                            token_type: "bearer",
                            expires_in: ACCESS_TOKEN_SECONDS,
                            refresh_token: rt,
                            user: u,
                        },
                    ),
                ),
            ),
        },
        _ => (GoogleLoginState::Finished, GoogleLoginAction::Reply(GoogleLoginReply::SessionFailed)),
    }
}


/// One step of the Google sign-in.
pub fn google_login_step(
    state: GoogleLoginState,
    event: GoogleLoginEvent,
    app_url: String,
    now: u64,
) -> (r: (GoogleLoginState, GoogleLoginAction))
    requires
        google_login_fits(state, event),
        now <= u64::MAX - ACCESS_TOKEN_SECONDS,
    ensures
        r == google_login_next(state, event, app_url, now),
{
    match (state, event) {
        (GoogleLoginState::AwaitExchange, GoogleLoginEvent::CodeExchanged(tok)) => match tok {
            None => (
                GoogleLoginState::Finished,
                GoogleLoginAction::Reply(GoogleLoginReply::ExchangeFailed),
            ),
            Some(t) => (GoogleLoginState::AwaitProfile, GoogleLoginAction::FetchProfile(t)),
        },
        (GoogleLoginState::AwaitProfile, GoogleLoginEvent::ProfileFetched(p)) => match p {
            None => (
                GoogleLoginState::Finished,
                GoogleLoginAction::Reply(GoogleLoginReply::ProfileFailed),
            ),
            Some(profile) => {
                let email = profile.email.clone();
                (GoogleLoginState::AwaitLookup(profile), GoogleLoginAction::LookupUser(email))
            },
        },
        (GoogleLoginState::AwaitLookup(profile), GoogleLoginEvent::UserFound(user)) => {
            let changed = match &profile.picture {
                Some(p) => match &user.picture_url {
                    Some(s) => !crate::text::str_equal(s.as_str(), p.as_str()),
                    None => true,
                },
                None => false,
            };
            let u = SupabaseUser {
                id: user.id.clone(),
                email: user.email.clone(),
                display_name: user.display_name.clone(),
                picture: user.picture_url.clone(),
            };
            if changed {
                let pic = match profile.picture {
                    Some(p) => p,
                    None => String::new(),
                };
                (
                    GoogleLoginState::AwaitPictureUpdate(u),
                    GoogleLoginAction::UpdatePicture(user.id, user.display_name, pic),
                )
            } else {
                let claims = access_token_claims(
                    u.id.clone(),
                    u.email.clone(),
                    u.display_name.clone(),
                    app_url,
                    now,
                );
                (GoogleLoginState::AwaitToken(u), GoogleLoginAction::EncodeToken(claims))
            }
        },
        (GoogleLoginState::AwaitLookup(profile), GoogleLoginEvent::UserMissing(id)) => {
            let action = GoogleLoginAction::CreateUser(
                id.clone(),
                profile.email.clone(),
                profile.name.clone(),
                profile.picture.clone(),
            );
            (GoogleLoginState::AwaitCreate(profile, id), action)
        },
        (GoogleLoginState::AwaitPictureUpdate(u), GoogleLoginEvent::PictureUpdated) => {
            let claims = access_token_claims(
                u.id.clone(),
                u.email.clone(),
                u.display_name.clone(),
                app_url,
                now,
            );
            (GoogleLoginState::AwaitToken(u), GoogleLoginAction::EncodeToken(claims))
        },
        (GoogleLoginState::AwaitCreate(profile, id), GoogleLoginEvent::UserCreated(ok)) => {
            if ok {
                let action = GoogleLoginAction::AssignUsername(id.clone(), profile.name.clone());
                (
                    GoogleLoginState::AwaitUsername(
                        SupabaseUser {
                            id,
                            email: profile.email,
                            display_name: profile.name,
                            picture: profile.picture,
                        },
                    ),
                    action,
                )
            } else {
                (GoogleLoginState::Finished, GoogleLoginAction::Reply(GoogleLoginReply::StoreFailed))
            }
        },
        (GoogleLoginState::AwaitUsername(u), GoogleLoginEvent::UsernameAssigned) => {
            let claims = access_token_claims(
                u.id.clone(),
                u.email.clone(),
                u.display_name.clone(),
                app_url,
                now,
            );
            (GoogleLoginState::AwaitToken(u), GoogleLoginAction::EncodeToken(claims))
        },
        (GoogleLoginState::AwaitToken(u), GoogleLoginEvent::TokenEncoded(jwt)) => match jwt {
            None => (GoogleLoginState::Finished, GoogleLoginAction::Reply(GoogleLoginReply::TokenFailed)),
            Some(t) => {
                let id = u.id.clone();
                (GoogleLoginState::AwaitReset(u, t), GoogleLoginAction::ResetSessions(id))
            },
        },
        (GoogleLoginState::AwaitReset(u, t), GoogleLoginEvent::SessionsReset) => {
            let id = u.id.clone();
            (GoogleLoginState::AwaitSession(u, t), GoogleLoginAction::CreateSession(id))
        },
        (GoogleLoginState::AwaitSession(u, t), GoogleLoginEvent::SessionCreated(refresh)) => {
            match refresh {
                None => (
                    GoogleLoginState::Finished,
                    GoogleLoginAction::Reply(GoogleLoginReply::SessionFailed),
                ),
                Some(rt) => (
                    GoogleLoginState::Finished,
                    GoogleLoginAction::Reply(
                        GoogleLoginReply::Success(
                            AuthResponse {
                                access_token: t,
                                token_type: "bearer",
                                expires_in: ACCESS_TOKEN_SECONDS,
                                refresh_token: rt,
                                user: u,
                            },
                        ),
                    ),
                ),
            }
        },
        _ => (GoogleLoginState::Finished, GoogleLoginAction::Reply(GoogleLoginReply::SessionFailed)),
    }
}

} // verus!
