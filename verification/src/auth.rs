//! The decisions of authentication and account management: bearer tokens,
//! login and refresh checks, the OAuth authorization-code flow with PKCE,
//! and who may create accounts or change roles.
use vstd::prelude::*;

use crate::crypto::{
    generate_token, hash_token, password_verifies, token_digest, verify_password,
    password_hash_parses,
};
use crate::enums::{UserRole, UserStatus, user_role_from_name, user_role_name};
use crate::ids::{
    EntityId, MAX_CLOCK_NANOS, NANOS_PER_SECOND, Timestamp, current_time, new_random_id,
    uuid_string, uuid_text,
};
use crate::text::{concat2, concat3, owned, str_eq, strip_prefix_text};
use crate::user::User;
use crate::user_error::{
    ApiError, AppError, fails_bad_request, fails_conflict, fails_forbidden, fails_internal,
    fails_unauthorized, is_bad_request, is_conflict, is_forbidden,
};

verus! {

/// How long an authorization code stays redeemable: ten minutes.
pub const AUTHORIZATION_CODE_TTL_NANOS: i128 = 600_000_000_000;

/// Longest refresh-token lifetime accepted, in seconds: the span of
/// `MAX_CLOCK_SECONDS`. A longer lifetime puts the expiry beyond the latest
/// instant `chrono` can hold, whatever the clock reads.
pub const MAX_TOKEN_TTL_SECONDS: u64 = 8_300_000_000_000;

/// The claims carried by an access token.
#[derive(Debug)]
pub struct Claims {
    pub sub: String,
    pub exp: usize,
    pub iat: usize,
    pub user_id: EntityId,
    pub role: String,
}

/// A stored refresh token (only its digest is kept).
#[derive(Debug)]
pub struct RefreshToken {
    pub id: EntityId,
    pub user_id: EntityId,
    pub token_hash: String,
    pub expires_at: Timestamp,
    pub revoked_at: Option<Timestamp>,
    pub created_at: Timestamp,
}

/// A stored OAuth authorization code (only its digest is kept), bound to a
/// client, a redirect URI and a PKCE challenge.
#[derive(Debug)]
pub struct OAuthAuthorizationCode {
    pub id: EntityId,
    pub client_id: String,
    pub user_id: EntityId,
    pub code_hash: String,
    pub redirect_uri: String,
    pub code_challenge: String,
    pub code_challenge_method: String,
    pub expires_at: Timestamp,
    pub used: bool,
    pub created_at: Timestamp,
}

/// A registered OAuth client.
#[derive(Debug)]
pub struct OAuthClientConfig {
    pub client_id: String,
    pub redirect_uris: Vec<String>,
}

/// Parameters of an authorization request.
#[derive(Debug)]
pub struct AuthorizeInput {
    pub client_id: String,
    pub redirect_uri: String,
    pub code_challenge: String,
    pub code_challenge_method: String,
    pub state: Option<String>,
    pub scope: Option<String>,
}

/// Parameters of a token request.
#[derive(Debug)]
pub struct TokenInput {
    pub grant_type: String,
    pub code: String,
    pub client_id: String,
    pub redirect_uri: String,
    pub code_verifier: String,
}

/// Answer to a successful token request.
#[derive(Debug)]
pub struct TokenOutput {
    pub access_token: String,
    pub refresh_token: String,
    pub token_type: String,
    pub expires_in: u64,
}

/// Body of a logout request.
#[derive(Debug)]
pub struct LogoutInput {
    pub refresh_token: String,
}

/// The role that an access token's role text grants when checking
/// permissions: an unknown text counts as a viewer.
pub open spec fn claimed_role(role: Seq<char>) -> UserRole {
    match user_role_from_name(role) {
        Some(r) => r,
        None => UserRole::Viewer,
    }
}

impl Claims {
    /// The role this token grants; an unknown role text counts as a viewer.
    pub fn user_role(&self) -> (r: UserRole)
        ensures
            r == claimed_role(self.role@),
    {
        match UserRole::from_str(self.role.as_str()) {
            Some(r) => r,
            None => UserRole::Viewer,
        }
    }
}

/// The claims of an access token for `user`, issued at `issued_at` (seconds
/// since the epoch) and valid for `expires_in` seconds.
pub fn claims_for(user: &User, issued_at: usize, expires_in: u64) -> (c: Claims)
    requires
        issued_at + expires_in <= usize::MAX,
    ensures
        c.sub@ == uuid_text(user.id),
        c.iat == issued_at,
        c.exp == issued_at + expires_in,
        c.user_id == user.id,
        c.role@ == user_role_name(user.role),
{
    Claims {
        sub: uuid_string(user.id),
        exp: issued_at + (expires_in as usize),
        iat: issued_at,
        user_id: user.id,
        role: owned(user.role.as_str()),
    }
}

/// The token of an `Authorization: Bearer <token>` header, given the
/// header's text (when the header is present and is valid text).
pub fn extract_bearer_token(header: Option<&str>) -> (r: Result<String, ApiError>)
    ensures
        header is None ==> fails_unauthorized(r, "missing authorization header"@),
        header matches Some(h) ==> (if "Bearer "@.is_prefix_of(h@) {
            r matches Ok(t) && t@ == h@.skip(7)
        } else {
            fails_unauthorized(r, "invalid authorization header"@)
        }),
{
    proof {
        reveal_strlit("Bearer ");
    }
    match header {
        None => Err(ApiError(AppError::Unauthorized(owned("missing authorization header")))),
        Some(h) => match strip_prefix_text(h, "Bearer ") {
            Some(t) => Ok(t),
            None => Err(ApiError(AppError::Unauthorized(owned("invalid authorization header")))),
        },
    }
}

/// A fresh refresh token for `user_id`, issued at `now` and valid for
/// `expires_in` seconds: the raw token (handed to the client once) and the
/// record that stores its digest, created at `now`.
pub fn create_refresh_token_entry_at(user_id: EntityId, expires_in: u64, now: Timestamp) -> (r: (
    String,
    RefreshToken,
))
    requires
        expires_in <= MAX_TOKEN_TTL_SECONDS,
        -MAX_CLOCK_NANOS <= now <= MAX_CLOCK_NANOS,
    ensures
        exists|id: u128| r.0@ == uuid_text(id),
        r.1.user_id == user_id,
        r.1.token_hash@ == token_digest(r.0@),
        r.1.created_at == now,
        r.1.expires_at == now + expires_in * NANOS_PER_SECOND,
        r.1.revoked_at is None,
{
    let token: String = generate_token();
    let token_hash: String = hash_token(token.as_str());
    let ttl: i128 = (expires_in as i128) * NANOS_PER_SECOND;
    let refresh = RefreshToken {
        id: new_random_id(),
        user_id,
        token_hash,
        expires_at: now + ttl,
        revoked_at: None,
        created_at: now,
    };
    (token, refresh)
}

/// A fresh refresh token for `user_id`, issued at the clock's current
/// instant and valid for `expires_in` seconds: the raw token (handed to the
/// client once) and the record that stores its digest.
pub fn create_refresh_token_entry(user_id: EntityId, expires_in: u64) -> (r: (String, RefreshToken))
    requires
        expires_in <= MAX_TOKEN_TTL_SECONDS,
    ensures
        exists|id: u128| r.0@ == uuid_text(id),
        r.1.user_id == user_id,
        r.1.token_hash@ == token_digest(r.0@),
        r.1.expires_at == r.1.created_at + expires_in * NANOS_PER_SECOND,
        r.1.revoked_at is None,
        r.1.created_at >= 0,
        r.1.created_at <= MAX_CLOCK_NANOS,
{
    create_refresh_token_entry_at(user_id, expires_in, current_time())
}

/// A refresh token issued at `now` for `expires_in` seconds is accepted at
/// every instant from its issue to its expiry, answering the user it was
/// issued to, and refused as expired at every later instant.
pub proof fn lemma_refresh_token_lifetime(
    record: RefreshToken,
    user_id: EntityId,
    expires_in: u64,
    now: Timestamp,
    t: Timestamp,
)
    requires
        record.user_id == user_id,
        record.created_at == now,
        record.expires_at == now + expires_in * NANOS_PER_SECOND,
        record.revoked_at is None,
    ensures
        now <= t <= now + expires_in * 1_000_000_000 ==> refresh_token_failure(Some(record), t)
            is None,
        t > now + expires_in * 1_000_000_000 ==> refresh_token_failure(Some(record), t) == Some(
            "token expired"@,
        ),
{
}

/// Registration is open only when public registration is enabled.
pub fn check_public_registration(allowed: bool) -> (r: Result<(), ApiError>)
    ensures
        r is Ok <==> allowed,
        r matches Err(e) ==> is_forbidden(e.0, "public registration is disabled"@),
{
    if !allowed {
        return Err(ApiError(AppError::Forbidden(owned("public registration is disabled"))));
    }
    Ok(())
}

/// A new account needs an e-mail address that no account uses yet.
pub fn check_email_available(already_used: bool) -> (r: Result<(), ApiError>)
    ensures
        r is Ok <==> !already_used,
        r matches Err(e) ==> is_conflict(e.0, "email already exists"@),
{
    if already_used {
        return Err(ApiError(AppError::Conflict(owned("email already exists"))));
    }
    Ok(())
}

/// A login with `password` succeeds for the looked-up account: it exists,
/// its stored hash parses and `password` verifies against it, and it is
/// active.
pub open spec fn login_accepted(user: Option<User>, password: Seq<char>) -> bool {
    user matches Some(u) && password_hash_parses(u.password_hash@) && password_verifies(
        password,
        u.password_hash@,
    ) && u.status == UserStatus::Active
}

/// The login check: the account must exist, the password must verify
/// against its stored hash, and the account must be active.
pub fn check_login(user: Option<&User>, password: &str) -> (r: Result<(), ApiError>)
    ensures
        r is Ok <==> login_accepted(
            match user {
                Some(u) => Some(*u),
                None => None,
            },
            password@,
        ),
        user is None ==> fails_unauthorized(r, "invalid credentials"@),
        user matches Some(u) ==> {
            &&& !password_hash_parses(u.password_hash@) ==> fails_internal(r, "password hash error"@,
            )
            &&& password_hash_parses(u.password_hash@) && !password_verifies(
                password@,
                u.password_hash@,
            ) ==> fails_unauthorized(r, "invalid credentials"@)
            &&& password_hash_parses(u.password_hash@) && password_verifies(
                password@,
                u.password_hash@,
            ) ==> (if u.status == UserStatus::Active {
                r is Ok
            } else {
                fails_forbidden(r, "user is not active"@)
            })
        },
{
    let u: &User = match user {
        None => {
            return Err(ApiError(AppError::Unauthorized(owned("invalid credentials"))));
        },
        Some(u) => u,
    };
    let matches: bool = match verify_password(password, u.password_hash.as_str()) {
        Ok(b) => b,
        Err(e) => {
            return Err(e);
        },
    };
    if !matches {
        return Err(ApiError(AppError::Unauthorized(owned("invalid credentials"))));
    }
    if u.status != UserStatus::Active {
        return Err(ApiError(AppError::Forbidden(owned("user is not active"))));
    }
    Ok(())
}

/// Why a stored refresh token cannot be used at `now`, if it cannot.
pub open spec fn refresh_token_failure(stored: Option<RefreshToken>, now: Timestamp) -> Option<
    Seq<char>,
> {
    match stored {
        None => Some("invalid refresh token"@),
        Some(t) => if t.expires_at < now {
            Some("token expired"@)
        } else if t.revoked_at is Some {
            Some("token revoked"@)
        } else {
            None
        },
    }
}

/// The refresh check: the token must be known, unexpired and not revoked;
/// the answer is the user it was issued to.
pub fn check_refresh_token(stored: Option<&RefreshToken>, now: Timestamp) -> (r: Result<
    EntityId,
    ApiError,
>)
    ensures
        match refresh_token_failure(
            match stored {
                Some(t) => Some(*t),
                None => None,
            },
            now,
        ) {
            None => r matches Ok(uid) && uid == stored.unwrap().user_id,
            Some(m) => fails_unauthorized(r, m),
        },
{
    match stored {
        None => Err(ApiError(AppError::Unauthorized(owned("invalid refresh token")))),
        Some(t) => {
            if t.expires_at < now {
                return Err(ApiError(AppError::Unauthorized(owned("token expired"))));
            }
            if t.revoked_at.is_some() {
                return Err(ApiError(AppError::Unauthorized(owned("token revoked"))));
            }
            Ok(t.user_id)
        },
    }
}

/// The logout check: the refresh token must be known; the answer is the
/// record to revoke.
pub fn logout_target(stored: Option<&RefreshToken>) -> (r: Result<EntityId, ApiError>)
    ensures
        stored is None ==> fails_unauthorized(r, "invalid refresh token"@),
        stored matches Some(t) ==> r == Ok::<EntityId, ApiError>(t.id),
{
    match stored {
        None => Err(ApiError(AppError::Unauthorized(owned("invalid refresh token")))),
        Some(t) => Ok(t.id),
    }
}

/// The registered client with this id, if any (the first one when several
/// share it).
pub fn find_oauth_client<'a>(clients: &'a Vec<OAuthClientConfig>, client_id: &str) -> (r: Option<
    &'a OAuthClientConfig,
>)
    ensures
        r is None <==> forall|i: int| 0 <= i < clients@.len() ==> #[trigger] clients@[i].client_id@
            != client_id@,
        r matches Some(c) ==> exists|i: int|
            0 <= i < clients@.len() && *c == clients@[i] && c.client_id@ == client_id@ && forall|
                j: int,
            | 0 <= j < i ==> #[trigger] clients@[j].client_id@ != client_id@,
{
    let mut i: usize = 0;
    while i < clients.len()
        invariant
            i <= clients@.len(),
            forall|j: int| 0 <= j < i ==> #[trigger] clients@[j].client_id@ != client_id@,
        decreases clients@.len() - i,
    {
        if str_eq(clients[i].client_id.as_str(), client_id) {
            return Some(&clients[i]);
        }
        i = i + 1;
    }
    None
}

/// Whether `uri` is one of the registered redirect URIs.
pub fn redirect_uri_registered(client: &OAuthClientConfig, uri: &str) -> (r: bool)
    ensures
        r == exists|i: int| 0 <= i < client.redirect_uris@.len() && #[trigger] client.redirect_uris@[i]@ == uri@,
{
    let mut i: usize = 0;
    while i < client.redirect_uris.len()
        invariant
            i <= client.redirect_uris@.len(),
            forall|j: int| 0 <= j < i ==> #[trigger] client.redirect_uris@[j]@ != uri@,
        decreases client.redirect_uris@.len() - i,
    {
        if str_eq(client.redirect_uris[i].as_str(), uri) {
            return true;
        }
        i = i + 1;
    }
    false
}

/// The first registered client with this id lists this redirect URI.
pub open spec fn is_registered_redirect(
    clients: Seq<OAuthClientConfig>,
    client_id: Seq<char>,
    uri: Seq<char>,
) -> bool {
    exists|i: int|
        #![trigger clients[i]]
        0 <= i < clients.len() && clients[i].client_id@ == client_id && (forall|j: int|
            0 <= j < i ==> #[trigger] clients[j].client_id@ != client_id) && (exists|k: int|
            0 <= k < clients[i].redirect_uris@.len() && #[trigger] clients[i].redirect_uris@[k]@
                == uri)
}

/// The required parameters of an authorization request are present: the
/// client id, the redirect URI and the code challenge are not empty.
pub fn authorize_input_is_complete(input: &AuthorizeInput) -> (r: bool)
    ensures
        r == (input.client_id@.len() > 0 && input.redirect_uri@.len() > 0
            && input.code_challenge@.len() > 0),
{
    !input.client_id.as_str().is_empty() && !input.redirect_uri.as_str().is_empty()
        && !input.code_challenge.as_str().is_empty()
}

/// The parameters of a token request are present: none of them is empty.
pub fn token_input_is_complete(input: &TokenInput) -> (r: bool)
    ensures
        r == (input.grant_type@.len() > 0 && input.code@.len() > 0 && input.client_id@.len() > 0
            && input.redirect_uri@.len() > 0 && input.code_verifier@.len() > 0),
{
    !input.grant_type.as_str().is_empty() && !input.code.as_str().is_empty()
        && !input.client_id.as_str().is_empty() && !input.redirect_uri.as_str().is_empty()
        && !input.code_verifier.as_str().is_empty()
}

/// The client check of an authorization request: the client must be
/// registered and the redirect URI must be one of its registered URIs.
pub fn check_authorize_request(clients: &Vec<OAuthClientConfig>, input: &AuthorizeInput) -> (r:
    Result<(), ApiError>)
    ensures
        (forall|i: int| 0 <= i < clients@.len() ==> #[trigger] clients@[i].client_id@
            != input.client_id@) ==> fails_bad_request(r, "unknown client_id"@),
        (exists|i: int| 0 <= i < clients@.len() && #[trigger] clients@[i].client_id@
            == input.client_id@) ==> (if is_registered_redirect(
            clients@,
            input.client_id@,
            input.redirect_uri@,
        ) {
            r is Ok
        } else {
            fails_bad_request(r, "invalid redirect_uri"@)
        }),
{
    let client: &OAuthClientConfig = match find_oauth_client(clients, input.client_id.as_str()) {
        None => {
            return Err(ApiError(AppError::BadRequest(owned("unknown client_id"))));
        },
        Some(c) => c,
    };
    proof {
        let i = choose|i: int|
            0 <= i < clients@.len() && *client == clients@[i] && client.client_id@
                == input.client_id@ && forall|j: int|
                0 <= j < i ==> #[trigger] clients@[j].client_id@ != input.client_id@;
        assert forall|i2: int|
            0 <= i2 < clients@.len() && clients@[i2].client_id@ == input.client_id@ && (forall|
                j: int,
            | 0 <= j < i2 ==> #[trigger] clients@[j].client_id@ != input.client_id@) implies i2
            == i by {
            if i2 < i {
                assert(clients@[i2].client_id@ != input.client_id@);
            }
            if i < i2 {
                assert(clients@[i].client_id@ != input.client_id@);
            }
        }
    }
    if !redirect_uri_registered(client, input.redirect_uri.as_str()) {
        return Err(ApiError(AppError::BadRequest(owned("invalid redirect_uri"))));
    }
    Ok(())
}

/// A fresh authorization code for `user_id` answering `input`, issued at
/// `now`: the raw code (sent to the client through the redirect) and the
/// record that stores its digest, created at `now` and redeemable for ten
/// minutes.
pub fn issue_authorization_code_at(input: &AuthorizeInput, user_id: EntityId, now: Timestamp) -> (r:
    (String, OAuthAuthorizationCode))
    requires
        -MAX_CLOCK_NANOS <= now <= MAX_CLOCK_NANOS,
    ensures
        exists|id: u128| r.0@ == uuid_text(id),
        r.1.code_hash@ == token_digest(r.0@),
        r.1.client_id == input.client_id,
        r.1.user_id == user_id,
        r.1.redirect_uri == input.redirect_uri,
        r.1.code_challenge == input.code_challenge,
        r.1.code_challenge_method == input.code_challenge_method,
        r.1.created_at == now,
        r.1.expires_at == now + AUTHORIZATION_CODE_TTL_NANOS,
        !r.1.used,
{
    let code: String = generate_token();
    let code_hash: String = hash_token(code.as_str());
    let record = OAuthAuthorizationCode {
        id: new_random_id(),
        client_id: input.client_id.clone(),
        user_id,
        code_hash,
        redirect_uri: input.redirect_uri.clone(),
        code_challenge: input.code_challenge.clone(),
        code_challenge_method: input.code_challenge_method.clone(),
        expires_at: now + AUTHORIZATION_CODE_TTL_NANOS,
        used: false,
        created_at: now,
    };
    (code, record)
}

/// A fresh authorization code for `user_id` answering `input`, issued at the
/// clock's current instant: the raw code (sent to the client through the
/// redirect) and the record that stores its digest, redeemable for ten
/// minutes.
pub fn issue_authorization_code(input: &AuthorizeInput, user_id: EntityId) -> (r: (
    String,
    OAuthAuthorizationCode,
))
    ensures
        exists|id: u128| r.0@ == uuid_text(id),
        r.1.code_hash@ == token_digest(r.0@),
        r.1.client_id == input.client_id,
        r.1.user_id == user_id,
        r.1.redirect_uri == input.redirect_uri,
        r.1.code_challenge == input.code_challenge,
        r.1.code_challenge_method == input.code_challenge_method,
        r.1.expires_at == r.1.created_at + AUTHORIZATION_CODE_TTL_NANOS,
        !r.1.used,
        r.1.created_at >= 0,
        r.1.created_at <= MAX_CLOCK_NANOS,
{
    issue_authorization_code_at(input, user_id, current_time())
}

/// A code issued at `now` for an `S256` challenge equal to the digest of
/// `verifier` answers a token request from the same client and redirect URI
/// that presents `verifier` at every instant of the ten minutes after its
/// issue, with the user it was issued to, and is refused as expired at every
/// later instant.
pub proof fn lemma_code_lifetime(
    request: AuthorizeInput,
    stored: OAuthAuthorizationCode,
    token: TokenInput,
    verifier: Seq<char>,
    now: Timestamp,
    t: Timestamp,
)
    requires
        stored.client_id == request.client_id,
        stored.redirect_uri == request.redirect_uri,
        stored.code_challenge == request.code_challenge,
        stored.code_challenge_method == request.code_challenge_method,
        stored.created_at == now,
        stored.expires_at == now + AUTHORIZATION_CODE_TTL_NANOS,
        !stored.used,
        request.code_challenge_method@ == "S256"@,
        request.code_challenge@ == token_digest(verifier),
        token.client_id@ == request.client_id@,
        token.redirect_uri@ == request.redirect_uri@,
        token.code_verifier@ == verifier,
    ensures
        now <= t <= now + 600 * 1_000_000_000 ==> authorization_code_failure(token, Some(stored), t)
            is None,
        t > now + 600 * 1_000_000_000 ==> authorization_code_failure(token, Some(stored), t)
            == Some("authorization code expired"@),
{
}

/// The redirect that hands an authorization code back to the client.
pub fn authorization_redirect_url(redirect_uri: &str, code: &str, state: Option<&str>) -> (r:
    String)
    ensures
        r@ == redirect_uri@ + "?code="@ + code@ + (match state {
            Some(s) => "&state="@ + s@,
            None => Seq::empty(),
        }),
{
    let mut url: String = concat3(redirect_uri, "?code=", code);
    match state {
        Some(s) => {
            url.append("&state=");
            url.append(s);
        },
        None => {},
    }
    url
}

/// Only the authorization-code grant is supported.
pub fn check_grant_type(grant_type: &str) -> (r: Result<(), ApiError>)
    ensures
        r is Ok <==> grant_type@ == "authorization_code"@,
        r matches Err(e) ==> is_bad_request(e.0, "unsupported grant_type"@),
{
    if !str_eq(grant_type, "authorization_code") {
        return Err(ApiError(AppError::BadRequest(owned("unsupported grant_type"))));
    }
    Ok(())
}

/// Why a stored authorization code does not answer a token request at `now`,
/// if it does not. The checks run in this order: the code must exist, belong
/// to the requesting client and redirect URI, be unused and unexpired, use
/// the `S256` method, and the verifier's digest must equal the challenge.
pub open spec fn authorization_code_failure(
    input: TokenInput,
    stored: Option<OAuthAuthorizationCode>,
    now: Timestamp,
) -> Option<Seq<char>> {
    match stored {
        None => Some("invalid authorization code"@),
        Some(c) => if c.client_id@ != input.client_id@ {
            Some("client_id mismatch"@)
        } else if c.redirect_uri@ != input.redirect_uri@ {
            Some("redirect_uri mismatch"@)
        } else if c.used {
            Some("authorization code already used"@)
        } else if c.expires_at < now {
            Some("authorization code expired"@)
        } else if c.code_challenge_method@ != "S256"@ {
            Some("only S256 code_challenge_method is supported"@)
        } else if token_digest(input.code_verifier@) != c.code_challenge@ {
            Some("pkce verification failed"@)
        } else {
            None
        },
    }
}

/// Redeems an authorization code for a token request at `now`: the answer
/// is the user the code was issued to, or the first failed check as a
/// bad-request error.
pub fn redeem_authorization_code(
    input: &TokenInput,
    stored: Option<&OAuthAuthorizationCode>,
    now: Timestamp,
) -> (r: Result<EntityId, ApiError>)
    ensures
        match authorization_code_failure(
            *input,
            match stored {
                Some(c) => Some(*c),
                None => None,
            },
            now,
        ) {
            None => r matches Ok(uid) && uid == stored.unwrap().user_id,
            Some(m) => fails_bad_request(r, m),
        },
{
    let c: &OAuthAuthorizationCode = match stored {
        None => {
            return Err(ApiError(AppError::BadRequest(owned("invalid authorization code"))));
        },
        Some(c) => c,
    };
    if !str_eq(c.client_id.as_str(), input.client_id.as_str()) {
        return Err(ApiError(AppError::BadRequest(owned("client_id mismatch"))));
    }
    if !str_eq(c.redirect_uri.as_str(), input.redirect_uri.as_str()) {
        return Err(ApiError(AppError::BadRequest(owned("redirect_uri mismatch"))));
    }
    if c.used {
        return Err(ApiError(AppError::BadRequest(owned("authorization code already used"))));
    }
    if c.expires_at < now {
        return Err(ApiError(AppError::BadRequest(owned("authorization code expired"))));
    }
    if !str_eq(c.code_challenge_method.as_str(), "S256") {
        return Err(
            ApiError(AppError::BadRequest(owned("only S256 code_challenge_method is supported"))),
        );
    }
    let computed: String = hash_token(input.code_verifier.as_str());
    if !str_eq(computed.as_str(), c.code_challenge.as_str()) {
        return Err(ApiError(AppError::BadRequest(owned("pkce verification failed"))));
    }
    Ok(c.user_id)
}

/// Redeems an authorization code for a token request at `now` and consumes
/// it: the answer is that of `redeem_authorization_code`; on success the
/// looked-up code comes back marked used, otherwise it is left as it was.
pub fn redeem_and_consume(
    input: &TokenInput,
    stored: &mut Option<OAuthAuthorizationCode>,
    now: Timestamp,
) -> (r: Result<EntityId, ApiError>)
    ensures
        match authorization_code_failure(*input, *old(stored), now) {
            None => r matches Ok(uid) && *old(stored) matches Some(c) && uid == c.user_id
                && *final(stored) == Some(OAuthAuthorizationCode { used: true, ..c }),
            Some(m) => fails_bad_request(r, m) && *final(stored) == *old(stored),
        },
{
    let r = redeem_authorization_code(input, stored.as_ref(), now);
    if r.is_ok() {
        match stored.take() {
            Some(c) => {
                *stored = Some(OAuthAuthorizationCode { used: true, ..c });
            },
            None => {},
        }
    }
    r
}

/// An authorization code is exchanged at most once: once a token request has
/// redeemed it, the consumed code refuses that same request, at any later
/// instant, as already used.
pub proof fn lemma_code_exchanged_at_most_once(
    input: TokenInput,
    code: OAuthAuthorizationCode,
    first: Timestamp,
    later: Timestamp,
)
    requires
        authorization_code_failure(input, Some(code), first) is None,
    ensures
        authorization_code_failure(input, Some(OAuthAuthorizationCode { used: true, ..code }), later)
            == Some("authorization code already used"@),
{
}

/// The authorization-code flow round trip: a code issued for an
/// authorization request with an `S256` challenge equal to the digest of
/// `verifier` is redeemed, within its ten minutes and only once, by a token
/// request from the same client and redirect URI that presents `verifier`;
/// the token request then obtains the user the code was issued to.
pub proof fn lemma_issued_code_is_redeemable(
    request: AuthorizeInput,
    stored: OAuthAuthorizationCode,
    token: TokenInput,
    verifier: Seq<char>,
    now: Timestamp,
)
    requires
        stored.client_id == request.client_id,
        stored.redirect_uri == request.redirect_uri,
        stored.code_challenge == request.code_challenge,
        stored.code_challenge_method == request.code_challenge_method,
        stored.expires_at == stored.created_at + AUTHORIZATION_CODE_TTL_NANOS,
        !stored.used,
        request.code_challenge_method@ == "S256"@,
        request.code_challenge@ == token_digest(verifier),
        token.client_id@ == request.client_id@,
        token.redirect_uri@ == request.redirect_uri@,
        token.code_verifier@ == verifier,
        now <= stored.created_at + AUTHORIZATION_CODE_TTL_NANOS,
    ensures
        authorization_code_failure(token, Some(stored), now) is None,
{
}

/// A redeemed code was used by its own client and redirect URI, was neither
/// used nor expired, and the presented verifier matches its PKCE challenge.
pub proof fn lemma_redeemed_code_is_bound(
    token: TokenInput,
    stored: OAuthAuthorizationCode,
    now: Timestamp,
)
    requires
        authorization_code_failure(token, Some(stored), now) is None,
    ensures
        stored.client_id@ == token.client_id@,
        stored.redirect_uri@ == token.redirect_uri@,
        !stored.used,
        now <= stored.expires_at,
        stored.code_challenge_method@ == "S256"@,
        token_digest(token.code_verifier@) == stored.code_challenge@,
{
}

/// An active account whose stored hash was made from `password` (as
/// `hash_password` makes it: the hash parses and the password verifies
/// against it) logs in with that password.
pub proof fn lemma_hashed_password_logs_in(user: User, password: Seq<char>)
    requires
        password_hash_parses(user.password_hash@),
        password_verifies(password, user.password_hash@),
        user.status == UserStatus::Active,
    ensures
        login_accepted(Some(user), password),
{
}

/// A refresh token is accepted from its creation until it expires, as long
/// as it is not revoked.
pub proof fn lemma_fresh_refresh_token_is_accepted(token: RefreshToken, now: Timestamp)
    requires
        token.revoked_at is None,
        now <= token.expires_at,
    ensures
        refresh_token_failure(Some(token), now) is None,
{
}

/// A revoked (logged-out) or expired refresh token is refused.
pub proof fn lemma_revoked_refresh_token_is_refused(token: RefreshToken, now: Timestamp)
    requires
        token.revoked_at is Some || now > token.expires_at,
    ensures
        refresh_token_failure(Some(token), now) is Some,
{
}

/// An authorization code is redeemed at most once: once marked used, every
/// token request presenting it is refused.
pub proof fn lemma_used_code_is_refused(token: TokenInput, stored: OAuthAuthorizationCode, now: Timestamp)
    requires
        stored.used,
    ensures
        authorization_code_failure(token, Some(stored), now) is Some,
{
}

/// The role-management permission of an actor, given the role text of the
/// actor's token; `denied` is the message for non-admins.
fn authorize_admin_action(actor_role_text: &str, denied: &str) -> (r: Result<UserRole, ApiError>)
    ensures
        user_role_from_name(actor_role_text@) is None ==> fails_unauthorized(r, "invalid token role"@,
        ),
        user_role_from_name(actor_role_text@) matches Some(role) ==> (if role == UserRole::Admin {
            r == Ok::<UserRole, ApiError>(role)
        } else {
            fails_forbidden(r, denied@)
        }),
{
    let role: UserRole = match UserRole::from_str(actor_role_text) {
        None => {
            return Err(ApiError(AppError::Unauthorized(owned("invalid token role"))));
        },
        Some(r) => r,
    };
    if !role.can_manage_users() {
        return Err(ApiError(AppError::Forbidden(owned(denied))));
    }
    Ok(role)
}

/// Only admins may create accounts directly.
pub fn authorize_user_creation(actor_role_text: &str) -> (r: Result<UserRole, ApiError>)
    ensures
        user_role_from_name(actor_role_text@) is None ==> fails_unauthorized(r, "invalid token role"@,
        ),
        user_role_from_name(actor_role_text@) matches Some(role) ==> (if role == UserRole::Admin {
            r == Ok::<UserRole, ApiError>(role)
        } else {
            fails_forbidden(r, "only admins can create users"@)
        }),
{
    authorize_admin_action(actor_role_text, "only admins can create users")
}

/// Only admins may change roles.
pub fn authorize_role_change(actor_role_text: &str) -> (r: Result<UserRole, ApiError>)
    ensures
        user_role_from_name(actor_role_text@) is None ==> fails_unauthorized(r, "invalid token role"@,
        ),
        user_role_from_name(actor_role_text@) matches Some(role) ==> (if role == UserRole::Admin {
            r == Ok::<UserRole, ApiError>(role)
        } else {
            fails_forbidden(r, "only admins can change user roles"@)
        }),
{
    authorize_admin_action(actor_role_text, "only admins can change user roles")
}

/// The message for a role text that names no role.
pub open spec fn invalid_role_message(text: Seq<char>) -> Seq<char> {
    "invalid role: '"@ + text + "'. expected: admin, architect, viewer"@
}

/// The role requested for a role change; an unknown role text is a bad
/// request.
pub fn parse_requested_role(text: &str) -> (r: Result<UserRole, ApiError>)
    ensures
        user_role_from_name(text@) matches Some(role) ==> r == Ok::<UserRole, ApiError>(role),
        user_role_from_name(text@) is None ==> fails_bad_request(r, invalid_role_message(text@),
        ),
{
    match UserRole::from_str(text) {
        Some(role) => Ok(role),
        None => Err(
            ApiError(
                AppError::BadRequest(
                    concat3("invalid role: '", text, "'. expected: admin, architect, viewer"),
                ),
            ),
        ),
    }
}

/// The role of an account created by an admin: the requested role, or viewer
/// when none is requested.
pub fn resolve_new_user_role(requested: Option<&str>) -> (r: Result<UserRole, ApiError>)
    ensures
        requested is None ==> r == Ok::<UserRole, ApiError>(UserRole::Viewer),
        requested matches Some(t) ==> (match user_role_from_name(t@) {
            Some(role) => r == Ok::<UserRole, ApiError>(role),
            None => fails_bad_request(r, invalid_role_message(t@)),
        }),
{
    match requested {
        None => Ok(UserRole::Viewer),
        Some(t) => parse_requested_role(t),
    }
}

/// Whether changing `current` to `new_role` takes admin rights away.
pub open spec fn is_demotion(current: UserRole, new_role: UserRole) -> bool {
    current == UserRole::Admin && new_role != UserRole::Admin
}

/// The lockout guard of a role change: an admin cannot demote themself. The
/// answer tells whether the change is a demotion of an admin.
pub fn check_role_change(target: &User, new_role: UserRole, actor_id: EntityId) -> (r: Result<
    bool,
    ApiError,
>)
    ensures
        is_demotion(target.role, new_role) && target.id == actor_id ==> fails_forbidden(r, "cannot demote your own admin role"@),
        !(is_demotion(target.role, new_role) && target.id == actor_id) ==> r == Ok::<
            bool,
            ApiError,
        >(is_demotion(target.role, new_role)),
{
    let demotion: bool = target.role.is_admin() && !new_role.is_admin();
    if demotion && target.id == actor_id {
        return Err(ApiError(AppError::Forbidden(owned("cannot demote your own admin role"))));
    }
    Ok(demotion)
}

/// The last-admin guard of a role change: a demotion is refused when at most
/// one admin account remains.
pub fn check_admin_count(demotion: bool, admin_count: u64) -> (r: Result<(), ApiError>)
    ensures
        r is Ok <==> !demotion || admin_count > 1,
        r matches Err(e) ==> is_forbidden(e.0, "cannot demote the last remaining admin"@),
{
    if demotion && admin_count <= 1 {
        return Err(ApiError(AppError::Forbidden(owned("cannot demote the last remaining admin"))));
    }
    Ok(())
}

/// The admin accounts among `roles` (accounts keyed by id).
pub open spec fn admins_of(roles: Map<EntityId, UserRole>) -> Set<EntityId> {
    roles.dom().filter(|u: EntityId| roles[u] == UserRole::Admin)
}

/// The platform never loses its last admin through a role change: when at
/// least one admin exists and both guards let a change of `target` to
/// `new_role` through, at least one admin remains afterwards.
pub proof fn lemma_role_change_keeps_an_admin(
    roles: Map<EntityId, UserRole>,
    target: EntityId,
    new_role: UserRole,
    actor: EntityId,
)
    requires
        roles.dom().finite(),
        roles.dom().contains(target),
        admins_of(roles).len() >= 1,
        !(is_demotion(roles[target], new_role) && target == actor),
        !is_demotion(roles[target], new_role) || admins_of(roles).len() > 1,
    ensures
        admins_of(roles.insert(target, new_role)).len() >= 1,
{
    let before = admins_of(roles);
    let after = admins_of(roles.insert(target, new_role));
    roles.dom().lemma_len_filter(|u: EntityId| roles[u] == UserRole::Admin);
    roles.insert(target, new_role).dom().lemma_len_filter(
        |u: EntityId| roles.insert(target, new_role)[u] == UserRole::Admin,
    );
    if is_demotion(roles[target], new_role) {
        assert(after =~= before.remove(target));
        vstd::set::axiom_set_remove_len(before, target);
    } else if new_role == UserRole::Admin {
        assert(before.subset_of(after));
        vstd::set_lib::lemma_len_subset(before, after);
    } else {
        assert(after =~= before);
    }
}

/// An admin can never demote themself: whenever the self-demotion guard of
/// `check_role_change` lets a change of the actor's own role through, an
/// admin stays an admin.
pub proof fn lemma_no_self_demotion(
    current: UserRole,
    new_role: UserRole,
    target: EntityId,
    actor: EntityId,
)
    requires
        !(is_demotion(current, new_role) && target == actor),
        target == actor,
        current == UserRole::Admin,
    ensures
        new_role == UserRole::Admin,
{
}

} // verus!
