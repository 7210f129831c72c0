use enterprise_architecture_platform::auth::{
    authorization_redirect_url, authorize_role_change, authorize_user_creation, check_admin_count,
    check_authorize_request, check_email_available, check_grant_type, check_login,
    check_public_registration, check_refresh_token, check_role_change, claims_for,
    create_refresh_token_entry, extract_bearer_token, find_oauth_client, issue_authorization_code,
    logout_target, parse_requested_role, redeem_and_consume, redeem_authorization_code,
    resolve_new_user_role,
    AuthorizeInput, Claims, OAuthAuthorizationCode, OAuthClientConfig, RefreshToken, TokenInput,
};
use enterprise_architecture_platform::crypto::{generate_token, hash_password, hash_token, sha256, verify_password};
use enterprise_architecture_platform::enums::{UserRole, UserStatus};
use enterprise_architecture_platform::ids::{current_time, new_random_id, uuid_string};
use enterprise_architecture_platform::user::{user_to_dto, User};
use enterprise_architecture_platform::user_error::{ApiError, AppError, DbFailure, DomainError};

fn app_error(e: &ApiError) -> (&'static str, String) {
    match &e.0 {
        AppError::NotFound(m) => ("not_found", m.clone()),
        AppError::BadRequest(m) => ("bad_request", m.clone()),
        AppError::Unauthorized(m) => ("unauthorized", m.clone()),
        AppError::Forbidden(m) => ("forbidden", m.clone()),
        AppError::Conflict(m) => ("conflict", m.clone()),
        AppError::Database(m) => ("database", m.clone()),
        AppError::Internal(m) => ("internal", m.clone()),
    }
}

fn user_with(id: u128, role: UserRole, status: UserStatus, hash: &str) -> User {
    User {
        id,
        email: "a@b.c".to_string(),
        name: "A".to_string(),
        password_hash: hash.to_string(),
        role,
        status,
        created_at: 0,
        updated_at: 0,
    }
}

#[test]
fn token_digest_is_base64url_sha256() {
    // SHA-256("abc") in URL-safe base64 without padding.
    assert_eq!(hash_token("abc"), "ungWv48Bz-pBQUDeXa4iI7ADYaOWF3qctBD_YfIAFa0");
    assert_eq!(sha256(b"").len(), 32);
    assert_ne!(hash_token("abc"), "abc");
}

#[test]
fn pkce_reference_example() {
    // RFC 7636, appendix B.
    assert_eq!(
        hash_token("dBjftJeZ4CVP-mB92K27uhbUJU1p1r_wW1gFWFOEjXk"),
        "E9Melhoa2OwvFrEMTJguCHaoeK1t8URWbuGJSstw-cM"
    );
}

#[test]
fn uuid_text_and_random_ids() {
    assert_eq!(
        uuid_string(0x0123_4567_89ab_cdef_0011_2233_4455_6677),
        "01234567-89ab-cdef-0011-223344556677"
    );
    let id = new_random_id();
    assert_eq!((id >> 76) & 0xf, 4);
    assert_eq!((id >> 62) & 0x3, 2);
    let t = generate_token();
    assert_eq!(t.len(), 36);
    assert!(current_time() > 1_600_000_000_000_000_000);
}

#[test]
fn password_hash_roundtrip() {
    let h = hash_password("s3cret-pass").unwrap();
    assert_ne!(h, "s3cret-pass");
    assert!(verify_password("s3cret-pass", &h).unwrap());
    assert!(!verify_password("wrong", &h).unwrap());
    let err = verify_password("x", "not a phc string").unwrap_err();
    assert_eq!(app_error(&err), ("internal", "password hash error".to_string()));
}

#[test]
fn bearer_header_extraction() {
    assert_eq!(extract_bearer_token(Some("Bearer abc.def")).unwrap(), "abc.def");
    let e = extract_bearer_token(None).unwrap_err();
    assert_eq!(app_error(&e), ("unauthorized", "missing authorization header".to_string()));
    let e = extract_bearer_token(Some("Basic xyz")).unwrap_err();
    assert_eq!(app_error(&e), ("unauthorized", "invalid authorization header".to_string()));
    assert_eq!(extract_bearer_token(Some("Bearer ")).unwrap(), "");
}

#[test]
fn claims_for_user() {
    let u = user_with(0x0123_4567_89ab_cdef_0011_2233_4455_6677, UserRole::Architect, UserStatus::Active, "h");
    let c = claims_for(&u, 1_000, 3_600);
    assert_eq!(c.sub, "01234567-89ab-cdef-0011-223344556677");
    assert_eq!(c.iat, 1_000);
    assert_eq!(c.exp, 4_600);
    assert_eq!(c.role, "architect");
    assert_eq!(c.user_role(), UserRole::Architect);
    let odd = Claims { sub: String::new(), exp: 0, iat: 0, user_id: 1, role: "root".to_string() };
    assert_eq!(odd.user_role(), UserRole::Viewer);
}

#[test]
fn refresh_token_entry_stores_digest() {
    let (raw, rec) = create_refresh_token_entry(5, 60);
    assert_eq!(rec.user_id, 5);
    assert_eq!(rec.token_hash, hash_token(&raw));
    assert_eq!(rec.expires_at - rec.created_at, 60_000_000_000);
    assert!(rec.revoked_at.is_none());
}

#[test]
fn refresh_and_logout_checks() {
    let t = RefreshToken { id: 1, user_id: 2, token_hash: "h".to_string(), expires_at: 100, revoked_at: None, created_at: 0 };
    assert_eq!(check_refresh_token(Some(&t), 100).unwrap(), 2);
    let e = check_refresh_token(Some(&t), 101).unwrap_err();
    assert_eq!(app_error(&e), ("unauthorized", "token expired".to_string()));
    let revoked = RefreshToken { revoked_at: Some(50), ..t };
    let e = check_refresh_token(Some(&revoked), 60).unwrap_err();
    assert_eq!(app_error(&e), ("unauthorized", "token revoked".to_string()));
    let e = check_refresh_token(None, 0).unwrap_err();
    assert_eq!(app_error(&e), ("unauthorized", "invalid refresh token".to_string()));
    assert_eq!(logout_target(Some(&revoked)).unwrap(), 1);
    assert!(logout_target(None).is_err());
}

#[test]
fn login_checks() {
    let h = hash_password("correct horse").unwrap();
    let active = user_with(1, UserRole::Viewer, UserStatus::Active, &h);
    assert!(check_login(Some(&active), "correct horse").is_ok());
    let e = check_login(Some(&active), "wrong").unwrap_err();
    assert_eq!(app_error(&e), ("unauthorized", "invalid credentials".to_string()));
    let banned = user_with(1, UserRole::Viewer, UserStatus::Banned, &h);
    let e = check_login(Some(&banned), "correct horse").unwrap_err();
    assert_eq!(app_error(&e), ("forbidden", "user is not active".to_string()));
    let e = check_login(None, "x").unwrap_err();
    assert_eq!(app_error(&e), ("unauthorized", "invalid credentials".to_string()));
}

#[test]
fn registration_gates() {
    let e = check_public_registration(false).unwrap_err();
    assert_eq!(app_error(&e), ("forbidden", "public registration is disabled".to_string()));
    assert!(check_public_registration(true).is_ok());
    let e = check_email_available(true).unwrap_err();
    assert_eq!(app_error(&e), ("conflict", "email already exists".to_string()));
    assert!(check_email_available(false).is_ok());
}

fn clients() -> Vec<OAuthClientConfig> {
    vec![
        OAuthClientConfig { client_id: "web".to_string(), redirect_uris: vec!["https://app/cb".to_string()] },
        OAuthClientConfig { client_id: "cli".to_string(), redirect_uris: vec![] },
    ]
}

fn authorize_input(client: &str, redirect: &str) -> AuthorizeInput {
    AuthorizeInput {
        client_id: client.to_string(),
        redirect_uri: redirect.to_string(),
        code_challenge: "E9Melhoa2OwvFrEMTJguCHaoeK1t8URWbuGJSstw-cM".to_string(),
        code_challenge_method: "S256".to_string(),
        state: Some("xyz".to_string()),
        scope: None,
    }
}

#[test]
fn authorize_request_checks() {
    let cs = clients();
    assert_eq!(find_oauth_client(&cs, "cli").unwrap().client_id, "cli");
    assert!(find_oauth_client(&cs, "nope").is_none());
    assert!(check_authorize_request(&cs, &authorize_input("web", "https://app/cb")).is_ok());
    let e = check_authorize_request(&cs, &authorize_input("nope", "https://app/cb")).unwrap_err();
    assert_eq!(app_error(&e), ("bad_request", "unknown client_id".to_string()));
    let e = check_authorize_request(&cs, &authorize_input("web", "https://evil/cb")).unwrap_err();
    assert_eq!(app_error(&e), ("bad_request", "invalid redirect_uri".to_string()));
    let shadowed = vec![
        OAuthClientConfig { client_id: "dup".to_string(), redirect_uris: vec!["https://a/cb".to_string()] },
        OAuthClientConfig { client_id: "dup".to_string(), redirect_uris: vec!["https://b/cb".to_string()] },
    ];
    assert!(check_authorize_request(&shadowed, &authorize_input("dup", "https://a/cb")).is_ok());
    let e = check_authorize_request(&shadowed, &authorize_input("dup", "https://b/cb")).unwrap_err();
    assert_eq!(app_error(&e), ("bad_request", "invalid redirect_uri".to_string()));
    assert_eq!(authorization_redirect_url("https://app/cb", "c0de", Some("xyz")), "https://app/cb?code=c0de&state=xyz");
    assert_eq!(authorization_redirect_url("https://app/cb", "c0de", None), "https://app/cb?code=c0de");
}

fn token_input(code: &str, verifier: &str) -> TokenInput {
    TokenInput {
        grant_type: "authorization_code".to_string(),
        code: code.to_string(),
        client_id: "web".to_string(),
        redirect_uri: "https://app/cb".to_string(),
        code_verifier: verifier.to_string(),
    }
}

#[test]
fn authorization_code_round_trip() {
    let input = authorize_input("web", "https://app/cb");
    let (raw, stored) = issue_authorization_code(&input, 77);
    assert_eq!(stored.code_hash, hash_token(&raw));
    assert_eq!(stored.expires_at - stored.created_at, 600_000_000_000);
    assert!(!stored.used);
    let req = token_input(&raw, "dBjftJeZ4CVP-mB92K27uhbUJU1p1r_wW1gFWFOEjXk");
    assert!(check_grant_type(&req.grant_type).is_ok());
    assert_eq!(redeem_authorization_code(&req, Some(&stored), stored.created_at + 1).unwrap(), 77);
}

#[test]
fn authorization_code_failures_in_order() {
    let input = authorize_input("web", "https://app/cb");
    let (raw, stored) = issue_authorization_code(&input, 77);
    let now = stored.created_at;
    let good = token_input(&raw, "dBjftJeZ4CVP-mB92K27uhbUJU1p1r_wW1gFWFOEjXk");
    let e = check_grant_type("password").unwrap_err();
    assert_eq!(app_error(&e), ("bad_request", "unsupported grant_type".to_string()));
    let e = redeem_authorization_code(&good, None, now).unwrap_err();
    assert_eq!(app_error(&e), ("bad_request", "invalid authorization code".to_string()));
    let other_client = TokenInput { client_id: "cli".to_string(), ..token_input(&raw, "v") };
    let e = redeem_authorization_code(&other_client, Some(&stored), now).unwrap_err();
    assert_eq!(app_error(&e).1, "client_id mismatch");
    let other_redirect = TokenInput { redirect_uri: "https://app/other".to_string(), ..token_input(&raw, "v") };
    let e = redeem_authorization_code(&other_redirect, Some(&stored), now).unwrap_err();
    assert_eq!(app_error(&e).1, "redirect_uri mismatch");
    let used = OAuthAuthorizationCode { used: true, ..issue_authorization_code(&input, 77).1 };
    let e = redeem_authorization_code(&good, Some(&used), now).unwrap_err();
    assert_eq!(app_error(&e).1, "authorization code already used");
    let e = redeem_authorization_code(&good, Some(&stored), stored.expires_at + 1).unwrap_err();
    assert_eq!(app_error(&e).1, "authorization code expired");
    let plain = OAuthAuthorizationCode { code_challenge_method: "plain".to_string(), ..issue_authorization_code(&input, 77).1 };
    let e = redeem_authorization_code(&good, Some(&plain), plain.created_at).unwrap_err();
    assert_eq!(app_error(&e).1, "only S256 code_challenge_method is supported");
    let bad_verifier = token_input(&raw, "not-the-verifier");
    let e = redeem_authorization_code(&bad_verifier, Some(&stored), now).unwrap_err();
    assert_eq!(app_error(&e), ("bad_request", "pkce verification failed".to_string()));
}

#[test]
fn account_administration_permissions() {
    assert_eq!(authorize_user_creation("admin").unwrap(), UserRole::Admin);
    let e = authorize_user_creation("architect").unwrap_err();
    assert_eq!(app_error(&e), ("forbidden", "only admins can create users".to_string()));
    let e = authorize_role_change("viewer").unwrap_err();
    assert_eq!(app_error(&e), ("forbidden", "only admins can change user roles".to_string()));
    let e = authorize_role_change("superuser").unwrap_err();
    assert_eq!(app_error(&e), ("unauthorized", "invalid token role".to_string()));
    assert_eq!(resolve_new_user_role(None).unwrap(), UserRole::Viewer);
    assert_eq!(resolve_new_user_role(Some("architect")).unwrap(), UserRole::Architect);
    let e = resolve_new_user_role(Some("boss")).unwrap_err();
    assert_eq!(app_error(&e), ("bad_request", "invalid role: 'boss'. expected: admin, architect, viewer".to_string()));
    assert_eq!(parse_requested_role("admin").unwrap(), UserRole::Admin);
}

#[test]
fn role_change_guards() {
    let admin = user_with(1, UserRole::Admin, UserStatus::Active, "h");
    let e = check_role_change(&admin, UserRole::Viewer, 1).unwrap_err();
    assert_eq!(app_error(&e), ("forbidden", "cannot demote your own admin role".to_string()));
    assert_eq!(check_role_change(&admin, UserRole::Viewer, 2).unwrap(), true);
    assert_eq!(check_role_change(&admin, UserRole::Admin, 1).unwrap(), false);
    let viewer = user_with(3, UserRole::Viewer, UserStatus::Active, "h");
    assert_eq!(check_role_change(&viewer, UserRole::Admin, 1).unwrap(), false);
    let e = check_admin_count(true, 1).unwrap_err();
    assert_eq!(app_error(&e), ("forbidden", "cannot demote the last remaining admin".to_string()));
    assert!(check_admin_count(true, 2).is_ok());
    assert!(check_admin_count(false, 0).is_ok());
}

#[test]
fn users_and_dtos() {
    let u = User::new("e@x.io".to_string(), "Eve".to_string(), "hash".to_string(), UserRole::Architect);
    assert_eq!(u.status, UserStatus::Active);
    assert_eq!(u.created_at, u.updated_at);
    assert!(u.can_modify(u.id, UserRole::Viewer));
    assert!(u.can_modify(u.id.wrapping_add(1), UserRole::Admin));
    assert!(!u.can_modify(u.id.wrapping_add(1), UserRole::Architect));
    let d = user_to_dto(&u);
    assert_eq!(d.role, "architect");
    assert_eq!(d.status, "active");
    assert_eq!(d.email, "e@x.io");
    let mut u2 = u;
    u2.set_role(UserRole::Admin);
    assert_eq!(u2.role, UserRole::Admin);
    assert!(u2.updated_at >= u2.created_at);
}

#[test]
fn error_answers() {
    let e = ApiError::from_domain_error(DomainError::EmailExists);
    assert_eq!(e.status(), (409, "conflict"));
    let (code, body) = e.error_response();
    assert_eq!(code, 409);
    assert_eq!(body.error, "conflict");
    assert_eq!(body.message, "conflict: email already exists");
    let e = ApiError::from_domain_error(DomainError::Database("io".to_string()));
    assert_eq!(e.status(), (500, "database_error"));
    assert_eq!(ApiError::from_domain_error(DomainError::PkceFailed).status(), (400, "bad_request"));
    assert_eq!(ApiError::from_domain_error(DomainError::UserInactive).status(), (403, "forbidden"));
    assert_eq!(ApiError::from_domain_error(DomainError::UserNotFound).status(), (404, "not_found"));
    assert_eq!(ApiError::from_domain_error(DomainError::TokenRevoked).status(), (401, "unauthorized"));
    assert_eq!(DomainError::TokenExpired.message(), "token expired");
    assert_eq!(AppError::Internal("x".to_string()).message(), "internal error: x");
}

#[test]
fn database_failures_are_classified() {
    let e = AppError::from_db_failure(DbFailure::RecordNotFound("user".to_string()));
    assert!(matches!(e, AppError::NotFound(ref m) if m == "user"));
    let e = AppError::from_db_failure(DbFailure::Other("UNIQUE constraint failed: users.email".to_string()));
    assert!(matches!(e, AppError::Conflict(_)));
    let e = AppError::from_db_failure(DbFailure::Other("duplicate key value violates unique constraint".to_string()));
    assert!(matches!(e, AppError::Conflict(_)));
    let e = AppError::from_db_failure(DbFailure::Other("disk I/O error".to_string()));
    assert!(matches!(e, AppError::Database(ref m) if m == "disk I/O error"));
}

#[test]
fn authorization_code_is_exchanged_once() {
    let input = authorize_input("web", "https://app/cb");
    let (raw, stored) = issue_authorization_code(&input, 77);
    let req = token_input(&raw, "dBjftJeZ4CVP-mB92K27uhbUJU1p1r_wW1gFWFOEjXk");
    let mut slot = Some(stored);
    let now = slot.as_ref().unwrap().created_at + 1;
    assert_eq!(redeem_and_consume(&req, &mut slot, now).unwrap(), 77);
    assert!(slot.as_ref().unwrap().used);
    let e = redeem_and_consume(&req, &mut slot, now + 1).unwrap_err();
    assert_eq!(app_error(&e), ("bad_request", "authorization code already used".to_string()));
    assert!(slot.as_ref().unwrap().used);
    let mut missing: Option<OAuthAuthorizationCode> = None;
    let e = redeem_and_consume(&req, &mut missing, now).unwrap_err();
    assert_eq!(app_error(&e), ("bad_request", "invalid authorization code".to_string()));
    assert!(missing.is_none());
}
