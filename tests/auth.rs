use blog_auth::context::Context;
use blog_auth::error::Error;
use blog_auth::identity::Identity;
use blog_auth::jwt::{
    authorize, authorize_at, check_claims, create_jwt, issue_token, parse_jwt_from_header,
    verify_token, DecodedClaims,
};
use blog_auth::role::Role;

const SECRET: &[u8] = b"a-server-side-signing-secret";
const T0: u64 = 1_700_000_000;

fn user(key: &str) -> Identity {
    Identity::new("user", key)
}

fn bearer(token: &str) -> String {
    format!("Bearer {}", token)
}

#[test]
fn issued_token_verifies_immediately() {
    let token = issue_token(&user("42"), &Role::User, SECRET, T0, 60).unwrap();
    let (id, role) = authorize_at(Some(&bearer(&token)), SECRET, T0).unwrap();
    assert_eq!(id, user("42"));
    assert_eq!(id.collection, "user");
    assert_eq!(id.key, "42");
    assert_eq!(role, Role::User);
}

#[test]
fn issued_token_fails_after_clock_advance() {
    let token = issue_token(&user("42"), &Role::User, SECRET, T0, 60).unwrap();
    let r = authorize_at(Some(&bearer(&token)), SECRET, T0 + 61);
    assert!(matches!(r, Err(Error::JWTTokenError(_))));
}

#[test]
fn token_is_valid_up_to_its_expiry_instant() {
    let token = issue_token(&user("7"), &Role::Admin, SECRET, T0, 60).unwrap();
    let (id, role) = verify_token(&token, SECRET, T0 + 60).unwrap();
    assert_eq!(id, user("7"));
    assert_eq!(role, Role::Admin);
    assert!(matches!(verify_token(&token, SECRET, T0 + 60 + 1), Err(Error::JWTTokenError(_))));
}

#[test]
fn round_trip_keeps_identity_and_role() {
    for (collection, key, role) in [("user", "abc123", Role::User), ("admin", "x", Role::Admin), ("user", "", Role::Admin)] {
        let id = Identity::new(collection, key);
        let token = issue_token(&id, &role, SECRET, T0, 3600).unwrap();
        let (got, got_role) = authorize_at(Some(&bearer(&token)), SECRET, T0 + 10).unwrap();
        assert_eq!(got, id);
        assert_eq!(got_role, role);
    }
}

#[test]
fn expired_token_never_succeeds() {
    let token = issue_token(&user("1"), &Role::Admin, SECRET, T0, 0).unwrap();
    assert!(verify_token(&token, SECRET, T0).is_ok());
    for later in [T0 + 1, T0 + 100, u64::MAX] {
        assert!(matches!(verify_token(&token, SECRET, later), Err(Error::JWTTokenError(_))));
    }
}

#[test]
fn token_under_another_secret_is_refused() {
    let token = issue_token(&user("42"), &Role::User, SECRET, T0, 60).unwrap();
    let r = verify_token(&token, b"another-secret", T0);
    assert!(matches!(r, Err(Error::JWTTokenError(_))));
}

#[test]
fn garbage_token_is_refused() {
    let r = authorize_at(Some("Bearer not.a.token"), SECRET, T0);
    assert!(matches!(r, Err(Error::JWTTokenError(_))));
}

#[test]
fn header_with_other_scheme_is_malformed() {
    let r = authorize_at(Some("Token abc"), SECRET, T0);
    assert!(matches!(r, Err(Error::JWTInvalidAuthHeader)));
}

#[test]
fn header_without_bearer_prefix_is_always_malformed() {
    let token = issue_token(&user("42"), &Role::User, SECRET, T0, 60).unwrap();
    for h in ["", "bearer abc", "Bearer", "BearerX", " Bearer abc", &token, &format!("bearer {}", token)] {
        let r = authorize_at(Some(h), SECRET, T0);
        assert!(matches!(r, Err(Error::JWTInvalidAuthHeader)), "header {:?}", h);
    }
}

#[test]
fn missing_header_is_missing_credential() {
    assert!(matches!(authorize_at(None, SECRET, T0), Err(Error::JWTTokenNotFoundOnHeader)));
    assert!(matches!(authorize(None, SECRET), Err(Error::JWTTokenNotFoundOnHeader)));
    assert!(matches!(parse_jwt_from_header(None), Err(Error::JWTTokenNotFoundOnHeader)));
}

#[test]
fn bearer_prefix_is_stripped_once() {
    assert_eq!(parse_jwt_from_header(Some("Bearer abc")).unwrap(), "abc");
    assert_eq!(parse_jwt_from_header(Some("Bearer Bearer abc")).unwrap(), "Bearer abc");
    assert_eq!(parse_jwt_from_header(Some("Bearer ")).unwrap(), "");
}

#[test]
fn create_jwt_uses_the_current_clock() {
    let token = create_jwt(&user("42"), &Role::Admin, SECRET, 30).unwrap();
    let (id, role) = authorize(Some(&bearer(&token)), SECRET).unwrap();
    assert_eq!(id, user("42"));
    assert_eq!(role, Role::Admin);
    let ctx = Context::from_header(Some(&bearer(&token)), SECRET).unwrap();
    assert_eq!(ctx.user_id, user("42"));
    assert_eq!(ctx.user_role, Role::Admin);
}

#[test]
fn create_jwt_refuses_negative_lifetime() {
    assert!(matches!(create_jwt(&user("42"), &Role::User, SECRET, -1), Err(Error::JWTTokenCreationError(_))));
}

#[test]
fn issue_refuses_expiry_past_u64() {
    assert!(matches!(issue_token(&user("42"), &Role::User, SECRET, u64::MAX, 1), Err(Error::JWTTokenCreationError(_))));
}

fn decoded(sub: Option<&str>, role: Option<&str>, exp: Option<u64>) -> Result<DecodedClaims, String> {
    Ok(DecodedClaims { sub: sub.map(String::from), role: role.map(String::from), exp })
}

#[test]
fn check_claims_accepts_well_formed_claims() {
    let (id, role) = check_claims(decoded(Some("user:42"), Some("Admin"), Some(T0)), T0).unwrap();
    assert_eq!(id, user("42"));
    assert_eq!(role, Role::Admin);
}

#[test]
fn check_claims_refuses_each_defect() {
    let bad = [
        decoded(Some("user:42"), Some("User"), Some(T0 - 1)),
        decoded(Some("user42"), Some("User"), Some(T0)),
        decoded(Some("user:4:2"), Some("User"), Some(T0)),
        decoded(Some("user:42"), Some("admin"), Some(T0)),
        decoded(Some("user:42"), Some("Root"), Some(T0)),
        decoded(None, Some("User"), Some(T0)),
        decoded(Some("user:42"), None, Some(T0)),
        decoded(Some("user:42"), Some("User"), None),
        Err(String::from("InvalidSignature")),
    ];
    for d in bad {
        assert!(matches!(check_claims(d, T0), Err(Error::JWTTokenError(_))));
    }
}

#[test]
fn identity_with_colon_does_not_round_trip() {
    let id = Identity::new("user", "a:b");
    let token = issue_token(&id, &Role::User, SECRET, T0, 60).unwrap();
    assert!(matches!(verify_token(&token, SECRET, T0), Err(Error::JWTTokenError(_))));
}

#[test]
fn subject_string_form() {
    assert_eq!(user("42").to_subject(), "user:42");
    let id = Identity::from_subject("article:xyz").unwrap();
    assert_eq!(id, Identity::new("article", "xyz"));
    assert!(Identity::from_subject("nocolon").is_none());
    assert!(Identity::from_subject("a:b:c").is_none());
    assert_eq!(Identity::from_subject(":").unwrap(), Identity::new("", ""));
}

#[test]
fn role_names() {
    assert_eq!(Role::User.name(), "User");
    assert_eq!(Role::Admin.name(), "Admin");
    assert_eq!(Role::from_str("Admin"), Some(Role::Admin));
    assert_eq!(Role::from_str("User"), Some(Role::User));
    assert_eq!(Role::from_str("admin"), None);
    assert_eq!(Role::from_str("anything"), None);
    assert_eq!(Role::from_str(""), None);
}

fn ctx(key: &str, role: Role) -> Context {
    Context { user_id: user(key), user_role: role }
}

#[test]
fn user_may_not_act_on_another_users_resource() {
    let r = ctx("1", Role::User).check_permissions(Some(user("2")));
    match r {
        Err(Error::ServerPermissionDenied(text)) => assert_eq!(text, "Could not perform action(s)"),
        _ => panic!("the action must be denied"),
    }
}

#[test]
fn admin_may_act_on_another_users_resource() {
    assert!(ctx("1", Role::Admin).check_permissions(Some(user("2"))).is_ok());
}

#[test]
fn owner_may_act_on_own_resource() {
    assert!(ctx("1", Role::User).check_permissions(Some(user("1"))).is_ok());
    assert!(ctx("1", Role::User).check_permission(Some(&user("1")), false).is_ok());
    let other_collection = Identity::new("article", "1");
    assert!(ctx("1", Role::User).check_permission(Some(&other_collection), false).is_err());
}

#[test]
fn ownerless_action_needs_admin() {
    assert!(matches!(ctx("1", Role::User).check_permissions(None), Err(Error::ServerPermissionDenied(_))));
    assert!(ctx("1", Role::Admin).check_permissions(None).is_ok());
}

#[test]
fn admin_only_action_ignores_owner() {
    for owner in [None, Some(user("1")), Some(user("2"))] {
        let r = ctx("1", Role::User).check_permission(owner.as_ref(), true);
        assert!(matches!(r, Err(Error::ServerPermissionDenied(_))));
        assert!(ctx("1", Role::Admin).check_permission(owner.as_ref(), true).is_ok());
    }
}

#[test]
fn context_from_header_reports_unauthorized() {
    let token = issue_token(&user("42"), &Role::User, SECRET, T0, 60).unwrap();
    let ok = Context::from_header_at(Some(&bearer(&token)), SECRET, T0).unwrap();
    assert_eq!(ok.user_id, user("42"));
    assert_eq!(ok.user_role, Role::User);
    for h in [None, Some(""), Some("Token abc")] {
        assert!(matches!(Context::from_header_at(h, SECRET, T0), Err(Error::ServerUnauthorizedUser)));
    }
    let late = Context::from_header_at(Some(&bearer(&token)), SECRET, T0 + 61);
    assert!(matches!(late, Err(Error::ServerUnauthorizedUser)));
}

#[test]
fn context_refuses_header_that_is_not_visible_ascii() {
    let token = issue_token(&user("42"), &Role::User, SECRET, T0, 60).unwrap();
    let tampered = format!("Bearer {}\u{e9}", token);
    assert!(matches!(Context::from_header_at(Some(&tampered), SECRET, T0), Err(Error::ServerUnauthorizedUser)));
    let with_newline = format!("Bearer {}\n", token);
    assert!(matches!(Context::from_header_at(Some(&with_newline), SECRET, T0), Err(Error::ServerUnauthorizedUser)));
}

#[test]
fn tampered_token_is_refused() {
    let token = issue_token(&user("42"), &Role::User, SECRET, T0, 60).unwrap();
    let admin = issue_token(&user("42"), &Role::Admin, SECRET, T0, 60).unwrap();
    let parts: Vec<&str> = token.split('.').collect();
    let admin_parts: Vec<&str> = admin.split('.').collect();
    let forged = format!("{}.{}.{}", parts[0], admin_parts[1], parts[2]);
    assert!(matches!(verify_token(&forged, SECRET, T0), Err(Error::JWTTokenError(_))));
}
