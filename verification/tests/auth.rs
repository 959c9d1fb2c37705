use sandbox_backend::auth::{
    bearer_token, check_setup_unlocked, initialization_rejection, invitation_view_error_status, is_open_path,
    parse_user_id, require_client, require_owner, setup_status, user_from_claims, AuthenticatedUser, JwtClaims,
    ListPermissionsQuery, UserId,
};
use sandbox_backend::records::UserRole;

#[test]
fn bearer_token_extracted() {
    assert_eq!(bearer_token(Some("Bearer abc.def")).ok(), Some("abc.def"));
    assert_eq!(bearer_token(Some("Bearer ")).ok(), Some(""));
}

#[test]
fn bearer_token_missing_or_malformed() {
    for h in [None, Some("Basic xyz"), Some("bearer abc"), Some("Bearer")] {
        let e = bearer_token(h).unwrap_err();
        assert_eq!(e.status, 401);
        assert_eq!(e.message, "Missing or invalid Authorization header");
    }
}

#[test]
fn user_id_parsing() {
    let id = parse_user_id("67e55044-10b1-426f-9247-bb680e5fe0c8").unwrap();
    assert_eq!(id, UserId::from_u128(0x67e55044_10b1_426f_9247_bb680e5fe0c8));
    assert_eq!(parse_user_id("67e5504410b1426f9247bb680e5fe0c8"), Some(id));
    assert_eq!(parse_user_id("not-a-uuid"), None);
}

#[test]
fn claims_to_user() {
    let claims = JwtClaims {
        sub: "67e55044-10b1-426f-9247-bb680e5fe0c8".to_string(),
        email: "a@b.c".to_string(),
        roles: vec!["owner".to_string(), "nobody".to_string()],
        exp: 10,
    };
    let user = user_from_claims(Some(claims)).ok().unwrap();
    assert_eq!(user.id.value, 0x67e55044_10b1_426f_9247_bb680e5fe0c8);
    assert_eq!(user.email, "a@b.c");
    assert_eq!(user.roles, vec![UserRole::Owner]);
}

#[test]
fn claims_rejections() {
    let e = user_from_claims(None).err().unwrap();
    assert_eq!((e.status, e.message.as_str()), (401, "Invalid token"));
    let bad = JwtClaims { sub: "x".to_string(), email: String::new(), roles: vec![], exp: 0 };
    let e = user_from_claims(Some(bad)).err().unwrap();
    assert_eq!((e.status, e.message.as_str()), (401, "Invalid user id in token"));
}

fn user(roles: Vec<UserRole>) -> AuthenticatedUser {
    AuthenticatedUser { id: UserId::from_u128(1), email: "u@x".to_string(), roles }
}

#[test]
fn role_requirements() {
    assert!(require_owner(&user(vec![UserRole::Client, UserRole::Owner])).is_ok());
    let e = require_owner(&user(vec![UserRole::SuperAdmin])).unwrap_err();
    assert_eq!((e.status, e.message.as_str()), (403, "Not an owner"));
    assert!(require_client(&user(vec![UserRole::Client])).is_ok());
    let e = require_client(&user(vec![])).unwrap_err();
    assert_eq!((e.status, e.message.as_str()), (403, "Not a client"));
}

#[test]
fn setup_state() {
    assert!(setup_status(Ok(1)).initialized);
    assert!(!setup_status(Ok(0)).initialized);
    assert!(!setup_status(Err("db down".to_string())).initialized);
    assert!(check_setup_unlocked(Ok(0)).is_ok());
    assert!(check_setup_unlocked(Err("db down".to_string())).is_ok());
    let e = check_setup_unlocked(Ok(2)).unwrap_err();
    assert_eq!((e.status, e.message.as_str()), (403, "Setup is locked: SuperAdmin already exists"));
}

#[test]
fn open_paths() {
    assert!(is_open_path("/health"));
    assert!(is_open_path("/api/setup/status"));
    assert!(is_open_path("/api/setup/register/complete"));
    assert!(!is_open_path("/api/setup"));
    assert!(!is_open_path("/api/applications"));
    assert!(!is_open_path("/healthz"));
}

#[test]
fn uninitialized_server_rejects() {
    let e = initialization_rejection(Some(Ok(0))).unwrap();
    assert_eq!((e.status, e.message.as_str()), (503, "Service unavailable: system not initialized"));
    assert!(initialization_rejection(Some(Err("x".to_string()))).is_some());
    assert!(initialization_rejection(Some(Ok(1))).is_none());
    assert!(initialization_rejection(None).is_none());
}

#[test]
fn invitation_error_status() {
    assert_eq!(invitation_view_error_status("Invitation not found"), 404);
    assert_eq!(invitation_view_error_status("Invitation expired"), 400);
    assert_eq!(invitation_view_error_status(""), 400);
}

#[test]
fn permission_query_filter() {
    let q = ListPermissionsQuery { client_id: Some("00000000-0000-0000-0000-00000000002a".to_string()) };
    assert_eq!(q.client_filter(), Some(UserId::from_u128(42)));
    assert_eq!(ListPermissionsQuery { client_id: Some("nope".to_string()) }.client_filter(), None);
    assert_eq!(ListPermissionsQuery { client_id: None }.client_filter(), None);
}
