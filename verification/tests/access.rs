use homedrive::auth::{
    can_access_member, check_album_member, check_member_access, check_member_update,
    request_token, token_claims, AdminOnly, Auth, Authorized, JwtClaims, MemberRole,
};
use homedrive::errors::{AppError, ErrorCategory, ServiceError};

fn claims(sub: i64, role: MemberRole) -> JwtClaims {
    JwtClaims { sub, role, aud: Some("homedrive".to_string()), exp: 10, iat: 0 }
}

#[test]
fn roles_default_to_user() {
    assert_eq!(MemberRole::default(), MemberRole::User);
    assert!(MemberRole::Admin.is_admin());
    assert!(!MemberRole::User.is_admin());
}

#[test]
fn role_names_round_trip() {
    for role in [MemberRole::User, MemberRole::Admin] {
        assert_eq!(MemberRole::from_name(role.name()), Some(role));
    }
    assert_eq!(MemberRole::Admin.name(), "admin");
    assert_eq!(MemberRole::from_name("root"), None);
}

#[test]
fn claims_give_identity_and_role() {
    let c = claims(7, MemberRole::Admin);
    assert_eq!(Auth::from_claims(&c).0, 7);
    let who = Authorized::from_claims(&c);
    assert_eq!(who.user_id(), 7);
    assert!(who.is_admin());
    assert_eq!(*who.role(), MemberRole::Admin);
    assert_eq!(AdminOnly::from_claims(&c).unwrap().0, 7);
    assert!(matches!(AdminOnly::from_claims(&claims(7, MemberRole::User)), Err(AppError::Forbidden)));
}

#[test]
fn members_reach_only_themselves() {
    let user = Authorized(3, MemberRole::User);
    let admin = Authorized(1, MemberRole::Admin);
    assert!(can_access_member(&user, 3));
    assert!(!can_access_member(&user, 4));
    assert!(can_access_member(&admin, 4));
    assert!(check_member_access(&user, 3).is_ok());
    assert!(matches!(check_member_access(&user, 4), Err(AppError::Forbidden)));
}

#[test]
fn only_admins_change_roles() {
    let user = Authorized(3, MemberRole::User);
    let admin = Authorized(1, MemberRole::Admin);
    assert!(check_member_update(&user, 3, false).is_ok());
    assert!(matches!(check_member_update(&user, 3, true), Err(AppError::Forbidden)));
    assert!(check_member_update(&admin, 3, true).is_ok());
    assert!(check_album_member(&user, 3).is_ok());
    assert!(matches!(check_album_member(&admin, 3), Err(AppError::Forbidden)));
}

#[test]
fn token_from_header_or_query() {
    assert_eq!(request_token(Some("Bearer abc.def"), None).unwrap(), "abc.def");
    assert_eq!(request_token(None, Some("a=1&token=x%20y&b=2")).unwrap(), "x y");
    assert_eq!(request_token(Some("Basic zzz"), Some("token=q")).unwrap(), "q");
    assert!(matches!(request_token(None, Some("a=1")), Err(AppError::InvalidCredentials)));
    assert!(matches!(request_token(None, None), Err(AppError::InvalidCredentials)));
}

#[test]
fn issued_tokens_live_a_day() {
    let c = token_claims(5, MemberRole::Admin, 1_000);
    assert_eq!(c.sub, 5);
    assert_eq!(c.role, MemberRole::Admin);
    assert_eq!(token_claims(6, MemberRole::User, 0).role, MemberRole::User);
    assert_eq!(c.aud.as_deref(), Some("homedrive"));
    assert_eq!(c.iat, 1_000);
    assert_eq!(c.exp, 1_000 + 86_400);
}

#[test]
fn business_errors_are_shown_and_system_errors_hidden() {
    let shown = AppError::ServiceError(ServiceError::UsernameExists);
    assert_eq!(shown.user_message(), "username already exists");
    assert_eq!(shown.status_code(), 409);
    let hidden = AppError::ServiceError(ServiceError::Database("disk I/O".to_string()));
    assert_eq!(hidden.user_message(), "internal server error");
    assert_eq!(hidden.status_code(), 500);
    assert!(hidden.should_log());
    assert!(!AppError::NotFound.should_log());
    assert_eq!(AppError::InvalidInput("bad".to_string()).user_message(), "bad");
    assert_eq!(AppError::InvalidInput("bad".to_string()).message(), "invalid input: bad");
}

#[test]
fn service_error_categories() {
    assert_eq!(ServiceError::FileNotFound.category(), ErrorCategory::Business);
    assert!(ServiceError::Unknown.is_system_error());
    assert!(ServiceError::Validation("x".to_string()).is_business_error());
    assert_eq!(ServiceError::Storage("full".to_string()).message(), "storage error: full");
    let converted: AppError = ServiceError::MemberNotFound.into();
    assert_eq!(converted.status_code(), 404);
}
