use homedrive::errors::{AppError, ServiceError};
use homedrive::member::{
    check_member_names, check_password, check_username_param, get_jwt_secret, hash_password,
    init_jwt_secret, MemberService, DEFAULT_STORAGE_TOTAL,
};
use homedrive::auth::MemberRole;
use homedrive::schema::{InitAdminRequest, MemberResponse};
use homedrive::store::MemberModel;

#[test]
fn secret_is_set_once() {
    let mut slot: Option<String> = None;
    assert_eq!(get_jwt_secret(&slot), "default-secret-key-for-development");
    init_jwt_secret(&mut slot, "first".to_string());
    init_jwt_secret(&mut slot, "second".to_string());
    assert_eq!(get_jwt_secret(&slot), "first");
}

#[test]
fn hashed_password_is_accepted_and_others_refused() {
    let h = hash_password("s3cret!").unwrap();
    assert_eq!(h.len(), 60);
    assert!(h.starts_with("$2b$12$"));
    assert!(check_password("s3cret!", &h).is_ok());
    assert!(matches!(check_password("wrong", &h), Err(ServiceError::InvalidCredentials)));
    assert!(matches!(check_password("s3cret!", "not-a-hash"), Err(ServiceError::InvalidCredentials)));
}

#[test]
fn status_follows_last_activity() {
    let now = 10_000_000;
    assert_eq!(MemberService::determine_status(None, now), "offline");
    assert_eq!(MemberService::determine_status(Some(now - 60_000), now), "online");
    assert_eq!(MemberService::determine_status(Some(now - 299_999), now), "online");
    assert_eq!(MemberService::determine_status(Some(now - 300_000), now), "away");
    assert_eq!(MemberService::determine_status(Some(now - 1_800_000), now), "offline");
    assert_eq!(MemberService::determine_status(Some(now + 5), now), "online");
}

#[test]
fn member_response_has_full_allowance() {
    let m = MemberModel {
        id: 9,
        username: "ann".to_string(),
        password: "h".to_string(),
        avatar: None,
        storage_tag: "ann".to_string(),
        created_at: 123,
        role: MemberRole::User,
    };
    let r: MemberResponse = MemberService::build_member_response(m, 2048);
    assert_eq!(r.id, 9);
    assert_eq!(r.storage_used, 2048);
    assert_eq!(r.storage_total, DEFAULT_STORAGE_TOTAL);
    assert_eq!(DEFAULT_STORAGE_TOTAL, 10 * 1024 * 1024 * 1024);
    assert_eq!(r.status, "offline");
    assert_eq!(r.last_active, None);
}

#[test]
fn storage_used_sums_sizes() {
    assert_eq!(MemberService::storage_used(&vec![]), 0);
    assert_eq!(MemberService::storage_used(&vec![10, 20, 30]), 60);
}

#[test]
fn member_list_defaults() {
    let l = MemberService::member_list(Vec::new(), 0, None, None);
    assert_eq!((l.page, l.page_size), (1, 20));
    let l = MemberService::member_list(Vec::new(), 7, Some(3), Some(5));
    assert_eq!((l.total, l.page, l.page_size), (7, 3, 5));
}

fn admin_request(username: &str, password: &str, tag: &str) -> InitAdminRequest {
    InitAdminRequest { username: username.to_string(), password: password.to_string(), storage_tag: tag.to_string() }
}

#[test]
fn first_admin_rules() {
    let refusal = |empty: bool, r: InitAdminRequest| MemberService::init_admin_precheck(empty, &r).map(|x| x.message);
    assert_eq!(refusal(false, admin_request("root", "123456", "root")).as_deref(), Some("You can't do this action"));
    assert_eq!(refusal(true, admin_request("", "123456", "root")).as_deref(), Some("Username cannot be empty"));
    assert_eq!(refusal(true, admin_request("root", "12345", "root")).as_deref(), Some("Password must be at least 6 characters"));
    assert_eq!(refusal(true, admin_request("root", "123456", "")).as_deref(), Some("Storage tag cannot be empty"));
    let long = "t".repeat(51);
    assert_eq!(refusal(true, admin_request("root", "123456", &long)).as_deref(), Some("Storage tag must be less than 50 characters"));
    assert!(refusal(true, admin_request("root", "123456", &"t".repeat(50))).is_none());
    let taken = MemberService::init_admin_tag_check(true).unwrap();
    assert!(!taken.success);
    assert_eq!(taken.message, "Storage tag already exists");
    assert!(MemberService::init_admin_tag_check(false).is_none());
    let req = MemberService::admin_create_request(admin_request("root", "123456", "root"));
    assert_eq!(req.avatar, None);
    assert_eq!(req.username, "root");
    let admin = MemberService::admin_member_data(req, "hashed".to_string());
    assert_eq!(admin.role, Some(MemberRole::Admin));
    assert_eq!(admin.password, "hashed");
    assert_eq!(admin.storage_tag, "root");
}

#[test]
fn member_name_checks() {
    assert!(check_member_names(Some("alice_1"), Some("alice-1")).is_ok());
    assert!(check_member_names(None, None).is_ok());
    match check_member_names(Some("al ice"), Some("ok")) {
        Err(AppError::ValidationError(m)) => assert_eq!(m, "用户名只能包含字母、数字和下划线"),
        other => panic!("unexpected {:?}", other),
    }
    match check_member_names(Some("alice"), Some("bad tag")) {
        Err(AppError::ValidationError(m)) => assert_eq!(m, "存储标签只能包含字母、数字、下划线和连字符"),
        other => panic!("unexpected {:?}", other),
    }
    assert!(check_username_param("alice").is_ok());
    assert!(matches!(check_username_param(""), Err(AppError::InvalidInput(_))));
    assert!(matches!(check_username_param(&"a".repeat(51)), Err(AppError::InvalidInput(_))));
}

#[test]
fn first_administrator_is_stored_with_the_admin_role() {
    let req = MemberService::admin_create_request(admin_request("root", "123456", "root"));
    let stored = homedrive::store::Mutation::new_member(MemberService::admin_member_data(req, "h".to_string()), 7);
    assert_eq!(stored.role, MemberRole::Admin);
    assert_eq!(stored.username, "root");
}
