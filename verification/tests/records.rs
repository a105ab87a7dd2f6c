use homedrive::auth::MemberRole;
use homedrive::schema::{CreateMemberRequest, ListFilesQuery, LoginRequest};
use homedrive::store::{
    ref_count_after_removal, synced_ref_count, CreateFileContent, CreateMember, FileTypeFilter,
    ListMemberFilesQuery, ListTrashQuery, MemberModel, MemberQuery, Mutation, OrderColumn, Query,
    SortField, SortOrder, UpdateMember,
};

#[test]
fn member_records() {
    let m = Mutation::new_member(
        CreateMember {
            username: "ann".to_string(),
            password: "h".to_string(),
            avatar: None,
            storage_tag: "ann".to_string(),
            role: None,
        },
        77,
    );
    assert_eq!(m.role, MemberRole::User);
    assert_eq!(m.created_at, 77);
    let m: MemberModel = Mutation::apply_member_update(
        m,
        UpdateMember { username: None, password: None, avatar: Some("a.png".to_string()), storage_tag: None, role: Some(MemberRole::Admin) },
    );
    assert_eq!(m.username, "ann");
    assert_eq!(m.avatar.as_deref(), Some("a.png"));
    assert_eq!(m.role, MemberRole::Admin);
}

#[test]
fn reference_counts() {
    let c = Mutation::new_file_content(
        CreateFileContent {
            content_hash: "h".to_string(),
            file_size: 1,
            storage_path: "p".to_string(),
            mime_type: "text/plain".to_string(),
            width: 0,
            height: 0,
            duration: 0,
            first_uploaded_by: 1,
        },
        5,
    );
    assert_eq!(c.ref_count, 1);
    assert_eq!(Mutation::decremented_ref_count(Mutation::incremented_ref_count(4)), 4);
    assert_eq!(Mutation::decremented_ref_count(0), 0);
    assert_eq!(ref_count_after_removal(3), Some(2));
    assert_eq!(ref_count_after_removal(1), None);
    assert_eq!(synced_ref_count(0), 1);
    assert_eq!(synced_ref_count(4), 5);
}

#[test]
fn listing_plans() {
    let q = ListMemberFilesQuery {
        page: None,
        page_size: None,
        sort_by: None,
        sort_order: None,
        file_type: Some(FileTypeFilter::Document),
        search: Some("cat".to_string()),
        include_deleted: None,
    };
    let p = Query::list_files_plan(&q);
    assert_eq!((p.page_index, p.page_size), (0, 100));
    assert!(p.exclude_deleted);
    assert_eq!(
        p.mime_likes,
        vec!["text/%", "application/pdf%", "application/msword%", "application/vnd.openxmlformats-officedocument%"]
    );
    assert_eq!(p.name_like.as_deref(), Some("%cat%"));
    assert_eq!(p.order_column, OrderColumn::CreatedAt);
    assert!(!p.ascending);
    let q = ListMemberFilesQuery {
        page: Some(3),
        page_size: Some(10),
        sort_by: Some(SortField::FileSize),
        sort_order: Some(SortOrder::Asc),
        file_type: Some(FileTypeFilter::Other),
        search: None,
        include_deleted: Some(true),
    };
    let p = Query::list_files_plan(&q);
    assert_eq!((p.page_index, p.page_size), (2, 10));
    assert!(!p.exclude_deleted);
    assert!(p.mime_likes.is_empty());
    assert_eq!(p.order_column, OrderColumn::FileSize);
    assert!(p.ascending);
    let w = Query::member_window(&MemberQuery { id: None, username: None, storage_tag: None, page: None, page_size: None });
    assert_eq!(w, (0, 20));
    assert_eq!(Query::trash_window(&ListTrashQuery { page: Some(2), page_size: None }), (1, 100));
    assert_eq!(FileTypeFilter::Archive.get_mime_prefixes().len(), 4);
    assert_eq!(FileTypeFilter::Image.get_mime_prefixes(), vec!["image/"]);
}

#[test]
fn request_validation() {
    let ok = CreateMemberRequest { username: "ann".to_string(), password: "123456".to_string(), avatar: None, storage_tag: "a".to_string() };
    assert!(ok.validate().is_ok());
    let bad = CreateMemberRequest { username: "an".to_string(), password: "123".to_string(), avatar: Some("not a url".to_string()), storage_tag: String::new() };
    let e = bad.validate().err().unwrap();
    assert_eq!(e.errors.len(), 4);
    assert_eq!(e.errors[0].field, "username");
    assert!(e.joined().starts_with("username: 用户名长度必须在3-50个字符之间; password: "));
    let good_url = CreateMemberRequest { username: "ann".to_string(), password: "123456".to_string(), avatar: Some("https://x.example/a.png".to_string()), storage_tag: "a".to_string() };
    assert!(good_url.validate().is_ok());
    let q = ListFilesQuery { path: None, page: Some(0), page_size: Some(101), sort_by: None, sort_order: None, file_type: None, search: None };
    let e = q.validate().err().unwrap();
    assert_eq!(e.errors.len(), 2);
    let login = LoginRequest { username: String::new(), password: String::new() };
    assert!(login.validate().is_err());
}
