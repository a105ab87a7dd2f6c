use homedrive::album::{AlbumService, CreateAlbumParams, UpdateAlbumParams};
use homedrive::errors::ServiceError;
use homedrive::store::{AlbumModel, MemberFileModel};

fn album(owner: i64) -> AlbumModel {
    AlbumModel {
        id: 4,
        member_id: owner,
        name: "Trip".to_string(),
        description: Some("summer".to_string()),
        cover_file_id: None,
        created_at: 1,
        updated_at: 2,
    }
}

#[test]
fn only_the_owner_reaches_an_album() {
    assert_eq!(AlbumService::check_owner(Some(album(1)), 1).unwrap().id, 4);
    match AlbumService::check_owner(Some(album(1)), 2) {
        Err(ServiceError::Forbidden(m)) => assert_eq!(m, "无权访问此相册"),
        other => panic!("unexpected {:?}", other.map(|a| a.id)),
    }
    match AlbumService::check_owner(None, 2) {
        Err(ServiceError::NotFound(m)) => assert_eq!(m, "相册不存在"),
        other => panic!("unexpected {:?}", other.map(|a| a.id)),
    }
}

#[test]
fn album_names_are_unique_per_member() {
    assert!(AlbumService::check_name_free(false).is_ok());
    match AlbumService::check_name_free(true) {
        Err(ServiceError::Validation(m)) => assert_eq!(m, "相册名称已存在"),
        other => panic!("unexpected {:?}", other),
    }
    let rename = UpdateAlbumParams { name: Some("New".to_string()), description: None, cover_file_id: None };
    assert!(AlbumService::renames(&rename, "Old"));
    assert!(!AlbumService::renames(&rename, "New"));
    let keep = UpdateAlbumParams { name: None, description: None, cover_file_id: Some(3) };
    assert!(!AlbumService::renames(&keep, "Old"));
    let changes = AlbumService::album_changes(keep);
    assert_eq!(changes.cover_file_id, Some(3));
}

#[test]
fn new_album_data_and_initial_files() {
    let params = CreateAlbumParams { name: "A".to_string(), description: None, cover_file_id: Some(8), file_ids: Some(vec![1, 2]) };
    let (data, files) = AlbumService::album_data(5, params);
    assert_eq!(data.member_id, 5);
    assert_eq!(data.name, "A");
    assert_eq!(data.cover_file_id, Some(8));
    assert_eq!(files, Some(vec![1, 2]));
    let params = CreateAlbumParams { name: "B".to_string(), description: None, cover_file_id: None, file_ids: Some(vec![]) };
    assert_eq!(AlbumService::album_data(5, params).1, None);
}

#[test]
fn only_own_new_files_are_added() {
    let ids = vec![10, 11, 12, 13, 10];
    let owners = vec![Some(1), Some(2), None, Some(1), Some(1)];
    let in_album = vec![false, false, false, true, false];
    assert_eq!(AlbumService::files_to_add(&ids, &owners, &in_album, 1), vec![10, 10]);
    assert_eq!(AlbumService::files_to_add(&vec![], &vec![], &vec![], 1), Vec::<i64>::new());
}

#[test]
fn album_views_and_pages() {
    let r = AlbumService::album_response(album(1), 12);
    assert_eq!((r.id, r.member_id, r.file_count, r.created_at, r.updated_at), (4, 1, 12, 1, 2));
    let item = AlbumService::list_item(album(1), 3);
    assert_eq!(item.name, "Trip");
    assert_eq!(item.file_count, 3);
    assert_eq!(AlbumService::album_page(None, None), (1, 20));
    assert_eq!(AlbumService::album_files_page(None, Some(7)), (1, 7));
    assert_eq!(AlbumService::album_files_page(None, None), (1, 100));
}

#[test]
fn album_file_info_defaults_without_content() {
    let f = MemberFileModel {
        id: 1,
        member_id: 2,
        file_content_id: 3,
        file_name: "a.jpg".to_string(),
        description: String::new(),
        created_at: 5,
        updated_at: 6,
        deleted_at: None,
    };
    let info = AlbumService::album_file_info(f, None);
    assert_eq!(info.file_size, 0);
    assert_eq!(info.mime_type, "application/octet-stream");
    assert_eq!(info.url, None);
}
