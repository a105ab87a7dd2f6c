use homedrive::content::{ContentHasher, FileService, ListMemberFilesParams};
use homedrive::storage::{LocalStorage, StorageConfig};
use homedrive::store::{FileTypeFilter, SortField, SortOrder};

#[test]
fn stored_files_are_sharded_by_their_first_two_characters() {
    let s = LocalStorage::new(StorageConfig { root: "/data".to_string() });
    assert_eq!(s.full_path("abcdef"), "/data/ab/abcdef");
    assert_eq!(s.full_path("a"), "/data/a");
    assert_eq!(s.full_path("é1"), "/data/é1/é1");
    assert_eq!(s.full_path("éab"), "/data/éa/éab");
    assert_eq!(s.full_path("中文.jpg"), "/data/中文/中文.jpg");
    assert_eq!(s.full_path("é"), "/data/é");
    let trailing = LocalStorage::new(StorageConfig { root: "/data/".to_string() });
    assert_eq!(trailing.full_path("abc"), "/data/ab/abc");
    assert_eq!(s.full_path("/etc/passwd"), "/etc/passwd");
    assert_eq!(s.url("alice/a.jpg"), "/api/files/alice/a.jpg");
}

#[test]
fn content_hash_is_32_hex_digits_of_xxh3_128() {
    let h = FileService::calculate_hash(b"hello world");
    assert_eq!(h, format!("{:032x}", xxhash_rust::xxh3::xxh3_128(b"hello world")));
    assert_eq!(h.len(), 32);
    assert_ne!(FileService::calculate_hash(b"a"), FileService::calculate_hash(b"b"));
    let mut hasher = ContentHasher::new();
    hasher.update(b"hello ");
    hasher.update(b"");
    hasher.update(b"world");
    assert_eq!(hasher.content_hash(), h);
    assert_eq!(ContentHasher::new().content_hash(), FileService::calculate_hash(b""));
}

#[test]
fn upload_keys() {
    assert_eq!(FileService::temp_key(1700000000000, "a.jpg"), "temp/1700000000000_a.jpg");
    assert_eq!(FileService::temp_key(-5, "x"), "temp/-5_x");
    assert_eq!(FileService::temp_key(i64::MIN, "x"), format!("temp/{}_x", i64::MIN));
    assert_eq!(FileService::storage_key(0, "abc", "f.png").as_deref(), Some("files/1970/01/01/abc/f.png"));
    assert_eq!(
        FileService::storage_key(1_709_251_200_000, "h", "n").as_deref(),
        Some("files/2024/03/01/h/n")
    );
    assert_eq!(FileService::storage_key(i64::MAX, "h", "n"), None);
    assert_eq!(FileService::storage_key_on("2020/01/02", "h", "n"), "files/2020/01/02/h/n");
}

#[test]
fn upload_outcomes_and_records() {
    assert_eq!(FileService::duplicate_upload(4), (4, "File already exists".to_string()));
    assert_eq!(FileService::stored_upload(5), (5, "File uploaded successfully".to_string()));
    let c = FileService::uploaded_content("h".to_string(), 10, "p".to_string(), "image/png".to_string(), 3);
    assert_eq!((c.file_size, c.width, c.height, c.duration, c.first_uploaded_by), (10, 0, 0, 0, 3));
}

#[test]
fn listing_parameters_are_read() {
    let q = FileService::list_query(ListMemberFilesParams {
        page: Some(2),
        page_size: None,
        sort_by: Some("file_size".to_string()),
        sort_order: Some("asc".to_string()),
        file_type: Some("video".to_string()),
        search: Some("cat".to_string()),
    });
    assert_eq!(q.page, Some(2));
    assert_eq!(q.sort_by, Some(SortField::FileSize));
    assert_eq!(q.sort_order, Some(SortOrder::Asc));
    assert_eq!(q.file_type, Some(FileTypeFilter::Video));
    assert_eq!(q.include_deleted, None);
    let q = FileService::list_query(ListMemberFilesParams {
        page: None,
        page_size: None,
        sort_by: Some("size".to_string()),
        sort_order: Some("ASC".to_string()),
        file_type: Some("movies".to_string()),
        search: None,
    });
    assert_eq!(q.sort_by, Some(SortField::CreatedAt));
    assert_eq!(q.sort_order, Some(SortOrder::Desc));
    assert_eq!(q.file_type, Some(FileTypeFilter::Other));
}
