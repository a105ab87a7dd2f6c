use homedrive::content::{date_path, ContentHasher, FileService, UploadStep};
use homedrive::store::{FileContentModel, Mutation};
use homedrive::task::{sync_content_step, synced_content, SyncContentStep};

fn stored(id: i64, hash: &str, ref_count: i64) -> FileContentModel {
    FileContentModel {
        id,
        content_hash: hash.to_string(),
        file_size: 3,
        storage_path: "alice/a.txt".to_string(),
        mime_type: "text/plain".to_string(),
        width: 0,
        height: 0,
        duration: 0,
        ref_count,
        created_at: 0,
        first_uploaded_by: 1,
        thumbnail: None,
    }
}

#[test]
fn date_paths_pad_like_chrono() {
    assert_eq!(date_path(2024, 3, 1), "2024/03/01");
    assert_eq!(date_path(999, 12, 31), "0999/12/31");
    assert_eq!(date_path(-5, 1, 2), "-0005/01/02");
    assert_eq!(date_path(12345, 10, 9), "+12345/10/09");
    for millis in [0i64, 1_709_251_200_000, -100_000_000_000_000, 300_000_000_000_000, -62_000_000_000_000] {
        let expected = chrono::DateTime::<chrono::Utc>::from_timestamp_millis(millis).unwrap().format("%Y/%m/%d");
        assert_eq!(FileService::storage_key(millis, "h", "n").unwrap(), format!("files/{expected}/h/n"));
    }
}

#[test]
fn uploading_the_same_bytes_again_finds_the_stored_content() {
    let mut first = ContentHasher::new();
    first.update(b"abc");
    let step = FileService::upload_step(None, &first, 0, "a.txt", "text/plain".to_string(), 3, 7);
    let UploadStep::Store { key, record } = step else { panic!("a new content is stored") };
    assert_eq!(key, format!("files/1970/01/01/{}/a.txt", FileService::calculate_hash(b"abc")));
    assert_eq!(record.content_hash, FileService::calculate_hash(b"abc"));
    assert_eq!((record.file_size, record.first_uploaded_by), (3, 7));
    assert_eq!(record.storage_path, key);
    let row = Mutation::new_file_content(record, 0);

    let mut second = ContentHasher::new();
    second.update(b"a");
    second.update(b"bc");
    let mut row_with_id = row;
    row_with_id.id = 42;
    match FileService::upload_step(Some(row_with_id), &second, 5, "b.txt", "text/plain".to_string(), 3, 8) {
        UploadStep::Existing { file_id, message } => {
            assert_eq!(file_id, 42);
            assert_eq!(message, "File already exists");
        }
        _ => panic!("the same content is found"),
    }
    let other = stored(9, "not-the-hash", 1);
    assert!(matches!(
        FileService::upload_step(Some(other), &second, 0, "b.txt", "text/plain".to_string(), 3, 8),
        UploadStep::Store { .. }
    ));
    assert!(matches!(
        FileService::upload_step(None, &second, i64::MAX, "b.txt", "text/plain".to_string(), 3, 8),
        UploadStep::NoDate
    ));
}

#[test]
fn synchronising_a_stored_content_adds_a_reference() {
    let synced = synced_content("a.txt", "/vol/alice/a.txt", "/vol", b"abc");
    let hash = synced.content_hash.clone();
    match sync_content_step(Some(stored(4, &hash, 3)), synced, 1) {
        SyncContentStep::AddReference { id, ref_count } => assert_eq!((id, ref_count), (4, 4)),
        SyncContentStep::Insert(_) => panic!("the stored content is found"),
    }
    let synced = synced_content("a.txt", "/vol/alice/a.txt", "/vol", b"abc");
    match sync_content_step(None, synced, 1) {
        SyncContentStep::Insert(r) => {
            assert_eq!(r.content_hash, hash);
            assert_eq!((r.file_size, r.width, r.height, r.duration, r.first_uploaded_by), (3, 0, 0, 0, 1));
            assert_eq!(r.storage_path, "alice/a.txt");
            assert_eq!(r.mime_type, "text/plain");
        }
        SyncContentStep::AddReference { .. } => panic!("a new content is inserted"),
    }
    let synced = synced_content("a.txt", "/vol/alice/a.txt", "/vol", b"abc");
    assert!(matches!(sync_content_step(Some(stored(4, "other", 3)), synced, 1), SyncContentStep::Insert(_)));
}
