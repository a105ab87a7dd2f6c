use homedrive::errors::AppError;
use homedrive::file::{
    check_serve_request, content_type_for, is_dangerous_extension, is_filename_safe, is_mime_type_allowed,
    is_path_safe, parse_range_header, range_reply, static_url, upload_answer, upload_rejection, UploadEnd,
};

#[test]
fn media_and_listed_types_are_allowed() {
    assert!(is_mime_type_allowed("image/png"));
    assert!(is_mime_type_allowed("video/mp4"));
    assert!(is_mime_type_allowed("audio/mpeg"));
    assert!(is_mime_type_allowed("application/pdf"));
    assert!(!is_mime_type_allowed("application/x-msdownload"));
}

#[test]
fn executables_are_dangerous_in_any_case() {
    assert!(is_dangerous_extension("setup.EXE"));
    assert!(is_dangerous_extension("run.sh"));
    assert!(!is_dangerous_extension("photo.jpg"));
}

#[test]
fn traversal_paths_are_unsafe() {
    assert!(is_path_safe("alice/photos/a.jpg"));
    assert!(!is_path_safe("../etc/passwd"));
    assert!(!is_path_safe(""));
}

#[test]
fn file_names_with_separators_are_unsafe() {
    assert!(is_filename_safe("holiday.jpg"));
    assert!(!is_filename_safe("a/b.jpg"));
    assert!(!is_filename_safe(""));
}

#[test]
fn range_header_is_parsed_and_clamped() {
    assert_eq!(parse_range_header("bytes=0-99", 1000), Some((0, 99)));
    assert_eq!(parse_range_header("bytes=500-2000", 1000), Some((500, 999)));
    assert_eq!(parse_range_header("bytes=+7-8", 1000), Some((7, 8)));
}

#[test]
fn range_header_edge_cases_are_refused() {
    assert_eq!(parse_range_header("bytes=1000-1001", 1000), None);
    assert_eq!(parse_range_header("bytes=5-", 1000), None);
    assert_eq!(parse_range_header("bytes=-5", 1000), None);
    assert_eq!(parse_range_header("bytes=1-2-3", 1000), None);
    assert_eq!(parse_range_header("items=1-2", 1000), None);
    assert_eq!(parse_range_header("bytes=0-0", 0), None);
}

#[test]
fn range_reply_for_part_and_whole() {
    let part = range_reply(Some("bytes=10-19"), 100);
    assert_eq!(part.status, 206);
    assert_eq!(part.content_length, 10);
    assert_eq!(part.content_range.as_deref(), Some("bytes 10-19/100"));
    assert_eq!((part.body_start, part.body_length), (10, 10));
    let whole = range_reply(None, 100);
    assert_eq!(whole.status, 200);
    assert_eq!(whole.content_length, 100);
    assert_eq!(whole.content_range, None);
    assert_eq!((whole.body_start, whole.body_length), (0, 100));
    let bad = range_reply(Some("nonsense"), 100);
    assert_eq!(bad.status, 200);
    assert_eq!(bad.content_length, 100);
    assert_eq!((bad.body_start, bad.body_length), (0, 100));
}

#[test]
fn upload_refusals_in_order() {
    assert_eq!(upload_rejection("../x.jpg", "image/jpeg").as_deref(), Some("Invalid filename"));
    assert_eq!(
        upload_rejection("virus.exe", "image/jpeg").as_deref(),
        Some("File type not allowed for security reasons")
    );
    assert_eq!(
        upload_rejection("notes.bin", "application/x-unknown").as_deref(),
        Some("File type not allowed")
    );
    assert_eq!(upload_rejection("cat.png", "image/png"), None);
}

#[test]
fn serving_checks_path_member_and_owner() {
    match check_serve_request("../x", "a.jpg", Some("alice")) {
        Err(AppError::InvalidInput(m)) => assert_eq!(m, "Invalid storage tag"),
        other => panic!("unexpected {:?}", other),
    }
    match check_serve_request("alice", "../../a", Some("alice")) {
        Err(AppError::InvalidInput(m)) => assert_eq!(m, "Invalid file path"),
        other => panic!("unexpected {:?}", other),
    }
    assert!(matches!(check_serve_request("alice", "a.jpg", None), Err(AppError::InvalidCredentials)));
    assert!(matches!(check_serve_request("alice", "a.jpg", Some("bob")), Err(AppError::Forbidden)));
    assert!(check_serve_request("alice", "a.jpg", Some("alice")).is_ok());
}

#[test]
fn static_urls_of_listed_files() {
    assert_eq!(static_url("http://h", "alice/a.jpg").as_deref(), Some("http://h/api/static/alice/a.jpg"));
    assert_eq!(static_url("http://h", ""), None);
}

#[test]
fn content_types_by_extension() {
    assert_eq!(content_type_for("/v/a/photo.png"), "image/png");
    assert_eq!(content_type_for("index.html"), "text/html");
    assert_eq!(content_type_for("blob.unknownext"), "application/octet-stream");
    assert_eq!(content_type_for("noext"), "application/octet-stream");
}

#[test]
fn upload_answers_carry_the_failure_message() {
    let stored = upload_answer(UploadEnd::Stored(9, "File uploaded successfully".to_string()));
    assert!(stored.success);
    assert_eq!((stored.file_id, stored.message.as_str()), (9, "File uploaded successfully"));
    let refused = upload_answer(UploadEnd::Refused("Invalid filename".to_string()));
    assert!(!refused.success);
    assert_eq!((refused.file_id, refused.message.as_str()), (0, "Invalid filename"));
    assert_eq!(upload_answer(UploadEnd::UserNotFound).message, "User not found");
    assert_eq!(upload_answer(UploadEnd::DatabaseError).message, "Database error");
    assert_eq!(upload_answer(UploadEnd::Failed).message, "Upload failed");
    assert_eq!(upload_answer(UploadEnd::BadRequest).message, "Error parsing request");
    assert_eq!(upload_answer(UploadEnd::NoFile).message, "No file provided");
    assert!(!upload_answer(UploadEnd::NoFile).success);
}
