use homedrive::schema::{SyncFilesRequest, TriggerSyncRequest};
use homedrive::task::{
    clamp_progress, count_thumbnail_work, find_handler, get_mime_type, is_hidden_or_system,
    is_video_file, progress_update_due, relative_storage_path, status_after_run, sync_content_hash,
    sync_files_outcome, sync_files_payload, sync_root, synced_content, task_message, thumbnail_file_name,
    thumbnail_outcome, thumbnail_paths, thumbnail_payload, thumbnail_progress_due, thumbnail_status_progress,
    thumbnail_step, trigger_sync_outcome, trigger_sync_payload, ProgressTracker, TaskStatus,
    TaskType, TaskWorkerConfig, ThumbnailStep, pending_outcome, pending_payload, worker_action,
    TaskMessage, TaskPayload, WorkerAction, WorkerEvent,
};

#[test]
fn task_type_names_round_trip() {
    for name in ["sync_directory", "sync_database", "cleanup_orphaned_files", "custom"] {
        let t = TaskType::try_from(name.to_string()).unwrap();
        assert_eq!(t.as_str(), name);
    }
    assert!(matches!(TaskType::try_from("sync_database".to_string()), Ok(TaskType::SyncDatabase)));
    assert!(matches!(TaskType::try_from("x".to_string()), Ok(TaskType::Other(_))));
}

#[test]
fn task_states() {
    assert_eq!(TaskStatus::Pending.as_str(), "pending");
    assert_eq!(status_after_run(true), TaskStatus::Completed);
    assert_eq!(status_after_run(false), TaskStatus::Failed);
    let c = TaskWorkerConfig::default();
    assert_eq!((c.poll_interval_ms, c.max_concurrent), (1000, 5));
}

#[test]
fn handlers_are_found_by_type() {
    let types = vec!["a".to_string(), "sync_files".to_string(), "sync_files".to_string()];
    assert_eq!(find_handler(&types, "sync_files"), Some(1));
    assert_eq!(find_handler(&types, "nope"), None);
}

#[test]
fn task_list_messages_and_progress() {
    assert_eq!(clamp_progress(-3), 0);
    assert_eq!(clamp_progress(42), 42);
    assert_eq!(clamp_progress(180), 100);
    assert_eq!(task_message(None, "processing"), "处理中");
    assert_eq!(task_message(None, "weird"), "未知状态");
    assert_eq!(task_message(Some("disk full".to_string()), "failed"), "disk full");
}

#[test]
fn sync_payloads_check_paths() {
    let req = TriggerSyncRequest { path: None, task_type: None };
    let p = trigger_sync_payload(3, req, "/vol").ok().unwrap();
    assert_eq!(p.path, "/vol");
    assert_eq!(p.task_type, "sync_files");
    assert_eq!(p.member_id, 3);
    let bad = TriggerSyncRequest { path: Some("../etc".to_string()), task_type: None };
    let e = trigger_sync_payload(3, bad, "/vol").err().unwrap();
    assert_eq!(e.message, "Invalid path");
    let p = sync_files_payload(2, SyncFilesRequest { path: Some("/data".to_string()) }, "/vol").ok().unwrap();
    assert_eq!(p.path, "/data");
    let t = thumbnail_payload(2, "/vol");
    assert_eq!(t.task_type, "generate_thumbnail");
    assert!(t.options.is_none());
}

#[test]
fn task_outcomes() {
    assert_eq!(sync_files_outcome(None, true).message, "创建同步任务失败");
    let r = sync_files_outcome(Some(9), true);
    assert!(r.success);
    assert_eq!(r.task_id, 9);
    assert_eq!(sync_files_outcome(Some(9), false).message, "任务已创建但发送到队列失败");
    assert_eq!(thumbnail_outcome(Some(1), true).message, "缩略图生成任务已创建");
    assert_eq!(trigger_sync_outcome(true).message, "Task queued successfully");
    assert_eq!(trigger_sync_outcome(false).message, "Failed to queue task");
}

#[test]
fn progress_tracking() {
    let mut t = ProgressTracker::with_total(20);
    t.increment_processed();
    t.increment_processed();
    t.increment_skipped();
    assert_eq!(t.get_current_count(), 3);
    assert_eq!(t.total_count, 20);
    for _ in 0..7 {
        t.increment_processed();
    }
    assert!(t.should_update());
    t.reset_update_time();
    assert_eq!(ProgressTracker::new().get_current_count(), 0);
    assert!(progress_update_due(20, 0));
    assert!(!progress_update_due(21, 499));
    assert!(progress_update_due(21, 500));
    assert!(thumbnail_progress_due(5, 9));
    assert!(thumbnail_progress_due(9, 9));
    assert!(!thumbnail_progress_due(7, 9));
    assert_eq!(thumbnail_status_progress("completed"), (100, true));
    assert_eq!(thumbnail_status_progress("processing"), (0, false));
}

#[test]
fn synchronised_file_rules() {
    assert_eq!(get_mime_type("Photo.JPG"), "image/jpeg");
    assert_eq!(get_mime_type("song.mp3"), "audio/mpeg");
    assert_eq!(get_mime_type("README"), "application/octet-stream");
    assert!(is_hidden_or_system(".env"));
    assert!(is_hidden_or_system("Thumbs.db"));
    assert!(!is_hidden_or_system("photo.png"));
    assert_eq!(relative_storage_path("/srv/vol/alice/a.txt", "/srv/vol"), "alice/a.txt");
    assert_eq!(relative_storage_path("alice/a.txt", "/srv/vol"), "alice/a.txt");
    let hash = sync_content_hash(b"hello");
    assert_eq!(hash, format!("{:016x}", xxhash_rust::xxh3::xxh3_64(b"hello")));
    assert_ne!(hash, "0".repeat(16));
    let c = synced_content("a.png", "/v/alice/a.png", "/v", b"abc");
    assert_eq!(c.file_size, 3);
    assert_eq!(c.mime_type, "image/png");
    assert_eq!(c.storage_path, "alice/a.png");
    assert_eq!(c.content_hash, sync_content_hash(b"abc"));
}

#[test]
fn thumbnail_task_rules() {
    assert!(is_video_file("clip.MOV"));
    assert!(!is_video_file("clip.txt"));
    assert_eq!(thumbnail_file_name("holiday.mp4"), "holiday.jpg");
    assert_eq!(thumbnail_step("a.mp4", Some(false)), ThumbnailStep::Generate);
    assert_eq!(thumbnail_step("a.mp4", Some(true)), ThumbnailStep::Skip);
    assert_eq!(thumbnail_step("a.mp4", None), ThumbnailStep::Skip);
    assert_eq!(thumbnail_step("a.jpg", Some(false)), ThumbnailStep::NotVideo);
    let files = vec![
        ("a.mp4".to_string(), Some(false)),
        ("b.mkv".to_string(), Some(true)),
        ("c.png".to_string(), Some(false)),
        ("d.webm".to_string(), Some(false)),
        ("e.avi".to_string(), None),
    ];
    assert_eq!(count_thumbnail_work(&files), 2);
}

#[test]
fn thumbnails_live_beside_their_videos() {
    let p = thumbnail_paths("/vol", "alice/trip/m.mp4", "m.mp4");
    assert_eq!(p.video_path, "/vol/alice/trip/m.mp4");
    assert_eq!(p.thumbnail_dir, "/vol/alice/trip/.thumbnail");
    assert_eq!(p.thumbnail_path, "/vol/alice/trip/.thumbnail/m.jpg");
    assert_eq!(p.stored_path, "alice/trip/.thumbnail/m.jpg");
    let q = thumbnail_paths("/vol", "/elsewhere/v.mkv", "v.mkv");
    assert_eq!(q.thumbnail_path, "/elsewhere/.thumbnail/v.jpg");
    assert_eq!(q.stored_path, "/elsewhere/.thumbnail/v.jpg");
}

fn payload(task_type: &str) -> TaskPayload {
    TaskPayload { task_type: task_type.to_string(), member_id: 1, path: "/v".to_string(), options: None, task_message_id: None }
}

#[test]
fn worker_steps() {
    match worker_action(WorkerEvent::Message(TaskMessage::NewTask(payload("sync_files")))) {
        WorkerAction::Run(p) => assert_eq!(p.task_type, "sync_files"),
        _ => panic!("expected a run"),
    }
    assert!(matches!(worker_action(WorkerEvent::Message(TaskMessage::Shutdown)), WorkerAction::Stop));
    assert!(matches!(worker_action(WorkerEvent::Tick), WorkerAction::CheckPending));
}

#[test]
fn pending_tasks_are_tied_to_their_records() {
    let p = pending_payload(Some(payload("generate_thumbnail")), 42).unwrap();
    assert_eq!(p.task_message_id, Some(42));
    assert_eq!(p.task_type, "generate_thumbnail");
    assert!(pending_payload(None, 42).is_none());
    assert_eq!(pending_outcome(Some(true)), TaskStatus::Completed);
    assert_eq!(pending_outcome(Some(false)), TaskStatus::Failed);
    assert_eq!(pending_outcome(None), TaskStatus::Failed);
}

#[test]
fn sync_walks_the_task_path_or_the_storage_root() {
    assert_eq!(sync_root("/mnt/other", "/data"), "/mnt/other");
    assert_eq!(sync_root("", "/data"), "/data");
}
