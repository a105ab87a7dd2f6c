//! Background tasks: their kinds and states, the payload a task carries,
//! progress bookkeeping, and the per-file rules of the synchronisation and
//! thumbnail tasks.

use vstd::prelude::*;
use crate::file::{is_path_safe, path_is_safe};
use crate::storage::{push_path, pushed_path};
use crate::schema::{SyncFilesRequest, SyncFilesResponse, TriggerSyncRequest, TriggerSyncResponse};
use crate::text::{
    chars_of, eq_lit, has_prefix, hex_chars, hex_text, lowercase, owned, push_str, remove_pattern,
    str_eq, string_of, strip_leading, strip_leading_char, to_lowercase, without_pattern,
};
use crate::store::{synced_ref_count, CreateFileContent, FileContentModel};

verus! {

// ------------------------------------------------------- kinds and states

/// The kinds of task.
pub enum TaskType {
    /// Synchronise a directory into the database.
    SyncDirectory,
    /// Synchronise the database into a directory.
    SyncDatabase,
    /// Remove files nothing refers to.
    CleanupOrphanedFiles,
    /// Any other task, by name.
    Other(String),
}

/// The name of each kind of task.
pub open spec fn task_type_name(t: TaskType) -> Seq<char> {
    match t {
        TaskType::SyncDirectory => "sync_directory"@,
        TaskType::SyncDatabase => "sync_database"@,
        TaskType::CleanupOrphanedFiles => "cleanup_orphaned_files"@,
        TaskType::Other(s) => s@,
    }
}

impl TaskType {
    /// The task's name.
    pub fn as_str(&self) -> (s: &str)
        ensures
            s@ == task_type_name(*self),
    {
        match self {
            TaskType::SyncDirectory => "sync_directory",
            TaskType::SyncDatabase => "sync_database",
            TaskType::CleanupOrphanedFiles => "cleanup_orphaned_files",
            TaskType::Other(s) => s.as_str(),
        }
    }

    /// The kind of task a name stands for; every name is accepted, unknown
    /// names as `Other`.
    pub fn try_from(value: String) -> (r: Result<TaskType, String>)
        ensures
            r matches Ok(t) && task_type_name(t) == value@,
            value@ == "sync_directory"@ ==> r == Ok::<TaskType, String>(TaskType::SyncDirectory),
            value@ == "sync_database"@ ==> r == Ok::<TaskType, String>(TaskType::SyncDatabase),
            value@ == "cleanup_orphaned_files"@ ==> r == Ok::<TaskType, String>(
                TaskType::CleanupOrphanedFiles,
            ),
    {
        proof {
            lemma_task_names_differ();
        }
        let v = chars_of(value.as_str());
        if eq_lit(&v, "sync_directory") {
            Ok(TaskType::SyncDirectory)
        } else if eq_lit(&v, "sync_database") {
            Ok(TaskType::SyncDatabase)
        } else if eq_lit(&v, "cleanup_orphaned_files") {
            Ok(TaskType::CleanupOrphanedFiles)
        } else {
            Ok(TaskType::Other(value))
        }
    }
}

/// Naming a kind of task and reading the name back gives the same kind.
pub proof fn lemma_task_type_name_round_trip(t: TaskType, value: String)
    requires
        value@ == task_type_name(t),
        !(t is Other),
    ensures
        value@ == "sync_directory"@ ==> t == TaskType::SyncDirectory,
        value@ == "sync_database"@ ==> t == TaskType::SyncDatabase,
        value@ == "cleanup_orphaned_files"@ ==> t == TaskType::CleanupOrphanedFiles,
{
    lemma_task_names_differ();
}

proof fn lemma_task_names_differ()
    ensures
        "sync_directory"@ != "sync_database"@,
        "sync_directory"@ != "cleanup_orphaned_files"@,
        "sync_database"@ != "cleanup_orphaned_files"@,
{
    reveal_strlit("sync_directory");
    reveal_strlit("sync_database");
    reveal_strlit("cleanup_orphaned_files");
    assert("sync_directory"@.len() == 14);
    assert("sync_database"@.len() == 13);
    assert("cleanup_orphaned_files"@.len() == 22);
}

/// The states of a task.
#[derive(Debug, Clone, Copy, PartialEq, Eq, Structural)]
pub enum TaskStatus {
    Pending,
    Processing,
    Completed,
    Failed,
}

/// The stored name of each state.
pub open spec fn task_status_name(s: TaskStatus) -> Seq<char> {
    match s {
        TaskStatus::Pending => "pending"@,
        TaskStatus::Processing => "processing"@,
        TaskStatus::Completed => "completed"@,
        TaskStatus::Failed => "failed"@,
    }
}

impl TaskStatus {
    /// The state's stored name.
    pub fn as_str(&self) -> (s: &str)
        ensures
            s@ == task_status_name(*self),
    {
        match self {
            TaskStatus::Pending => "pending",
            TaskStatus::Processing => "processing",
            TaskStatus::Completed => "completed",
            TaskStatus::Failed => "failed",
        }
    }
}

/// The state a task is left in after it ran.
pub fn status_after_run(succeeded: bool) -> (s: TaskStatus)
    ensures
        succeeded ==> s == TaskStatus::Completed,
        !succeeded ==> s == TaskStatus::Failed,
{
    if succeeded {
        TaskStatus::Completed
    } else {
        TaskStatus::Failed
    }
}

/// Options of a task.
pub struct TaskOptions {
    /// Whether subdirectories are processed.
    pub recursive: Option<bool>,
    /// File types to process.
    pub file_types: Option<Vec<String>>,
    /// Whether hidden files are included.
    pub include_hidden: Option<bool>,
}

/// What a task is asked to do.
pub struct TaskPayload {
    pub task_type: String,
    pub member_id: i64,
    pub path: String,
    pub options: Option<TaskOptions>,
    /// The stored task record, used for progress updates.
    pub task_message_id: Option<i64>,
}

/// A message to the task worker.
pub enum TaskMessage {
    /// Run a new task.
    NewTask(TaskPayload),
    /// Stop the worker.
    Shutdown,
}

/// What wakes the task worker.
pub enum WorkerEvent {
    /// A message arrived on the worker's channel.
    Message(TaskMessage),
    /// The poll interval passed.
    Tick,
}

/// What the task worker does next.
pub enum WorkerAction {
    /// The payload is handed to the handler of its type.
    Run(TaskPayload),
    /// Stop the worker.
    Stop,
    /// Look for tasks stored as pending.
    CheckPending,
}

/// The worker's step for an event: a new task is run, a shutdown stops the
/// worker, and every tick looks for stored pending tasks.
pub fn worker_action(event: WorkerEvent) -> (a: WorkerAction)
    ensures
        (match event {
            WorkerEvent::Message(TaskMessage::NewTask(p)) => a == WorkerAction::Run(p),
            WorkerEvent::Message(TaskMessage::Shutdown) => a is Stop,
            WorkerEvent::Tick => a is CheckPending,
        }),
{
    match event {
        WorkerEvent::Message(TaskMessage::NewTask(p)) => WorkerAction::Run(p),
        WorkerEvent::Message(TaskMessage::Shutdown) => WorkerAction::Stop,
        WorkerEvent::Tick => WorkerAction::CheckPending,
    }
}

/// The task to run for a stored pending task whose payload read as
/// `parsed` (`None` when it did not read): the payload, tied to its record.
pub fn pending_payload(parsed: Option<TaskPayload>, task_id: i64) -> (r: Option<TaskPayload>)
    ensures
        (match parsed {
            Some(p) => r matches Some(q) && q.task_type == p.task_type && q.member_id == p.member_id
                && q.path == p.path && q.options == p.options && q.task_message_id == Some(task_id),
            None => r is None,
        }),
{
    match parsed {
        Some(p) => Some(
            TaskPayload {
                task_type: p.task_type,
                member_id: p.member_id,
                path: p.path,
                options: p.options,
                task_message_id: Some(task_id),
            },
        ),
        None => None,
    }
}

/// The state a stored pending task ends in: failed when its payload did not
/// read (`None`) or its run failed, completed otherwise.
pub fn pending_outcome(ran: Option<bool>) -> (s: TaskStatus)
    ensures
        s == (if ran == Some(true) { TaskStatus::Completed } else { TaskStatus::Failed }),
{
    match ran {
        Some(ok) => status_after_run(ok),
        None => TaskStatus::Failed,
    }
}

/// Settings of the task worker.
pub struct TaskWorkerConfig {
    /// Interval between looks at the stored pending tasks, in milliseconds.
    pub poll_interval_ms: u64,
    /// Most tasks run at once.
    pub max_concurrent: usize,
}

impl Default for TaskWorkerConfig {
    /// Every second, at most five at once.
    fn default() -> (c: Self)
        ensures
            c.poll_interval_ms == 1000,
            c.max_concurrent == 5,
    {
        TaskWorkerConfig { poll_interval_ms: 1000, max_concurrent: 5 }
    }
}

/// The handler for a task: the first registered handler whose task type is
/// the task's.
pub fn find_handler(handler_types: &Vec<String>, task_type: &str) -> (r: Option<usize>)
    ensures
        r matches Some(i) ==> i < handler_types@.len() && handler_types@[i as int]@ == task_type@
            && forall|j: int| 0 <= j < i ==> handler_types@[j]@ != task_type@,
        r is None ==> forall|j: int| 0 <= j < handler_types@.len() ==> handler_types@[j]@ != task_type@,
{
    let mut i: usize = 0;
    while i < handler_types.len()
        invariant
            i <= handler_types@.len(),
            forall|j: int| 0 <= j < i ==> handler_types@[j]@ != task_type@,
        decreases handler_types@.len() - i,
    {
        if crate::text::str_eq(handler_types[i].as_str(), task_type) {
            return Some(i);
        }
        i = i + 1;
    }
    None
}

/// A task's progress as reported: clamped to `0..=100`.
pub fn clamp_progress(p: i64) -> (r: i64)
    ensures
        r == (if p < 0 { 0 } else if p > 100 { 100 } else { p }),
{
    if p < 0 {
        0
    } else if p > 100 {
        100
    } else {
        p
    }
}

/// The message shown for a task: its error, or a description of its state.
pub open spec fn task_message_of(error_message: Option<Seq<char>>, status: Seq<char>) -> Seq<char> {
    match error_message {
        Some(e) => e,
        None => if status == "pending"@ {
            "等待处理"@
        } else if status == "processing"@ {
            "处理中"@
        } else if status == "completed"@ {
            "已完成"@
        } else if status == "failed"@ {
            "处理失败"@
        } else {
            "未知状态"@
        },
    }
}

/// The message shown for a task in the task list.
pub fn task_message(error_message: Option<String>, status: &str) -> (m: String)
    ensures
        m@ == task_message_of(
            match error_message {
                Some(e) => Some(e@),
                None => None,
            },
            status@,
        ),
{
    match error_message {
        Some(e) => e,
        None => {
            let s = chars_of(status);
            if eq_lit(&s, "pending") {
                owned("等待处理")
            } else if eq_lit(&s, "processing") {
                owned("处理中")
            } else if eq_lit(&s, "completed") {
                owned("已完成")
            } else if eq_lit(&s, "failed") {
                owned("处理失败")
            } else {
                owned("未知状态")
            }
        },
    }
}

// ------------------------------------------------------------- payloads

/// The options given to synchronisation tasks: recursive, no type filter,
/// hidden files left out.
pub fn sync_options() -> (o: TaskOptions)
    ensures
        o.recursive == Some(true),
        o.file_types is None,
        o.include_hidden == Some(false),
{
    TaskOptions { recursive: Some(true), file_types: None, include_hidden: Some(false) }
}

/// The task queued by a sync trigger: the requested path (the storage volume
/// when none is given) must be safe, and the task type defaults to
/// `sync_files`.
pub fn trigger_sync_payload(member_id: i64, req: TriggerSyncRequest, volume: &str) -> (r: Result<
    TaskPayload,
    TriggerSyncResponse,
>)
    ensures
        ({
            let path = match req.path {
                Some(p) => p@,
                None => volume@,
            };
            &&& path_is_safe(path) ==> (r matches Ok(p) && p.path@ == path && p.member_id == member_id
                && p.task_type@ == (match req.task_type {
                Some(t) => t@,
                None => "sync_files"@,
            }) && p.task_message_id is None && (p.options matches Some(o) && o.recursive == Some(
                true,
            ) && o.file_types is None && o.include_hidden == Some(false)))
            &&& !path_is_safe(path) ==> (r matches Err(e) && !e.success && e.task_id == 0
                && e.message@ == "Invalid path"@)
        }),
{
    let path = match req.path {
        Some(p) => p,
        None => owned(volume),
    };
    if !is_path_safe(path.as_str()) {
        return Err(TriggerSyncResponse { success: false, task_id: 0, message: owned("Invalid path") });
    }
    let task_type = match req.task_type {
        Some(t) => t,
        None => owned("sync_files"),
    };
    Ok(TaskPayload { task_type, member_id, path, options: Some(sync_options()), task_message_id: None })
}

/// The task created by a sync request: the requested path (the storage
/// volume when none is given) must be safe.
pub fn sync_files_payload(member_id: i64, req: SyncFilesRequest, volume: &str) -> (r: Result<
    TaskPayload,
    SyncFilesResponse,
>)
    ensures
        ({
            let path = match req.path {
                Some(p) => p@,
                None => volume@,
            };
            &&& path_is_safe(path) ==> (r matches Ok(p) && p.path@ == path && p.member_id == member_id
                && p.task_type@ == "sync_files"@ && p.task_message_id is None && (p.options matches Some(
                o,
            ) && o.recursive == Some(true) && o.file_types is None && o.include_hidden == Some(false)))
            &&& !path_is_safe(path) ==> (r matches Err(e) && !e.success && e.task_id == 0
                && e.message@ == "Invalid path"@)
        }),
{
    let path = match req.path {
        Some(p) => p,
        None => owned(volume),
    };
    if !is_path_safe(path.as_str()) {
        return Err(SyncFilesResponse { success: false, task_id: 0, message: owned("Invalid path") });
    }
    Ok(
        TaskPayload {
            task_type: owned("sync_files"),
            member_id,
            path,
            options: Some(sync_options()),
            task_message_id: None,
        },
    )
}

/// The task created to generate the thumbnails of a member's videos.
pub fn thumbnail_payload(member_id: i64, storage_root: &str) -> (p: TaskPayload)
    ensures
        p.task_type@ == "generate_thumbnail"@,
        p.member_id == member_id,
        p.path@ == storage_root@,
        p.options is None,
        p.task_message_id is None,
{
    TaskPayload {
        task_type: owned("generate_thumbnail"),
        member_id,
        path: owned(storage_root),
        options: None,
        task_message_id: None,
    }
}

/// The directory a synchronisation walks: the task's path when it names
/// one, else the handler's storage root.
pub fn sync_root(payload_path: &str, storage_root: &str) -> (r: String)
    ensures
        r@ == (if payload_path@.len() > 0 { payload_path@ } else { storage_root@ }),
{
    if payload_path.is_empty() {
        owned(storage_root)
    } else {
        owned(payload_path)
    }
}

/// The answer to a sync request once the task record was (or was not)
/// stored under `stored_id` and handed (or not) to the worker.
pub fn sync_files_outcome(stored_id: Option<i64>, queued: bool) -> (r: SyncFilesResponse)
    ensures
        stored_id is None ==> !r.success && r.task_id == 0 && r.message@ == "创建同步任务失败"@,
        stored_id matches Some(id) ==> r.task_id == id && r.success == queued && r.message@ == (if queued {
            "同步任务已创建"@
        } else {
            "任务已创建但发送到队列失败"@
        }),
{
    match stored_id {
        None => SyncFilesResponse { success: false, task_id: 0, message: owned("创建同步任务失败") },
        Some(id) => if queued {
            SyncFilesResponse { success: true, task_id: id, message: owned("同步任务已创建") }
        } else {
            SyncFilesResponse { success: false, task_id: id, message: owned("任务已创建但发送到队列失败") }
        },
    }
}

/// The answer to a thumbnail request once the task record was (or was not)
/// stored under `stored_id` and handed (or not) to the worker.
pub fn thumbnail_outcome(stored_id: Option<i64>, queued: bool) -> (r: TriggerSyncResponse)
    ensures
        stored_id is None ==> !r.success && r.task_id == 0 && r.message@ == "创建缩略图生成任务失败"@,
        stored_id matches Some(id) ==> r.task_id == id && r.success == queued && r.message@ == (if queued {
            "缩略图生成任务已创建"@
        } else {
            "任务已创建但发送到队列失败"@
        }),
{
    match stored_id {
        None => TriggerSyncResponse { success: false, task_id: 0, message: owned("创建缩略图生成任务失败") },
        Some(id) => if queued {
            TriggerSyncResponse { success: true, task_id: id, message: owned("缩略图生成任务已创建") }
        } else {
            TriggerSyncResponse { success: false, task_id: id, message: owned("任务已创建但发送到队列失败") }
        },
    }
}

/// The answer to a sync trigger once the task was (or was not) queued.
pub fn trigger_sync_outcome(queued: bool) -> (r: TriggerSyncResponse)
    ensures
        r.success == queued,
        r.task_id == 0,
        r.message@ == (if queued {
            "Task queued successfully"@
        } else {
            "Failed to queue task"@
        }),
{
    if queued {
        TriggerSyncResponse { success: true, task_id: 0, message: owned("Task queued successfully") }
    } else {
        TriggerSyncResponse { success: false, task_id: 0, message: owned("Failed to queue task") }
    }
}

// ------------------------------------------------------------- progress

/// An opaque point in time (`std::time::Instant`).
#[verifier::external_type_specification]
#[verifier::external_body]
pub struct ExInstant(std::time::Instant);

/// `Instant::now`. The instant read depends on the time, so nothing is
/// stated of it.
#[verifier::external_body]
fn instant_now() -> std::time::Instant {
    std::time::Instant::now()
}

/// `Instant::elapsed` as whole milliseconds (`Duration::as_millis`). The
/// time passed depends on the clock, so nothing is stated of it.
#[verifier::external_body]
fn elapsed_millis(since: &std::time::Instant) -> u128 {
    since.elapsed().as_millis()
}

/// Progress of a synchronisation run.
pub struct ProgressTracker {
    /// Files synchronised.
    pub processed_count: usize,
    /// Files expected in all.
    pub total_count: usize,
    /// When progress was last reported.
    pub last_update: std::time::Instant,
    /// Files skipped.
    pub skipped_count: usize,
}

/// Progress is reported after every tenth file, or when half a second has
/// passed since the last report.
pub open spec fn update_due(count: nat, elapsed_ms: u64) -> bool {
    count % 10 == 0 || elapsed_ms >= 500
}

/// Whether progress is to be reported after `count` files and `elapsed_ms`
/// milliseconds since the last report.
pub fn progress_update_due(count: usize, elapsed_ms: u64) -> (b: bool)
    ensures
        b == update_due(count as nat, elapsed_ms),
{
    count % 10 == 0 || elapsed_ms >= 500
}

impl ProgressTracker {
    /// Nothing counted yet; the clock starts now. The instant read from
    /// the clock is not stated: the clock gives no value a contract can fix.
    pub fn new() -> (t: Self)
        ensures
            t.processed_count == 0,
            t.total_count == 0,
            t.skipped_count == 0,
    {
        ProgressTracker { processed_count: 0, total_count: 0, last_update: instant_now(), skipped_count: 0 }
    }

    /// Nothing counted yet out of `total` expected files.
    pub fn with_total(total: usize) -> (t: Self)
        ensures
            t.processed_count == 0,
            t.total_count == total,
            t.skipped_count == 0,
    {
        ProgressTracker { processed_count: 0, total_count: total, last_update: instant_now(), skipped_count: 0 }
    }

    /// Counts one more synchronised file.
    pub fn increment_processed(&mut self)
        requires
            old(self).processed_count < usize::MAX,
        ensures
            final(self).processed_count == old(self).processed_count + 1,
            final(self).skipped_count == old(self).skipped_count,
            final(self).total_count == old(self).total_count,
    {
        self.processed_count = self.processed_count + 1;
    }

    /// Counts one more skipped file.
    pub fn increment_skipped(&mut self)
        requires
            old(self).skipped_count < usize::MAX,
        ensures
            final(self).skipped_count == old(self).skipped_count + 1,
            final(self).processed_count == old(self).processed_count,
            final(self).total_count == old(self).total_count,
    {
        self.skipped_count = self.skipped_count + 1;
    }

    /// Files handled so far, synchronised or skipped.
    pub fn get_current_count(&self) -> (n: usize)
        requires
            self.processed_count + self.skipped_count <= usize::MAX,
        ensures
            n == self.processed_count + self.skipped_count,
    {
        self.processed_count + self.skipped_count
    }

    /// Whether progress is to be reported now: after every tenth file, or
    /// once half a second has passed since the last report. The time passed
    /// is read from the clock, so only the first of these is stated.
    pub fn should_update(&self) -> (b: bool)
        requires
            self.processed_count + self.skipped_count <= usize::MAX,
        ensures
            (self.processed_count + self.skipped_count) % 10 == 0 ==> b,
    {
        let elapsed = #[verifier::truncate] (elapsed_millis(&self.last_update) as u64);
        progress_update_due(self.get_current_count(), elapsed)
    }

    /// Restarts the clock of the last report: the last report is now. The
    /// instant read from the clock is not stated; the counts stay.
    pub fn reset_update_time(&mut self)
        ensures
            final(self).processed_count == old(self).processed_count,
            final(self).skipped_count == old(self).skipped_count,
            final(self).total_count == old(self).total_count,
    {
        self.last_update = instant_now();
    }
}

/// The thumbnail task reports progress after every fifth video and after
/// the last one.
pub fn thumbnail_progress_due(processed: usize, total: usize) -> (b: bool)
    ensures
        b == (processed % 5 == 0 || processed == total),
{
    processed % 5 == 0 || processed == total
}

/// The progress stored with a thumbnail task's state: 100 when completed,
/// 0 otherwise; only a completed task gets a completion time.
pub fn thumbnail_status_progress(status: &str) -> (r: (i64, bool))
    ensures
        status@ == "completed"@ ==> r == (100i64, true),
        status@ != "completed"@ ==> r == (0i64, false),
{
    if crate::text::str_eq(status, "completed") {
        (100, true)
    } else {
        (0, false)
    }
}

// ----------------------------------------------------------- file rules

/// What `Path::new(s).extension()` gives as text, the empty string when
/// there is no extension.
pub uninterp spec fn extension_of(s: Seq<char>) -> Seq<char>;

/// `Path::extension` of `s`, or the empty string.
#[verifier::external_body]
fn path_extension(s: &str) -> (e: String)
    ensures
        e@ == extension_of(s@),
{
    match std::path::Path::new(s).extension() {
        Some(e) => e.to_string_lossy().into_owned(),
        None => String::new(),
    }
}

/// What `Path::new(s).file_stem()` gives as text, `None` when there is no
/// file name.
pub uninterp spec fn stem_of(s: Seq<char>) -> Option<Seq<char>>;

/// `Path::file_stem` of `s`.
#[verifier::external_body]
fn path_file_stem(s: &str) -> (r: Option<String>)
    ensures
        stem_of(s@) == (match r {
            Some(t) => Some(t@),
            None => None,
        }),
{
    match std::path::Path::new(s).file_stem() {
        Some(t) => Some(t.to_string_lossy().into_owned()),
        None => None,
    }
}

/// The MIME type given to a synchronised file with the (lower-case)
/// extension `e`.
pub open spec fn mime_for_extension(e: Seq<char>) -> Seq<char> {
    if e == "jpg"@ || e == "jpeg"@ {
        "image/jpeg"@
    } else if e == "png"@ {
        "image/png"@
    } else if e == "gif"@ {
        "image/gif"@
    } else if e == "webp"@ {
        "image/webp"@
    } else if e == "svg"@ {
        "image/svg+xml"@
    } else if e == "mp4"@ {
        "video/mp4"@
    } else if e == "webm"@ {
        "video/webm"@
    } else if e == "mp3"@ {
        "audio/mpeg"@
    } else if e == "wav"@ {
        "audio/wav"@
    } else if e == "pdf"@ {
        "application/pdf"@
    } else if e == "txt"@ {
        "text/plain"@
    } else if e == "html"@ {
        "text/html"@
    } else if e == "css"@ {
        "text/css"@
    } else if e == "js"@ {
        "application/javascript"@
    } else if e == "json"@ {
        "application/json"@
    } else if e == "zip"@ {
        "application/zip"@
    } else {
        "application/octet-stream"@
    }
}

/// The MIME type a synchronised file gets from its extension.
pub fn get_mime_type(file_name: &str) -> (m: String)
    ensures
        m@ == mime_for_extension(lowercase(extension_of(file_name@))),
{
    let ext = path_extension(file_name);
    let lower = to_lowercase(ext.as_str());
    let e = chars_of(lower.as_str());
    let m = if eq_lit(&e, "jpg") || eq_lit(&e, "jpeg") {
        "image/jpeg"
    } else if eq_lit(&e, "png") {
        "image/png"
    } else if eq_lit(&e, "gif") {
        "image/gif"
    } else if eq_lit(&e, "webp") {
        "image/webp"
    } else if eq_lit(&e, "svg") {
        "image/svg+xml"
    } else if eq_lit(&e, "mp4") {
        "video/mp4"
    } else if eq_lit(&e, "webm") {
        "video/webm"
    } else if eq_lit(&e, "mp3") {
        "audio/mpeg"
    } else if eq_lit(&e, "wav") {
        "audio/wav"
    } else if eq_lit(&e, "pdf") {
        "application/pdf"
    } else if eq_lit(&e, "txt") {
        "text/plain"
    } else if eq_lit(&e, "html") {
        "text/html"
    } else if eq_lit(&e, "css") {
        "text/css"
    } else if eq_lit(&e, "js") {
        "application/javascript"
    } else if eq_lit(&e, "json") {
        "application/json"
    } else if eq_lit(&e, "zip") {
        "application/zip"
    } else {
        "application/octet-stream"
    };
    owned(m)
}

/// A hidden or system file, left out of synchronisation.
pub open spec fn hidden_or_system(name: Seq<char>) -> bool {
    has_prefix(name, "."@) || lowercase(name) == ".ds_store"@ || lowercase(name) == "thumbs.db"@
}

/// Whether a file is hidden (its name starts with `.`) or a known system
/// file (`.DS_Store`, `Thumbs.db`, in any case).
pub fn is_hidden_or_system(file_name: &str) -> (b: bool)
    ensures
        b == hidden_or_system(file_name@),
{
    let v = chars_of(file_name);
    let lower = to_lowercase(file_name);
    let l = chars_of(lower.as_str());
    crate::text::starts_with_lit(&v, ".") || eq_lit(&l, ".ds_store") || eq_lit(&l, "thumbs.db")
}

/// The path stored for a synchronised file: its path with every occurrence
/// of the storage root removed, then without leading `/`.
pub fn relative_storage_path(file_path: &str, storage_root: &str) -> (r: String)
    ensures
        r@ == strip_leading(without_pattern(file_path@, storage_root@), '/'),
{
    let p = chars_of(file_path);
    let root = chars_of(storage_root);
    let cut = remove_pattern(&p, &root);
    let stripped = strip_leading_char(&cut, '/');
    string_of(&stripped)
}

/// A video file, by (lower-case) extension.
pub open spec fn video_extension(e: Seq<char>) -> bool {
    e == "mp4"@ || e == "avi"@ || e == "mov"@ || e == "mkv"@ || e == "webm"@ || e == "flv"@ || e
        == "wmv"@
}

/// Whether the thumbnail task treats `file_name` as a video.
pub fn is_video_file(file_name: &str) -> (b: bool)
    ensures
        b == video_extension(lowercase(extension_of(file_name@))),
{
    let ext = path_extension(file_name);
    let lower = to_lowercase(ext.as_str());
    let e = chars_of(lower.as_str());
    eq_lit(&e, "mp4") || eq_lit(&e, "avi") || eq_lit(&e, "mov") || eq_lit(&e, "mkv") || eq_lit(
        &e,
        "webm",
    ) || eq_lit(&e, "flv") || eq_lit(&e, "wmv")
}

/// The file name of a video's thumbnail: the video's stem (or its whole
/// name when it has none) with `.jpg`.
pub fn thumbnail_file_name(file_name: &str) -> (r: String)
    ensures
        r@ == (match stem_of(file_name@) {
            Some(s) => s,
            None => file_name@,
        }) + ".jpg"@,
{
    let mut r = match path_file_stem(file_name) {
        Some(s) => s,
        None => owned(file_name),
    };
    push_str(&mut r, ".jpg");
    r
}

/// What `xxh3_64` gives for some bytes.
pub uninterp spec fn xxh3_64_of(data: Seq<u8>) -> u64;

/// `xxhash_rust::xxh3::xxh3_64`.
#[verifier::external_body]
fn xxh3_64(data: &[u8]) -> (h: u64)
    ensures
        h == xxh3_64_of(data@),
{
    xxhash_rust::xxh3::xxh3_64(data)
}

/// The content hash of a synchronised file: its 64-bit xxh3 as 16 lower-case
/// hexadecimal digits (as the web client computes it).
pub fn sync_content_hash(content: &[u8]) -> (h: String)
    ensures
        h@ == hex_text(xxh3_64_of(content@) as nat, 16),
{
    let v = xxh3_64(content);
    let d = hex_chars(v as u128, 16);
    string_of(&d)
}

// ------------------------------------------------------ synchronisation

/// What synchronisation records of a file found on disk.
pub struct SyncedContent {
    /// The 64-bit xxh3 of the content, as 16 hexadecimal digits.
    pub content_hash: String,
    /// The content's size in bytes.
    pub file_size: i64,
    /// The MIME type, from the file name's extension.
    pub mime_type: String,
    /// The path below the storage root.
    pub storage_path: String,
}

/// What is recorded of the file `file_name` at `file_path` below
/// `storage_root`, holding `content` (a file that is not hidden or a system
/// file).
pub fn synced_content(file_name: &str, file_path: &str, storage_root: &str, content: &[u8]) -> (r:
    SyncedContent)
    ensures
        r.content_hash@ == hex_text(xxh3_64_of(content@) as nat, 16),
        r.file_size == content@.len() as i64,
        r.mime_type@ == mime_for_extension(lowercase(extension_of(file_name@))),
        r.storage_path@ == strip_leading(without_pattern(file_path@, storage_root@), '/'),
{
    SyncedContent {
        content_hash: sync_content_hash(content),
        file_size: content.len() as i64,
        mime_type: get_mime_type(file_name),
        storage_path: relative_storage_path(file_path, storage_root),
    }
}

/// What synchronisation does with the content of a file found on disk.
pub enum SyncContentStep {
    /// The content is stored already as `id`: its reference count becomes
    /// `ref_count`.
    AddReference { id: i64, ref_count: i64 },
    /// A new content record is written.
    Insert(CreateFileContent),
}

/// Synchronisation finds the content `synced` stored as `existing`
/// (looked up by its hash).
pub open spec fn sync_finds(existing: Option<FileContentModel>, synced: SyncedContent) -> bool {
    existing matches Some(c) && c.content_hash@ == synced.content_hash@
}

/// What synchronisation does with `synced`, a file of the member
/// `member_id`, once the content stored under its hash (if any) was looked
/// up as `existing`: a stored content gets one more reference; a new one is
/// recorded with its hash, size, path and type, no dimensions, and the
/// member as first uploader.
pub fn sync_content_step(existing: Option<FileContentModel>, synced: SyncedContent, member_id: i64) -> (s:
    SyncContentStep)
    requires
        sync_finds(existing, synced) ==> existing.unwrap().ref_count < i64::MAX,
    ensures
        sync_finds(existing, synced) ==> s == (SyncContentStep::AddReference {
            id: existing.unwrap().id,
            ref_count: (existing.unwrap().ref_count + 1) as i64,
        }),
        !sync_finds(existing, synced) ==> (s matches SyncContentStep::Insert(r) && r.content_hash
            == synced.content_hash && r.file_size == synced.file_size && r.storage_path
            == synced.storage_path && r.mime_type == synced.mime_type && r.width == 0 && r.height
            == 0 && r.duration == 0 && r.first_uploaded_by == member_id),
{
    if let Some(c) = &existing {
        if str_eq(c.content_hash.as_str(), synced.content_hash.as_str()) {
            return SyncContentStep::AddReference { id: c.id, ref_count: synced_ref_count(c.ref_count) };
        }
    }
    SyncContentStep::Insert(
        CreateFileContent {
            content_hash: synced.content_hash,
            file_size: synced.file_size,
            storage_path: synced.storage_path,
            mime_type: synced.mime_type,
            width: 0,
            height: 0,
            duration: 0,
            first_uploaded_by: member_id,
        },
    )
}

// ----------------------------------------------------------- thumbnails

/// What the thumbnail task does with a member file.
#[derive(Debug, Clone, Copy, PartialEq, Eq, Structural)]
pub enum ThumbnailStep {
    /// Not a video: passed over without counting.
    NotVideo,
    /// A video without a content record, or with a thumbnail already.
    Skip,
    /// A video that needs a thumbnail.
    Generate,
}

/// The step for a file named `name` whose content record is absent
/// (`None`) or has (`Some(true)`) or lacks a thumbnail.
pub open spec fn thumbnail_step_of(name: Seq<char>, content: Option<bool>) -> ThumbnailStep {
    if !video_extension(lowercase(extension_of(name))) {
        ThumbnailStep::NotVideo
    } else {
        match content {
            Some(false) => ThumbnailStep::Generate,
            _ => ThumbnailStep::Skip,
        }
    }
}

/// What the thumbnail task does with the file `file_name`.
pub fn thumbnail_step(file_name: &str, content: Option<bool>) -> (s: ThumbnailStep)
    ensures
        s == thumbnail_step_of(file_name@, content),
{
    if !is_video_file(file_name) {
        ThumbnailStep::NotVideo
    } else {
        match content {
            Some(false) => ThumbnailStep::Generate,
            _ => ThumbnailStep::Skip,
        }
    }
}

/// How many of the files (name, and whether its content has a thumbnail,
/// when it has a content) need a thumbnail.
pub open spec fn thumbnail_work(files: Seq<(Seq<char>, Option<bool>)>) -> nat
    decreases files.len(),
{
    if files.len() == 0 {
        0
    } else {
        thumbnail_work(files.drop_last()) + if thumbnail_step_of(files.last().0, files.last().1)
            == ThumbnailStep::Generate {
            1nat
        } else {
            0nat
        }
    }
}

/// The views of the files handed to the thumbnail count.
pub open spec fn file_views(files: Seq<(String, Option<bool>)>) -> Seq<(Seq<char>, Option<bool>)> {
    files.map_values(|f: (String, Option<bool>)| (f.0@, f.1))
}

/// How many videos the thumbnail task will make thumbnails for.
pub fn count_thumbnail_work(files: &Vec<(String, Option<bool>)>) -> (n: usize)
    ensures
        n == thumbnail_work(file_views(files@)),
{
    let mut n: usize = 0;
    let mut i: usize = 0;
    assert(file_views(files@).take(0) =~= Seq::<(Seq<char>, Option<bool>)>::empty());
    while i < files.len()
        invariant
            i <= files.len(),
            n == thumbnail_work(file_views(files@).take(i as int)),
            n <= i,
        decreases files.len() - i,
    {
        let ghost v = file_views(files@);
        assert(v.take(i + 1).drop_last() =~= v.take(i as int));
        assert(v.take(i + 1).last() == (files@[i as int].0@, files@[i as int].1));
        let step = thumbnail_step(files[i].0.as_str(), files[i].1);
        if step == ThumbnailStep::Generate {
            n = n + 1;
        }
        i = i + 1;
    }
    assert(file_views(files@).take(files@.len() as int) =~= file_views(files@));
    n
}

/// What `Path::new(p).parent()` gives as text: `None` for a root, a prefix
/// or the empty path.
pub uninterp spec fn parent_of(p: Seq<char>) -> Option<Seq<char>>;

/// `Path::parent`: the path without its final component.
#[verifier::external_body]
fn path_parent(p: &str) -> (r: Option<String>)
    ensures
        parent_of(p@) == (match r {
            Some(s) => Some(s@),
            None => None,
        }),
{
    match std::path::Path::new(p).parent() {
        Some(q) => Some(q.to_string_lossy().into_owned()),
        None => None,
    }
}

/// What `Path::new(p).strip_prefix(base)` gives as text: `None` when `base`
/// is not a leading part of `p`.
pub uninterp spec fn stripped_path(p: Seq<char>, base: Seq<char>) -> Option<Seq<char>>;

/// `Path::strip_prefix`: `p` relative to `base`.
#[verifier::external_body]
fn path_strip_prefix(p: &str, base: &str) -> (r: Option<String>)
    ensures
        stripped_path(p@, base@) == (match r {
            Some(s) => Some(s@),
            None => None,
        }),
{
    match std::path::Path::new(p).strip_prefix(base) {
        Ok(q) => Some(q.to_string_lossy().into_owned()),
        Err(_) => None,
    }
}

/// Where the thumbnail of a video lives.
pub struct ThumbnailPaths {
    /// The video file.
    pub video_path: String,
    /// The `.thumbnail` directory beside the video.
    pub thumbnail_dir: String,
    /// The thumbnail file.
    pub thumbnail_path: String,
    /// The thumbnail's path as recorded: below the storage root where it
    /// lies there.
    pub stored_path: String,
}

/// The paths of the thumbnail of the video stored at `storage_path` below
/// `storage_root` under the name `file_name`: in a `.thumbnail` directory
/// beside the video, named after the video with `.jpg`.
pub fn thumbnail_paths(storage_root: &str, storage_path: &str, file_name: &str) -> (r: ThumbnailPaths)
    ensures
        r.video_path@ == pushed_path(storage_root@, storage_path@),
        r.thumbnail_dir@ == pushed_path(
            (match parent_of(r.video_path@) {
                Some(p) => p,
                None => Seq::<char>::empty(),
            }),
            ".thumbnail"@,
        ),
        r.thumbnail_path@ == pushed_path(
            r.thumbnail_dir@,
            (match stem_of(file_name@) {
                Some(s) => s,
                None => file_name@,
            }) + ".jpg"@,
        ),
        r.stored_path@ == (match stripped_path(r.thumbnail_path@, storage_root@) {
            Some(s) => s,
            None => r.thumbnail_path@,
        }),
{
    let video_path = push_path(owned(storage_root), storage_path);
    let dir_base = match path_parent(video_path.as_str()) {
        Some(p) => p,
        None => String::new(),
    };
    let thumbnail_dir = push_path(dir_base, ".thumbnail");
    let name = thumbnail_file_name(file_name);
    let thumbnail_path = push_path(thumbnail_dir.clone(), name.as_str());
    let stored_path = match path_strip_prefix(thumbnail_path.as_str(), storage_root) {
        Some(s) => s,
        None => thumbnail_path.clone(),
    };
    ThumbnailPaths { video_path, thumbnail_dir, thumbnail_path, stored_path }
}

/// The extensions synchronisation knows a MIME type for, each with its type.
pub open spec fn known_file_types() -> Seq<(Seq<char>, Seq<char>)> {
    seq![
        ("jpg"@, "image/jpeg"@),
        ("jpeg"@, "image/jpeg"@),
        ("png"@, "image/png"@),
        ("gif"@, "image/gif"@),
        ("webp"@, "image/webp"@),
        ("svg"@, "image/svg+xml"@),
        ("mp4"@, "video/mp4"@),
        ("webm"@, "video/webm"@),
        ("mp3"@, "audio/mpeg"@),
        ("wav"@, "audio/wav"@),
        ("pdf"@, "application/pdf"@),
        ("txt"@, "text/plain"@),
        ("html"@, "text/html"@),
        ("css"@, "text/css"@),
        ("js"@, "application/javascript"@),
        ("json"@, "application/json"@),
        ("zip"@, "application/zip"@),
    ]
}

/// The MIME type synchronisation records for a file comes from its
/// extension, in any case: a known extension gives its own type, and any
/// other extension (or none) gives `application/octet-stream`.
pub proof fn synced_types_follow_the_extension(file_name: Seq<char>)
    ensures
        forall|i: int|
            0 <= i < known_file_types().len() && known_file_types()[i].0 == lowercase(
                extension_of(file_name),
            ) ==> mime_for_extension(lowercase(extension_of(file_name))) == #[trigger] known_file_types()[i].1,
        (forall|i: int|
            0 <= i < known_file_types().len() ==> #[trigger] known_file_types()[i].0 != lowercase(
                extension_of(file_name),
            )) ==> mime_for_extension(lowercase(extension_of(file_name)))
            == "application/octet-stream"@,
{
    let e = lowercase(extension_of(file_name));
    let t = known_file_types();
    assert forall|i: int| 0 <= i < t.len() && t[i].0 == e implies mime_for_extension(e) == #[trigger] t[i].1 by {
        reveal_strlit("jpg");
        reveal_strlit("jpeg");
        reveal_strlit("png");
        reveal_strlit("gif");
        reveal_strlit("webp");
        reveal_strlit("svg");
        reveal_strlit("mp4");
        reveal_strlit("webm");
        reveal_strlit("mp3");
        reveal_strlit("wav");
        reveal_strlit("pdf");
        reveal_strlit("txt");
        reveal_strlit("html");
        reveal_strlit("css");
        reveal_strlit("js");
        reveal_strlit("json");
        reveal_strlit("zip");
        if i == 0 {
            assert(t[0] == ("jpg"@, "image/jpeg"@));
            assert(e == "jpg"@);
            assert(mime_for_extension(e) == "image/jpeg"@);
        } else if i == 1 {
            assert(t[1] == ("jpeg"@, "image/jpeg"@));
            assert(e == "jpeg"@);
            assert(e.len() != "jpg"@.len());
            assert(mime_for_extension(e) == "image/jpeg"@);
        } else if i == 2 {
            assert(t[2] == ("png"@, "image/png"@));
            assert(e == "png"@);
            assert(e[0] != "jpg"@[0]);
            assert(e.len() != "jpeg"@.len());
            assert(mime_for_extension(e) == "image/png"@);
        } else if i == 3 {
            assert(t[3] == ("gif"@, "image/gif"@));
            assert(e == "gif"@);
            assert(e[0] != "jpg"@[0]);
            assert(e.len() != "jpeg"@.len());
            assert(e[0] != "png"@[0]);
            assert(mime_for_extension(e) == "image/gif"@);
        } else if i == 4 {
            assert(t[4] == ("webp"@, "image/webp"@));
            assert(e == "webp"@);
            assert(e.len() != "jpg"@.len());
            assert(e[0] != "jpeg"@[0]);
            assert(e.len() != "png"@.len());
            assert(e.len() != "gif"@.len());
            assert(mime_for_extension(e) == "image/webp"@);
        } else if i == 5 {
            assert(t[5] == ("svg"@, "image/svg+xml"@));
            assert(e == "svg"@);
            assert(e[0] != "jpg"@[0]);
            assert(e.len() != "jpeg"@.len());
            assert(e[0] != "png"@[0]);
            assert(e[0] != "gif"@[0]);
            assert(e.len() != "webp"@.len());
            assert(mime_for_extension(e) == "image/svg+xml"@);
        } else if i == 6 {
            assert(t[6] == ("mp4"@, "video/mp4"@));
            assert(e == "mp4"@);
            assert(e[0] != "jpg"@[0]);
            assert(e.len() != "jpeg"@.len());
            assert(e[0] != "png"@[0]);
            assert(e[0] != "gif"@[0]);
            assert(e.len() != "webp"@.len());
            assert(e[0] != "svg"@[0]);
            assert(mime_for_extension(e) == "video/mp4"@);
        } else if i == 7 {
            assert(t[7] == ("webm"@, "video/webm"@));
            assert(e == "webm"@);
            assert(e.len() != "jpg"@.len());
            assert(e[0] != "jpeg"@[0]);
            assert(e.len() != "png"@.len());
            assert(e.len() != "gif"@.len());
            assert(e[3] != "webp"@[3]);
            assert(e.len() != "svg"@.len());
            assert(e.len() != "mp4"@.len());
            assert(mime_for_extension(e) == "video/webm"@);
        } else if i == 8 {
            assert(t[8] == ("mp3"@, "audio/mpeg"@));
            assert(e == "mp3"@);
            assert(e[0] != "jpg"@[0]);
            assert(e.len() != "jpeg"@.len());
            assert(e[0] != "png"@[0]);
            assert(e[0] != "gif"@[0]);
            assert(e.len() != "webp"@.len());
            assert(e[0] != "svg"@[0]);
            assert(e[2] != "mp4"@[2]);
            assert(e.len() != "webm"@.len());
            assert(mime_for_extension(e) == "audio/mpeg"@);
        } else if i == 9 {
            assert(t[9] == ("wav"@, "audio/wav"@));
            assert(e == "wav"@);
            assert(e[0] != "jpg"@[0]);
            assert(e.len() != "jpeg"@.len());
            assert(e[0] != "png"@[0]);
            assert(e[0] != "gif"@[0]);
            assert(e.len() != "webp"@.len());
            assert(e[0] != "svg"@[0]);
            assert(e[0] != "mp4"@[0]);
            assert(e.len() != "webm"@.len());
            assert(e[0] != "mp3"@[0]);
            assert(mime_for_extension(e) == "audio/wav"@);
        } else if i == 10 {
            assert(t[10] == ("pdf"@, "application/pdf"@));
            assert(e == "pdf"@);
            assert(e[0] != "jpg"@[0]);
            assert(e.len() != "jpeg"@.len());
            assert(e[1] != "png"@[1]);
            assert(e[0] != "gif"@[0]);
            assert(e.len() != "webp"@.len());
            assert(e[0] != "svg"@[0]);
            assert(e[0] != "mp4"@[0]);
            assert(e.len() != "webm"@.len());
            assert(e[0] != "mp3"@[0]);
            assert(e[0] != "wav"@[0]);
            assert(mime_for_extension(e) == "application/pdf"@);
        } else if i == 11 {
            assert(t[11] == ("txt"@, "text/plain"@));
            assert(e == "txt"@);
            assert(e[0] != "jpg"@[0]);
            assert(e.len() != "jpeg"@.len());
            assert(e[0] != "png"@[0]);
            assert(e[0] != "gif"@[0]);
            assert(e.len() != "webp"@.len());
            assert(e[0] != "svg"@[0]);
            assert(e[0] != "mp4"@[0]);
            assert(e.len() != "webm"@.len());
            assert(e[0] != "mp3"@[0]);
            assert(e[0] != "wav"@[0]);
            assert(e[0] != "pdf"@[0]);
            assert(mime_for_extension(e) == "text/plain"@);
        } else if i == 12 {
            assert(t[12] == ("html"@, "text/html"@));
            assert(e == "html"@);
            assert(e.len() != "jpg"@.len());
            assert(e[0] != "jpeg"@[0]);
            assert(e.len() != "png"@.len());
            assert(e.len() != "gif"@.len());
            assert(e[0] != "webp"@[0]);
            assert(e.len() != "svg"@.len());
            assert(e.len() != "mp4"@.len());
            assert(e[0] != "webm"@[0]);
            assert(e.len() != "mp3"@.len());
            assert(e.len() != "wav"@.len());
            assert(e.len() != "pdf"@.len());
            assert(e.len() != "txt"@.len());
            assert(mime_for_extension(e) == "text/html"@);
        } else if i == 13 {
            assert(t[13] == ("css"@, "text/css"@));
            assert(e == "css"@);
            assert(e[0] != "jpg"@[0]);
            assert(e.len() != "jpeg"@.len());
            assert(e[0] != "png"@[0]);
            assert(e[0] != "gif"@[0]);
            assert(e.len() != "webp"@.len());
            assert(e[0] != "svg"@[0]);
            assert(e[0] != "mp4"@[0]);
            assert(e.len() != "webm"@.len());
            assert(e[0] != "mp3"@[0]);
            assert(e[0] != "wav"@[0]);
            assert(e[0] != "pdf"@[0]);
            assert(e[0] != "txt"@[0]);
            assert(e.len() != "html"@.len());
            assert(mime_for_extension(e) == "text/css"@);
        } else if i == 14 {
            assert(t[14] == ("js"@, "application/javascript"@));
            assert(e == "js"@);
            assert(e.len() != "jpg"@.len());
            assert(e.len() != "jpeg"@.len());
            assert(e.len() != "png"@.len());
            assert(e.len() != "gif"@.len());
            assert(e.len() != "webp"@.len());
            assert(e.len() != "svg"@.len());
            assert(e.len() != "mp4"@.len());
            assert(e.len() != "webm"@.len());
            assert(e.len() != "mp3"@.len());
            assert(e.len() != "wav"@.len());
            assert(e.len() != "pdf"@.len());
            assert(e.len() != "txt"@.len());
            assert(e.len() != "html"@.len());
            assert(e.len() != "css"@.len());
            assert(mime_for_extension(e) == "application/javascript"@);
        } else if i == 15 {
            assert(t[15] == ("json"@, "application/json"@));
            assert(e == "json"@);
            assert(e.len() != "jpg"@.len());
            assert(e[1] != "jpeg"@[1]);
            assert(e.len() != "png"@.len());
            assert(e.len() != "gif"@.len());
            assert(e[0] != "webp"@[0]);
            assert(e.len() != "svg"@.len());
            assert(e.len() != "mp4"@.len());
            assert(e[0] != "webm"@[0]);
            assert(e.len() != "mp3"@.len());
            assert(e.len() != "wav"@.len());
            assert(e.len() != "pdf"@.len());
            assert(e.len() != "txt"@.len());
            assert(e[0] != "html"@[0]);
            assert(e.len() != "css"@.len());
            assert(e.len() != "js"@.len());
            assert(mime_for_extension(e) == "application/json"@);
        } else if i == 16 {
            assert(t[16] == ("zip"@, "application/zip"@));
            assert(e == "zip"@);
            assert(e[0] != "jpg"@[0]);
            assert(e.len() != "jpeg"@.len());
            assert(e[0] != "png"@[0]);
            assert(e[0] != "gif"@[0]);
            assert(e.len() != "webp"@.len());
            assert(e[0] != "svg"@[0]);
            assert(e[0] != "mp4"@[0]);
            assert(e.len() != "webm"@.len());
            assert(e[0] != "mp3"@[0]);
            assert(e[0] != "wav"@[0]);
            assert(e[0] != "pdf"@[0]);
            assert(e[0] != "txt"@[0]);
            assert(e.len() != "html"@.len());
            assert(e[0] != "css"@[0]);
            assert(e.len() != "js"@.len());
            assert(e.len() != "json"@.len());
            assert(mime_for_extension(e) == "application/zip"@);
        }
    }
    if forall|i: int| 0 <= i < t.len() ==> #[trigger] t[i].0 != e {
        assert(t[0].0 != e);
        assert(t[1].0 != e);
        assert(t[2].0 != e);
        assert(t[3].0 != e);
        assert(t[4].0 != e);
        assert(t[5].0 != e);
        assert(t[6].0 != e);
        assert(t[7].0 != e);
        assert(t[8].0 != e);
        assert(t[9].0 != e);
        assert(t[10].0 != e);
        assert(t[11].0 != e);
        assert(t[12].0 != e);
        assert(t[13].0 != e);
        assert(t[14].0 != e);
        assert(t[15].0 != e);
        assert(t[16].0 != e);
    }
}

/// The extensions of the files the thumbnail task treats as videos.
pub open spec fn video_extensions() -> Seq<Seq<char>> {
    seq!["mp4"@, "avi"@, "mov"@, "mkv"@, "webm"@, "flv"@, "wmv"@]
}

/// The thumbnail task makes a thumbnail for a file that lacks one exactly
/// when the file's extension, in any case, is one of the video extensions;
/// a file of any other extension is never taken for a video.
pub proof fn videos_get_thumbnails(file_name: Seq<char>, content: Option<bool>)
    ensures
        thumbnail_step_of(file_name, Some(false)) == ThumbnailStep::Generate
            <==> video_extensions().contains(lowercase(extension_of(file_name))),
        !video_extensions().contains(lowercase(extension_of(file_name))) ==> thumbnail_step_of(
            file_name,
            content,
        ) == ThumbnailStep::NotVideo,
{
    let e = lowercase(extension_of(file_name));
    let v = video_extensions();
    if v.contains(e) {
        let i = choose|i: int| 0 <= i < v.len() && v[i] == e;
        if i == 0 {
            assert(v[0] == "mp4"@);
        } else if i == 1 {
            assert(v[1] == "avi"@);
        } else if i == 2 {
            assert(v[2] == "mov"@);
        } else if i == 3 {
            assert(v[3] == "mkv"@);
        } else if i == 4 {
            assert(v[4] == "webm"@);
        } else if i == 5 {
            assert(v[5] == "flv"@);
        } else if i == 6 {
            assert(v[6] == "wmv"@);
        }
    }
    if video_extension(e) {
        if e == "mp4"@ {
            assert(v[0] == e);
        } else if e == "avi"@ {
            assert(v[1] == e);
        } else if e == "mov"@ {
            assert(v[2] == e);
        } else if e == "mkv"@ {
            assert(v[3] == e);
        } else if e == "webm"@ {
            assert(v[4] == e);
        } else if e == "flv"@ {
            assert(v[5] == e);
        } else if e == "wmv"@ {
            assert(v[6] == e);
        }
    }
}

} // verus!
