//! Stored file contents: how they are hashed, where an upload is written,
//! what is recorded for it, and how a member's file listing is asked for.

use vstd::prelude::*;

use crate::store::{
    file_type_named, sort_field_named, CreateFileContent, FileContentModel, FileTypeFilter, ListMemberFilesQuery,
    SortField, SortOrder,
};
use crate::text::{decimal_chars, decimal_text, hex_chars, hex_text, owned, push_char, push_chars,
    push_str, str_eq, string_of, zero_padded, zero_padded_text};

verus! {

/// The answer to an upload.
pub struct FileUploadResponse {
    pub success: bool,
    pub file_id: i64,
    pub message: String,
}

/// Whether a content is already stored.
pub struct FileCheckResponse {
    pub exists: bool,
}

/// The listing parameters a client gives for its files, as text.
pub struct ListMemberFilesParams {
    pub page: Option<u64>,
    pub page_size: Option<u64>,
    /// `file_name`, `file_size`, anything else sorts by creation time.
    pub sort_by: Option<String>,
    /// `asc`, anything else sorts descending.
    pub sort_order: Option<String>,
    /// `image`, `video`, `audio`, `document`, `archive`, anything else is
    /// `Other`.
    pub file_type: Option<String>,
    pub search: Option<String>,
}

/// What is done with a received upload.
pub enum UploadStep {
    /// The same content is stored already as `file_id`: the upload is
    /// answered with it and `message`, its temporary file is removed, and
    /// no record is written.
    Existing { file_id: i64, message: String },
    /// A new content: the temporary file is moved to `key` and `record` is
    /// written.
    Store { key: String, record: CreateFileContent },
    /// The upload time has no calendar date, so the content has no key.
    NoDate,
}

/// An upload whose content hash is `hash` finds the stored content
/// `existing` (looked up by that hash) to be the same content.
pub open spec fn upload_finds(existing: Option<FileContentModel>, hash: Seq<char>) -> bool {
    existing matches Some(c) && c.content_hash@ == hash
}

/// File content operations.
pub struct FileService;

/// What `xxh3_128` gives for some bytes.
pub uninterp spec fn xxh3_128_of(data: Seq<u8>) -> u128;

/// `xxhash_rust::xxh3::xxh3_128`: the 128-bit xxh3 hash of `data`.
#[verifier::external_body]
fn xxh3_128(data: &[u8]) -> (h: u128)
    ensures
        h == xxh3_128_of(data@),
{
    xxhash_rust::xxh3::xxh3_128(data)
}

/// The content hash of some bytes: their 128-bit xxh3 as 32 lower-case
/// hexadecimal digits.
pub open spec fn content_hash_of(data: Seq<u8>) -> Seq<char> {
    hex_text(xxh3_128_of(data) as nat, 32)
}

/// The streaming xxh3 hasher of `xxhash_rust`.
#[verifier::external_type_specification]
#[verifier::external_body]
pub struct ExXxh3(xxhash_rust::xxh3::Xxh3);

/// Hashes a content that arrives in chunks, as an upload does.
pub struct ContentHasher {
    inner: xxhash_rust::xxh3::Xxh3,
}

/// The bytes a hasher has been fed so far, in order.
pub uninterp spec fn fed_bytes(h: ContentHasher) -> Seq<u8>;

/// `Xxh3::new`: a hasher with the default seed and secret, fed nothing.
#[verifier::external_body]
fn xxh3_new() -> (h: ContentHasher)
    ensures
        fed_bytes(h) == Seq::<u8>::empty(),
{
    ContentHasher { inner: xxhash_rust::xxh3::Xxh3::new() }
}

/// `Xxh3::update`: feeds `chunk` after what the hasher was fed before.
#[verifier::external_body]
fn xxh3_update(h: &mut ContentHasher, chunk: &[u8])
    ensures
        fed_bytes(*final(h)) == fed_bytes(*old(h)) + chunk@,
{
    h.inner.update(chunk)
}

/// `Xxh3::digest128`: the 128-bit hash of everything fed, which for a
/// hasher made by `Xxh3::new` is what `xxh3_128` gives for those bytes at
/// once.
#[verifier::external_body]
fn xxh3_digest128(h: &ContentHasher) -> (d: u128)
    ensures
        d == xxh3_128_of(fed_bytes(*h)),
{
    h.inner.digest128()
}

impl ContentHasher {
    /// A hasher that has been fed nothing.
    pub fn new() -> (h: Self)
        ensures
            fed_bytes(h) == Seq::<u8>::empty(),
    {
        xxh3_new()
    }

    /// Feeds the next chunk of the content.
    pub fn update(&mut self, chunk: &[u8])
        ensures
            fed_bytes(*final(self)) == fed_bytes(*old(self)) + chunk@,
    {
        xxh3_update(self, chunk)
    }

    /// The content hash of everything fed so far: the same text that
    /// `FileService::calculate_hash` gives for those bytes at once.
    pub fn content_hash(&self) -> (h: String)
        ensures
            h@ == content_hash_of(fed_bytes(*self)),
    {
        let digest = xxh3_digest128(self);
        let d = hex_chars(digest, 32);
        string_of(&d)
    }
}

/// The UTC calendar date (year, month, day) of `DateTime::<Utc>::
/// from_timestamp_millis(millis)`; `None` when the time is out of chrono's
/// range.
pub uninterp spec fn utc_date_of(millis: i64) -> Option<(i32, u32, u32)>;

/// `DateTime::<Utc>::from_timestamp_millis` and the date's `Datelike`
/// year, month and day; as chrono documents, the month runs from 1 to 12
/// and the day from 1 to 31.
#[verifier::external_body]
fn utc_date(millis: i64) -> (r: Option<(i32, u32, u32)>)
    ensures
        r == utc_date_of(millis),
        r matches Some((y, m, d)) ==> 1 <= m <= 12 && 1 <= d <= 31,
{
    match chrono::DateTime::<chrono::Utc>::from_timestamp_millis(millis) {
        Some(t) => Some(
            (chrono::Datelike::year(&t), chrono::Datelike::month(&t), chrono::Datelike::day(&t)),
        ),
        None => None,
    }
}

/// A year as a date path writes it: four digits, zero-padded, for years
/// 0 to 9999; otherwise with its sign in front of at least four digits.
pub open spec fn year_text(y: int) -> Seq<char> {
    if 0 <= y < 10000 {
        zero_padded_text(decimal_text(y as nat), 4)
    } else if y < 0 {
        seq!['-'] + zero_padded_text(decimal_text((-y) as nat), 4)
    } else {
        seq!['+'] + zero_padded_text(decimal_text(y as nat), 4)
    }
}

/// The date part of a storage key, `YYYY/MM/DD`: the year, then month and
/// day as two digits each.
pub open spec fn date_path_text(y: int, m: nat, d: nat) -> Seq<char> {
    year_text(y) + "/"@ + zero_padded_text(decimal_text(m), 2) + "/"@ + zero_padded_text(
        decimal_text(d),
        2,
    )
}

/// The date part of a storage key for the given year, month and day.
pub fn date_path(y: i32, m: u32, d: u32) -> (s: String)
    ensures
        s@ == date_path_text(y as int, m as nat, d as nat),
{
    let mut s = String::new();
    if 0 <= y && y < 10000 {
        let v = zero_padded(decimal_chars(y as u64), 4);
        push_chars(&mut s, &v);
    } else {
        let magnitude: u64 = if y < 0 {
            (-(y as i64)) as u64
        } else {
            y as u64
        };
        if y < 0 {
            push_char(&mut s, '-');
        } else {
            push_char(&mut s, '+');
        }
        let v = zero_padded(decimal_chars(magnitude), 4);
        push_chars(&mut s, &v);
    }
    assert(s@ == year_text(y as int));
    push_str(&mut s, "/");
    let mv = zero_padded(decimal_chars(m as u64), 2);
    push_chars(&mut s, &mv);
    push_str(&mut s, "/");
    let dv = zero_padded(decimal_chars(d as u64), 2);
    push_chars(&mut s, &dv);
    s
}

/// The decimal text of a signed number, with `-` for a negative one.
pub open spec fn signed_decimal_text(n: int) -> Seq<char> {
    if n < 0 {
        seq!['-'] + decimal_text((-n) as nat)
    } else {
        decimal_text(n as nat)
    }
}

/// The decimal text of a signed number.
pub fn signed_decimal(n: i64) -> (s: String)
    ensures
        s@ == signed_decimal_text(n as int),
{
    if n < 0 {
        let m: u64 = (-(n + 1)) as u64 + 1;
        let mut s = String::new();
        push_char(&mut s, '-');
        let d = decimal_chars(m);
        push_chars(&mut s, &d);
        assert(s@ =~= seq!['-'] + decimal_text((-n) as nat));
        s
    } else {
        let d = decimal_chars(n as u64);
        string_of(&d)
    }
}

/// The key an upload is first written under: `temp/{now}_{filename}`.
pub open spec fn temp_key_text(now_millis: i64, filename: Seq<char>) -> Seq<char> {
    "temp/"@ + signed_decimal_text(now_millis as int) + "_"@ + filename
}

/// The key a content is finally stored under: `files/{date}/{hash}/{filename}`.
pub open spec fn storage_key_text(date: Seq<char>, hash: Seq<char>, filename: Seq<char>) -> Seq<
    char,
> {
    "files/"@ + date + "/"@ + hash + "/"@ + filename
}

impl FileService {
    /// The content hash of `data`: its 128-bit xxh3 as 32 lower-case
    /// hexadecimal digits.
    pub fn calculate_hash(data: &[u8]) -> (h: String)
        ensures
            h@ == content_hash_of(data@),
    {
        let digest = xxh3_128(data);
        let d = hex_chars(digest, 32);
        string_of(&d)
    }

    /// Where an upload is written while it is received.
    pub fn temp_key(now_millis: i64, filename: &str) -> (k: String)
        ensures
            k@ == temp_key_text(now_millis, filename@),
    {
        let mut k = owned("temp/");
        let n = signed_decimal(now_millis);
        push_str(&mut k, n.as_str());
        push_str(&mut k, "_");
        push_str(&mut k, filename);
        k
    }

    /// Where a content with `content_hash` uploaded at `now_millis` is
    /// stored, under the UTC date of the upload; `None` when that time has
    /// no date.
    pub fn storage_key(now_millis: i64, content_hash: &str, filename: &str) -> (k: Option<String>)
        ensures
            (match (k, utc_date_of(now_millis)) {
                (Some(k), Some((y, m, d))) => k@ == storage_key_text(
                    date_path_text(y as int, m as nat, d as nat),
                    content_hash@,
                    filename@,
                ),
                (None, None) => true,
                _ => false,
            }),
    {
        match utc_date(now_millis) {
            Some((y, m, d)) => {
                let date = date_path(y, m, d);
                Some(Self::storage_key_on(date.as_str(), content_hash, filename))
            },
            None => None,
        }
    }

    /// The key of a content stored on the date `date` (`YYYY/MM/DD`).
    pub fn storage_key_on(date: &str, content_hash: &str, filename: &str) -> (k: String)
        ensures
            k@ == storage_key_text(date@, content_hash@, filename@),
    {
        let mut k = owned("files/");
        push_str(&mut k, date);
        push_str(&mut k, "/");
        push_str(&mut k, content_hash);
        push_str(&mut k, "/");
        push_str(&mut k, filename);
        k
    }

    /// What is done with an upload of `file_size` bytes, all fed to
    /// `hasher`, received at `now_millis` as `filename` from `uploader_id`,
    /// once the content stored under its hash (if any) was looked up as
    /// `existing`. The same content found stored gives its id and writes
    /// nothing; a new content is stored under the upload's date, its hash
    /// and its name, with a record of its hash, size, key and type.
    pub fn upload_step(
        existing: Option<FileContentModel>,
        hasher: &ContentHasher,
        now_millis: i64,
        filename: &str,
        mime_type: String,
        file_size: u64,
        uploader_id: i64,
    ) -> (s: UploadStep)
        ensures
            upload_finds(existing, content_hash_of(fed_bytes(*hasher))) ==> (s matches UploadStep::Existing {
                file_id,
                message,
            } && file_id == existing.unwrap().id && message@ == "File already exists"@),
            !upload_finds(existing, content_hash_of(fed_bytes(*hasher))) ==> (match utc_date_of(now_millis) {
                Some((y, m, d)) => s matches UploadStep::Store { key, record } && key@ == storage_key_text(
                    date_path_text(y as int, m as nat, d as nat),
                    content_hash_of(fed_bytes(*hasher)),
                    filename@,
                ) && record.content_hash@ == content_hash_of(fed_bytes(*hasher)) && record.file_size
                    == file_size as i64 && record.storage_path@ == key@ && record.mime_type == mime_type
                    && record.width == 0 && record.height == 0 && record.duration == 0
                    && record.first_uploaded_by == uploader_id,
                None => s is NoDate,
            }),
    {
        let hash = hasher.content_hash();
        if let Some(c) = &existing {
            if str_eq(c.content_hash.as_str(), hash.as_str()) {
                let (file_id, message) = Self::duplicate_upload(c.id);
                return UploadStep::Existing { file_id, message };
            }
        }
        match Self::storage_key(now_millis, hash.as_str(), filename) {
            Some(key) => {
                let path = owned(key.as_str());
                let record = Self::uploaded_content(hash, file_size, path, mime_type, uploader_id);
                UploadStep::Store { key, record }
            },
            None => UploadStep::NoDate,
        }
    }

    /// The outcome of an upload whose hash is already stored under
    /// `existing_id`: that content, with the message `File already exists`.
    pub fn duplicate_upload(existing_id: i64) -> (r: (i64, String))
        ensures
            r.0 == existing_id,
            r.1@ == "File already exists"@,
    {
        (existing_id, owned("File already exists"))
    }

    /// The outcome of an upload stored as the content `file_id`.
    pub fn stored_upload(file_id: i64) -> (r: (i64, String))
        ensures
            r.0 == file_id,
            r.1@ == "File uploaded successfully"@,
    {
        (file_id, owned("File uploaded successfully"))
    }

    /// The record written for a newly stored upload: no dimensions or
    /// duration yet; the size is the received byte count as a signed
    /// 64-bit number.
    pub fn uploaded_content(
        content_hash: String,
        file_size: u64,
        storage_path: String,
        mime_type: String,
        uploader_id: i64,
    ) -> (c: CreateFileContent)
        ensures
            c.content_hash == content_hash,
            c.file_size == file_size as i64,
            c.storage_path == storage_path,
            c.mime_type == mime_type,
            c.width == 0,
            c.height == 0,
            c.duration == 0,
            c.first_uploaded_by == uploader_id,
    {
        CreateFileContent {
            content_hash,
            file_size: file_size as i64,
            storage_path,
            mime_type,
            width: 0,
            height: 0,
            duration: 0,
            first_uploaded_by: uploader_id,
        }
    }

    /// The database listing asked for a member's files, from the client's
    /// text parameters.
    pub fn list_query(params: ListMemberFilesParams) -> (q: ListMemberFilesQuery)
        ensures
            q.page == params.page,
            q.page_size == params.page_size,
            q.sort_by == (match params.sort_by {
                Some(s) => Some(sort_field_named(s@)),
                None => None::<SortField>,
            }),
            q.sort_order == (match params.sort_order {
                Some(s) => Some(
                    if s@ == "asc"@ {
                        SortOrder::Asc
                    } else {
                        SortOrder::Desc
                    },
                ),
                None => None::<SortOrder>,
            }),
            q.file_type == (match params.file_type {
                Some(s) => Some(file_type_named(s@)),
                None => None::<FileTypeFilter>,
            }),
            q.search == params.search,
            q.include_deleted is None,
    {
        let sort_by = match &params.sort_by {
            Some(s) => Some(crate::store::sort_field_from_name(s.as_str())),
            None => None,
        };
        let sort_order = match &params.sort_order {
            Some(s) => Some(crate::store::sort_order_from_name(s.as_str())),
            None => None,
        };
        let file_type = match &params.file_type {
            Some(s) => Some(FileTypeFilter::from_name(s.as_str())),
            None => None,
        };
        ListMemberFilesQuery {
            page: params.page,
            page_size: params.page_size,
            sort_by,
            sort_order,
            file_type,
            search: params.search,
            include_deleted: None,
        }
    }
}

/// Uploading the same bytes again, however they are chunked, finds the
/// content the first upload stored: the first upload's `upload_step`
/// writes a record under the hash of its bytes, that record is stored with
/// the same hash (`Mutation::new_file_content`), and a second hasher fed the
/// same bytes gives that hash, so the second `upload_step` answers the
/// stored content's id with `File already exists` and writes nothing.
pub proof fn same_upload_again_finds_its_content(
    first: ContentHasher,
    second: ContentHasher,
    record: CreateFileContent,
    stored: FileContentModel,
)
    requires
        fed_bytes(first) == fed_bytes(second),
        record.content_hash@ == content_hash_of(fed_bytes(first)),
        stored.content_hash@ == record.content_hash@,
    ensures
        upload_finds(Some(stored), content_hash_of(fed_bytes(second))),
{
}

} // verus!
