//! Rules applied to uploaded and served files: accepted MIME types,
//! rejected extensions, path and file-name safety, and HTTP range requests.

use vstd::prelude::*;
use vstd::utf8::encode_utf8;
use crate::errors::AppError;
use crate::schema::UploadFileResponse;
use crate::text::{
    decimal_chars, decimal_text, owned, push_chars, push_str, string_of,
    chars_of, contains_char, contains_lit, ends_with_lit, eq_lit, has_infix, has_prefix, has_suffix,
    lowercase, parse_u64, parsed_u64, starts_with, starts_with_lit, to_lowercase,
};

verus! {

/// MIME types accepted for upload besides every `image/`, `video/` and
/// `audio/` type.
pub open spec fn listed_mime_type(m: Seq<char>) -> bool {
    ||| m == "image/jpeg"@
    ||| m == "image/png"@
    ||| m == "image/gif"@
    ||| m == "image/webp"@
    ||| m == "image/svg+xml"@
    ||| m == "image/bmp"@
    ||| m == "image/tiff"@
    ||| m == "video/mp4"@
    ||| m == "video/mpeg"@
    ||| m == "video/quicktime"@
    ||| m == "video/x-msvideo"@
    ||| m == "video/x-ms-wmv"@
    ||| m == "video/webm"@
    ||| m == "audio/mpeg"@
    ||| m == "audio/wav"@
    ||| m == "audio/ogg"@
    ||| m == "audio/aac"@
    ||| m == "audio/flac"@
    ||| m == "application/pdf"@
    ||| m == "application/msword"@
    ||| m == "application/vnd.openxmlformats-officedocument.wordprocessingml.document"@
    ||| m == "application/vnd.ms-excel"@
    ||| m == "application/vnd.openxmlformats-officedocument.spreadsheetml.sheet"@
    ||| m == "application/vnd.ms-powerpoint"@
    ||| m == "application/vnd.openxmlformats-officedocument.presentationml.presentation"@
    ||| m == "text/plain"@
    ||| m == "text/csv"@
    ||| m == "text/markdown"@
    ||| m == "application/zip"@
    ||| m == "application/x-rar-compressed"@
    ||| m == "application/x-7z-compressed"@
    ||| m == "application/x-tar"@
    ||| m == "application/gzip"@
    ||| m == "application/json"@
    ||| m == "application/xml"@
}

/// A MIME type that may be uploaded.
pub open spec fn mime_type_allowed(m: Seq<char>) -> bool {
    ||| has_prefix(m, "image/"@)
    ||| has_prefix(m, "video/"@)
    ||| has_prefix(m, "audio/"@)
    ||| listed_mime_type(m)
}

/// A (lower-cased) file name ending in an extension that is refused.
pub open spec fn dangerous_name(l: Seq<char>) -> bool {
    ||| has_suffix(l, ".exe"@)
    ||| has_suffix(l, ".bat"@)
    ||| has_suffix(l, ".cmd"@)
    ||| has_suffix(l, ".com"@)
    ||| has_suffix(l, ".pif"@)
    ||| has_suffix(l, ".scr"@)
    ||| has_suffix(l, ".vbs"@)
    ||| has_suffix(l, ".js"@)
    ||| has_suffix(l, ".jar"@)
    ||| has_suffix(l, ".msi"@)
    ||| has_suffix(l, ".dll"@)
    ||| has_suffix(l, ".sh"@)
    ||| has_suffix(l, ".bash"@)
    ||| has_suffix(l, ".zsh"@)
    ||| has_suffix(l, ".fish"@)
    ||| has_suffix(l, ".php"@)
    ||| has_suffix(l, ".asp"@)
    ||| has_suffix(l, ".aspx"@)
    ||| has_suffix(l, ".jsp"@)
    ||| has_suffix(l, ".cgi"@)
    ||| has_suffix(l, ".pl"@)
    ||| has_suffix(l, ".py"@)
    ||| has_suffix(l, ".html"@)
    ||| has_suffix(l, ".htm"@)
    ||| has_suffix(l, ".xhtml"@)
    ||| has_suffix(l, ".shtml"@)
}

/// A path that may be used: not empty, no `..`, no drive letter such as
/// `C:` (second character `:` in a path longer than two bytes), no NUL.
pub open spec fn path_is_safe(p: Seq<char>) -> bool {
    &&& p.len() > 0
    &&& !has_infix(p, ".."@)
    &&& !(encode_utf8(p).len() > 2 && p.len() > 1 && p[1] == ':')
    &&& !p.contains('\0')
}

/// A file name that may be stored: not empty, no `..`, no `/`, no `\`, no
/// NUL, and at most 255 bytes.
pub open spec fn filename_is_safe(f: Seq<char>) -> bool {
    &&& f.len() > 0
    &&& !has_infix(f, ".."@)
    &&& !f.contains('/')
    &&& !f.contains('\\')
    &&& !f.contains('\0')
    &&& encode_utf8(f).len() <= 255
}

/// Whether `mime_type` may be uploaded: any image, video or audio type, or
/// one of the listed document, archive and data types.
pub fn is_mime_type_allowed(mime_type: &str) -> (b: bool)
    ensures
        b == mime_type_allowed(mime_type@),
{
    let m = chars_of(mime_type);
    if starts_with_lit(&m, "image/") || starts_with_lit(&m, "video/") || starts_with_lit(
        &m,
        "audio/",
    ) {
        return true;
    }
    eq_lit(&m, "image/jpeg") || eq_lit(&m, "image/png") || eq_lit(&m, "image/gif") || eq_lit(
        &m,
        "image/webp",
    ) || eq_lit(&m, "image/svg+xml") || eq_lit(&m, "image/bmp") || eq_lit(&m, "image/tiff")
        || eq_lit(&m, "video/mp4") || eq_lit(&m, "video/mpeg") || eq_lit(&m, "video/quicktime")
        || eq_lit(&m, "video/x-msvideo") || eq_lit(&m, "video/x-ms-wmv") || eq_lit(
        &m,
        "video/webm",
    ) || eq_lit(&m, "audio/mpeg") || eq_lit(&m, "audio/wav") || eq_lit(&m, "audio/ogg")
        || eq_lit(&m, "audio/aac") || eq_lit(&m, "audio/flac") || eq_lit(&m, "application/pdf")
        || eq_lit(&m, "application/msword") || eq_lit(
        &m,
        "application/vnd.openxmlformats-officedocument.wordprocessingml.document",
    ) || eq_lit(&m, "application/vnd.ms-excel") || eq_lit(
        &m,
        "application/vnd.openxmlformats-officedocument.spreadsheetml.sheet",
    ) || eq_lit(&m, "application/vnd.ms-powerpoint") || eq_lit(
        &m,
        "application/vnd.openxmlformats-officedocument.presentationml.presentation",
    ) || eq_lit(&m, "text/plain") || eq_lit(&m, "text/csv") || eq_lit(&m, "text/markdown")
        || eq_lit(&m, "application/zip") || eq_lit(&m, "application/x-rar-compressed") || eq_lit(
        &m,
        "application/x-7z-compressed",
    ) || eq_lit(&m, "application/x-tar") || eq_lit(&m, "application/gzip") || eq_lit(
        &m,
        "application/json",
    ) || eq_lit(&m, "application/xml")
}

/// Whether `filename`, lower-cased, ends in a refused extension such as
/// `.exe`, `.sh` or `.html`.
pub fn is_dangerous_extension(filename: &str) -> (b: bool)
    ensures
        b == dangerous_name(lowercase(filename@)),
{
    let lower = to_lowercase(filename);
    let l = chars_of(lower.as_str());
    ends_with_lit(&l, ".exe") || ends_with_lit(&l, ".bat") || ends_with_lit(&l, ".cmd")
        || ends_with_lit(&l, ".com") || ends_with_lit(&l, ".pif") || ends_with_lit(&l, ".scr")
        || ends_with_lit(&l, ".vbs") || ends_with_lit(&l, ".js") || ends_with_lit(&l, ".jar")
        || ends_with_lit(&l, ".msi") || ends_with_lit(&l, ".dll") || ends_with_lit(&l, ".sh")
        || ends_with_lit(&l, ".bash") || ends_with_lit(&l, ".zsh") || ends_with_lit(&l, ".fish")
        || ends_with_lit(&l, ".php") || ends_with_lit(&l, ".asp") || ends_with_lit(&l, ".aspx")
        || ends_with_lit(&l, ".jsp") || ends_with_lit(&l, ".cgi") || ends_with_lit(&l, ".pl")
        || ends_with_lit(&l, ".py") || ends_with_lit(&l, ".html") || ends_with_lit(&l, ".htm")
        || ends_with_lit(&l, ".xhtml") || ends_with_lit(&l, ".shtml")
}

/// Whether `path` may be used as a storage path or storage tag: absolute and
/// relative paths are fine, but not an empty path, `..`, a Windows drive
/// prefix or a NUL byte.
pub fn is_path_safe(path: &str) -> (b: bool)
    ensures
        b == path_is_safe(path@),
{
    let p = chars_of(path);
    if p.len() == 0 {
        return false;
    }
    if contains_lit(&p, "..") {
        return false;
    }
    if path.as_bytes().len() > 2 && p.len() > 1 && p[1] == ':' {
        return false;
    }
    if contains_char(&p, '\0') {
        return false;
    }
    true
}

/// Whether `filename` may be stored: not empty, no `..`, no path separator,
/// no NUL byte, at most 255 bytes.
pub fn is_filename_safe(filename: &str) -> (b: bool)
    ensures
        b == filename_is_safe(filename@),
{
    let f = chars_of(filename);
    if f.len() == 0 {
        return false;
    }
    if contains_lit(&f, "..") || contains_char(&f, '/') || contains_char(&f, '\\') {
        return false;
    }
    if contains_char(&f, '\0') {
        return false;
    }
    if filename.as_bytes().len() > 255 {
        return false;
    }
    true
}

/// `k` is the first index of `c` in `s`.
pub open spec fn is_first_index(s: Seq<char>, c: char, k: int) -> bool {
    0 <= k < s.len() && s[k] == c && forall|j: int| 0 <= j < k ==> s[j] != c
}

/// `s` splits at `-` into exactly two parts, the first ending at `k`.
pub open spec fn single_dash_at(s: Seq<char>, k: int) -> bool {
    is_first_index(s, '-', k) && !s.skip(k + 1).contains('-')
}

/// The byte range requested by a `Range` header value of the form
/// `bytes=START-END`, for a file of `size` bytes: both bounds must parse
/// as `u64`, the start must lie inside the file, and the end is cut to the
/// last byte.
pub open spec fn requested_range(r: Seq<char>, size: u64) -> Option<(u64, u64)> {
    if !has_prefix(r, "bytes="@) {
        None
    } else {
        let t = r.skip("bytes="@.len() as int);
        if exists|k: int| single_dash_at(t, k) {
            let k = choose|k: int| single_dash_at(t, k);
            match (parsed_u64(t.take(k)), parsed_u64(t.skip(k + 1))) {
                (Some(a), Some(b)) => if a >= size {
                    None
                } else {
                    Some((a, if b <= size - 1 { b } else { (size - 1) as u64 }))
                },
                _ => None,
            }
        } else {
            None
        }
    }
}

/// A range read from a header lies inside the file: it starts at a byte of
/// the file and ends at the latest on its last byte.
pub proof fn lemma_range_within_file(r: Seq<char>, size: u64)
    ensures
        requested_range(r, size) matches Some((start, end)) ==> start < size && end < size && (
        start <= end ==> end - start + 1 <= size),
{
}

/// Parses a `Range` header value `bytes=START-END` into the inclusive byte
/// positions to send from a file of `file_size` bytes.
pub fn parse_range_header(range: &str, file_size: u64) -> (r: Option<(u64, u64)>)
    ensures
        r == requested_range(range@, file_size),
{
    let v = chars_of(range);
    let pre = chars_of("bytes=");
    if !starts_with(&v, &pre) {
        return None;
    }
    let off = pre.len();
    let ghost t = v@.skip(off as int);
    let mut k: usize = off;
    while k < v.len() && v[k] != '-'
        invariant
            off <= k <= v.len(),
            t == v@.skip(off as int),
            forall|j: int| off <= j < k ==> v@[j] != '-',
        decreases v.len() - k,
    {
        k = k + 1;
    }
    if k == v.len() {
        assert forall|k2: int| !single_dash_at(t, k2) by {
            if single_dash_at(t, k2) {
                assert(v@[off + k2] == '-');
            }
        }
        return None;
    }
    assert(is_first_index(t, '-', k - off));
    let mut m: usize = k + 1;
    while m < v.len()
        invariant
            off <= k < m <= v.len(),
            v@ == range@,
            has_prefix(range@, "bytes="@),
            off == "bytes="@.len(),
            t == v@.skip(off as int),
            is_first_index(t, '-', k - off),
            forall|j: int| k < j < m ==> v@[j] != '-',
        decreases v.len() - m,
    {
        if v[m] == '-' {
            assert forall|k2: int| !single_dash_at(t, k2) by {
                if single_dash_at(t, k2) {
                    if k2 < k - off {
                        assert(t[k2] == v@[off + k2]);
                    } else if k2 > k - off {
                        assert(t[k - off] == '-');
                    } else {
                        assert(t.skip(k2 + 1)[m - off - k2 - 1] == '-');
                    }
                }
            }
            return None;
        }
        m = m + 1;
    }
    let ghost kk = k - off;
    assert(!t.skip(kk + 1).contains('-')) by {
        if t.skip(kk + 1).contains('-') {
            let j = choose|j: int| 0 <= j < t.skip(kk + 1).len() && #[trigger] t.skip(kk + 1)[j] == '-';
            assert(v@[k + 1 + j] == '-');
        }
    }
    assert(single_dash_at(t, kk));
    let ghost ch = choose|k2: int| single_dash_at(t, k2);
    assert(ch == kk) by {
        if ch < kk {
            assert(t[ch] == '-');
        } else if ch > kk {
            assert(t[kk] == '-');
        }
    }
    assert(v@.subrange(off as int, k as int) == t.take(kk));
    assert(v@.subrange(k + 1, v@.len() as int) == t.skip(kk + 1));
    let a = parse_u64(&v, off, k);
    let b = parse_u64(&v, k + 1, v.len());
    match (a, b) {
        (Some(start), Some(end)) => {
            if start >= file_size {
                None
            } else {
                let last = file_size - 1;
                Some((start, if end <= last { end } else { last }))
            }
        },
        _ => None,
    }
}


// ------------------------------------------------------------ uploads

/// Why an upload named `filename` of type `content_type` is refused, checked
/// in this order: an unsafe name, a dangerous extension, a type that is not
/// accepted; `None` when it is accepted.
pub open spec fn upload_refusal(filename: Seq<char>, content_type: Seq<char>) -> Option<Seq<char>> {
    if !filename_is_safe(filename) {
        Some("Invalid filename"@)
    } else if dangerous_name(lowercase(filename)) {
        Some("File type not allowed for security reasons"@)
    } else if !mime_type_allowed(content_type) {
        Some("File type not allowed"@)
    } else {
        None
    }
}

/// The message an upload is refused with, or `None` when the file may be
/// received.
pub fn upload_rejection(filename: &str, content_type: &str) -> (r: Option<String>)
    ensures
        (match r {
            Some(m) => upload_refusal(filename@, content_type@) == Some(m@),
            None => upload_refusal(filename@, content_type@) is None,
        }),
{
    if !is_filename_safe(filename) {
        Some(owned("Invalid filename"))
    } else if is_dangerous_extension(filename) {
        Some(owned("File type not allowed for security reasons"))
    } else if !is_mime_type_allowed(content_type) {
        Some(owned("File type not allowed"))
    } else {
        None
    }
}

/// How an upload request ended.
pub enum UploadEnd {
    /// The uploader is not a member.
    UserNotFound,
    /// The uploader could not be looked up.
    DatabaseError,
    /// The file was refused before it was received, with this message.
    Refused(String),
    /// The upload was stored (or found stored) as the content `id`, with
    /// this message.
    Stored(i64, String),
    /// Receiving or recording the file failed.
    Failed,
    /// The multipart request could not be read.
    BadRequest,
    /// The request held no `file` field.
    NoFile,
}

/// The answer to an upload request that ended in `end`: success and the
/// content's id only for a stored upload, else the message of the failure.
pub fn upload_answer(end: UploadEnd) -> (r: UploadFileResponse)
    ensures
        (match end {
            UploadEnd::Stored(id, m) => r.success && r.file_id == id && r.message@ == m@,
            UploadEnd::Refused(m) => !r.success && r.file_id == 0 && r.message@ == m@,
            UploadEnd::UserNotFound => !r.success && r.file_id == 0 && r.message@ == "User not found"@,
            UploadEnd::DatabaseError => !r.success && r.file_id == 0 && r.message@ == "Database error"@,
            UploadEnd::Failed => !r.success && r.file_id == 0 && r.message@ == "Upload failed"@,
            UploadEnd::BadRequest => !r.success && r.file_id == 0 && r.message@
                == "Error parsing request"@,
            UploadEnd::NoFile => !r.success && r.file_id == 0 && r.message@ == "No file provided"@,
        }),
{
    let refused = |message: String| -> (r: UploadFileResponse)
        ensures
            !r.success && r.file_id == 0 && r.message == message,
        { UploadFileResponse { success: false, file_id: 0, message } };
    match end {
        UploadEnd::Stored(file_id, message) => UploadFileResponse { success: true, file_id, message },
        UploadEnd::Refused(message) => refused(message),
        UploadEnd::UserNotFound => refused(owned("User not found")),
        UploadEnd::DatabaseError => refused(owned("Database error")),
        UploadEnd::Failed => refused(owned("Upload failed")),
        UploadEnd::BadRequest => refused(owned("Error parsing request")),
        UploadEnd::NoFile => refused(owned("No file provided")),
    }
}

// ------------------------------------------------------------ serving

/// Whether a member whose storage tag is `owner_tag` (`None` when the
/// member was not found) may be served `file_path` under `storage_tag`:
/// both parts of the path must be safe, the member must exist, and the
/// storage tag must be its own.
pub fn check_serve_request(storage_tag: &str, file_path: &str, owner_tag: Option<&str>) -> (r:
    Result<(), AppError>)
    ensures
        !path_is_safe(storage_tag@) ==> (r matches Err(AppError::InvalidInput(m)) && m@
            == "Invalid storage tag"@),
        path_is_safe(storage_tag@) && !path_is_safe(file_path@) ==> (r matches Err(
            AppError::InvalidInput(m),
        ) && m@ == "Invalid file path"@),
        path_is_safe(storage_tag@) && path_is_safe(file_path@) ==> r == (match owner_tag {
            None => Err(AppError::InvalidCredentials),
            Some(t) => if t@ == storage_tag@ {
                Ok(())
            } else {
                Err(AppError::Forbidden)
            },
        }),
{
    if !is_path_safe(storage_tag) {
        return Err(AppError::InvalidInput(owned("Invalid storage tag")));
    }
    if !is_path_safe(file_path) {
        return Err(AppError::InvalidInput(owned("Invalid file path")));
    }
    match owner_tag {
        None => Err(AppError::InvalidCredentials),
        Some(t) => {
            if crate::text::str_eq(t, storage_tag) {
                Ok(())
            } else {
                Err(AppError::Forbidden)
            }
        },
    }
}

/// The view of an optional string slice.
pub open spec fn opt_str(s: Option<&str>) -> Option<Seq<char>> {
    match s {
        Some(t) => Some(t@),
        None => None,
    }
}

/// How a stored file is answered: the status, the `Content-Length` and,
/// for part of a file, the `Content-Range`; the body is the
/// `body_length` bytes of the file from offset `body_start` on.
pub struct RangeReply {
    pub status: u16,
    pub content_length: u64,
    pub content_range: Option<String>,
    pub body_start: u64,
    pub body_length: u64,
}

/// The `Content-Range` value for bytes `start..=end` of a file of `size`
/// bytes.
pub open spec fn content_range_text(start: u64, end: u64, size: u64) -> Seq<char> {
    "bytes "@ + decimal_text(start as nat) + "-"@ + decimal_text(end as nat) + "/"@ + decimal_text(
        size as nat,
    )
}

/// A `Range` header value whose requested range runs backwards: the
/// length of the part would be negative.
pub open spec fn backward_range(range: Option<Seq<char>>, size: u64) -> bool {
    match range {
        Some(r) => match requested_range(r, size) {
            Some((start, end)) => end < start,
            None => false,
        },
        None => false,
    }
}

/// How a file of `file_size` bytes is answered to a request with the
/// `Range` header `range`: the requested part with 206, or the whole file
/// with 200 when there is no header or it does not parse. The body holds
/// exactly the bytes the headers announce.
pub fn range_reply(range: Option<&str>, file_size: u64) -> (r: RangeReply)
    requires
        !backward_range(opt_str(range), file_size),
    ensures
        (match range {
            Some(h) => match requested_range(h@, file_size) {
                Some((start, end)) => r.status == 206 && r.content_length == end - start + 1 && (
                r.content_range matches Some(c) && c@ == content_range_text(start, end, file_size))
                    && r.body_start == start && r.body_length == end - start + 1,
                None => r.status == 200 && r.content_length == file_size && r.content_range is None
                    && r.body_start == 0 && r.body_length == file_size,
            },
            None => r.status == 200 && r.content_length == file_size && r.content_range is None
                && r.body_start == 0 && r.body_length == file_size,
        }),
{
    let parsed = match range {
        Some(h) => parse_range_header(h, file_size),
        None => None,
    };
    match parsed {
        Some((start, end)) => {
            let mut c = owned("bytes ");
            let a = decimal_chars(start);
            push_chars(&mut c, &a);
            push_str(&mut c, "-");
            let b = decimal_chars(end);
            push_chars(&mut c, &b);
            push_str(&mut c, "/");
            let z = decimal_chars(file_size);
            push_chars(&mut c, &z);
            let length = end - start + 1;
            RangeReply {
                status: 206,
                content_length: length,
                content_range: Some(c),
                body_start: start,
                body_length: length,
            }
        },
        None => RangeReply {
            status: 200,
            content_length: file_size,
            content_range: None,
            body_start: 0,
            body_length: file_size,
        },
    }
}

// ------------------------------------------------------------ listings

/// The URL a stored path is served under below `base_url`; an empty path
/// has none.
pub open spec fn static_url_text(base_url: Seq<char>, path: Seq<char>) -> Option<Seq<char>> {
    if path.len() == 0 {
        None
    } else {
        Some(base_url + "/api/static/"@ + path)
    }
}

/// The URL of a stored file or thumbnail in a file listing.
pub fn static_url(base_url: &str, path: &str) -> (u: Option<String>)
    ensures
        (match u {
            Some(s) => static_url_text(base_url@, path@) == Some(s@),
            None => static_url_text(base_url@, path@) is None,
        }),
{
    if path.as_bytes().len() == 0 {
        proof {
            vstd::utf8::encode_utf8_decode_utf8(path@);
        }
        None
    } else {
        let mut u = owned(base_url);
        push_str(&mut u, "/api/static/");
        push_str(&mut u, path);
        Some(u)
    }
}

// ------------------------------------------------------- content types

/// What `mime_guess::from_path(path).first()` gives as text: the first MIME
/// type known for the path's extension, if any.
pub uninterp spec fn guessed_mime(path: Seq<char>) -> Option<Seq<char>>;

/// `mime_guess::from_path(path).first()`, as text.
#[verifier::external_body]
fn mime_guess_first(path: &str) -> (r: Option<String>)
    ensures
        guessed_mime(path@) == (match r {
            Some(m) => Some(m@),
            None => None,
        }),
{
    match mime_guess::from_path(path).first() {
        Some(m) => Some(m.to_string()),
        None => None,
    }
}

/// The content type a file is served with: the one guessed from its
/// extension, or `application/octet-stream`.
pub fn content_type_for(path: &str) -> (t: String)
    ensures
        t@ == (match guessed_mime(path@) {
            Some(m) => m,
            None => "application/octet-stream"@,
        }),
{
    match mime_guess_first(path) {
        Some(m) => m,
        None => owned("application/octet-stream"),
    }
}

/// The types an upload may have besides every `image/`, `video/` and
/// `audio/` type: documents, archives and data.
pub open spec fn accepted_upload_types() -> Seq<Seq<char>> {
    seq![
        "application/pdf"@,
        "application/msword"@,
        "application/vnd.openxmlformats-officedocument.wordprocessingml.document"@,
        "application/vnd.ms-excel"@,
        "application/vnd.openxmlformats-officedocument.spreadsheetml.sheet"@,
        "application/vnd.ms-powerpoint"@,
        "application/vnd.openxmlformats-officedocument.presentationml.presentation"@,
        "text/plain"@,
        "text/csv"@,
        "text/markdown"@,
        "application/zip"@,
        "application/x-rar-compressed"@,
        "application/x-7z-compressed"@,
        "application/x-tar"@,
        "application/gzip"@,
        "application/json"@,
        "application/xml"@,
    ]
}

/// Which files may be uploaded, by type: a file whose name is safe and not
/// of a dangerous kind is accepted exactly when its type is an image, video
/// or audio type or one of the accepted document, archive and data types;
/// any other type is refused with `File type not allowed`.
pub proof fn upload_types_accepted(filename: Seq<char>, content_type: Seq<char>)
    requires
        filename_is_safe(filename),
        !dangerous_name(lowercase(filename)),
    ensures
        upload_refusal(filename, content_type) is None <==> (has_prefix(content_type, "image/"@)
            || has_prefix(content_type, "video/"@) || has_prefix(content_type, "audio/"@)
            || accepted_upload_types().contains(content_type)),
        upload_refusal(filename, content_type) is Some ==> upload_refusal(filename, content_type)
            == Some("File type not allowed"@),
{
    let list = accepted_upload_types();
    if list.contains(content_type) {
        let i = choose|i: int| 0 <= i < list.len() && list[i] == content_type;
        assert(listed_mime_type(content_type)) by {
            assert(0 <= i < 17);
            if i == 0 { } else if i == 1 { } else if i == 2 { } else if i == 3 { } else if i == 4 {
            } else if i == 5 { } else if i == 6 { } else if i == 7 { } else if i == 8 { } else if i
                == 9 { } else if i == 10 { } else if i == 11 { } else if i == 12 { } else if i == 13 {
            } else if i == 14 { } else if i == 15 { } else { }
        }
    }
    if listed_mime_type(content_type) && !has_prefix(content_type, "image/"@) && !has_prefix(
        content_type,
        "video/"@,
    ) && !has_prefix(content_type, "audio/"@) {
        assert(list.contains(content_type)) by {
            if content_type == "application/pdf"@ {
                assert(list[0] == content_type);
            } else if content_type == "application/msword"@ {
                assert(list[1] == content_type);
            } else if content_type == "application/vnd.openxmlformats-officedocument.wordprocessingml.document"@ {
                assert(list[2] == content_type);
            } else if content_type == "application/vnd.ms-excel"@ {
                assert(list[3] == content_type);
            } else if content_type == "application/vnd.openxmlformats-officedocument.spreadsheetml.sheet"@ {
                assert(list[4] == content_type);
            } else if content_type == "application/vnd.ms-powerpoint"@ {
                assert(list[5] == content_type);
            } else if content_type == "application/vnd.openxmlformats-officedocument.presentationml.presentation"@ {
                assert(list[6] == content_type);
            } else if content_type == "text/plain"@ {
                assert(list[7] == content_type);
            } else if content_type == "text/csv"@ {
                assert(list[8] == content_type);
            } else if content_type == "text/markdown"@ {
                assert(list[9] == content_type);
            } else if content_type == "application/zip"@ {
                assert(list[10] == content_type);
            } else if content_type == "application/x-rar-compressed"@ {
                assert(list[11] == content_type);
            } else if content_type == "application/x-7z-compressed"@ {
                assert(list[12] == content_type);
            } else if content_type == "application/x-tar"@ {
                assert(list[13] == content_type);
            } else if content_type == "application/gzip"@ {
                assert(list[14] == content_type);
            } else if content_type == "application/json"@ {
                assert(list[15] == content_type);
            } else if content_type == "application/xml"@ {
                assert(list[16] == content_type);
            } else {
                if content_type == "image/jpeg"@ {
                    reveal_strlit("image/jpeg");
                    reveal_strlit("image/");
                    assert(content_type.take(6) =~= "image/"@);
                }
                if content_type == "image/png"@ {
                    reveal_strlit("image/png");
                    reveal_strlit("image/");
                    assert(content_type.take(6) =~= "image/"@);
                }
                if content_type == "image/gif"@ {
                    reveal_strlit("image/gif");
                    reveal_strlit("image/");
                    assert(content_type.take(6) =~= "image/"@);
                }
                if content_type == "image/webp"@ {
                    reveal_strlit("image/webp");
                    reveal_strlit("image/");
                    assert(content_type.take(6) =~= "image/"@);
                }
                if content_type == "image/svg+xml"@ {
                    reveal_strlit("image/svg+xml");
                    reveal_strlit("image/");
                    assert(content_type.take(6) =~= "image/"@);
                }
                if content_type == "image/bmp"@ {
                    reveal_strlit("image/bmp");
                    reveal_strlit("image/");
                    assert(content_type.take(6) =~= "image/"@);
                }
                if content_type == "image/tiff"@ {
                    reveal_strlit("image/tiff");
                    reveal_strlit("image/");
                    assert(content_type.take(6) =~= "image/"@);
                }
                if content_type == "video/mp4"@ {
                    reveal_strlit("video/mp4");
                    reveal_strlit("video/");
                    assert(content_type.take(6) =~= "video/"@);
                }
                if content_type == "video/mpeg"@ {
                    reveal_strlit("video/mpeg");
                    reveal_strlit("video/");
                    assert(content_type.take(6) =~= "video/"@);
                }
                if content_type == "video/quicktime"@ {
                    reveal_strlit("video/quicktime");
                    reveal_strlit("video/");
                    assert(content_type.take(6) =~= "video/"@);
                }
                if content_type == "video/x-msvideo"@ {
                    reveal_strlit("video/x-msvideo");
                    reveal_strlit("video/");
                    assert(content_type.take(6) =~= "video/"@);
                }
                if content_type == "video/x-ms-wmv"@ {
                    reveal_strlit("video/x-ms-wmv");
                    reveal_strlit("video/");
                    assert(content_type.take(6) =~= "video/"@);
                }
                if content_type == "video/webm"@ {
                    reveal_strlit("video/webm");
                    reveal_strlit("video/");
                    assert(content_type.take(6) =~= "video/"@);
                }
                if content_type == "audio/mpeg"@ {
                    reveal_strlit("audio/mpeg");
                    reveal_strlit("audio/");
                    assert(content_type.take(6) =~= "audio/"@);
                }
                if content_type == "audio/wav"@ {
                    reveal_strlit("audio/wav");
                    reveal_strlit("audio/");
                    assert(content_type.take(6) =~= "audio/"@);
                }
                if content_type == "audio/ogg"@ {
                    reveal_strlit("audio/ogg");
                    reveal_strlit("audio/");
                    assert(content_type.take(6) =~= "audio/"@);
                }
                if content_type == "audio/aac"@ {
                    reveal_strlit("audio/aac");
                    reveal_strlit("audio/");
                    assert(content_type.take(6) =~= "audio/"@);
                }
                if content_type == "audio/flac"@ {
                    reveal_strlit("audio/flac");
                    reveal_strlit("audio/");
                    assert(content_type.take(6) =~= "audio/"@);
                }
            }
        }
    }
}

} // verus!
