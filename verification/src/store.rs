//! The records kept in the database, the changes the data layer makes to
//! them, and how listings are queried. The database itself is reached by
//! the application; this module decides what is written and asked.

use vstd::prelude::*;
use crate::auth::MemberRole;
use crate::text::{concat, eq_lit, owned, chars_of, string_views};

verus! {

// --------------------------------------------------------------- records

/// A stored member. Times are Unix milliseconds.
pub struct MemberModel {
    pub id: i64,
    pub username: String,
    /// The bcrypt hash of the password.
    pub password: String,
    pub avatar: Option<String>,
    pub storage_tag: String,
    pub created_at: i64,
    pub role: MemberRole,
}

/// A stored file content, shared by every member file with the same hash.
pub struct FileContentModel {
    pub id: i64,
    pub content_hash: String,
    pub file_size: i64,
    pub storage_path: String,
    pub mime_type: String,
    pub width: i64,
    pub height: i64,
    pub duration: i64,
    /// How many member files refer to this content.
    pub ref_count: i64,
    pub created_at: i64,
    pub first_uploaded_by: i64,
    pub thumbnail: Option<String>,
}

/// A file as a member sees it: a name given to a stored content.
pub struct MemberFileModel {
    pub id: i64,
    pub member_id: i64,
    pub file_content_id: i64,
    pub file_name: String,
    pub description: String,
    pub created_at: i64,
    pub updated_at: i64,
    /// When the file was moved to the trash.
    pub deleted_at: Option<i64>,
}

/// A stored album.
pub struct AlbumModel {
    pub id: i64,
    pub member_id: i64,
    pub name: String,
    pub description: Option<String>,
    pub cover_file_id: Option<i64>,
    pub created_at: i64,
    pub updated_at: i64,
}

// ------------------------------------------------------------- mutations

/// Data of a new member.
pub struct CreateMember {
    pub username: String,
    pub password: String,
    pub avatar: Option<String>,
    pub storage_tag: String,
    pub role: Option<MemberRole>,
}

/// Changes to a member; absent fields stay.
pub struct UpdateMember {
    pub username: Option<String>,
    pub password: Option<String>,
    pub avatar: Option<String>,
    pub storage_tag: Option<String>,
    pub role: Option<MemberRole>,
}

/// Data of a new member file.
pub struct CreateMemberFile {
    pub member_id: i64,
    pub file_content_id: i64,
    pub file_name: String,
    pub description: String,
}

/// Changes to a member file; absent fields stay.
pub struct UpdateMemberFile {
    pub file_name: Option<String>,
    pub description: Option<String>,
}

/// Data of a new file content.
pub struct CreateFileContent {
    pub content_hash: String,
    pub file_size: i64,
    pub storage_path: String,
    pub mime_type: String,
    pub width: i64,
    pub height: i64,
    pub duration: i64,
    pub first_uploaded_by: i64,
}

/// Changes to a file content; absent fields stay.
pub struct UpdateFileContent {
    pub storage_path: Option<String>,
    pub mime_type: Option<String>,
    pub width: Option<i64>,
    pub height: Option<i64>,
    pub duration: Option<i64>,
}

/// Data of a new album.
pub struct CreateAlbum {
    pub member_id: i64,
    pub name: String,
    pub description: Option<String>,
    pub cover_file_id: Option<i64>,
}

/// Changes to an album; absent fields stay.
pub struct UpdateAlbum {
    pub name: Option<String>,
    pub description: Option<String>,
    pub cover_file_id: Option<i64>,
}

/// A file added to an album.
pub struct AddFileToAlbum {
    pub album_id: i64,
    pub member_file_id: i64,
}

/// `new` when given, else `old`.
pub open spec fn or_keep<T>(new: Option<T>, old: T) -> T {
    match new {
        Some(v) => v,
        None => old,
    }
}

/// The view of an optional string.
pub open spec fn opt_chars(s: Option<String>) -> Option<Seq<char>> {
    match s {
        Some(v) => Some(v@),
        None => None,
    }
}

/// A reference count lowered by one, never below zero.
pub open spec fn ref_count_less(n: int) -> int {
    if n - 1 < 0 {
        0
    } else {
        n - 1
    }
}

/// A reference taken and given back leaves a (non-negative) count as it
/// was; a count never drops below zero.
pub proof fn lemma_ref_count_round_trip(n: int)
    requires
        n >= 0,
    ensures
        ref_count_less(n + 1) == n,
        ref_count_less(n) >= 0,
{
}

/// The changes the member data layer makes; stored records are written by
/// the application.
pub struct Mutation;

impl Mutation {
    /// The member written for `data` at `now`: role `User` unless given.
    pub fn new_member(data: CreateMember, now: i64) -> (m: MemberModel)
        ensures
            m.id == 0,
            m.username@ == data.username@,
            m.password@ == data.password@,
            opt_chars(m.avatar) == opt_chars(data.avatar),
            m.storage_tag@ == data.storage_tag@,
            m.created_at == now,
            m.role == or_keep(data.role, MemberRole::User),
    {
        let role = match data.role {
            Some(r) => r,
            None => MemberRole::User,
        };
        MemberModel {
            id: 0,
            username: data.username,
            password: data.password,
            avatar: data.avatar,
            storage_tag: data.storage_tag,
            created_at: now,
            role,
        }
    }

    /// `member` with the changes of `data` applied.
    pub fn apply_member_update(member: MemberModel, data: UpdateMember) -> (m: MemberModel)
        ensures
            m.id == member.id,
            m.username@ == or_keep(opt_chars(data.username), member.username@),
            m.password@ == or_keep(opt_chars(data.password), member.password@),
            opt_chars(m.avatar) == (match data.avatar {
                Some(a) => Some(a@),
                None => opt_chars(member.avatar),
            }),
            m.storage_tag@ == or_keep(opt_chars(data.storage_tag), member.storage_tag@),
            m.role == or_keep(data.role, member.role),
            m.created_at == member.created_at,
    {
        let mut m = member;
        if let Some(username) = data.username {
            m.username = username;
        }
        if let Some(password) = data.password {
            m.password = password;
        }
        if let Some(avatar) = data.avatar {
            m.avatar = Some(avatar);
        }
        if let Some(storage_tag) = data.storage_tag {
            m.storage_tag = storage_tag;
        }
        if let Some(role) = data.role {
            m.role = role;
        }
        m
    }

    /// `file` with the changes of `data` applied.
    pub fn apply_member_file_update(file: MemberFileModel, data: UpdateMemberFile) -> (f: MemberFileModel)
        ensures
            f.id == file.id,
            f.member_id == file.member_id,
            f.file_content_id == file.file_content_id,
            f.file_name@ == or_keep(opt_chars(data.file_name), file.file_name@),
            f.description@ == or_keep(opt_chars(data.description), file.description@),
            f.deleted_at == file.deleted_at,
    {
        let mut f = file;
        if let Some(n) = data.file_name {
            f.file_name = n;
        }
        if let Some(d) = data.description {
            f.description = d;
        }
        f
    }

    /// The file content written for `data` at `now`, referred to once.
    pub fn new_file_content(data: CreateFileContent, now: i64) -> (c: FileContentModel)
        ensures
            c.id == 0,
            c.content_hash@ == data.content_hash@,
            c.file_size == data.file_size,
            c.storage_path@ == data.storage_path@,
            c.mime_type@ == data.mime_type@,
            c.width == data.width,
            c.height == data.height,
            c.duration == data.duration,
            c.first_uploaded_by == data.first_uploaded_by,
            c.ref_count == 1,
            c.created_at == now,
            c.thumbnail is None,
    {
        FileContentModel {
            id: 0,
            content_hash: data.content_hash,
            file_size: data.file_size,
            storage_path: data.storage_path,
            mime_type: data.mime_type,
            width: data.width,
            height: data.height,
            duration: data.duration,
            ref_count: 1,
            created_at: now,
            first_uploaded_by: data.first_uploaded_by,
            thumbnail: None,
        }
    }

    /// `content` with the changes of `data` applied.
    pub fn apply_file_content_update(content: FileContentModel, data: UpdateFileContent) -> (c: FileContentModel)
        ensures
            c.id == content.id,
            c.content_hash@ == content.content_hash@,
            c.storage_path@ == or_keep(opt_chars(data.storage_path), content.storage_path@),
            c.mime_type@ == or_keep(opt_chars(data.mime_type), content.mime_type@),
            c.width == or_keep(data.width, content.width),
            c.height == or_keep(data.height, content.height),
            c.duration == or_keep(data.duration, content.duration),
            c.ref_count == content.ref_count,
    {
        let mut c = content;
        if let Some(p) = data.storage_path {
            c.storage_path = p;
        }
        if let Some(m) = data.mime_type {
            c.mime_type = m;
        }
        if let Some(w) = data.width {
            c.width = w;
        }
        if let Some(h) = data.height {
            c.height = h;
        }
        if let Some(d) = data.duration {
            c.duration = d;
        }
        c
    }

    /// The reference count after one more member file refers to a content.
    pub fn incremented_ref_count(ref_count: i64) -> (r: i64)
        requires
            ref_count < i64::MAX,
        ensures
            r == ref_count + 1,
    {
        ref_count + 1
    }

    /// The reference count after one member file stopped referring to a
    /// content; it never goes below zero.
    pub fn decremented_ref_count(ref_count: i64) -> (r: i64)
        requires
            ref_count > i64::MIN,
        ensures
            r == ref_count_less(ref_count as int),
    {
        let n = ref_count - 1;
        if n < 0 {
            0
        } else {
            n
        }
    }

    /// The album written for `data` at `now`.
    pub fn new_album(data: CreateAlbum, now: i64) -> (a: AlbumModel)
        ensures
            a.id == 0,
            a.member_id == data.member_id,
            a.name@ == data.name@,
            opt_chars(a.description) == opt_chars(data.description),
            a.cover_file_id == data.cover_file_id,
            a.created_at == now,
            a.updated_at == now,
    {
        AlbumModel {
            id: 0,
            member_id: data.member_id,
            name: data.name,
            description: data.description,
            cover_file_id: data.cover_file_id,
            created_at: now,
            updated_at: now,
        }
    }

    /// `album` with the changes of `data` applied.
    pub fn apply_album_update(album: AlbumModel, data: UpdateAlbum) -> (a: AlbumModel)
        ensures
            a.id == album.id,
            a.member_id == album.member_id,
            a.name@ == or_keep(opt_chars(data.name), album.name@),
            opt_chars(a.description) == (match data.description {
                Some(d) => Some(d@),
                None => opt_chars(album.description),
            }),
            a.cover_file_id == (match data.cover_file_id {
                Some(c) => Some(c),
                None => album.cover_file_id,
            }),
            a.created_at == album.created_at,
    {
        let mut a = album;
        if let Some(name) = data.name {
            a.name = name;
        }
        if let Some(d) = data.description {
            a.description = Some(d);
        }
        if let Some(c) = data.cover_file_id {
            a.cover_file_id = Some(c);
        }
        a
    }
}

/// The reference count a content keeps after a member file that referred to
/// it disappeared: `None` when nothing refers to it any more and it is to be
/// deleted.
pub fn ref_count_after_removal(ref_count: i64) -> (r: Option<i64>)
    requires
        ref_count > i64::MIN,
    ensures
        ref_count - 1 <= 0 ==> r is None,
        ref_count - 1 > 0 ==> r == Some((ref_count - 1) as i64),
{
    let n = ref_count - 1;
    if n <= 0 {
        None
    } else {
        Some(n)
    }
}

/// The reference count written when synchronisation meets a content that
/// is already stored: one more than the stored count.
pub fn synced_ref_count(stored: i64) -> (r: i64)
    requires
        stored < i64::MAX,
    ensures
        r == stored + 1,
{
    stored + 1
}

// ------------------------------------------------------------- listings

/// Fields a file listing can be sorted by.
#[derive(Debug, Clone, Copy, PartialEq, Eq, Structural)]
pub enum SortField {
    CreatedAt,
    FileName,
    FileSize,
    DeletedAt,
}

/// Sort direction.
#[derive(Debug, Clone, Copy, PartialEq, Eq, Structural)]
pub enum SortOrder {
    Asc,
    Desc,
}

/// Kinds of file a listing can be restricted to.
#[derive(Debug, Clone, Copy, PartialEq, Eq, Structural)]
pub enum FileTypeFilter {
    Image,
    Video,
    Audio,
    Document,
    Archive,
    Other,
}

/// The MIME type prefixes of each kind of file.
pub open spec fn mime_prefixes_of(f: FileTypeFilter) -> Seq<Seq<char>> {
    match f {
        FileTypeFilter::Image => seq!["image/"@],
        FileTypeFilter::Video => seq!["video/"@],
        FileTypeFilter::Audio => seq!["audio/"@],
        FileTypeFilter::Document => seq![
            "text/"@,
            "application/pdf"@,
            "application/msword"@,
            "application/vnd.openxmlformats-officedocument"@,
        ],
        FileTypeFilter::Archive => seq![
            "application/zip"@,
            "application/x-rar-compressed"@,
            "application/x-7z-compressed"@,
            "application/gzip"@,
        ],
        FileTypeFilter::Other => seq![],
    }
}

impl FileTypeFilter {
    /// The MIME type prefixes of this kind of file.
    pub fn get_mime_prefixes(&self) -> (v: Vec<&'static str>)
        ensures
            v@.len() == mime_prefixes_of(*self).len(),
            forall|i: int| 0 <= i < v@.len() ==> #[trigger] v@[i]@ == mime_prefixes_of(*self)[i],
    {
        let mut v: Vec<&'static str> = Vec::new();
        match self {
            FileTypeFilter::Image => {
                v.push("image/");
            },
            FileTypeFilter::Video => {
                v.push("video/");
            },
            FileTypeFilter::Audio => {
                v.push("audio/");
            },
            FileTypeFilter::Document => {
                v.push("text/");
                v.push("application/pdf");
                v.push("application/msword");
                v.push("application/vnd.openxmlformats-officedocument");
            },
            FileTypeFilter::Archive => {
                v.push("application/zip");
                v.push("application/x-rar-compressed");
                v.push("application/x-7z-compressed");
                v.push("application/gzip");
            },
            FileTypeFilter::Other => {},
        }
        v
    }

    /// The kind of file a listing parameter names; unknown names are
    /// `Other`.
    pub fn from_name(name: &str) -> (f: FileTypeFilter)
        ensures
            f == file_type_named(name@),
    {
        let v = chars_of(name);
        if eq_lit(&v, "image") {
            FileTypeFilter::Image
        } else if eq_lit(&v, "video") {
            FileTypeFilter::Video
        } else if eq_lit(&v, "audio") {
            FileTypeFilter::Audio
        } else if eq_lit(&v, "document") {
            FileTypeFilter::Document
        } else if eq_lit(&v, "archive") {
            FileTypeFilter::Archive
        } else {
            FileTypeFilter::Other
        }
    }
}

/// The kind of file a listing parameter names.
pub open spec fn file_type_named(s: Seq<char>) -> FileTypeFilter {
    if s == "image"@ {
        FileTypeFilter::Image
    } else if s == "video"@ {
        FileTypeFilter::Video
    } else if s == "audio"@ {
        FileTypeFilter::Audio
    } else if s == "document"@ {
        FileTypeFilter::Document
    } else if s == "archive"@ {
        FileTypeFilter::Archive
    } else {
        FileTypeFilter::Other
    }
}

/// The sort field a listing parameter names; unknown names sort by
/// creation time.
pub open spec fn sort_field_named(s: Seq<char>) -> SortField {
    if s == "file_name"@ {
        SortField::FileName
    } else if s == "file_size"@ {
        SortField::FileSize
    } else {
        SortField::CreatedAt
    }
}

/// The sort field a listing parameter names.
pub fn sort_field_from_name(name: &str) -> (f: SortField)
    ensures
        f == sort_field_named(name@),
{
    let v = chars_of(name);
    if eq_lit(&v, "file_name") {
        SortField::FileName
    } else if eq_lit(&v, "file_size") {
        SortField::FileSize
    } else {
        SortField::CreatedAt
    }
}

/// The sort direction a listing parameter names: `asc`, else descending.
pub fn sort_order_from_name(name: &str) -> (o: SortOrder)
    ensures
        name@ == "asc"@ ==> o == SortOrder::Asc,
        name@ != "asc"@ ==> o == SortOrder::Desc,
{
    let v = chars_of(name);
    if eq_lit(&v, "asc") {
        SortOrder::Asc
    } else {
        SortOrder::Desc
    }
}

/// Query of the member table.
pub struct MemberQuery {
    pub id: Option<i64>,
    pub username: Option<String>,
    pub storage_tag: Option<String>,
    pub page: Option<u64>,
    pub page_size: Option<u64>,
}

/// Query of the member file table.
pub struct MemberFileQuery {
    pub id: Option<i64>,
    pub member_id: Option<i64>,
    pub file_content_id: Option<i64>,
    pub file_name: Option<String>,
    pub page: Option<u64>,
    pub page_size: Option<u64>,
}

/// Query of the file content table.
pub struct FileContentQuery {
    pub id: Option<i64>,
    pub content_hash: Option<String>,
    pub mime_type: Option<String>,
    pub first_uploaded_by: Option<i64>,
    pub page: Option<u64>,
    pub page_size: Option<u64>,
}

/// Listing of a member's files.
pub struct ListMemberFilesQuery {
    /// Page number, from 1.
    pub page: Option<u64>,
    /// Page size, 100 by default.
    pub page_size: Option<u64>,
    pub sort_by: Option<SortField>,
    pub sort_order: Option<SortOrder>,
    pub file_type: Option<FileTypeFilter>,
    /// Part of the file name to look for.
    pub search: Option<String>,
    /// Whether files in the trash are listed too.
    pub include_deleted: Option<bool>,
}

/// Listing of a member's trash.
pub struct ListTrashQuery {
    pub page: Option<u64>,
    pub page_size: Option<u64>,
}

/// The zero-based page and the page size of a listing: page 1 and
/// `default_size` unless given.
pub fn page_window(page: Option<u64>, page_size: Option<u64>, default_size: u64) -> (r: (u64, u64))
    requires
        page != Some(0u64),
    ensures
        r.0 == or_keep(page, 1u64) - 1,
        r.1 == or_keep(page_size, default_size),
{
    let p = match page {
        Some(p) => p,
        None => 1,
    };
    let s = match page_size {
        Some(s) => s,
        None => default_size,
    };
    (p - 1, s)
}

/// Columns a file listing is ordered by.
#[derive(Debug, Clone, Copy, PartialEq, Eq, Structural)]
pub enum OrderColumn {
    CreatedAt,
    FileName,
    /// The size of the file's content.
    FileSize,
    DeletedAt,
}

/// How the database is asked for a page of a member's files.
pub struct ListingPlan {
    /// Zero-based page.
    pub page_index: u64,
    pub page_size: u64,
    /// Whether files in the trash are left out.
    pub exclude_deleted: bool,
    /// `LIKE` patterns of which the content's MIME type must match one;
    /// empty when no kind of file is asked for (or the kind has no prefix).
    pub mime_likes: Vec<String>,
    /// `LIKE` pattern the file name must match.
    pub name_like: Option<String>,
    pub order_column: OrderColumn,
    pub ascending: bool,
}

/// The ordering used for a sort field.
pub open spec fn order_column_for(f: SortField) -> OrderColumn {
    match f {
        SortField::CreatedAt => OrderColumn::CreatedAt,
        SortField::FileName => OrderColumn::FileName,
        SortField::FileSize => OrderColumn::FileSize,
        SortField::DeletedAt => OrderColumn::DeletedAt,
    }
}

/// The `LIKE` patterns for a kind of file: each of its MIME type prefixes
/// followed by `%`; none when no kind is asked for.
pub open spec fn mime_patterns(kind: Option<FileTypeFilter>) -> Seq<Seq<char>> {
    match kind {
        Some(f) => mime_prefixes_of(f).map_values(|x: Seq<char>| x + "%"@),
        None => seq![],
    }
}

/// The questions the data layer asks of the database: which page of which
/// rows. The database itself is reached by the application.
pub struct Query;

impl Query {
    /// The zero-based page and page size of a member listing: page 1 of 20
    /// unless given.
    pub fn member_window(query: &MemberQuery) -> (r: (u64, u64))
        requires
            query.page != Some(0u64),
        ensures
            r.0 == or_keep(query.page, 1u64) - 1,
            r.1 == or_keep(query.page_size, 20u64),
    {
        page_window(query.page, query.page_size, 20)
    }

    /// The zero-based page and page size of a member file listing: page 1
    /// of 20 unless given.
    pub fn member_file_window(query: &MemberFileQuery) -> (r: (u64, u64))
        requires
            query.page != Some(0u64),
        ensures
            r.0 == or_keep(query.page, 1u64) - 1,
            r.1 == or_keep(query.page_size, 20u64),
    {
        page_window(query.page, query.page_size, 20)
    }

    /// The zero-based page and page size of a file content listing: page 1
    /// of 20 unless given.
    pub fn file_content_window(query: &FileContentQuery) -> (r: (u64, u64))
        requires
            query.page != Some(0u64),
        ensures
            r.0 == or_keep(query.page, 1u64) - 1,
            r.1 == or_keep(query.page_size, 20u64),
    {
        page_window(query.page, query.page_size, 20)
    }

    /// The zero-based page and page size of a trash listing (newest
    /// deletion first): page 1 of 100 unless given.
    pub fn trash_window(query: &ListTrashQuery) -> (r: (u64, u64))
        requires
            query.page != Some(0u64),
        ensures
            r.0 == or_keep(query.page, 1u64) - 1,
            r.1 == or_keep(query.page_size, 100u64),
    {
        page_window(query.page, query.page_size, 100)
    }

    /// How a page of a member's files is fetched: page 1 of 100, newest first,
    /// trash left out unless asked for; a file kind keeps only contents whose
    /// MIME type starts with one of the kind's prefixes; a search keeps names
    /// holding the text.
    pub fn list_files_plan(query: &ListMemberFilesQuery) -> (p: ListingPlan)
        requires
            query.page != Some(0u64),
        ensures
            p.page_index == or_keep(query.page, 1u64) - 1,
            p.page_size == or_keep(query.page_size, 100u64),
            p.exclude_deleted == (query.include_deleted != Some(true)),
            string_views(p.mime_likes@) == mime_patterns(query.file_type),
            opt_chars(p.name_like) == (match query.search {
                Some(s) => Some("%"@ + s@ + "%"@),
                None => None,
            }),
            p.order_column == order_column_for(or_keep(query.sort_by, SortField::CreatedAt)),
            p.ascending == (or_keep(query.sort_order, SortOrder::Desc) == SortOrder::Asc),
    {
        let (page_index, page_size) = page_window(query.page, query.page_size, 100);
        let sort_by = match query.sort_by {
            Some(f) => f,
            None => SortField::CreatedAt,
        };
        let sort_order = match query.sort_order {
            Some(o) => o,
            None => SortOrder::Desc,
        };
        let exclude_deleted = match query.include_deleted {
            Some(true) => false,
            _ => true,
        };
        let mut mime_likes: Vec<String> = Vec::new();
        if let Some(f) = query.file_type {
            let prefixes = f.get_mime_prefixes();
            let mut i: usize = 0;
            while i < prefixes.len()
                invariant
                    i <= prefixes@.len(),
                    prefixes@.len() == mime_prefixes_of(f).len(),
                    forall|k: int| 0 <= k < prefixes@.len() ==> #[trigger] prefixes@[k]@ == mime_prefixes_of(f)[k],
                    string_views(mime_likes@) == mime_prefixes_of(f).take(i as int).map_values(
                        |x: Seq<char>| x + "%"@,
                    ),
                decreases prefixes@.len() - i,
            {
                let like = concat(prefixes[i], "%");
                let ghost before = mime_likes@;
                mime_likes.push(like);
                proof {
                    let old_views = mime_prefixes_of(f).take(i as int).map_values(|x: Seq<char>| x + "%"@);
                    assert(string_views(before) == old_views);
                    assert(string_views(before).len() == before.len());
                    assert(old_views.len() == i);
                    assert(before.len() == i);
                    assert(mime_likes@ == before.push(like));
                    assert forall|k: int| 0 <= k < i implies #[trigger] string_views(mime_likes@)[k] == old_views[k] by {
                        assert(mime_likes@[k] == before[k]);
                        assert(string_views(before)[k] == before[k]@);
                    }
                    assert(mime_prefixes_of(f).take(i + 1) == mime_prefixes_of(f).take(i as int).push(
                        mime_prefixes_of(f)[i as int],
                    ));
                    assert(string_views(mime_likes@) =~= mime_prefixes_of(f).take(i + 1).map_values(
                        |x: Seq<char>| x + "%"@,
                    ));
                }
                i = i + 1;
            }
            proof {
                assert(mime_prefixes_of(f).take(i as int) == mime_prefixes_of(f));
            }
        }
        let name_like = match &query.search {
            Some(s) => {
                let mut t = concat("%", s.as_str());
                crate::text::push_str(&mut t, "%");
                Some(t)
            },
            None => None,
        };
        let order_column = match sort_by {
            SortField::CreatedAt => OrderColumn::CreatedAt,
            SortField::FileName => OrderColumn::FileName,
            SortField::FileSize => OrderColumn::FileSize,
            SortField::DeletedAt => OrderColumn::DeletedAt,
        };
        let ascending = match sort_order {
            SortOrder::Asc => true,
            SortOrder::Desc => false,
        };
        ListingPlan { page_index, page_size, exclude_deleted, mime_likes, name_like, order_column, ascending }
    }
}

/// How the sort parameter of a listing chooses its order: `file_name`
/// orders the files by name and `file_size` by the size of their content,
/// and no other parameter does either; every other parameter orders by
/// upload time, as no parameter does; none orders by deletion time.
pub proof fn sort_parameters_choose_the_order(param: Seq<char>)
    ensures
        param == "file_name"@ <==> order_column_for(sort_field_named(param)) == OrderColumn::FileName,
        param == "file_size"@ <==> order_column_for(sort_field_named(param)) == OrderColumn::FileSize,
        param != "file_name"@ && param != "file_size"@ ==> order_column_for(sort_field_named(param))
            == order_column_for(or_keep(None::<SortField>, SortField::CreatedAt)),
        order_column_for(or_keep(None::<SortField>, SortField::CreatedAt)) == OrderColumn::CreatedAt,
        order_column_for(sort_field_named(param)) != OrderColumn::DeletedAt,
{
    reveal_strlit("file_name");
    reveal_strlit("file_size");
    assert("file_name"@ != "file_size"@) by {
        assert("file_name"@[5] != "file_size"@[5]);
    }
}

} // verus!
