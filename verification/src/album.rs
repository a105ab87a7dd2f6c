//! Albums: who may act on an album, which files can be added to one, and
//! what is shown of it.

use vstd::prelude::*;

use crate::errors::ServiceError;
use crate::schema::{AlbumFileInfo, AlbumResponse};
use crate::store::{or_keep, AlbumModel, CreateAlbum, FileContentModel, MemberFileModel, UpdateAlbum};
use crate::text::{owned, str_eq};

verus! {

/// What a new album is made of.
pub struct CreateAlbumParams {
    pub name: String,
    pub description: Option<String>,
    /// The member file shown as the cover.
    pub cover_file_id: Option<i64>,
    /// Member files put in the album at once.
    pub file_ids: Option<Vec<i64>>,
}

/// Changes to an album; absent fields stay.
pub struct UpdateAlbumParams {
    pub name: Option<String>,
    pub description: Option<String>,
    pub cover_file_id: Option<i64>,
}

/// An album in a member's album list. Times are Unix milliseconds.
pub struct AlbumListItem {
    pub id: i64,
    pub name: String,
    pub description: Option<String>,
    pub cover_file_id: Option<i64>,
    pub file_count: u64,
    pub created_at: i64,
    pub updated_at: i64,
}

/// Album operations.
pub struct AlbumService;

/// The message of an album that does not exist.
pub open spec fn album_missing_text() -> Seq<char> {
    "相册不存在"@
}

/// The message of an album that belongs to someone else.
pub open spec fn album_foreign_text() -> Seq<char> {
    "无权访问此相册"@
}

/// The message of an album name the member already uses.
pub open spec fn album_name_taken_text() -> Seq<char> {
    "相册名称已存在"@
}

/// The files added to an album, given for each requested file (in order)
/// its owner (`None` when it does not exist) and whether it is already in
/// the album: those the member owns that are not in it yet, in order.
/// A file asked for twice is kept twice.
pub open spec fn addable_files(ids: Seq<i64>, owners: Seq<Option<i64>>, in_album: Seq<bool>, member_id: i64) -> Seq<i64>
    decreases ids.len(),
{
    if ids.len() == 0 {
        seq![]
    } else {
        let i = ids.len() - 1;
        let rest = addable_files(ids.drop_last(), owners.take(i), in_album.take(i), member_id);
        if owners[i] == Some(member_id) && !in_album[i] {
            rest.push(ids[i])
        } else {
            rest
        }
    }
}

impl AlbumService {
    /// The album looked up for `member_id`: it must exist and be theirs.
    pub fn check_owner(album: Option<AlbumModel>, member_id: i64) -> (r: Result<AlbumModel, ServiceError>)
        ensures
            (match album {
                None => r matches Err(ServiceError::NotFound(m)) && m@ == album_missing_text(),
                Some(a) => if a.member_id == member_id {
                    r == Ok::<AlbumModel, ServiceError>(a)
                } else {
                    r matches Err(ServiceError::Forbidden(m)) && m@ == album_foreign_text()
                },
            }),
    {
        match album {
            None => Err(ServiceError::NotFound(owned("相册不存在"))),
            Some(a) => {
                if a.member_id == member_id {
                    Ok(a)
                } else {
                    Err(ServiceError::Forbidden(owned("无权访问此相册")))
                }
            },
        }
    }

    /// Refuses a name the member already gives another album.
    pub fn check_name_free(name_exists: bool) -> (r: Result<(), ServiceError>)
        ensures
            !name_exists ==> r is Ok,
            name_exists ==> (r matches Err(ServiceError::Validation(m)) && m@
                == album_name_taken_text()),
    {
        if name_exists {
            Err(ServiceError::Validation(owned("相册名称已存在")))
        } else {
            Ok(())
        }
    }

    /// Whether an update must check that its new name is free: only when a
    /// name is given that differs from the current one.
    pub fn renames(params: &UpdateAlbumParams, current_name: &str) -> (b: bool)
        ensures
            b == (match params.name {
                Some(n) => n@ != current_name@,
                None => false,
            }),
    {
        match &params.name {
            Some(n) => !str_eq(n.as_str(), current_name),
            None => false,
        }
    }

    /// The album written for `member_id`, and the files to put in it at
    /// once (only a non-empty list is added).
    pub fn album_data(member_id: i64, params: CreateAlbumParams) -> (r: (CreateAlbum, Option<Vec<i64>>))
        ensures
            r.0.member_id == member_id,
            r.0.name == params.name,
            r.0.description == params.description,
            r.0.cover_file_id == params.cover_file_id,
            (match params.file_ids {
                Some(v) => if v@.len() > 0 {
                    r.1 matches Some(w) && w@ == v@
                } else {
                    r.1 is None
                },
                None => r.1 is None,
            }),
    {
        let files = match params.file_ids {
            Some(v) => {
                if v.len() > 0 {
                    Some(v)
                } else {
                    None
                }
            },
            None => None,
        };
        (
            CreateAlbum {
                member_id,
                name: params.name,
                description: params.description,
                cover_file_id: params.cover_file_id,
            },
            files,
        )
    }

    /// The changes written for an album update.
    pub fn album_changes(params: UpdateAlbumParams) -> (u: UpdateAlbum)
        ensures
            u.name == params.name,
            u.description == params.description,
            u.cover_file_id == params.cover_file_id,
    {
        UpdateAlbum {
            name: params.name,
            description: params.description,
            cover_file_id: params.cover_file_id,
        }
    }

    /// What is shown of an album holding `file_count` files.
    pub fn album_response(album: AlbumModel, file_count: u64) -> (r: AlbumResponse)
        ensures
            r.id == album.id,
            r.member_id == album.member_id,
            r.name == album.name,
            r.description == album.description,
            r.cover_file_id == album.cover_file_id,
            r.file_count == file_count,
            r.created_at == album.created_at,
            r.updated_at == album.updated_at,
    {
        AlbumResponse {
            id: album.id,
            member_id: album.member_id,
            name: album.name,
            description: album.description,
            cover_file_id: album.cover_file_id,
            file_count,
            created_at: album.created_at,
            updated_at: album.updated_at,
        }
    }

    /// An album as listed, holding `file_count` files.
    pub fn list_item(album: AlbumModel, file_count: u64) -> (r: AlbumListItem)
        ensures
            r.id == album.id,
            r.name == album.name,
            r.description == album.description,
            r.cover_file_id == album.cover_file_id,
            r.file_count == file_count,
            r.created_at == album.created_at,
            r.updated_at == album.updated_at,
    {
        AlbumListItem {
            id: album.id,
            name: album.name,
            description: album.description,
            cover_file_id: album.cover_file_id,
            file_count,
            created_at: album.created_at,
            updated_at: album.updated_at,
        }
    }

    /// A file as listed in an album: its content's size and type, or 0 and
    /// `application/octet-stream` when it has no content.
    pub fn album_file_info(file: MemberFileModel, content: Option<FileContentModel>) -> (r: AlbumFileInfo)
        ensures
            r.id == file.id,
            r.file_name == file.file_name,
            r.description == file.description,
            r.created_at == file.created_at,
            r.updated_at == file.updated_at,
            r.thumbnail is None,
            r.url is None,
            (match content {
                Some(c) => r.file_size == c.file_size && r.mime_type == c.mime_type,
                None => r.file_size == 0 && r.mime_type@ == "application/octet-stream"@,
            }),
    {
        let (file_size, mime_type) = match content {
            Some(c) => (c.file_size, c.mime_type),
            None => (0, owned("application/octet-stream")),
        };
        AlbumFileInfo {
            id: file.id,
            file_name: file.file_name,
            file_size,
            mime_type,
            description: file.description,
            thumbnail: None,
            url: None,
            created_at: file.created_at,
            updated_at: file.updated_at,
        }
    }

    /// The page asked for when listing albums: page 1 of 20 unless given.
    pub fn album_page(page: Option<u64>, page_size: Option<u64>) -> (r: (u64, u64))
        ensures
            r.0 == or_keep(page, 1u64),
            r.1 == or_keep(page_size, 20u64),
    {
        (
            match page {
                Some(p) => p,
                None => 1,
            },
            match page_size {
                Some(s) => s,
                None => 20,
            },
        )
    }

    /// The page asked for when listing an album's files: page 1 of 100
    /// unless given.
    pub fn album_files_page(page: Option<u64>, page_size: Option<u64>) -> (r: (u64, u64))
        ensures
            r.0 == or_keep(page, 1u64),
            r.1 == or_keep(page_size, 100u64),
    {
        (
            match page {
                Some(p) => p,
                None => 1,
            },
            match page_size {
                Some(s) => s,
                None => 100,
            },
        )
    }

    /// The files to add to an album for `member_id`, given for each
    /// requested file its owner and whether it is in the album already.
    pub fn files_to_add(file_ids: &Vec<i64>, owners: &Vec<Option<i64>>, in_album: &Vec<bool>, member_id: i64) -> (r: Vec<i64>)
        requires
            owners@.len() == file_ids@.len(),
            in_album@.len() == file_ids@.len(),
        ensures
            r@ == addable_files(file_ids@, owners@, in_album@, member_id),
    {
        let mut r: Vec<i64> = Vec::new();
        let mut i: usize = 0;
        while i < file_ids.len()
            invariant
                i <= file_ids.len(),
                owners@.len() == file_ids@.len(),
                in_album@.len() == file_ids@.len(),
                r@ == addable_files(file_ids@.take(i as int), owners@.take(i as int), in_album@.take(i as int), member_id),
            decreases file_ids.len() - i,
        {
            proof {
                let n = (i + 1) as int;
                assert(file_ids@.take(n).drop_last() =~= file_ids@.take(i as int));
                assert(owners@.take(n).take(i as int) =~= owners@.take(i as int));
                assert(in_album@.take(n).take(i as int) =~= in_album@.take(i as int));
            }
            if owners[i] == Some(member_id) && !in_album[i] {
                r.push(file_ids[i]);
            }
            i = i + 1;
        }
        proof {
            assert(file_ids@.take(file_ids@.len() as int) =~= file_ids@);
            assert(owners@.take(file_ids@.len() as int) =~= owners@);
            assert(in_album@.take(file_ids@.len() as int) =~= in_album@);
        }
        r
    }
}

/// Only files the member owns and that are not in the album yet are
/// added, never more than were asked for: each added file was asked for at
/// a position where it is owned by the member and not in the album.
pub proof fn lemma_added_files_are_owned(ids: Seq<i64>, owners: Seq<Option<i64>>, in_album: Seq<bool>, member_id: i64)
    requires
        owners.len() == ids.len(),
        in_album.len() == ids.len(),
    ensures
        addable_files(ids, owners, in_album, member_id).len() <= ids.len(),
        forall|i: int| 0 <= i < addable_files(ids, owners, in_album, member_id).len() ==> exists|j: int|
            0 <= j < ids.len() && ids[j] == #[trigger] addable_files(ids, owners, in_album, member_id)[i]
                && owners[j] == Some(member_id) && !in_album[j],
    decreases ids.len(),
{
    if ids.len() > 0 {
        let n = ids.len() - 1;
        let (pi, po, pa) = (ids.drop_last(), owners.take(n), in_album.take(n));
        lemma_added_files_are_owned(pi, po, pa, member_id);
        let rest = addable_files(pi, po, pa, member_id);
        let all = addable_files(ids, owners, in_album, member_id);
        assert forall|i: int| 0 <= i < all.len() implies exists|j: int|
            0 <= j < ids.len() && ids[j] == #[trigger] all[i] && owners[j] == Some(member_id)
                && !in_album[j] by {
            if i < rest.len() {
                let j = choose|j: int|
                    0 <= j < pi.len() && pi[j] == rest[i] && po[j] == Some(member_id) && !pa[j];
                assert(ids[j] == pi[j]);
            } else {
                assert(all[i] == ids[n]);
            }
        }
    }
}

} // verus!
