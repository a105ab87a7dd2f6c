//! Members: password hashing and checking, the token secret, member
//! status, what is shown of a member, and the rules for creating the first
//! administrator.

use vstd::prelude::*;
use vstd::utf8::encode_utf8;

use crate::auth::MemberRole;
use crate::errors::{AppError, ServiceError};
use crate::schema::{
    username_format_ok, storage_tag_format_ok, validate_storage_tag_format,
    validate_username_format, CreateMemberRequest, InitAdminRequest, InitAdminResponse,
    MemberListResponse, MemberResponse, UpdateMemberRequest,
};
use crate::store::{opt_chars, or_keep, CreateMember, MemberModel, MemberQuery, UpdateMember};
use crate::text::{has_prefix, owned};

verus! {

/// Storage space every member has: 10 GiB.
pub const DEFAULT_STORAGE_TOTAL: i64 = 10737418240;

/// Member operations.
pub struct MemberService;

// ------------------------------------------------------------ the secret

/// The secret a slot holds after `init_jwt_secret(secret)`: it is set once,
/// and later attempts leave it as it is.
pub open spec fn secret_after_init(slot: Option<Seq<char>>, secret: Seq<char>) -> Option<
    Seq<char>,
> {
    match slot {
        Some(s) => Some(s),
        None => Some(secret),
    }
}

/// The secret read from a slot: the one set, else a development default.
pub open spec fn secret_read(slot: Option<Seq<char>>) -> Seq<char> {
    match slot {
        Some(s) => s,
        None => "default-secret-key-for-development"@,
    }
}

/// Sets the token secret held in `slot`, unless one is already set.
pub fn init_jwt_secret(slot: &mut Option<String>, secret: String)
    ensures
        opt_chars(*final(slot)) == secret_after_init(opt_chars(*old(slot)), secret@),
{
    if slot.is_none() {
        *slot = Some(secret);
    }
}

/// The token secret held in `slot`, or the development default when none
/// was set.
pub fn get_jwt_secret(slot: &Option<String>) -> (s: String)
    ensures
        s@ == secret_read(opt_chars(*slot)),
{
    match slot {
        Some(s) => s.clone(),
        None => owned("default-secret-key-for-development"),
    }
}

/// The secret is written once: after it is first set, reading gives that
/// secret whatever is set later; before, reading gives the default.
pub proof fn lemma_secret_set_once(first: Seq<char>, later: Seq<char>)
    ensures
        secret_read(secret_after_init(None, first)) == first,
        secret_read(secret_after_init(secret_after_init(None, first), later)) == first,
        secret_read(None) == "default-secret-key-for-development"@,
{
}

// ------------------------------------------------------------ passwords

/// What `bcrypt::verify(password, hash)` gives: `Some(matches)`, or `None`
/// when `hash` is not a bcrypt hash.
pub uninterp spec fn bcrypt_verdict(password: Seq<char>, hash: Seq<char>) -> Option<bool>;

/// `password` matches the stored bcrypt `hash`.
pub open spec fn password_accepted(password: Seq<char>, hash: Seq<char>) -> bool {
    bcrypt_verdict(password, hash) == Some(true)
}

/// `bcrypt::hash(password, DEFAULT_COST)`, `None` when no random salt could
/// be had. The salt is random, so the hash itself is not fixed; as the
/// crate's source shows, it is `$2b$12$` followed by the 22-character salt
/// and the 31-character digest, and `bcrypt::verify` accepts the password
/// against it.
#[verifier::external_body]
fn bcrypt_hash(password: &str) -> (h: Option<String>)
    ensures
        h matches Some(h) ==> h@.len() == 60 && has_prefix(h@, "$2b$12$"@) && password_accepted(
            password@,
            h@,
        ),
{
    bcrypt::hash(password, bcrypt::DEFAULT_COST).ok()
}

/// `bcrypt::verify(password, hash)`, `None` when it reports an error.
#[verifier::external_body]
fn bcrypt_verify(password: &str, hash: &str) -> (r: Option<bool>)
    ensures
        r == bcrypt_verdict(password@, hash@),
{
    bcrypt::verify(password, hash).ok()
}

/// The stored form of a new password: its bcrypt hash at cost 12, or
/// `Unknown` when hashing failed.
pub fn hash_password(password: &str) -> (r: Result<String, ServiceError>)
    ensures
        (match r {
            Ok(h) => h@.len() == 60 && has_prefix(h@, "$2b$12$"@) && password_accepted(password@, h@),
            Err(e) => e == ServiceError::Unknown,
        }),
{
    match bcrypt_hash(password) {
        Some(h) => Ok(h),
        None => Err(ServiceError::Unknown),
    }
}

/// The outcome of a login given what bcrypt said of the password: only a
/// match lets the member in; a mismatch or an unreadable hash are both
/// `InvalidCredentials`.
pub fn login_verdict(verdict: Option<bool>) -> (r: Result<(), ServiceError>)
    ensures
        verdict == Some(true) ==> r is Ok,
        verdict != Some(true) ==> r == Err::<(), ServiceError>(ServiceError::InvalidCredentials),
{
    match verdict {
        Some(true) => Ok(()),
        _ => Err(ServiceError::InvalidCredentials),
    }
}

/// Checks a login password against the member's stored hash.
pub fn check_password(password: &str, stored_hash: &str) -> (r: Result<(), ServiceError>)
    ensures
        r is Ok <==> password_accepted(password@, stored_hash@),
        r is Err ==> r == Err::<(), ServiceError>(ServiceError::InvalidCredentials),
{
    let verdict = bcrypt_verify(password, stored_hash);
    login_verdict(verdict)
}

// ------------------------------------------------------------ responses

/// A member's presence given the time it was last active and the time now
/// (Unix milliseconds): active less than five minutes ago is `online`,
/// less than thirty `away`, otherwise or never `offline`.
pub open spec fn member_status(last_active: Option<i64>, now: i64) -> Seq<char> {
    match last_active {
        Some(l) => if now - l < 5 * 60000 {
            "online"@
        } else if now - l < 30 * 60000 {
            "away"@
        } else {
            "offline"@
        },
        None => "offline"@,
    }
}

impl MemberService {
    /// A member's presence: `online`, `away` or `offline`.
    pub fn determine_status(last_active: Option<i64>, now: i64) -> (s: String)
        ensures
            s@ == member_status(last_active, now),
    {
        match last_active {
            Some(l) => {
                let elapsed: i128 = now as i128 - l as i128;
                if elapsed < 300000 {
                    owned("online")
                } else if elapsed < 1800000 {
                    owned("away")
                } else {
                    owned("offline")
                }
            },
            None => owned("offline"),
        }
    }

    /// What is shown of a stored member using `storage_used` bytes: the
    /// full allowance, no activity recorded, so `offline`.
    pub fn build_member_response(member: MemberModel, storage_used: i64) -> (r: MemberResponse)
        ensures
            r.id == member.id,
            r.username == member.username,
            r.avatar == member.avatar,
            r.storage_tag == member.storage_tag,
            r.storage_used == storage_used,
            r.storage_total == DEFAULT_STORAGE_TOTAL,
            r.last_active is None,
            r.status@ == "offline"@,
            r.created_at == member.created_at,
    {
        let status = Self::determine_status(None, 0);
        MemberResponse {
            id: member.id,
            username: member.username,
            avatar: member.avatar,
            storage_tag: member.storage_tag,
            storage_used,
            storage_total: DEFAULT_STORAGE_TOTAL,
            last_active: None,
            status,
            created_at: member.created_at,
        }
    }

    /// The bytes a member uses: the sum of the sizes of its files' contents.
    pub fn storage_used(sizes: &Vec<i64>) -> (total: i64)
        requires
            forall|k: int| 0 <= k <= sizes@.len() ==> i64::MIN <= #[trigger] size_sum(sizes@.take(k))
                <= i64::MAX,
        ensures
            total == size_sum(sizes@),
    {
        let mut total: i64 = 0;
        let mut i: usize = 0;
        assert(sizes@.take(0) =~= Seq::<i64>::empty());
        while i < sizes.len()
            invariant
                i <= sizes.len(),
                total == size_sum(sizes@.take(i as int)),
                forall|k: int|
                    0 <= k <= sizes@.len() ==> i64::MIN <= #[trigger] size_sum(sizes@.take(k))
                        <= i64::MAX,
            decreases sizes.len() - i,
        {
            assert(sizes@.take(i + 1).drop_last() =~= sizes@.take(i as int));
            assert(size_sum(sizes@.take(i + 1)) == size_sum(sizes@.take(i as int)) + sizes@[i as int]);
            total = total + sizes[i];
            i = i + 1;
        }
        assert(sizes@.take(sizes@.len() as int) =~= sizes@);
        total
    }

    /// The database query behind a page of the member list.
    pub fn list_query(page: Option<u64>, page_size: Option<u64>) -> (q: MemberQuery)
        ensures
            q.id is None,
            q.username is None,
            q.storage_tag is None,
            q.page == page,
            q.page_size == page_size,
    {
        MemberQuery { id: None, username: None, storage_tag: None, page, page_size }
    }

    /// A page of the member list: page 1 of 20 unless given.
    pub fn member_list(members: Vec<MemberResponse>, total: u64, page: Option<u64>, page_size: Option<
        u64,
    >) -> (r: MemberListResponse)
        ensures
            r.members@ == members@,
            r.total == total,
            r.page == or_keep(page, 1u64),
            r.page_size == or_keep(page_size, 20u64),
    {
        let page = match page {
            Some(p) => p,
            None => 1,
        };
        let page_size = match page_size {
            Some(s) => s,
            None => 20,
        };
        MemberListResponse { members, total, page, page_size }
    }

    /// The record written for a new member, whose password is already
    /// hashed; no role is given, so the stored default (a plain user)
    /// applies.
    pub fn new_member_data(data: CreateMemberRequest, hashed_password: String) -> (c: CreateMember)
        ensures
            c.username == data.username,
            c.password == hashed_password,
            c.avatar == data.avatar,
            c.storage_tag == data.storage_tag,
            c.role is None,
    {
        CreateMember {
            username: data.username,
            password: hashed_password,
            avatar: data.avatar,
            storage_tag: data.storage_tag,
            role: None,
        }
    }

    /// The record written for the first administrator, whose password is
    /// already hashed: the request's fields, with the administrator role.
    pub fn admin_member_data(data: CreateMemberRequest, hashed_password: String) -> (c: CreateMember)
        ensures
            c.username == data.username,
            c.password == hashed_password,
            c.avatar == data.avatar,
            c.storage_tag == data.storage_tag,
            c.role == Some(MemberRole::Admin),
    {
        CreateMember {
            username: data.username,
            password: hashed_password,
            avatar: data.avatar,
            storage_tag: data.storage_tag,
            role: Some(MemberRole::Admin),
        }
    }

    /// The changes written for a member update: the given fields as they
    /// come (a new password is stored as given), the role untouched.
    pub fn member_update_data(data: UpdateMemberRequest) -> (u: UpdateMember)
        ensures
            u.username == data.username,
            u.password == data.password,
            u.avatar == data.avatar,
            u.storage_tag == data.storage_tag,
            u.role is None,
    {
        UpdateMember {
            username: data.username,
            password: data.password,
            avatar: data.avatar,
            storage_tag: data.storage_tag,
            role: None,
        }
    }
}

/// The sum of some sizes.
pub open spec fn size_sum(s: Seq<i64>) -> int
    decreases s.len(),
{
    if s.len() == 0 {
        0
    } else {
        size_sum(s.drop_last()) + s.last()
    }
}

// ------------------------------------------------- the first administrator

/// Why creating the first administrator is refused before the storage tag
/// is looked up: members exist already, or the request breaks a rule
/// (lengths in bytes).
pub open spec fn init_admin_refusal(is_empty: bool, r: InitAdminRequest) -> Option<Seq<char>> {
    if !is_empty {
        Some("You can't do this action"@)
    } else if r.username@.len() == 0 {
        Some("Username cannot be empty"@)
    } else if encode_utf8(r.password@).len() < 6 {
        Some("Password must be at least 6 characters"@)
    } else if r.storage_tag@.len() == 0 {
        Some("Storage tag cannot be empty"@)
    } else if encode_utf8(r.storage_tag@).len() > 50 {
        Some("Storage tag must be less than 50 characters"@)
    } else {
        None
    }
}

fn refused(message: &str) -> (r: InitAdminResponse)
    ensures
        !r.success,
        r.message@ == message@,
        r.member is None,
{
    InitAdminResponse { success: false, message: owned(message), member: None }
}

impl MemberService {
    /// The refusal answered to a request for the first administrator made
    /// when the member table is (`is_empty`) or is not empty; `None` when
    /// the request may go on to the storage tag check.
    pub fn init_admin_precheck(is_empty: bool, data: &InitAdminRequest) -> (r: Option<
        InitAdminResponse,
    >)
        ensures
            (match r {
                Some(resp) => !resp.success && resp.member is None && init_admin_refusal(
                    is_empty,
                    *data,
                ) == Some(resp.message@),
                None => init_admin_refusal(is_empty, *data) is None,
            }),
    {
        if !is_empty {
            return Some(refused("You can't do this action"));
        }
        if data.username.as_str().is_empty() {
            return Some(refused("Username cannot be empty"));
        }
        if data.password.as_str().as_bytes().len() < 6 {
            return Some(refused("Password must be at least 6 characters"));
        }
        if data.storage_tag.as_str().is_empty() {
            return Some(refused("Storage tag cannot be empty"));
        }
        if data.storage_tag.as_str().as_bytes().len() > 50 {
            return Some(refused("Storage tag must be less than 50 characters"));
        }
        None
    }

    /// The refusal when the requested storage tag is taken.
    pub fn init_admin_tag_check(tag_exists: bool) -> (r: Option<InitAdminResponse>)
        ensures
            tag_exists ==> (r matches Some(resp) && !resp.success && resp.member is None
                && resp.message@ == "Storage tag already exists"@),
            !tag_exists ==> r is None,
    {
        if tag_exists {
            Some(refused("Storage tag already exists"))
        } else {
            None
        }
    }

    /// The member request made for the first administrator: no avatar.
    pub fn admin_create_request(data: InitAdminRequest) -> (c: CreateMemberRequest)
        ensures
            c.username == data.username,
            c.password == data.password,
            c.avatar is None,
            c.storage_tag == data.storage_tag,
    {
        CreateMemberRequest {
            username: data.username,
            password: data.password,
            avatar: None,
            storage_tag: data.storage_tag,
        }
    }

    /// The answer once the first administrator was created.
    pub fn init_admin_created(member: MemberResponse) -> (r: InitAdminResponse)
        ensures
            r.success,
            r.message@ == "Admin user created successfully"@,
            r.member == Some(member),
    {
        InitAdminResponse {
            success: true,
            message: owned("Admin user created successfully"),
            member: Some(member),
        }
    }
}

// ------------------------------------------------------ request checks

/// Checks the names in a member request: a user name of letters, digits
/// and `_`, a storage tag of letters, digits, `_` and `-`, each when given.
pub fn check_member_names(username: Option<&str>, storage_tag: Option<&str>) -> (r: Result<
    (),
    AppError,
>)
    ensures
        (match username {
            Some(u) => !username_format_ok(u@),
            None => false,
        }) ==> (r matches Err(AppError::ValidationError(m)) && m@ == "用户名只能包含字母、数字和下划线"@),
        (match username {
            Some(u) => username_format_ok(u@),
            None => true,
        }) ==> (match storage_tag {
            Some(t) => if storage_tag_format_ok(t@) {
                r is Ok
            } else {
                r matches Err(AppError::ValidationError(m)) && m@
                    == "存储标签只能包含字母、数字、下划线和连字符"@
            },
            None => r is Ok,
        }),
{
    if let Some(u) = username {
        if !validate_username_format(u) {
            return Err(AppError::ValidationError(owned("用户名只能包含字母、数字和下划线")));
        }
    }
    if let Some(t) = storage_tag {
        if !validate_storage_tag_format(t) {
            return Err(
                AppError::ValidationError(owned("存储标签只能包含字母、数字、下划线和连字符")),
            );
        }
    }
    Ok(())
}

/// Checks a user name given in a path: 1 to 50 bytes.
pub fn check_username_param(username: &str) -> (r: Result<(), AppError>)
    ensures
        (username@.len() > 0 && encode_utf8(username@).len() <= 50) ==> r is Ok,
        !(username@.len() > 0 && encode_utf8(username@).len() <= 50) ==> (r matches Err(
            AppError::InvalidInput(m),
        ) && m@ == "Invalid username"@),
{
    if username.is_empty() || username.as_bytes().len() > 50 {
        return Err(AppError::InvalidInput(owned("Invalid username")));
    }
    Ok(())
}

} // verus!
