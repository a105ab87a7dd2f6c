//! Request and response shapes of the HTTP interface, the field rules each
//! request must meet, and the formats of user names and storage tags.

use vstd::prelude::*;
use crate::auth::MemberRole;
use crate::text::{alphanumeric, chars_of, is_alphanumeric, owned, push_str, str_eq};

verus! {

// ------------------------------------------------------------ rule checks

/// What `validator`'s URL rule accepts: strings that parse as a URL.
pub uninterp spec fn url_parses(s: Seq<char>) -> bool;

/// `validator::ValidateUrl::validate_url`: whether `s` parses as a URL.
#[verifier::external_body]
fn is_url(s: &str) -> (b: bool)
    ensures
        b == url_parses(s@),
{
    validator::ValidateUrl::validate_url(&s)
}

/// The number of characters of `s` (what the length rules count).
pub fn char_count(s: &str) -> (n: usize)
    ensures
        n == s@.len(),
{
    chars_of(s).len()
}

/// The entry a rule adds to the list of broken rules: none when it holds.
pub open spec fn issue(ok: bool, field: Seq<char>, message: Seq<char>) -> Seq<(Seq<char>, Seq<char>)> {
    if ok {
        seq![]
    } else {
        seq![(field, message)]
    }
}

/// A broken rule: the field and the rule's message.
pub struct FieldError {
    pub field: String,
    pub message: String,
}

impl View for FieldError {
    type V = (Seq<char>, Seq<char>);

    open spec fn view(&self) -> (Seq<char>, Seq<char>) {
        (self.field@, self.message@)
    }
}

/// The rules a request breaks, in the order of its fields.
pub struct FieldErrors {
    pub errors: Vec<FieldError>,
}

impl View for FieldErrors {
    type V = Seq<(Seq<char>, Seq<char>)>;

    open spec fn view(&self) -> Seq<(Seq<char>, Seq<char>)> {
        Seq::new(self.errors@.len(), |i: int| self.errors@[i]@)
    }
}

/// `field: message`, as a broken rule is reported.
pub open spec fn issue_text(e: (Seq<char>, Seq<char>)) -> Seq<char> {
    e.0 + ": "@ + e.1
}

/// The reports of all broken rules, separated by `; `.
pub open spec fn issues_text(s: Seq<(Seq<char>, Seq<char>)>) -> Seq<char>
    decreases s.len(),
{
    if s.len() == 0 {
        seq![]
    } else if s.len() == 1 {
        issue_text(s[0])
    } else {
        issues_text(s.drop_last()) + "; "@ + issue_text(s.last())
    }
}

impl FieldErrors {
    /// No broken rule yet.
    pub fn new() -> (e: Self)
        ensures
            e@.len() == 0,
    {
        FieldErrors { errors: Vec::new() }
    }

    /// Records the rule on `field` as broken unless `ok`.
    pub fn note(&mut self, ok: bool, field: &str, message: &str)
        ensures
            final(self)@ == old(self)@ + issue(ok, field@, message@),
    {
        if !ok {
            let e = FieldError { field: owned(field), message: owned(message) };
            self.errors.push(e);
            assert(self@ =~= old(self)@ + seq![(field@, message@)]);
        } else {
            assert(self@ =~= old(self)@ + Seq::<(Seq<char>, Seq<char>)>::empty());
        }
    }

    /// `Ok` when no rule is broken, else these errors.
    pub fn into_result(self) -> (r: Result<(), FieldErrors>)
        ensures
            r is Ok <==> self@.len() == 0,
            r matches Err(e) ==> e@ == self@,
    {
        if self.errors.len() == 0 {
            Ok(())
        } else {
            Err(self)
        }
    }

    /// `field: message` for every broken rule, joined by `; `.
    pub fn joined(&self) -> (s: String)
        ensures
            s@ == issues_text(self@),
    {
        let mut s = String::new();
        let mut i: usize = 0;
        while i < self.errors.len()
            invariant
                i <= self.errors@.len(),
                s@ == issues_text(self@.take(i as int)),
            decreases self.errors@.len() - i,
        {
            assert(self@.take(i + 1).drop_last() =~= self@.take(i as int));
            if i > 0 {
                push_str(&mut s, "; ");
            }
            push_str(&mut s, self.errors[i].field.as_str());
            push_str(&mut s, ": ");
            push_str(&mut s, self.errors[i].message.as_str());
            proof {
                let t = self@.take(i + 1);
                assert(t.last() == self@[i as int]);
                if i == 0 {
                    assert(s@ =~= issue_text(t[0]));
                } else {
                    assert(s@ =~= issues_text(t.drop_last()) + "; "@ + issue_text(t.last()));
                }
            }
            i = i + 1;
        }
        assert(self@.take(i as int) =~= self@);
        s
    }
}

// --------------------------------------------------------------- formats

/// Sort directions accepted by file listings.
pub open spec fn sort_order_valid(s: Seq<char>) -> bool {
    s == "asc"@ || s == "desc"@
}

/// Whether `order` is `asc` or `desc`.
pub fn is_valid_sort_order(order: &str) -> (b: bool)
    ensures
        b == sort_order_valid(order@),
{
    str_eq(order, "asc") || str_eq(order, "desc")
}

/// A user name: not empty, only letters, digits and `_`.
pub open spec fn username_format_ok(s: Seq<char>) -> bool {
    s.len() > 0 && forall|i: int| 0 <= i < s.len() ==> alphanumeric(#[trigger] s[i]) || s[i] == '_'
}

/// A storage tag: not empty, only letters, digits, `_` and `-`.
pub open spec fn storage_tag_format_ok(s: Seq<char>) -> bool {
    s.len() > 0 && forall|i: int|
        0 <= i < s.len() ==> alphanumeric(#[trigger] s[i]) || s[i] == '_' || s[i] == '-'
}

/// Whether `username` is non-empty and holds only letters, digits and `_`.
pub fn validate_username_format(username: &str) -> (b: bool)
    ensures
        b == username_format_ok(username@),
{
    let v = chars_of(username);
    if v.len() == 0 {
        return false;
    }
    let mut i: usize = 0;
    while i < v.len()
        invariant
            i <= v.len(),
            v@ == username@,
            forall|j: int| 0 <= j < i ==> alphanumeric(#[trigger] v@[j]) || v@[j] == '_',
        decreases v.len() - i,
    {
        let c = v[i];
        if !(is_alphanumeric(c) || c == '_') {
            assert(!(alphanumeric(v@[i as int]) || v@[i as int] == '_'));
            return false;
        }
        i = i + 1;
    }
    true
}

/// Whether `tag` is non-empty and holds only letters, digits, `_` and `-`.
pub fn validate_storage_tag_format(tag: &str) -> (b: bool)
    ensures
        b == storage_tag_format_ok(tag@),
{
    let v = chars_of(tag);
    if v.len() == 0 {
        return false;
    }
    let mut i: usize = 0;
    while i < v.len()
        invariant
            i <= v.len(),
            v@ == tag@,
            forall|j: int|
                0 <= j < i ==> alphanumeric(#[trigger] v@[j]) || v@[j] == '_' || v@[j] == '-',
        decreases v.len() - i,
    {
        let c = v[i];
        if !(is_alphanumeric(c) || c == '_' || c == '-') {
            assert(!(alphanumeric(v@[i as int]) || v@[i as int] == '_' || v@[i as int] == '-'));
            return false;
        }
        i = i + 1;
    }
    true
}

// -------------------------------------------------------------- requests

/// Request to create a member.
pub struct CreateMemberRequest {
    /// User name, 3 to 50 characters.
    pub username: String,
    /// Password, 6 to 128 characters.
    pub password: String,
    /// Optional avatar URL.
    pub avatar: Option<String>,
    /// Storage tag, 1 to 50 characters.
    pub storage_tag: String,
}

/// The rules a `CreateMemberRequest` breaks, in field order.
pub open spec fn create_member_request_issues(r: CreateMemberRequest) -> Seq<(Seq<char>, Seq<char>)> {
    issue(3 <= r.username@.len() && r.username@.len() <= 50, "username"@, "用户名长度必须在3-50个字符之间"@)
        + issue(6 <= r.password@.len() && r.password@.len() <= 128, "password"@, "密码长度必须在6-128个字符之间"@)
        + issue(match r.avatar { Some(u) => url_parses(u@), None => true }, "avatar"@, "头像必须是有效的URL格式"@)
        + issue(1 <= r.storage_tag@.len() && r.storage_tag@.len() <= 50, "storage_tag"@, "存储标签长度必须在1-50个字符之间"@)
}

impl CreateMemberRequest {
    /// Checks the field rules; on failure lists every broken rule.
    pub fn validate(&self) -> (r: Result<(), FieldErrors>)
        ensures
            r is Ok <==> create_member_request_issues(*self).len() == 0,
            r matches Err(e) ==> e@ == create_member_request_issues(*self),
    {
        let mut errs = FieldErrors::new();
        let n = char_count(self.username.as_str());
        let ok = 3 <= n && n <= 50;
        errs.note(ok, "username", "用户名长度必须在3-50个字符之间");
        let n = char_count(self.password.as_str());
        let ok = 6 <= n && n <= 128;
        errs.note(ok, "password", "密码长度必须在6-128个字符之间");
        let ok = match &self.avatar { Some(u) => is_url(u.as_str()), None => true };
        errs.note(ok, "avatar", "头像必须是有效的URL格式");
        let n = char_count(self.storage_tag.as_str());
        let ok = 1 <= n && n <= 50;
        errs.note(ok, "storage_tag", "存储标签长度必须在1-50个字符之间");
        errs.into_result()
    }
}

/// Request to update a member; absent fields stay as they are.
pub struct UpdateMemberRequest {
    /// New user name, 3 to 50 characters.
    pub username: Option<String>,
    /// New password, 6 to 128 characters.
    pub password: Option<String>,
    /// New avatar URL.
    pub avatar: Option<String>,
    /// New storage tag, 1 to 50 characters.
    pub storage_tag: Option<String>,
    /// New role; only administrators may set it.
    pub role: Option<MemberRole>,
}

/// The rules a `UpdateMemberRequest` breaks, in field order.
pub open spec fn update_member_request_issues(r: UpdateMemberRequest) -> Seq<(Seq<char>, Seq<char>)> {
    issue(match r.username { Some(v) => 3 <= v@.len() && v@.len() <= 50, None => true }, "username"@, "用户名长度必须在3-50个字符之间"@)
        + issue(match r.password { Some(v) => 6 <= v@.len() && v@.len() <= 128, None => true }, "password"@, "密码长度必须在6-128个字符之间"@)
        + issue(match r.avatar { Some(u) => url_parses(u@), None => true }, "avatar"@, "头像必须是有效的URL格式"@)
        + issue(match r.storage_tag { Some(v) => 1 <= v@.len() && v@.len() <= 50, None => true }, "storage_tag"@, "存储标签长度必须在1-50个字符之间"@)
}

impl UpdateMemberRequest {
    /// Checks the field rules; on failure lists every broken rule.
    pub fn validate(&self) -> (r: Result<(), FieldErrors>)
        ensures
            r is Ok <==> update_member_request_issues(*self).len() == 0,
            r matches Err(e) ==> e@ == update_member_request_issues(*self),
    {
        let mut errs = FieldErrors::new();
        let ok = match &self.username {
            Some(v) => {
                let n = char_count(v.as_str());
                3 <= n && n <= 50
            },
            None => true,
        };
        errs.note(ok, "username", "用户名长度必须在3-50个字符之间");
        let ok = match &self.password {
            Some(v) => {
                let n = char_count(v.as_str());
                6 <= n && n <= 128
            },
            None => true,
        };
        errs.note(ok, "password", "密码长度必须在6-128个字符之间");
        let ok = match &self.avatar { Some(u) => is_url(u.as_str()), None => true };
        errs.note(ok, "avatar", "头像必须是有效的URL格式");
        let ok = match &self.storage_tag {
            Some(v) => {
                let n = char_count(v.as_str());
                1 <= n && n <= 50
            },
            None => true,
        };
        errs.note(ok, "storage_tag", "存储标签长度必须在1-50个字符之间");
        errs.into_result()
    }
}

/// Paging of the member list.
pub struct ListMembersQuery {
    /// Page number, from 1.
    pub page: Option<u64>,
    /// Page size, 1 to 100.
    pub page_size: Option<u64>,
}

/// The rules a `ListMembersQuery` breaks, in field order.
pub open spec fn list_members_query_issues(r: ListMembersQuery) -> Seq<(Seq<char>, Seq<char>)> {
    issue(match r.page { Some(n) => 1 <= n, None => true }, "page"@, "页码必须大于0"@)
        + issue(match r.page_size { Some(n) => 1 <= n && n <= 100, None => true }, "page_size"@, "每页大小必须在1-100之间"@)
}

impl ListMembersQuery {
    /// Checks the field rules; on failure lists every broken rule.
    pub fn validate(&self) -> (r: Result<(), FieldErrors>)
        ensures
            r is Ok <==> list_members_query_issues(*self).len() == 0,
            r matches Err(e) ==> e@ == list_members_query_issues(*self),
    {
        let mut errs = FieldErrors::new();
        let ok = match self.page { Some(n) => 1 <= n, None => true };
        errs.note(ok, "page", "页码必须大于0");
        let ok = match self.page_size { Some(n) => 1 <= n && n <= 100, None => true };
        errs.note(ok, "page_size", "每页大小必须在1-100之间");
        errs.into_result()
    }
}

/// Request to change a member's avatar.
pub struct UpdateAvatarRequest {
    /// Avatar URL.
    pub avatar: String,
}

/// The rules a `UpdateAvatarRequest` breaks, in field order.
pub open spec fn update_avatar_request_issues(r: UpdateAvatarRequest) -> Seq<(Seq<char>, Seq<char>)> {
    issue(url_parses(r.avatar@), "avatar"@, "头像必须是有效的URL格式"@)
}

impl UpdateAvatarRequest {
    /// Checks the field rules; on failure lists every broken rule.
    pub fn validate(&self) -> (r: Result<(), FieldErrors>)
        ensures
            r is Ok <==> update_avatar_request_issues(*self).len() == 0,
            r matches Err(e) ==> e@ == update_avatar_request_issues(*self),
    {
        let mut errs = FieldErrors::new();
        let ok = is_url(self.avatar.as_str());
        errs.note(ok, "avatar", "头像必须是有效的URL格式");
        errs.into_result()
    }
}

/// Request to change a member's password.
pub struct UpdatePasswordRequest {
    /// New password, 6 to 128 characters.
    pub new_password: String,
}

/// The rules a `UpdatePasswordRequest` breaks, in field order.
pub open spec fn update_password_request_issues(r: UpdatePasswordRequest) -> Seq<(Seq<char>, Seq<char>)> {
    issue(6 <= r.new_password@.len() && r.new_password@.len() <= 128, "new_password"@, "密码长度必须在6-128个字符之间"@)
}

impl UpdatePasswordRequest {
    /// Checks the field rules; on failure lists every broken rule.
    pub fn validate(&self) -> (r: Result<(), FieldErrors>)
        ensures
            r is Ok <==> update_password_request_issues(*self).len() == 0,
            r matches Err(e) ==> e@ == update_password_request_issues(*self),
    {
        let mut errs = FieldErrors::new();
        let n = char_count(self.new_password.as_str());
        let ok = 6 <= n && n <= 128;
        errs.note(ok, "new_password", "密码长度必须在6-128个字符之间");
        errs.into_result()
    }
}

/// Login credentials.
pub struct LoginRequest {
    /// User name.
    pub username: String,
    /// Password.
    pub password: String,
}

/// The rules a `LoginRequest` breaks, in field order.
pub open spec fn login_request_issues(r: LoginRequest) -> Seq<(Seq<char>, Seq<char>)> {
    issue(1 <= r.username@.len() && r.username@.len() <= 50, "username"@, "用户名不能为空且不能超过50个字符"@)
        + issue(1 <= r.password@.len() && r.password@.len() <= 128, "password"@, "密码不能为空"@)
}

impl LoginRequest {
    /// Checks the field rules; on failure lists every broken rule.
    pub fn validate(&self) -> (r: Result<(), FieldErrors>)
        ensures
            r is Ok <==> login_request_issues(*self).len() == 0,
            r matches Err(e) ==> e@ == login_request_issues(*self),
    {
        let mut errs = FieldErrors::new();
        let n = char_count(self.username.as_str());
        let ok = 1 <= n && n <= 50;
        errs.note(ok, "username", "用户名不能为空且不能超过50个字符");
        let n = char_count(self.password.as_str());
        let ok = 1 <= n && n <= 128;
        errs.note(ok, "password", "密码不能为空");
        errs.into_result()
    }
}

/// Request to refresh a token.
pub struct RefreshTokenRequest {
    /// The refresh token.
    pub refresh_token: String,
}

/// The rules a `RefreshTokenRequest` breaks, in field order.
pub open spec fn refresh_token_request_issues(r: RefreshTokenRequest) -> Seq<(Seq<char>, Seq<char>)> {
    issue(1 <= r.refresh_token@.len(), "refresh_token"@, "刷新令牌不能为空"@)
}

impl RefreshTokenRequest {
    /// Checks the field rules; on failure lists every broken rule.
    pub fn validate(&self) -> (r: Result<(), FieldErrors>)
        ensures
            r is Ok <==> refresh_token_request_issues(*self).len() == 0,
            r matches Err(e) ==> e@ == refresh_token_request_issues(*self),
    {
        let mut errs = FieldErrors::new();
        let n = char_count(self.refresh_token.as_str());
        let ok = 1 <= n;
        errs.note(ok, "refresh_token", "刷新令牌不能为空");
        errs.into_result()
    }
}

/// Request to create the first administrator.
pub struct InitAdminRequest {
    /// User name, 3 to 50 characters.
    pub username: String,
    /// Password, 6 to 128 characters.
    pub password: String,
    /// Storage tag, 1 to 50 characters.
    pub storage_tag: String,
}

/// The rules a `InitAdminRequest` breaks, in field order.
pub open spec fn init_admin_request_issues(r: InitAdminRequest) -> Seq<(Seq<char>, Seq<char>)> {
    issue(3 <= r.username@.len() && r.username@.len() <= 50, "username"@, "用户名长度必须在3-50个字符之间"@)
        + issue(6 <= r.password@.len() && r.password@.len() <= 128, "password"@, "密码长度必须在6-128个字符之间"@)
        + issue(1 <= r.storage_tag@.len() && r.storage_tag@.len() <= 50, "storage_tag"@, "存储标签长度必须在1-50个字符之间"@)
}

impl InitAdminRequest {
    /// Checks the field rules; on failure lists every broken rule.
    pub fn validate(&self) -> (r: Result<(), FieldErrors>)
        ensures
            r is Ok <==> init_admin_request_issues(*self).len() == 0,
            r matches Err(e) ==> e@ == init_admin_request_issues(*self),
    {
        let mut errs = FieldErrors::new();
        let n = char_count(self.username.as_str());
        let ok = 3 <= n && n <= 50;
        errs.note(ok, "username", "用户名长度必须在3-50个字符之间");
        let n = char_count(self.password.as_str());
        let ok = 6 <= n && n <= 128;
        errs.note(ok, "password", "密码长度必须在6-128个字符之间");
        let n = char_count(self.storage_tag.as_str());
        let ok = 1 <= n && n <= 50;
        errs.note(ok, "storage_tag", "存储标签长度必须在1-50个字符之间");
        errs.into_result()
    }
}

/// Query asking whether content with a hash is stored.
pub struct HashCheckQuery {
    /// Content hash (hexadecimal).
    pub hash: String,
}

/// The rules a `HashCheckQuery` breaks, in field order.
pub open spec fn hash_check_query_issues(r: HashCheckQuery) -> Seq<(Seq<char>, Seq<char>)> {
    issue(32 <= r.hash@.len() && r.hash@.len() <= 128, "hash"@, "哈希值长度无效"@)
}

impl HashCheckQuery {
    /// Checks the field rules; on failure lists every broken rule.
    pub fn validate(&self) -> (r: Result<(), FieldErrors>)
        ensures
            r is Ok <==> hash_check_query_issues(*self).len() == 0,
            r matches Err(e) ==> e@ == hash_check_query_issues(*self),
    {
        let mut errs = FieldErrors::new();
        let n = char_count(self.hash.as_str());
        let ok = 32 <= n && n <= 128;
        errs.note(ok, "hash", "哈希值长度无效");
        errs.into_result()
    }
}

/// Listing of a member's files.
pub struct ListFilesQuery {
    /// Optional path.
    pub path: Option<String>,
    /// Page number, from 1.
    pub page: Option<u64>,
    /// Page size, 1 to 100.
    pub page_size: Option<u64>,
    /// Sort field.
    pub sort_by: Option<String>,
    /// Sort direction.
    pub sort_order: Option<String>,
    /// File type filter.
    pub file_type: Option<String>,
    /// Search text.
    pub search: Option<String>,
}

/// The rules a `ListFilesQuery` breaks, in field order.
pub open spec fn list_files_query_issues(r: ListFilesQuery) -> Seq<(Seq<char>, Seq<char>)> {
    issue(match r.path { Some(v) => v@.len() <= 500, None => true }, "path"@, "路径长度不能超过500个字符"@)
        + issue(match r.page { Some(n) => 1 <= n, None => true }, "page"@, "页码必须大于0"@)
        + issue(match r.page_size { Some(n) => 1 <= n && n <= 100, None => true }, "page_size"@, "每页大小必须在1-100之间"@)
        + issue(match r.sort_by { Some(v) => v@.len() <= 50, None => true }, "sort_by"@, "排序字段长度不能超过50个字符"@)
        + issue(match r.sort_order { Some(v) => v@.len() <= 10, None => true }, "sort_order"@, "排序方向长度无效"@)
        + issue(match r.file_type { Some(v) => v@.len() <= 50, None => true }, "file_type"@, "文件类型长度不能超过50个字符"@)
        + issue(match r.search { Some(v) => v@.len() <= 200, None => true }, "search"@, "搜索关键词长度不能超过200个字符"@)
}

impl ListFilesQuery {
    /// Checks the field rules; on failure lists every broken rule.
    pub fn validate(&self) -> (r: Result<(), FieldErrors>)
        ensures
            r is Ok <==> list_files_query_issues(*self).len() == 0,
            r matches Err(e) ==> e@ == list_files_query_issues(*self),
    {
        let mut errs = FieldErrors::new();
        let ok = match &self.path {
            Some(v) => {
                let n = char_count(v.as_str());
                n <= 500
            },
            None => true,
        };
        errs.note(ok, "path", "路径长度不能超过500个字符");
        let ok = match self.page { Some(n) => 1 <= n, None => true };
        errs.note(ok, "page", "页码必须大于0");
        let ok = match self.page_size { Some(n) => 1 <= n && n <= 100, None => true };
        errs.note(ok, "page_size", "每页大小必须在1-100之间");
        let ok = match &self.sort_by {
            Some(v) => {
                let n = char_count(v.as_str());
                n <= 50
            },
            None => true,
        };
        errs.note(ok, "sort_by", "排序字段长度不能超过50个字符");
        let ok = match &self.sort_order {
            Some(v) => {
                let n = char_count(v.as_str());
                n <= 10
            },
            None => true,
        };
        errs.note(ok, "sort_order", "排序方向长度无效");
        let ok = match &self.file_type {
            Some(v) => {
                let n = char_count(v.as_str());
                n <= 50
            },
            None => true,
        };
        errs.note(ok, "file_type", "文件类型长度不能超过50个字符");
        let ok = match &self.search {
            Some(v) => {
                let n = char_count(v.as_str());
                n <= 200
            },
            None => true,
        };
        errs.note(ok, "search", "搜索关键词长度不能超过200个字符");
        errs.into_result()
    }
}

/// Request to queue a synchronisation task.
pub struct TriggerSyncRequest {
    /// Directory to synchronise.
    pub path: Option<String>,
    /// Task type.
    pub task_type: Option<String>,
}

/// The rules a `TriggerSyncRequest` breaks, in field order.
pub open spec fn trigger_sync_request_issues(r: TriggerSyncRequest) -> Seq<(Seq<char>, Seq<char>)> {
    issue(match r.path { Some(v) => v@.len() <= 500, None => true }, "path"@, "路径长度不能超过500个字符"@)
        + issue(match r.task_type { Some(v) => v@.len() <= 50, None => true }, "task_type"@, "任务类型长度不能超过50个字符"@)
}

impl TriggerSyncRequest {
    /// Checks the field rules; on failure lists every broken rule.
    pub fn validate(&self) -> (r: Result<(), FieldErrors>)
        ensures
            r is Ok <==> trigger_sync_request_issues(*self).len() == 0,
            r matches Err(e) ==> e@ == trigger_sync_request_issues(*self),
    {
        let mut errs = FieldErrors::new();
        let ok = match &self.path {
            Some(v) => {
                let n = char_count(v.as_str());
                n <= 500
            },
            None => true,
        };
        errs.note(ok, "path", "路径长度不能超过500个字符");
        let ok = match &self.task_type {
            Some(v) => {
                let n = char_count(v.as_str());
                n <= 50
            },
            None => true,
        };
        errs.note(ok, "task_type", "任务类型长度不能超过50个字符");
        errs.into_result()
    }
}

/// Request to synchronise files.
pub struct SyncFilesRequest {
    /// Directory to synchronise.
    pub path: Option<String>,
}

/// The rules a `SyncFilesRequest` breaks, in field order.
pub open spec fn sync_files_request_issues(r: SyncFilesRequest) -> Seq<(Seq<char>, Seq<char>)> {
    issue(match r.path { Some(v) => v@.len() <= 500, None => true }, "path"@, "路径长度不能超过500个字符"@)
}

impl SyncFilesRequest {
    /// Checks the field rules; on failure lists every broken rule.
    pub fn validate(&self) -> (r: Result<(), FieldErrors>)
        ensures
            r is Ok <==> sync_files_request_issues(*self).len() == 0,
            r matches Err(e) ==> e@ == sync_files_request_issues(*self),
    {
        let mut errs = FieldErrors::new();
        let ok = match &self.path {
            Some(v) => {
                let n = char_count(v.as_str());
                n <= 500
            },
            None => true,
        };
        errs.note(ok, "path", "路径长度不能超过500个字符");
        errs.into_result()
    }
}

/// Request to move files to the trash.
pub struct DeleteFilesRequest {
    /// File ids, 1 to 100.
    pub file_ids: Vec<i64>,
}

/// The rules a `DeleteFilesRequest` breaks, in field order.
pub open spec fn delete_files_request_issues(r: DeleteFilesRequest) -> Seq<(Seq<char>, Seq<char>)> {
    issue(1 <= r.file_ids@.len() && r.file_ids@.len() <= 100, "file_ids"@, "文件ID数量必须在1-100之间"@)
}

impl DeleteFilesRequest {
    /// Checks the field rules; on failure lists every broken rule.
    pub fn validate(&self) -> (r: Result<(), FieldErrors>)
        ensures
            r is Ok <==> delete_files_request_issues(*self).len() == 0,
            r matches Err(e) ==> e@ == delete_files_request_issues(*self),
    {
        let mut errs = FieldErrors::new();
        let ok = 1 <= self.file_ids.len() && self.file_ids.len() <= 100;
        errs.note(ok, "file_ids", "文件ID数量必须在1-100之间");
        errs.into_result()
    }
}

/// Request to restore files from the trash.
pub struct RestoreFilesRequest {
    /// File ids, 1 to 100.
    pub file_ids: Vec<i64>,
}

/// The rules a `RestoreFilesRequest` breaks, in field order.
pub open spec fn restore_files_request_issues(r: RestoreFilesRequest) -> Seq<(Seq<char>, Seq<char>)> {
    issue(1 <= r.file_ids@.len() && r.file_ids@.len() <= 100, "file_ids"@, "文件ID数量必须在1-100之间"@)
}

impl RestoreFilesRequest {
    /// Checks the field rules; on failure lists every broken rule.
    pub fn validate(&self) -> (r: Result<(), FieldErrors>)
        ensures
            r is Ok <==> restore_files_request_issues(*self).len() == 0,
            r matches Err(e) ==> e@ == restore_files_request_issues(*self),
    {
        let mut errs = FieldErrors::new();
        let ok = 1 <= self.file_ids.len() && self.file_ids.len() <= 100;
        errs.note(ok, "file_ids", "文件ID数量必须在1-100之间");
        errs.into_result()
    }
}

/// Request to create an album.
pub struct CreateAlbumRequest {
    /// Album name, 1 to 100 characters.
    pub name: String,
    /// Optional description, at most 500 characters.
    pub description: Option<String>,
    /// Cover image (a member file id).
    pub cover_file_id: Option<i64>,
    /// Files to add at once, at most 1000.
    pub file_ids: Option<Vec<i64>>,
}

/// The rules a `CreateAlbumRequest` breaks, in field order.
pub open spec fn create_album_request_issues(r: CreateAlbumRequest) -> Seq<(Seq<char>, Seq<char>)> {
    issue(1 <= r.name@.len() && r.name@.len() <= 100, "name"@, "相册名称长度必须在1-100个字符之间"@)
        + issue(match r.description { Some(v) => v@.len() <= 500, None => true }, "description"@, "相册描述长度不能超过500个字符"@)
        + issue(match r.file_ids { Some(v) => v@.len() <= 1000, None => true }, "file_ids"@, "单次最多添加1000个文件"@)
}

impl CreateAlbumRequest {
    /// Checks the field rules; on failure lists every broken rule.
    pub fn validate(&self) -> (r: Result<(), FieldErrors>)
        ensures
            r is Ok <==> create_album_request_issues(*self).len() == 0,
            r matches Err(e) ==> e@ == create_album_request_issues(*self),
    {
        let mut errs = FieldErrors::new();
        let n = char_count(self.name.as_str());
        let ok = 1 <= n && n <= 100;
        errs.note(ok, "name", "相册名称长度必须在1-100个字符之间");
        let ok = match &self.description {
            Some(v) => {
                let n = char_count(v.as_str());
                n <= 500
            },
            None => true,
        };
        errs.note(ok, "description", "相册描述长度不能超过500个字符");
        let ok = match &self.file_ids { Some(v) => v.len() <= 1000, None => true };
        errs.note(ok, "file_ids", "单次最多添加1000个文件");
        errs.into_result()
    }
}

/// Request to update an album.
pub struct UpdateAlbumRequest {
    /// New name, 1 to 100 characters.
    pub name: Option<String>,
    /// New description, at most 500 characters.
    pub description: Option<String>,
    /// New cover image.
    pub cover_file_id: Option<i64>,
}

/// The rules a `UpdateAlbumRequest` breaks, in field order.
pub open spec fn update_album_request_issues(r: UpdateAlbumRequest) -> Seq<(Seq<char>, Seq<char>)> {
    issue(match r.name { Some(v) => 1 <= v@.len() && v@.len() <= 100, None => true }, "name"@, "相册名称长度必须在1-100个字符之间"@)
        + issue(match r.description { Some(v) => v@.len() <= 500, None => true }, "description"@, "相册描述长度不能超过500个字符"@)
}

impl UpdateAlbumRequest {
    /// Checks the field rules; on failure lists every broken rule.
    pub fn validate(&self) -> (r: Result<(), FieldErrors>)
        ensures
            r is Ok <==> update_album_request_issues(*self).len() == 0,
            r matches Err(e) ==> e@ == update_album_request_issues(*self),
    {
        let mut errs = FieldErrors::new();
        let ok = match &self.name {
            Some(v) => {
                let n = char_count(v.as_str());
                1 <= n && n <= 100
            },
            None => true,
        };
        errs.note(ok, "name", "相册名称长度必须在1-100个字符之间");
        let ok = match &self.description {
            Some(v) => {
                let n = char_count(v.as_str());
                n <= 500
            },
            None => true,
        };
        errs.note(ok, "description", "相册描述长度不能超过500个字符");
        errs.into_result()
    }
}

/// Request to add files to an album.
pub struct AddFilesRequest {
    /// File ids, 1 to 1000.
    pub file_ids: Vec<i64>,
}

/// The rules a `AddFilesRequest` breaks, in field order.
pub open spec fn add_files_request_issues(r: AddFilesRequest) -> Seq<(Seq<char>, Seq<char>)> {
    issue(1 <= r.file_ids@.len() && r.file_ids@.len() <= 1000, "file_ids"@, "文件ID列表长度必须在1-1000之间"@)
}

impl AddFilesRequest {
    /// Checks the field rules; on failure lists every broken rule.
    pub fn validate(&self) -> (r: Result<(), FieldErrors>)
        ensures
            r is Ok <==> add_files_request_issues(*self).len() == 0,
            r matches Err(e) ==> e@ == add_files_request_issues(*self),
    {
        let mut errs = FieldErrors::new();
        let ok = 1 <= self.file_ids.len() && self.file_ids.len() <= 1000;
        errs.note(ok, "file_ids", "文件ID列表长度必须在1-1000之间");
        errs.into_result()
    }
}

/// Request to remove files from an album.
pub struct RemoveFilesRequest {
    /// File ids, 1 to 1000.
    pub file_ids: Vec<i64>,
}

/// The rules a `RemoveFilesRequest` breaks, in field order.
pub open spec fn remove_files_request_issues(r: RemoveFilesRequest) -> Seq<(Seq<char>, Seq<char>)> {
    issue(1 <= r.file_ids@.len() && r.file_ids@.len() <= 1000, "file_ids"@, "文件ID列表长度必须在1-1000之间"@)
}

impl RemoveFilesRequest {
    /// Checks the field rules; on failure lists every broken rule.
    pub fn validate(&self) -> (r: Result<(), FieldErrors>)
        ensures
            r is Ok <==> remove_files_request_issues(*self).len() == 0,
            r matches Err(e) ==> e@ == remove_files_request_issues(*self),
    {
        let mut errs = FieldErrors::new();
        let ok = 1 <= self.file_ids.len() && self.file_ids.len() <= 1000;
        errs.note(ok, "file_ids", "文件ID列表长度必须在1-1000之间");
        errs.into_result()
    }
}

/// Paging parameters.
pub struct PaginationQuery {
    /// Page number, from 1.
    pub page: Option<u64>,
    /// Page size, 1 to 100.
    pub page_size: Option<u64>,
}

/// The rules a `PaginationQuery` breaks, in field order.
pub open spec fn pagination_query_issues(r: PaginationQuery) -> Seq<(Seq<char>, Seq<char>)> {
    issue(match r.page { Some(n) => 1 <= n, None => true }, "page"@, "页码必须大于0"@)
        + issue(match r.page_size { Some(n) => 1 <= n && n <= 100, None => true }, "page_size"@, "每页大小必须在1-100之间"@)
}

impl PaginationQuery {
    /// Checks the field rules; on failure lists every broken rule.
    pub fn validate(&self) -> (r: Result<(), FieldErrors>)
        ensures
            r is Ok <==> pagination_query_issues(*self).len() == 0,
            r matches Err(e) ==> e@ == pagination_query_issues(*self),
    {
        let mut errs = FieldErrors::new();
        let ok = match self.page { Some(n) => 1 <= n, None => true };
        errs.note(ok, "page", "页码必须大于0");
        let ok = match self.page_size { Some(n) => 1 <= n && n <= 100, None => true };
        errs.note(ok, "page_size", "每页大小必须在1-100之间");
        errs.into_result()
    }
}

// ------------------------------------------------------------- responses

/// Whether content with a hash is already stored.
pub struct HashCheckResponse {
    pub exists: bool,
}

/// Upload form data naming the content hash.
pub struct UploadFileRequest {
    pub hash: String,
}

/// Outcome of an upload.
pub struct UploadFileResponse {
    pub success: bool,
    pub file_id: i64,
    pub message: String,
}

/// A file in a member's listing.
pub struct FileListItem {
    pub id: i64,
    pub file_name: String,
    pub description: String,
    pub file_size: Option<i64>,
    pub mime_type: Option<String>,
    /// Address of the thumbnail, if there is one.
    pub thumbnail: Option<String>,
    /// Address of the file.
    pub url: Option<String>,
    /// Creation time in the server's local time zone.
    pub created_at: String,
    /// Last update in the server's local time zone.
    pub updated_at: String,
}

/// One page of a member's files.
pub struct FileListResponse {
    pub files: Vec<FileListItem>,
    pub total: u64,
    pub page: u64,
    pub page_size: u64,
    pub total_pages: u64,
}

/// Outcome of queueing a synchronisation task.
pub struct TriggerSyncResponse {
    pub success: bool,
    pub task_id: i64,
    pub message: String,
}

/// A task in the task list.
pub struct TaskItemResponse {
    pub id: i64,
    pub task_type: String,
    pub status: String,
    pub progress: i64,
    pub message: String,
    pub created_at: String,
    pub updated_at: String,
    pub completed_at: Option<String>,
}

/// The recent tasks.
pub struct TaskListResponse {
    pub tasks: Vec<TaskItemResponse>,
}

/// Outcome of creating a synchronisation task.
pub struct SyncFilesResponse {
    pub success: bool,
    pub task_id: i64,
    pub message: String,
}

/// Outcome of moving files to the trash.
pub struct DeleteFilesResponse {
    pub success: bool,
    pub deleted_count: u64,
    pub message: String,
}

/// A file in the trash.
pub struct TrashListItem {
    pub id: i64,
    pub file_name: String,
    pub description: String,
    pub file_size: Option<i64>,
    pub mime_type: Option<String>,
    pub thumbnail: Option<String>,
    pub url: Option<String>,
    pub created_at: String,
    pub updated_at: String,
    pub deleted_at: String,
}

/// One page of the trash.
pub struct TrashListResponse {
    pub files: Vec<TrashListItem>,
    pub total: u64,
    pub page: u64,
    pub page_size: u64,
    pub total_pages: u64,
}

/// Outcome of restoring files.
pub struct RestoreFilesResponse {
    pub success: bool,
    pub restored_count: u64,
    pub message: String,
}

/// Outcome of emptying the trash.
pub struct EmptyTrashResponse {
    pub success: bool,
    pub deleted_count: u64,
    pub message: String,
}

/// A member as shown to clients. Times are Unix milliseconds.
pub struct MemberResponse {
    pub id: i64,
    pub username: String,
    pub avatar: Option<String>,
    pub storage_tag: String,
    /// Bytes used.
    pub storage_used: i64,
    /// Bytes available in total.
    pub storage_total: i64,
    pub last_active: Option<i64>,
    /// `online`, `away` or `offline`.
    pub status: String,
    pub created_at: i64,
}

/// One page of members.
pub struct MemberListResponse {
    pub members: Vec<MemberResponse>,
    pub total: u64,
    pub page: u64,
    pub page_size: u64,
}

/// Outcome of a login.
pub struct LoginResponse {
    pub token: String,
    pub member: MemberResponse,
}

/// Whether no member exists yet.
pub struct IsEmptyResponse {
    pub is_empty: bool,
}

/// Outcome of creating the first administrator.
pub struct InitAdminResponse {
    pub success: bool,
    pub message: String,
    pub member: Option<MemberResponse>,
}

/// An album as shown to clients. Times are Unix milliseconds.
pub struct AlbumResponse {
    pub id: i64,
    pub member_id: i64,
    pub name: String,
    pub description: Option<String>,
    pub cover_file_id: Option<i64>,
    pub file_count: u64,
    pub created_at: i64,
    pub updated_at: i64,
}

/// An album in a listing.
pub struct AlbumListItem {
    pub id: i64,
    pub name: String,
    pub description: Option<String>,
    pub cover_file_id: Option<i64>,
    pub cover_url: Option<String>,
    pub file_count: u64,
    pub created_at: i64,
    pub updated_at: i64,
}

/// One page of albums.
pub struct AlbumListResponse {
    pub albums: Vec<AlbumListItem>,
    pub total: u64,
    pub page: u64,
    pub page_size: u64,
}

/// A file in an album listing.
pub struct AlbumFileInfo {
    pub id: i64,
    pub file_name: String,
    pub file_size: i64,
    pub mime_type: String,
    pub description: String,
    pub thumbnail: Option<String>,
    pub url: Option<String>,
    pub created_at: i64,
    pub updated_at: i64,
}

/// One page of an album's files.
pub struct AlbumFilesResponse {
    pub files: Vec<AlbumFileInfo>,
    pub total: u64,
    pub page: u64,
    pub page_size: u64,
}

/// How many files were added to an album.
pub struct AddFilesResponse {
    pub added_count: u64,
}

/// How many files were removed from an album.
pub struct RemoveFilesResponse {
    pub removed_count: u64,
}

/// A plain message.
pub struct MessageResponse {
    pub message: String,
}

} // verus!
