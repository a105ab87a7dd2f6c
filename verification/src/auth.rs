//! Roles, token claims and the access decisions made for each request.

use vstd::prelude::*;
use crate::errors::AppError;
use crate::text::{chars_of, has_prefix, owned, starts_with_lit, string_of};

verus! {

/// A member's role.
#[derive(Debug, Clone, Copy, PartialEq, Eq, Structural)]
pub enum MemberRole {
    User,
    Admin,
}

impl MemberRole {
    /// Whether the role is the administrator role.
    pub fn is_admin(&self) -> (b: bool)
        ensures
            b == (*self == MemberRole::Admin),
    {
        match self {
            MemberRole::Admin => true,
            MemberRole::User => false,
        }
    }
}

/// The stored and transmitted name of a role.
pub open spec fn role_name(r: MemberRole) -> Seq<char> {
    match r {
        MemberRole::User => "user"@,
        MemberRole::Admin => "admin"@,
    }
}

impl MemberRole {
    /// The role's name: `user` or `admin`.
    pub fn name(&self) -> (s: &'static str)
        ensures
            s@ == role_name(*self),
    {
        match self {
            MemberRole::User => "user",
            MemberRole::Admin => "admin",
        }
    }

    /// The role a name stands for; `None` for any other text.
    pub fn from_name(name: &str) -> (r: Option<MemberRole>)
        ensures
            r matches Some(role) ==> role_name(role) == name@,
            r is None ==> name@ != "user"@ && name@ != "admin"@,
    {
        let v = chars_of(name);
        if crate::text::eq_lit(&v, "user") {
            Some(MemberRole::User)
        } else if crate::text::eq_lit(&v, "admin") {
            Some(MemberRole::Admin)
        } else {
            None
        }
    }
}

/// A role's name reads back as the same role.
pub proof fn lemma_role_name_round_trip(r: MemberRole, s: MemberRole)
    ensures
        role_name(r) == role_name(s) ==> r == s,
{
    reveal_strlit("user");
    reveal_strlit("admin");
    assert("user"@.len() != "admin"@.len());
}

impl Default for MemberRole {
    /// Members are ordinary users unless made administrators.
    fn default() -> (r: Self)
        ensures
            r == MemberRole::User,
    {
        MemberRole::User
    }
}

/// The claims carried by an access token.
pub struct JwtClaims {
    /// The member's id.
    pub sub: i64,
    /// The member's role (`User` when the token names none).
    pub role: MemberRole,
    /// The audience, `homedrive` for tokens of this service.
    pub aud: Option<String>,
    /// Expiry, Unix seconds.
    pub exp: u64,
    /// Issue time, Unix seconds.
    pub iat: u64,
}

/// The member id of an authenticated request.
pub struct Auth(pub i64);

impl Auth {
    /// The id named by the claims.
    pub fn from_claims(claims: &JwtClaims) -> (a: Auth)
        ensures
            a.0 == claims.sub,
    {
        Auth(claims.sub)
    }
}

/// An authenticated member: id and role.
pub struct Authorized(pub i64, pub MemberRole);

impl Authorized {
    /// The member named by the claims, with the role they carry.
    pub fn from_claims(claims: &JwtClaims) -> (a: Authorized)
        ensures
            a.0 == claims.sub,
            a.1 == claims.role,
    {
        Authorized(claims.sub, claims.role)
    }

    /// Whether the member is an administrator.
    pub fn is_admin(&self) -> (b: bool)
        ensures
            b == (self.1 == MemberRole::Admin),
    {
        self.1.is_admin()
    }

    /// The member's id.
    pub fn user_id(&self) -> (id: i64)
        ensures
            id == self.0,
    {
        self.0
    }

    /// The member's role.
    pub fn role(&self) -> (r: &MemberRole)
        ensures
            *r == self.1,
    {
        &self.1
    }
}

/// An authenticated administrator.
pub struct AdminOnly(pub i64);

impl AdminOnly {
    /// Admits the claims only when they carry the administrator role.
    pub fn from_claims(claims: &JwtClaims) -> (r: Result<AdminOnly, AppError>)
        ensures
            claims.role == MemberRole::Admin ==> (r matches Ok(a) && a.0 == claims.sub),
            claims.role != MemberRole::Admin ==> r matches Err(AppError::Forbidden),
    {
        if !claims.role.is_admin() {
            return Err(AppError::Forbidden);
        }
        Ok(AdminOnly(claims.sub))
    }
}

/// Whether a member may read or change the member `id`: administrators may
/// reach every member, others only themselves.
pub open spec fn may_access_member(who: Authorized, id: i64) -> bool {
    who.1 == MemberRole::Admin || who.0 == id
}

/// Whether `who` may read or change the member `id`.
pub fn can_access_member(who: &Authorized, id: i64) -> (b: bool)
    ensures
        b == may_access_member(*who, id),
{
    who.is_admin() || who.user_id() == id
}

/// The check made before a member's data is read or changed.
pub fn check_member_access(who: &Authorized, id: i64) -> (r: Result<(), AppError>)
    ensures
        may_access_member(*who, id) ==> r is Ok,
        !may_access_member(*who, id) ==> r matches Err(AppError::Forbidden),
{
    if !can_access_member(who, id) {
        return Err(AppError::Forbidden);
    }
    Ok(())
}

/// The check made before a member is updated: the member must be reachable,
/// and only administrators may change a role.
pub fn check_member_update(who: &Authorized, id: i64, changes_role: bool) -> (r: Result<(), AppError>)
    ensures
        (may_access_member(*who, id) && (who.1 == MemberRole::Admin || !changes_role)) ==> r is Ok,
        !(may_access_member(*who, id) && (who.1 == MemberRole::Admin || !changes_role))
            ==> r matches Err(AppError::Forbidden),
{
    if !can_access_member(who, id) {
        return Err(AppError::Forbidden);
    }
    if !who.is_admin() && changes_role {
        return Err(AppError::Forbidden);
    }
    Ok(())
}

/// The check made before an album route acts for the member `member_id`:
/// members reach only their own albums.
pub fn check_album_member(who: &Authorized, member_id: i64) -> (r: Result<(), AppError>)
    ensures
        who.0 == member_id ==> r is Ok,
        who.0 != member_id ==> r matches Err(AppError::Forbidden),
{
    if who.0 != member_id {
        return Err(AppError::Forbidden);
    }
    Ok(())
}

/// An ordinary member reaches exactly their own member record; an
/// administrator reaches every record.
pub proof fn lemma_member_access(who: Authorized, id: i64)
    ensures
        who.1 == MemberRole::User ==> (may_access_member(who, id) <==> who.0 == id),
        who.1 == MemberRole::Admin ==> may_access_member(who, id),
{
}

// ------------------------------------------------------------ the token

/// What `urlencoding::decode` gives: the string with `%XX` escapes
/// decoded, or `None` when the decoded bytes are not UTF-8.
pub uninterp spec fn percent_decoded(s: Seq<char>) -> Option<Seq<char>>;

/// `urlencoding::decode`.
#[verifier::external_body]
fn url_decode(s: &str) -> (decoded: Option<String>)
    ensures
        percent_decoded(s@) == (match decoded {
            Some(d) => Some(d@),
            None => None,
        }),
        !s@.contains('%') ==> decoded is Some && decoded.unwrap()@ == s@,
{
    match urlencoding::decode(s) {
        Ok(d) => Some(d.into_owned()),
        Err(_) => None,
    }
}

/// Index of the first `c` in `s`, or its length when there is none.
pub open spec fn char_index(s: Seq<char>, c: char) -> int
    decreases s.len(),
{
    if s.len() == 0 {
        0
    } else if s[0] == c {
        0
    } else {
        1 + char_index(s.drop_first(), c)
    }
}

/// `char_index` is the position of the first `c`, or the length.
pub proof fn lemma_char_index(s: Seq<char>, c: char)
    ensures
        0 <= char_index(s, c) <= s.len(),
        forall|j: int| 0 <= j < char_index(s, c) ==> s[j] != c,
        char_index(s, c) < s.len() ==> s[char_index(s, c)] == c,
    decreases s.len(),
{
    if s.len() > 0 && s[0] != c {
        lemma_char_index(s.drop_first(), c);
        assert forall|j: int| 0 <= j < char_index(s, c) implies s[j] != c by {
            if j > 0 {
                assert(s[j] == s.drop_first()[j - 1]);
            }
        }
    }
}

/// The raw value of the first `&`-separated part of a query string that
/// starts with `token=`.
pub open spec fn query_token(q: Seq<char>) -> Option<Seq<char>>
    decreases q.len(),
{
    let k = char_index(q, '&');
    let part = q.take(k);
    if has_prefix(part, "token="@) {
        Some(part.skip("token="@.len() as int))
    } else if k >= q.len() {
        None
    } else {
        proof {
            lemma_char_index(q, '&');
        }
        query_token(q.skip(k + 1))
    }
}

/// The token a request carries: the rest of an `Authorization` header that
/// starts with `Bearer `, else the first `token=` query parameter,
/// percent-decoded (kept raw when the decoding is not UTF-8).
pub open spec fn request_token_of(authorization: Option<Seq<char>>, query: Option<Seq<char>>) -> Option<Seq<char>> {
    match authorization {
        Some(h) if has_prefix(h, "Bearer "@) => Some(h.skip("Bearer "@.len() as int)),
        _ => {
            let q = match query {
                Some(q) => q,
                None => seq![],
            };
            match query_token(q) {
                Some(raw) => match percent_decoded(raw) {
                    Some(d) => Some(d),
                    None => Some(raw),
                },
                None => None,
            }
        },
    }
}

/// The view of an optional string.
pub open spec fn opt_view(s: Option<&str>) -> Option<Seq<char>> {
    match s {
        Some(x) => Some(x@),
        None => None,
    }
}

fn find_query_token(q: &Vec<char>) -> (r: Option<Vec<char>>)
    ensures
        r matches Some(t) ==> query_token(q@) == Some(t@),
        r is None ==> query_token(q@) is None,
{
    let prefix = chars_of("token=");
    let mut start: usize = 0;
    assert(q@.skip(0) =~= q@);
    while start <= q.len()
        invariant
            start <= q.len(),
            prefix@ == "token="@,
            query_token(q@) == query_token(q@.skip(start as int)),
        decreases q.len() + 1 - start,
    {
        let ghost rest = q@.skip(start as int);
        let mut end: usize = start;
        while end < q.len() && q[end] != '&'
            invariant
                start <= end <= q.len(),
                forall|j: int| start <= j < end ==> q@[j] != '&',
            decreases q.len() - end,
        {
            end = end + 1;
        }
        proof {
            lemma_char_index(rest, '&');
            let ci = char_index(rest, '&');
            if ci < end - start {
                assert(rest[ci] == q@[start + ci]);
            }
            if end < q.len() && ci > end - start {
                assert(rest[end - start] == q@[end as int]);
            }
            assert(ci == end - start);
        }
        let mut part: Vec<char> = Vec::new();
        let mut i: usize = start;
        while i < end
            invariant
                start <= i <= end <= q.len(),
                part@ == q@.subrange(start as int, i as int),
            decreases end - i,
        {
            part.push(q[i]);
            assert(q@.subrange(start as int, i + 1) =~= q@.subrange(start as int, i as int).push(
                q@[i as int],
            ));
            i = i + 1;
        }
        assert(part@ =~= rest.take(end - start));
        if crate::text::starts_with(&part, &prefix) {
            let mut value: Vec<char> = Vec::new();
            let mut j: usize = prefix.len();
            while j < part.len()
                invariant
                    prefix@.len() <= j <= part.len(),
                    value@ == part@.subrange(prefix@.len() as int, j as int),
                decreases part.len() - j,
            {
                value.push(part[j]);
                assert(part@.subrange(prefix@.len() as int, j + 1) =~= part@.subrange(
                    prefix@.len() as int,
                    j as int,
                ).push(part@[j as int]));
                j = j + 1;
            }
            assert(value@ =~= part@.skip(prefix@.len() as int));
            return Some(value);
        }
        if end == q.len() {
            return None;
        }
        assert(rest.skip(end - start + 1) =~= q@.skip(end + 1));
        start = end + 1;
    }
    None
}

/// The token a request carries, from its `Authorization` header value or
/// its query string; a request with neither is refused.
pub fn request_token(authorization: Option<&str>, query: Option<&str>) -> (r: Result<String, AppError>)
    ensures
        request_token_of(opt_view(authorization), opt_view(query)) matches Some(t) ==> (r matches Ok(
            s,
        ) && s@ == t),
        request_token_of(opt_view(authorization), opt_view(query)) is None ==> r matches Err(
            AppError::InvalidCredentials,
        ),
{
    if let Some(h) = authorization {
        let hv = chars_of(h);
        if starts_with_lit(&hv, "Bearer ") {
            let skip = chars_of("Bearer ").len();
            let mut t: Vec<char> = Vec::new();
            let mut i: usize = skip;
            while i < hv.len()
                invariant
                    skip <= i <= hv.len(),
                    skip == "Bearer "@.len(),
                    t@ == hv@.subrange(skip as int, i as int),
                decreases hv.len() - i,
            {
                t.push(hv[i]);
                assert(hv@.subrange(skip as int, i + 1) =~= hv@.subrange(skip as int, i as int).push(
                    hv@[i as int],
                ));
                i = i + 1;
            }
            assert(t@ =~= hv@.skip(skip as int));
            return Ok(string_of(&t));
        }
    }
    let q = match query {
        Some(q) => chars_of(q),
        None => Vec::new(),
    };
    assert(q@ == (match opt_view(query) {
        Some(q) => q,
        None => seq![],
    }));
    match find_query_token(&q) {
        Some(raw) => {
            let raw_s = string_of(&raw);
            match url_decode(raw_s.as_str()) {
                Some(d) => Ok(d),
                None => Ok(raw_s),
            }
        },
        None => Err(AppError::InvalidCredentials),
    }
}

/// The claims of a token issued at `now` (Unix seconds) for a member:
/// the member's id and role, audience `homedrive`, valid for 24 hours.
pub struct TokenClaims {
    pub sub: i64,
    pub role: MemberRole,
    pub aud: Option<String>,
    pub exp: u64,
    pub iat: u64,
}

/// The claims of a token issued at `now` for the member `member_id`, who
/// holds `role`; a reader of the token takes the role from them.
pub fn token_claims(member_id: i64, role: MemberRole, now: i64) -> (c: TokenClaims)
    requires
        now + 86400 <= i64::MAX,
    ensures
        c.sub == member_id,
        c.role == role,
        c.aud matches Some(a) && a@ == "homedrive"@,
        c.exp == (now + 86400) as u64,
        c.iat == now as u64,
{
    TokenClaims {
        sub: member_id,
        role,
        aud: Some(owned("homedrive")),
        exp: (now + 86400) as u64,
        iat: now as u64,
    }
}

} // verus!
