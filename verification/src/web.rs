//! HTTP-facing decisions: which CORS origins are allowed, which embedded
//! front-end file answers a path, and the JSON envelope of answers.

use vstd::prelude::*;
use vstd::utf8::encode_utf8;

use crate::schema::{issues_text, FieldErrors};
use crate::text::{
    chars_of, contains_char, has_prefix, owned, push_char, remove_pattern, starts_with_lit,
    string_of, string_views, strip_leading, strip_leading_char, trim, trimmed, without_pattern,
};

verus! {

// ------------------------------------------------------------------ CORS

/// The pieces of `s` between commas, as `str::split(',')` gives them (an
/// empty string gives one empty piece).
pub open spec fn split_commas(s: Seq<char>) -> Seq<Seq<char>>
    decreases s.len(),
{
    if s.len() == 0 {
        seq![seq![]]
    } else {
        let rest = split_commas(s.drop_last());
        if s.last() == ',' {
            rest.push(seq![])
        } else {
            rest.update(rest.len() - 1, rest.last().push(s.last()))
        }
    }
}

/// A byte allowed in an HTTP header value: visible, or a tab.
pub open spec fn header_byte_ok(b: u8) -> bool {
    (b >= 32 && b != 127) || b == 9
}

/// Text an HTTP header value can hold.
pub open spec fn header_value_ok(s: Seq<char>) -> bool {
    forall|i: int| 0 <= i < encode_utf8(s).len() ==> header_byte_ok(#[trigger] encode_utf8(s)[i])
}

/// `HeaderValue::try_from(s).is_ok()`: every byte of `s` is visible or a
/// tab (the `http` crate's `is_valid`).
#[verifier::external_body]
fn header_value_valid(s: &str) -> (b: bool)
    ensures
        b == header_value_ok(s@),
{
    hyper::header::HeaderValue::try_from(s).is_ok()
}

/// The configured origins that are kept: each piece trimmed, those that
/// can be a header value, in order.
pub open spec fn valid_origins(pieces: Seq<Seq<char>>) -> Seq<Seq<char>>
    decreases pieces.len(),
{
    if pieces.len() == 0 {
        seq![]
    } else {
        let rest = valid_origins(pieces.drop_last());
        let t = trimmed(pieces.last());
        if header_value_ok(t) {
            rest.push(t)
        } else {
            rest
        }
    }
}

/// Which origins may call the server.
pub enum AllowedOrigins {
    /// Any origin, without credentials.
    Any,
    /// These origins only, with credentials.
    List(Vec<String>),
}

/// The origins allowed by the `cors_origin` setting: any for `*`; else the
/// valid comma-separated origins, or any when none is valid.
pub open spec fn allowed_origins_of(cors: Seq<char>) -> Option<Seq<Seq<char>>> {
    if cors == "*"@ {
        None
    } else if valid_origins(split_commas(cors)).len() == 0 {
        None
    } else {
        Some(valid_origins(split_commas(cors)))
    }
}

/// The pieces of `s` between commas.
pub fn split_on_commas(s: &str) -> (v: Vec<String>)
    ensures
        string_views(v@) == split_commas(s@),
{
    let c = chars_of(s);
    let mut done: Vec<String> = Vec::new();
    let mut cur: Vec<char> = Vec::new();
    let mut i: usize = 0;
    assert(c@.take(0) =~= Seq::<char>::empty());
    while i < c.len()
        invariant
            i <= c.len(),
            c@ == s@,
            string_views(done@).push(cur@) == split_commas(c@.take(i as int)),
        decreases c.len() - i,
    {
        assert(c@.take(i + 1).drop_last() =~= c@.take(i as int));
        let ch = c[i];
        if ch == ',' {
            let piece = string_of(&cur);
            let ghost before = done@;
            done.push(piece);
            assert(string_views(done@) =~= string_views(before).push(cur@));
            cur = Vec::new();
            assert(string_views(done@).push(cur@) =~= split_commas(c@.take(i as int)).push(seq![]));
        } else {
            let ghost old_cur = cur@;
            cur.push(ch);
            assert(string_views(done@).push(cur@) =~= split_commas(c@.take(i as int)).update(
                split_commas(c@.take(i as int)).len() - 1,
                old_cur.push(ch),
            ));
        }
        i = i + 1;
    }
    assert(c@.take(c@.len() as int) =~= c@);
    let last = string_of(&cur);
    let ghost before = done@;
    done.push(last);
    assert(string_views(done@) =~= string_views(before).push(cur@));
    done
}

/// The origins allowed by the `cors_origin` setting.
pub fn cors_origins(cors_origin: &str) -> (r: AllowedOrigins)
    ensures
        (match r {
            AllowedOrigins::Any => allowed_origins_of(cors_origin@) is None,
            AllowedOrigins::List(v) => allowed_origins_of(cors_origin@) == Some(string_views(v@)),
        }),
{
    let c = chars_of(cors_origin);
    if crate::text::eq_lit(&c, "*") {
        return AllowedOrigins::Any;
    }
    let pieces = split_on_commas(cors_origin);
    let mut kept: Vec<String> = Vec::new();
    let mut i: usize = 0;
    assert(string_views(pieces@).take(0) =~= Seq::<Seq<char>>::empty());
    while i < pieces.len()
        invariant
            i <= pieces.len(),
            string_views(pieces@) == split_commas(cors_origin@),
            string_views(kept@) == valid_origins(string_views(pieces@).take(i as int)),
        decreases pieces.len() - i,
    {
        let ghost p = string_views(pieces@);
        assert(p.take(i + 1).drop_last() =~= p.take(i as int));
        assert(p.take(i + 1).last() == pieces@[i as int]@);
        let t = trim(pieces[i].as_str());
        if header_value_valid(t.as_str()) {
            let ghost before = kept@;
            kept.push(t);
            assert(string_views(kept@) =~= string_views(before).push(t@));
        }
        i = i + 1;
    }
    assert(string_views(pieces@).take(pieces@.len() as int) =~= string_views(pieces@));
    if kept.len() == 0 {
        AllowedOrigins::Any
    } else {
        AllowedOrigins::List(kept)
    }
}

impl AllowedOrigins {
    /// Whether credentials are allowed: only with a list of origins.
    pub fn allow_credentials(&self) -> (b: bool)
        ensures
            b == (*self is List),
    {
        match self {
            AllowedOrigins::Any => false,
            AllowedOrigins::List(_) => true,
        }
    }
}

// ------------------------------------------------------------ extraction

/// A JSON request body that obeys its field rules.
pub struct ValidatedJson<T>(pub T);

/// Query parameters that obey their field rules.
pub struct ValidatedQuery<T>(pub T);

/// The message a request is refused with (400) when its body or query
/// breaks field rules: `验证失败: ` and every broken rule.
pub fn validation_failure_message(errors: &FieldErrors) -> (m: String)
    ensures
        m@ == "验证失败: "@ + issues_text(errors@),
{
    let mut m = owned("验证失败: ");
    let j = errors.joined();
    crate::text::push_str(&mut m, j.as_str());
    m
}

// ------------------------------------------------------------- front end

/// An embedded front-end file asked for by a path (`T` is the path).
pub struct StaticFile<T>(pub T);

/// The embedded file a request path names: without leading `/`, without
/// `build/` where the path starts with it, and `index.html` for nothing.
pub open spec fn asset_path_of(uri_path: Seq<char>) -> Seq<char> {
    let p = strip_leading(uri_path, '/');
    let q = if has_prefix(p, "build/"@) {
        without_pattern(p, "build/"@)
    } else {
        p
    };
    if q.len() == 0 {
        "index.html"@
    } else {
        q
    }
}

/// Every request path names some file: the name is never empty.
pub proof fn lemma_asset_path_not_empty(uri_path: Seq<char>)
    ensures
        asset_path_of(uri_path).len() > 0,
{
    reveal_strlit("index.html");
}

/// The embedded file a request path names.
pub fn asset_path(uri_path: &str) -> (p: String)
    ensures
        p@ == asset_path_of(uri_path@),
{
    let v = chars_of(uri_path);
    let p = strip_leading_char(&v, '/');
    let q = if starts_with_lit(&p, "build/") {
        let pat = chars_of("build/");
        remove_pattern(&p, &pat)
    } else {
        p
    };
    if q.len() == 0 {
        owned("index.html")
    } else {
        string_of(&q)
    }
}

/// How a front-end path is answered.
#[derive(Debug, Clone, Copy, PartialEq, Eq, Structural)]
pub enum AssetAnswer {
    /// The file itself.
    Asset,
    /// `index.html`, for a client-side route.
    Index,
    /// 404: a missing file with an extension.
    NotFound,
    /// 500: `index.html` itself is missing.
    IndexMissing,
}

/// A path with an extension (holding `.`) asks for a static file.
pub open spec fn is_static_asset(path: Seq<char>) -> bool {
    path.contains('.')
}

/// How `path` is answered, given whether it and `index.html` are embedded.
pub open spec fn asset_answer_of(path: Seq<char>, found: bool, index_found: bool) -> AssetAnswer {
    if found {
        AssetAnswer::Asset
    } else if is_static_asset(path) {
        AssetAnswer::NotFound
    } else if index_found {
        AssetAnswer::Index
    } else {
        AssetAnswer::IndexMissing
    }
}

impl<T> StaticFile<T> {
    /// How the path `path` of this request is answered, given whether it
    /// and `index.html` are embedded.
    pub fn answer(path: &str, found: bool, index_found: bool) -> (a: AssetAnswer)
        ensures
            a == asset_answer_of(path@, found, index_found),
    {
        if found {
            return AssetAnswer::Asset;
        }
        let v = chars_of(path);
        if contains_char(&v, '.') {
            AssetAnswer::NotFound
        } else if index_found {
            AssetAnswer::Index
        } else {
            AssetAnswer::IndexMissing
        }
    }
}

// --------------------------------------------------------------- answers

/// The JSON envelope of an answer: a code, a message, and maybe data.
pub struct Payload<T> {
    pub code: u16,
    pub message: String,
    pub data: Option<T>,
}

impl<T> Default for Payload<T> {
    /// Code 200, no message, no data.
    fn default() -> (p: Self)
        ensures
            p.code == 200,
            p.message@ == Seq::<char>::empty(),
            p.data is None,
    {
        Payload { code: 200, message: String::new(), data: None }
    }
}

impl<T> Payload<T> {
    /// Sets the code.
    pub fn set_code(&mut self, code: u16)
        ensures
            final(self).code == code,
            final(self).message == old(self).message,
            final(self).data == old(self).data,
    {
        self.code = code;
    }

    /// The envelope with another code.
    pub fn with_code(self, code: u16) -> (p: Self)
        ensures
            p.code == code,
            p.message == self.message,
            p.data == self.data,
    {
        Payload { code, message: self.message, data: self.data }
    }

    /// Sets the message.
    pub fn set_message(&mut self, message: String)
        ensures
            final(self).code == old(self).code,
            final(self).message == message,
            final(self).data == old(self).data,
    {
        self.message = message;
    }

    /// The envelope with another message.
    pub fn with_message(self, message: String) -> (p: Self)
        ensures
            p.code == self.code,
            p.message == message,
            p.data == self.data,
    {
        Payload { code: self.code, message, data: self.data }
    }

    /// Sets the data.
    pub fn set_data(&mut self, data: T)
        ensures
            final(self).code == old(self).code,
            final(self).message == old(self).message,
            final(self).data == Some(data),
    {
        self.data = Some(data);
    }

    /// The envelope with data.
    pub fn with_data(self, data: T) -> (p: Self)
        ensures
            p.code == self.code,
            p.message == self.message,
            p.data == Some(data),
    {
        Payload { code: self.code, message: self.message, data: Some(data) }
    }

    /// A successful answer carrying `data`.
    pub fn ok(data: T) -> (p: Self)
        ensures
            p.code == 200,
            p.message@ == Seq::<char>::empty(),
            p.data == Some(data),
    {
        Payload { code: 200, message: String::new(), data: Some(data) }
    }

    /// A failure reported with code 200 and a message.
    pub fn err(error: String) -> (p: Self)
        ensures
            p.code == 200,
            p.message == error,
            p.data is None,
    {
        Payload { code: 200, message: error, data: None }
    }

    /// A bad request (400) with a message.
    pub fn bad_request(error: String) -> (p: Self)
        ensures
            p.code == 400,
            p.message == error,
            p.data is None,
    {
        Payload { code: 400, message: error, data: None }
    }

    /// A refusal for want of permission (403) with a message.
    pub fn no_permission(error: String) -> (p: Self)
        ensures
            p.code == 403,
            p.message == error,
            p.data is None,
    {
        Payload { code: 403, message: error, data: None }
    }

    /// The HTTP status the envelope is sent with.
    pub fn status(&self) -> (s: u16)
        ensures
            s == payload_status(self.code),
    {
        status_for_code(self.code)
    }
}

/// The HTTP status of an envelope's code: 400, 401, 403 and 500 as they
/// are, everything else 200.
pub open spec fn payload_status(code: u16) -> u16 {
    if code == 400 || code == 401 || code == 403 || code == 500 {
        code
    } else {
        200
    }
}

/// The HTTP status of an envelope's code.
pub fn status_for_code(code: u16) -> (s: u16)
    ensures
        s == payload_status(code),
{
    match code {
        400 => 400,
        401 => 401,
        403 => 403,
        500 => 500,
        _ => 200,
    }
}

} // verus!
