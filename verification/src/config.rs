//! The server's settings, their defaults, and the secret tokens are signed
//! with.
//!
//! Reading settings files and the environment is the application's part;
//! this module holds the settings, what they default to, and the choices
//! made from what was read.

use vstd::prelude::*;

use crate::store::opt_chars;
use crate::text::{chars_of, owned, parse_u64, parsed_u64, trim, trimmed};

verus! {

/// All settings of the server.
pub struct AppConfig {
    pub server: ServerConfig,
    pub storage: StorageConfig,
    pub jwt: JwtConfig,
    pub database: DatabaseConfig,
}

/// Where the server listens and whom it answers.
pub struct ServerConfig {
    pub port: u16,
    pub host: String,
    /// Allowed CORS origins: `*`, or a comma-separated list.
    pub cors_origin: String,
}

/// Where files are stored.
pub struct StorageConfig {
    /// The storage volume directory.
    pub volume: String,
}

/// How tokens are signed.
pub struct JwtConfig {
    /// The signing secret; one is generated when none is set.
    pub secret: Option<String>,
    /// How long a token lives, in hours.
    pub expiry_hours: i64,
}

/// Which database is used.
pub struct DatabaseConfig {
    pub url: String,
}

/// The port listened on by default.
pub fn default_port() -> (p: u16)
    ensures
        p == 2300,
{
    2300
}

/// The address listened on by default: every interface.
pub fn default_host() -> (h: String)
    ensures
        h@ == "0.0.0.0"@,
{
    owned("0.0.0.0")
}

/// The CORS origins allowed by default: any.
pub fn default_cors() -> (c: String)
    ensures
        c@ == "*"@,
{
    owned("*")
}

/// The storage volume used by default.
pub fn default_volume() -> (v: String)
    ensures
        v@ == "./Homedrive"@,
{
    owned("./Homedrive")
}

/// How long a token lives by default: seven days, in hours.
pub fn default_jwt_expiry() -> (h: i64)
    ensures
        h == 168,
{
    24 * 7
}

/// The database used by default: a SQLite file, created when missing.
pub fn default_database_url() -> (u: String)
    ensures
        u@ == "sqlite:homedrive.db?mode=rwc"@,
{
    owned("sqlite:homedrive.db?mode=rwc")
}

// ------------------------------------------------------ built-in defaults

#[verifier::external_type_specification]
#[verifier::external_body]
pub struct ExFileFormat(config::FileFormat);

/// `config::FileFormat::Toml`.
#[verifier::external_body]
fn toml_format() -> config::FileFormat {
    config::FileFormat::Toml
}

/// The settings read before any settings file or the environment: every
/// default, as TOML.
pub open spec fn default_config_text() -> Seq<char> {
    "[server]\nport = 2300\nhost = \"0.0.0.0\"\ncors_origin = \"*\"\n\n[storage]\nvolume = \"./Homedrive\"\n\n[jwt]\nexpiry_hours = 168\n\n[database]\nurl = \"sqlite:homedrive.db?mode=rwc\"\n"@
}

/// A settings source held in memory: its text and the format it is in.
pub struct MemorySource<F> {
    pub content: String,
    pub format: F,
}

impl MemorySource<config::FileFormat> {
    /// The built-in defaults, in TOML.
    pub fn new() -> (s: Self)
        ensures
            s.content@ == default_config_text(),
    {
        MemorySource {
            content: owned(
                "[server]\nport = 2300\nhost = \"0.0.0.0\"\ncors_origin = \"*\"\n\n[storage]\nvolume = \"./Homedrive\"\n\n[jwt]\nexpiry_hours = 168\n\n[database]\nurl = \"sqlite:homedrive.db?mode=rwc\"\n",
            ),
            format: toml_format(),
        }
    }
}

// ------------------------------------------------------------ the secret

/// The character of a six-bit value in the standard base64 alphabet
/// (`A`-`Z`, `a`-`z`, `0`-`9`, `+`, `/`).
pub open spec fn base64_digit(v: int) -> char {
    if v < 26 {
        ('A' as int + v) as char
    } else if v < 52 {
        ('a' as int + (v - 26)) as char
    } else if v < 62 {
        ('0' as int + (v - 52)) as char
    } else if v == 62 {
        '+'
    } else {
        '/'
    }
}

/// Padded standard base64 (RFC 4648): every three bytes become four
/// characters of six bits each; a last group of one or two bytes becomes
/// two or three characters followed by `=` padding to four.
pub open spec fn base64_standard_of(bytes: Seq<u8>) -> Seq<char>
    decreases bytes.len(),
{
    if bytes.len() == 0 {
        seq![]
    } else if bytes.len() == 1 {
        let a = bytes[0] as int;
        seq![base64_digit(a / 4), base64_digit((a % 4) * 16), '=', '=']
    } else if bytes.len() == 2 {
        let a = bytes[0] as int;
        let b = bytes[1] as int;
        seq![base64_digit(a / 4), base64_digit((a % 4) * 16 + b / 16), base64_digit((b % 16) * 4), '=']
    } else {
        let a = bytes[0] as int;
        let b = bytes[1] as int;
        let c = bytes[2] as int;
        seq![
            base64_digit(a / 4),
            base64_digit((a % 4) * 16 + b / 16),
            base64_digit((b % 16) * 4 + c / 64),
            base64_digit(c % 64),
        ] + base64_standard_of(bytes.skip(3))
    }
}

/// Base64 text has four characters for every started group of three bytes.
proof fn base64_length(bytes: Seq<u8>)
    ensures
        base64_standard_of(bytes).len() == 4 * ((bytes.len() + 2) / 3),
    decreases bytes.len(),
{
    if bytes.len() >= 3 {
        base64_length(bytes.skip(3));
    }
}

/// `base64::engine::general_purpose::STANDARD.encode(bytes)`: padded
/// standard base64 of `bytes`.
#[verifier::external_body]
fn base64_standard(bytes: &[u8]) -> (s: String)
    requires
        bytes@.len() <= 3 * 1024 * 1024,
    ensures
        s@ == base64_standard_of(bytes@),
{
    base64::Engine::encode(&base64::engine::general_purpose::STANDARD, bytes)
}

/// `rand::thread_rng().fill_bytes` on 32 bytes: random, so only their
/// number is known.
#[verifier::external_body]
fn random_key() -> (k: Vec<u8>)
    ensures
        k@.len() == 32,
{
    let mut key = [0u8; 32];
    rand::RngCore::fill_bytes(&mut rand::thread_rng(), &mut key);
    key.to_vec()
}

/// A generated secret: 32 random bytes in padded standard base64.
pub open spec fn generated_secret(s: Seq<char>) -> bool {
    exists|k: Seq<u8>| k.len() == 32 && s == #[trigger] base64_standard_of(k)
}

/// A new random secret: 32 random bytes, 44 characters of base64.
pub fn generate_secret() -> (s: String)
    ensures
        generated_secret(s@),
        s@.len() == 44,
{
    let key = random_key();
    let s = base64_standard(key.as_slice());
    proof {
        base64_length(key@);
    }
    assert(base64_standard_of(key@) == s@);
    s
}

impl AppConfig {
    /// The token secret: the configured one, or a newly generated one.
    pub fn jwt_secret(&self) -> (s: String)
        ensures
            (match self.jwt.secret {
                Some(c) => s@ == c@,
                None => generated_secret(s@) && s@.len() == 44,
            }),
    {
        match &self.jwt.secret {
            Some(c) => c.clone(),
            None => generate_secret(),
        }
    }
}

/// The secret chosen at start-up from the `JWT_SECRET` environment variable
/// and the secret file's contents (`None` where unset or unreadable): a
/// non-empty variable first, then a non-empty file trimmed; `None` when
/// a new secret must be generated and saved.
pub open spec fn chosen_secret(env: Option<Seq<char>>, file: Option<Seq<char>>) -> Option<
    Seq<char>,
> {
    match env {
        Some(e) if e.len() > 0 => Some(e),
        _ => match file {
            Some(f) if f.len() > 0 => Some(trimmed(f)),
            _ => None,
        },
    }
}

/// The start-up secret from the environment variable and the secret file.
pub fn select_jwt_secret(env_secret: Option<String>, file_secret: Option<String>) -> (r: Option<
    String,
>)
    ensures
        opt_chars(r) == chosen_secret(opt_chars(env_secret), opt_chars(file_secret)),
{
    if let Some(e) = env_secret {
        if !e.as_str().is_empty() {
            return Some(e);
        }
    }
    match file_secret {
        Some(f) => {
            if !f.as_str().is_empty() {
                Some(trim(f.as_str()))
            } else {
                None
            }
        },
        None => None,
    }
}

/// The port named by the `HOMEDRIVE_PORT` variable, read as
/// `str::parse::<u16>` does.
pub fn port_from_text(text: &str) -> (p: Option<u16>)
    ensures
        p == (match parsed_u64(text@) {
            Some(v) => if v <= 65535 {
                Some(v as u16)
            } else {
                None
            },
            None => None::<u16>,
        }),
{
    let v = chars_of(text);
    assert(v@.subrange(0, v@.len() as int) =~= v@);
    match parse_u64(&v, 0, v.len()) {
        Some(n) => {
            if n <= 65535 {
                Some(n as u16)
            } else {
                None
            }
        },
        None => None,
    }
}

} // verus!
