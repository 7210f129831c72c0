//! Server configuration and the development defaults filled into it.
use vstd::prelude::*;

use crate::text::{hex_lower, hex_lower_spec, strip_prefix_text};

verus! {

/// Complete server configuration.
#[derive(Debug)]
pub struct Configuration {
    pub server: ServerConfig,
    pub database: DatabaseConfig,
    pub jwt: JwtConfig,
    pub oauth: OAuthConfig,
    pub llm: LlmConfig,
}

/// Listening address.
#[derive(Debug)]
pub struct ServerConfig {
    pub host: String,
    pub port: u16,
}

/// Database connection.
#[derive(Debug)]
pub struct DatabaseConfig {
    pub url: String,
}

/// Token signing and lifetimes.
#[derive(Debug)]
pub struct JwtConfig {
    pub access_token_ttl_minutes: u64,
    pub refresh_token_ttl_days: u64,
    pub rsa_private_key_pem: String,
    pub rsa_public_key_pem: String,
}

/// Registered OAuth clients.
#[derive(Debug)]
pub struct OAuthConfig {
    pub clients: Vec<OAuthClientConfig>,
}

/// One registered OAuth client.
#[derive(Debug)]
pub struct OAuthClientConfig {
    pub client_id: String,
    pub client_secret: String,
    pub redirect_uris: Vec<String>,
}

/// Language-model backend.
#[derive(Debug)]
pub struct LlmConfig {
    pub backend: String,
    pub api_key: Option<String>,
    pub model: Option<String>,
    pub endpoint: Option<String>,
}

/// What `ensure_defaults` filled in and what remains for the caller to act
/// on.
#[derive(Debug)]
pub struct DefaultsReport {
    /// A random signing secret was generated because none was configured.
    pub generated_jwt_secret: bool,
    /// The directory of the SQLite database file, which must exist.
    pub sqlite_data_dir: Option<String>,
    /// No language-model key is configured; the assistant runs degraded.
    pub llm_key_missing: bool,
}

/// A plain file name: not empty, without a separator (`/`, `\`) or a
/// drive colon, and neither `.` nor `..`.
pub open spec fn is_plain_name(s: Seq<char>) -> bool {
    &&& s.len() > 0
    &&& forall|i: int| 0 <= i < s.len() ==> s[i] != '/' && s[i] != '\\' && s[i] != ':'
    &&& s != seq!['.']
    &&& s != seq!['.', '.']
}

/// A directory text with nothing to normalise: not empty, segments
/// separated by single `/`, no `.` segment after the first, no trailing
/// separator, and no `\` or drive colon.
pub open spec fn is_plain_dir(d: Seq<char>) -> bool {
    &&& d.len() > 0
    &&& d.last() != '/'
    &&& forall|i: int| 0 <= i < d.len() ==> d[i] != '\\' && d[i] != ':'
    &&& forall|i: int|
        0 <= i < d.len() - 1 && #[trigger] d[i] == '/' ==> d[i + 1] != '/' && !(d[i + 1] == '.'
            && (i + 2 == d.len() || d[i + 2] == '/'))
}

/// `path` is the directory `dir`, a `/`, and a plain file name.
pub open spec fn is_dir_and_file(path: Seq<char>, dir: Seq<char>) -> bool {
    exists|f: Seq<char>| is_plain_dir(dir) && #[trigger] is_plain_name(f) && path == dir + seq!['/'] + f
}

/// `path` is some plain directory followed by a plain file name.
pub open spec fn has_dir_and_file(path: Seq<char>) -> bool {
    exists|dir: Seq<char>| #[trigger] is_dir_and_file(path, dir)
}

/// The directory part of a path.
///
/// Calls `std::path::Path::parent`. The answer depends on the platform's
/// path syntax, so it is not named; the contract states what the
/// documentation gives for every platform: an empty path has no parent, and
/// a parent is the path without its final component, so it begins the path;
/// in particular a plain directory followed by `/` and a plain file name has
/// that directory as its parent, and a relative path of one plain component
/// has the empty path as its parent.
#[verifier::external_body]
fn path_parent(path: &str) -> (r: Option<String>)
    ensures
        path@.len() == 0 ==> r is None,
        r matches Some(p) ==> p@.is_prefix_of(path@),
        is_plain_name(path@) ==> r is Some,
        r matches Some(p) ==> (is_plain_name(path@) ==> p@.len() == 0),
        has_dir_and_file(path@) ==> r is Some,
        r matches Some(p) ==> (has_dir_and_file(path@) ==> is_dir_and_file(path@, p@)),
{
    match std::path::Path::new(path).parent() {
        Some(p) => Some(p.to_string_lossy().into_owned()),
        None => None,
    }
}

/// 32 random bytes from the thread-local generator.
///
/// Calls `rand::random::<[u8; 32]>`. The bytes are random; the contract
/// states only their number.
#[verifier::external_body]
fn random_secret_bytes() -> (r: Vec<u8>)
    ensures
        r@.len() == 32,
{
    rand::random::<[u8; 32]>().to_vec()
}

/// The part of `s` before its first `?` (all of `s` when it has none).
pub open spec fn before_query(s: Seq<char>) -> Seq<char> {
    if exists|i: int| 0 <= i < s.len() && s[i] == '?' {
        s.subrange(
            0,
            choose|i: int|
                0 <= i < s.len() && s[i] == '?' && forall|j: int| 0 <= j < i ==> s[j] != '?',
        )
    } else {
        s
    }
}

fn before_query_exec(s: &str) -> (r: String)
    ensures
        r@ == before_query(s@),
{
    let n: usize = s.unicode_len();
    let mut i: usize = 0;
    while i < n
        invariant
            n == s@.len(),
            i <= n,
            forall|j: int| 0 <= j < i ==> s@[j] != '?',
        decreases n - i,
    {
        if s.get_char(i) == '?' {
            proof {
                let k = choose|k: int|
                    0 <= k < s@.len() && s@[k] == '?' && forall|j: int| 0 <= j < k ==> s@[j] != '?';
                if k < i {
                    assert(s@[k] != '?');
                }
                if k > i {
                    assert(s@[i as int] != '?');
                }
                assert(k == i);
            }
            return s.substring_char(0, i).to_owned();
        }
        i = i + 1;
    }
    s.to_owned()
}

impl Configuration {
    /// The directory holding the SQLite file of a `sqlite://<path>?<options>`
    /// database URL: `None` for other URLs and for files in the current
    /// directory. When the path is a plain directory, `/` and a plain file
    /// name (as in `sqlite://./data/app.db?mode=rwc`), it is that directory;
    /// when it is a plain file name alone (`sqlite://app.db`), there is none.
    pub fn extract_sqlite_data_dir(&self) -> (r: Option<String>)
        ensures
            !"sqlite://"@.is_prefix_of(self.database.url@) ==> r is None,
            is_plain_name(before_query(self.database.url@.skip(9))) ==> r is None,
            "sqlite://"@.is_prefix_of(self.database.url@) && has_dir_and_file(
                before_query(self.database.url@.skip(9)),
            ) ==> (r matches Some(d) && is_dir_and_file(
                before_query(self.database.url@.skip(9)),
                d@,
            )),
            r matches Some(d) ==> d@.len() > 0 && d@.is_prefix_of(
                before_query(self.database.url@.skip(9)),
            ),
    {
        proof {
            reveal_strlit("sqlite://");
        }
        let path_part: String = match strip_prefix_text(self.database.url.as_str(), "sqlite://") {
            Some(p) => p,
            None => {
                return None;
            },
        };
        let path_part: String = before_query_exec(path_part.as_str());
        match path_parent(path_part.as_str()) {
            Some(p) => {
                if p.as_str().is_empty() {
                    None
                } else {
                    Some(p)
                }
            },
            None => None,
        }
    }

    /// Fills empty settings with development defaults: a random 32-byte
    /// signing secret (64 lower-case hex digits) when none is set, and the
    /// public key set to the private one when it is empty. The report says
    /// what was generated, which SQLite directory must exist, and whether the
    /// assistant lacks a key.
    pub fn ensure_defaults(&mut self) -> (r: DefaultsReport)
        ensures
            r.generated_jwt_secret == (old(self).jwt.rsa_private_key_pem@.len() == 0),
            old(self).jwt.rsa_private_key_pem@.len() == 0 ==> exists|b: Seq<u8>|
                b.len() == 32 && final(self).jwt.rsa_private_key_pem@ == hex_lower_spec(b),
            old(self).jwt.rsa_private_key_pem@.len() > 0 ==> final(self).jwt.rsa_private_key_pem
                == old(self).jwt.rsa_private_key_pem,
            old(self).jwt.rsa_public_key_pem@.len() == 0 ==> final(self).jwt.rsa_public_key_pem@
                == final(self).jwt.rsa_private_key_pem@,
            old(self).jwt.rsa_public_key_pem@.len() > 0 ==> final(self).jwt.rsa_public_key_pem
                == old(self).jwt.rsa_public_key_pem,
            final(self).jwt.access_token_ttl_minutes == old(self).jwt.access_token_ttl_minutes,
            final(self).jwt.refresh_token_ttl_days == old(self).jwt.refresh_token_ttl_days,
            final(self).server == old(self).server,
            final(self).database == old(self).database,
            final(self).oauth == old(self).oauth,
            final(self).llm == old(self).llm,
            !"sqlite://"@.is_prefix_of(old(self).database.url@) ==> r.sqlite_data_dir is None,
            r.sqlite_data_dir matches Some(d) ==> d@.len() > 0 && d@.is_prefix_of(
                before_query(old(self).database.url@.skip(9)),
            ),
            "sqlite://"@.is_prefix_of(old(self).database.url@) && has_dir_and_file(
                before_query(old(self).database.url@.skip(9)),
            ) ==> (r.sqlite_data_dir matches Some(d) && is_dir_and_file(
                before_query(old(self).database.url@.skip(9)),
                d@,
            )),
            is_plain_name(before_query(old(self).database.url@.skip(9))) ==> r.sqlite_data_dir is None,
            r.llm_key_missing == (match old(self).llm.api_key {
                Some(k) => k@.len() == 0,
                None => true,
            }),
    {
        let mut generated: bool = false;
        if self.jwt.rsa_private_key_pem.as_str().is_empty() {
            let bytes: Vec<u8> = random_secret_bytes();
            self.jwt.rsa_private_key_pem = hex_lower(bytes.as_slice());
            generated = true;
        }
        if self.jwt.rsa_public_key_pem.as_str().is_empty() {
            self.jwt.rsa_public_key_pem = self.jwt.rsa_private_key_pem.clone();
        }
        let dir: Option<String> = self.extract_sqlite_data_dir();
        let key_missing: bool = match &self.llm.api_key {
            Some(k) => k.as_str().is_empty(),
            None => true,
        };
        DefaultsReport { generated_jwt_secret: generated, sqlite_data_dir: dir, llm_key_missing: key_missing }
    }
}

} // verus!
