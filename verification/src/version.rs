//! Business version numbers: semantic versions parsed and rendered by the
//! `semver` crate, and the minor bump applied when a new version is
//! published.
use vstd::prelude::*;

use crate::business_error::DomainError;

verus! {

/// A parsed semantic version, with its pre-release and build texts.
#[derive(Debug)]
pub struct Version {
    pub major: u64,
    pub minor: u64,
    pub patch: u64,
    pub pre: String,
    pub build: String,
}

/// The error type of the `semver` crate.
#[verifier::external_type_specification]
#[verifier::external_body]
pub struct ExSemverError(semver::Error);

/// What `semver::Version::parse` makes of `text`: major, minor, patch,
/// pre-release text and build text, or, when it refuses the text, the
/// message of its error.
pub uninterp spec fn semver_parse_spec(text: Seq<char>) -> Result<
    (u64, u64, u64, Seq<char>, Seq<char>),
    Seq<char>,
>;

/// Decimal digit for a value below 10.
pub open spec fn digit_char(d: nat) -> char {
    (('0' as u8) + (d as u8)) as char
}

/// Decimal text of `n` without leading zeros (as `u64`'s `Display` writes it).
pub open spec fn decimal_text(n: nat) -> Seq<char>
    decreases n,
{
    if n < 10 {
        seq![digit_char(n)]
    } else {
        decimal_text(n / 10) + seq![digit_char(n % 10)]
    }
}

/// The text `major.minor.patch`.
pub open spec fn version_text(major: u64, minor: u64, patch: u64) -> Seq<char> {
    decimal_text(major as nat) + seq!['.'] + decimal_text(minor as nat) + seq!['.'] + decimal_text(
        patch as nat,
    )
}

/// `text` is a plain `major.minor.patch` version written without leading
/// zeros.
pub open spec fn is_plain_version(text: Seq<char>) -> bool {
    exists|a: u64, b: u64, c: u64| text == #[trigger] version_text(a, b, c)
}

/// Decimal text is never empty and holds digits only.
proof fn lemma_decimal_text_digits(n: nat)
    ensures
        decimal_text(n).len() >= 1,
        n < 10 <==> decimal_text(n).len() == 1,
        forall|i: int| 0 <= i < decimal_text(n).len() ==> '0' <= #[trigger] decimal_text(n)[i] <= '9',
    decreases n,
{
    if n >= 10 {
        lemma_decimal_text_digits(n / 10);
        let p = decimal_text(n / 10);
        assert forall|i: int| 0 <= i < decimal_text(n).len() implies '0' <= #[trigger] decimal_text(
            n,
        )[i] <= '9' by {
            if i < p.len() {
                assert(decimal_text(n)[i] == p[i]);
            }
        }
    }
}

/// Distinct numbers have distinct decimal texts.
proof fn lemma_decimal_text_injective(m: nat, n: nat)
    requires
        decimal_text(m) == decimal_text(n),
    ensures
        m == n,
    decreases m,
{
    lemma_decimal_text_digits(m);
    lemma_decimal_text_digits(n);
    if m >= 10 && n >= 10 {
        let dm = decimal_text(m);
        let dn = decimal_text(n);
        assert(dm.last() == digit_char(m % 10));
        assert(dn.last() == digit_char(n % 10));
        assert(dm.drop_last() =~= decimal_text(m / 10));
        assert(dn.drop_last() =~= decimal_text(n / 10));
        lemma_decimal_text_injective(m / 10, n / 10);
        lemma_digit_char_injective(m % 10, n % 10);
    } else if m < 10 && n < 10 {
        assert(decimal_text(m)[0] == digit_char(m));
        assert(decimal_text(n)[0] == digit_char(n));
        lemma_digit_char_injective(m, n);
    }
}

/// The digit of a value below ten determines the value.
proof fn lemma_digit_char_injective(d: nat, e: nat)
    requires
        d < 10,
        e < 10,
        digit_char(d) == digit_char(e),
    ensures
        d == e,
{
}

/// Text without a dot, a dot, and a rest: the first part is where the first
/// dot is, so the split is unique.
proof fn lemma_split_at_dot(x1: Seq<char>, y1: Seq<char>, x2: Seq<char>, y2: Seq<char>)
    requires
        x1 + seq!['.'] + y1 == x2 + seq!['.'] + y2,
        forall|i: int| 0 <= i < x1.len() ==> #[trigger] x1[i] != '.',
        forall|i: int| 0 <= i < x2.len() ==> #[trigger] x2[i] != '.',
    ensures
        x1 == x2,
        y1 == y2,
{
    let t = x1 + seq!['.'] + y1;
    if x1.len() < x2.len() {
        assert(t[x1.len() as int] == '.');
        assert((x2 + seq!['.'] + y2)[x1.len() as int] == x2[x1.len() as int]);
    } else if x2.len() < x1.len() {
        assert((x2 + seq!['.'] + y2)[x2.len() as int] == '.');
        assert(t[x2.len() as int] == x1[x2.len() as int]);
    }
    assert(x1 =~= t.subrange(0, x1.len() as int));
    assert(x2 =~= (x2 + seq!['.'] + y2).subrange(0, x2.len() as int));
    assert(y1 =~= t.subrange(x1.len() as int + 1, t.len() as int));
    assert(y2 =~= (x2 + seq!['.'] + y2).subrange(x2.len() as int + 1, t.len() as int));
}

/// Distinct versions have distinct `major.minor.patch` texts.
pub proof fn lemma_version_text_injective(a: u64, b: u64, c: u64, x: u64, y: u64, z: u64)
    requires
        version_text(a, b, c) == version_text(x, y, z),
    ensures
        a == x,
        b == y,
        c == z,
{
    lemma_decimal_text_digits(a as nat);
    lemma_decimal_text_digits(b as nat);
    lemma_decimal_text_digits(x as nat);
    lemma_decimal_text_digits(y as nat);
    let da = decimal_text(a as nat);
    let dx = decimal_text(x as nat);
    let db = decimal_text(b as nat);
    let dy = decimal_text(y as nat);
    let dc = decimal_text(c as nat);
    let dz = decimal_text(z as nat);
    assert forall|i: int| 0 <= i < da.len() implies #[trigger] da[i] != '.' by {
        assert('0' <= da[i] <= '9');
    }
    assert forall|i: int| 0 <= i < dx.len() implies #[trigger] dx[i] != '.' by {
        assert('0' <= dx[i] <= '9');
    }
    assert forall|i: int| 0 <= i < db.len() implies #[trigger] db[i] != '.' by {
        assert('0' <= db[i] <= '9');
    }
    assert forall|i: int| 0 <= i < dy.len() implies #[trigger] dy[i] != '.' by {
        assert('0' <= dy[i] <= '9');
    }
    assert(version_text(a, b, c) =~= da + seq!['.'] + (db + seq!['.'] + dc));
    assert(version_text(x, y, z) =~= dx + seq!['.'] + (dy + seq!['.'] + dz));
    lemma_split_at_dot(da, db + seq!['.'] + dc, dx, dy + seq!['.'] + dz);
    lemma_split_at_dot(db, dc, dy, dz);
    lemma_decimal_text_injective(a as nat, x as nat);
    lemma_decimal_text_injective(b as nat, y as nat);
    lemma_decimal_text_injective(c as nat, z as nat);
}

/// The view of a parsed version as the tuple `semver_parse_spec` speaks of.
pub open spec fn version_parts(v: Version) -> (u64, u64, u64, Seq<char>, Seq<char>) {
    (v.major, v.minor, v.patch, v.pre@, v.build@)
}

/// Parses `text` as a semantic version.
///
/// Calls `semver::Version::parse`; the parse, and the message of its error
/// on a refused text, are named by `semver_parse_spec`. The contract adds
/// what the parser's source shows for plain `major.minor.patch` texts written
/// without leading zeros: they parse to those three numbers with empty
/// pre-release and build texts.
#[verifier::external_body]
fn semver_parse(text: &str) -> (r: Result<Version, String>)
    ensures
        r is Ok <==> semver_parse_spec(text@) is Ok,
        r matches Ok(v) ==> semver_parse_spec(text@)->Ok_0 == version_parts(v),
        r matches Err(m) ==> semver_parse_spec(text@)->Err_0 == m@,
        is_plain_version(text@) ==> r is Ok,
        r matches Ok(v) ==> (is_plain_version(text@) ==> version_text(v.major, v.minor, v.patch)
            == text@ && v.pre@.len() == 0 && v.build@.len() == 0),
{
    match semver::Version::parse(text) {
        Ok(v) => Ok(
            Version {
                major: v.major,
                minor: v.minor,
                patch: v.patch,
                pre: v.pre.as_str().to_string(),
                build: v.build.as_str().to_string(),
            },
        ),
        Err(e) => Err(e.to_string()),
    }
}

/// `e` is the semver error for `text`: its message is the one
/// `semver_parse_spec` names.
pub open spec fn is_semver_refusal(e: DomainError, text: Seq<char>) -> bool {
    e matches DomainError::Semver(m) && semver_parse_spec(text) == Err::<
        (u64, u64, u64, Seq<char>, Seq<char>),
        Seq<char>,
    >(m@)
}

/// The text of the version `major.minor.patch` without pre-release or build.
///
/// Calls `semver::Version::new` and `to_string`; its `Display` writes the
/// three numbers in decimal separated by dots, and nothing more when the
/// pre-release and build parts are empty.
#[verifier::external_body]
fn render_version(major: u64, minor: u64, patch: u64) -> (r: String)
    ensures
        r@ == version_text(major, minor, patch),
{
    semver::Version::new(major, minor, patch).to_string()
}

/// The message of a `semver` error.
///
/// Calls the error's `to_string`. The error is opaque here, so nothing is
/// stated about the text.
#[verifier::external_body]
fn semver_error_message(e: &semver::Error) -> (r: String) {
    e.to_string()
}

impl DomainError {
    /// The domain error for a refused version text.
    pub fn from_semver(e: semver::Error) -> (r: DomainError)
        ensures
            r is Semver,
    {
        DomainError::Semver(semver_error_message(&e))
    }
}

/// Parses a version text. A plain `major.minor.patch` text (as
/// `bump_minor` writes) reads back as exactly those numbers.
pub fn parse(s: &str) -> (r: Result<Version, DomainError>)
    ensures
        r is Ok <==> semver_parse_spec(s@) is Ok,
        r matches Ok(v) ==> semver_parse_spec(s@) == Ok::<
            (u64, u64, u64, Seq<char>, Seq<char>),
            Seq<char>,
        >(version_parts(v)),
        forall|a: u64, b: u64, c: u64|
            s@ == #[trigger] version_text(a, b, c) ==> (r matches Ok(v) && v.major == a && v.minor
                == b && v.patch == c && v.pre@.len() == 0 && v.build@.len() == 0),
        r matches Err(e) ==> is_semver_refusal(e, s@),
{
    match semver_parse(s) {
        Ok(v) => {
            assert forall|a: u64, b: u64, c: u64| s@ == #[trigger] version_text(a, b, c) implies v.major
                == a && v.minor == b && v.patch == c by {
                lemma_version_text_injective(v.major, v.minor, v.patch, a, b, c);
            }
            Ok(v)
        },
        Err(m) => Err(DomainError::Semver(m)),
    }
}

/// The minor bump can be applied to `current` without overflowing.
pub open spec fn minor_bump_fits(current: Seq<char>) -> bool {
    semver_parse_spec(current) matches Ok(p) ==> p.1 < u64::MAX
}

/// The next minor version after `current`: `major.(minor + 1).patch`, with
/// any pre-release or build text dropped. A text that is not a semantic
/// version is refused.
pub fn bump_minor(current: &str) -> (r: Result<String, DomainError>)
    requires
        minor_bump_fits(current@),
    ensures
        r is Ok <==> semver_parse_spec(current@) is Ok,
        r matches Ok(t) ==> (semver_parse_spec(current@) matches Ok(p) && t@ == version_text(
            p.0,
            (p.1 + 1) as u64,
            p.2,
        )),
        r matches Err(e) ==> is_semver_refusal(e, current@),
{
    let v: Version = match semver_parse(current) {
        Ok(v) => v,
        Err(m) => {
            return Err(DomainError::Semver(m));
        },
    };
    Ok(render_version(v.major, v.minor + 1, v.patch))
}

/// The minor bump of `current`, or `None` when the minor number is already
/// the largest a version can hold.
pub fn checked_bump_minor(current: &str) -> (r: Option<Result<String, DomainError>>)
    ensures
        r is None <==> !minor_bump_fits(current@),
        r matches Some(Ok(t)) ==> (semver_parse_spec(current@) matches Ok(p) && t@
            == version_text(p.0, (p.1 + 1) as u64, p.2)),
        r matches Some(Err(e)) ==> is_semver_refusal(e, current@),
{
    match semver_parse(current) {
        Ok(v) => {
            if v.minor == u64::MAX {
                return None;
            }
            Some(bump_minor(current))
        },
        Err(m) => Some(Err(DomainError::Semver(m))),
    }
}

} // verus!
