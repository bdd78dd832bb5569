//! Semantic versions: parsing through the semver crate, precedence
//! verified here.
//!
//! A parsed version is a `major.minor.patch` triple and a pre-release
//! string of dot-separated identifiers. Precedence compares the triple
//! first; on equal triples a pre-release version ranks below the plain
//! one, and two pre-releases compare identifier by identifier: numeric
//! identifiers numerically, alphanumeric ones in ASCII order, numeric
//! below alphanumeric, and a shorter identifier list below its
//! extensions.

use vstd::prelude::*;

verus! {

/// What the semver grammar makes of a version string: the numeric
/// triple and the pre-release part, or nothing for a malformed string.
pub uninterp spec fn semver_parts_of(s: Seq<char>) -> Option<(u64, u64, u64, Seq<char>)>;

/// A parsed semantic version: the fields precedence is decided on.
pub struct Version {
    /// The major component.
    pub major: u64,
    /// The minor component.
    pub minor: u64,
    /// The patch component.
    pub patch: u64,
    /// The pre-release identifiers, dot-separated; empty for a plain
    /// release.
    pub pre: String,
}

/// Relies on semver's Version::parse: the parse of a version string is a
/// function of the string alone; a malformed string is an error, never a
/// panic. Build metadata is parsed for validity and dropped, as
/// precedence ignores it.
#[verifier::external_body]
fn parse_semver(s: &str) -> (r: Result<Version, String>)
    ensures
        r matches Ok(v) ==> semver_parts_of(s@) == Some((v.major, v.minor, v.patch, v.pre@)),
        r is Err ==> semver_parts_of(s@) is None,
{
    match semver::Version::parse(s) {
        Ok(v) => Ok(
            Version {
                major: v.major,
                minor: v.minor,
                patch: v.patch,
                pre: v.pre.as_str().to_string(),
            },
        ),
        Err(e) => Err(format!("{}", e)),
    }
}

/// A decimal digit.
pub open spec fn is_digit(c: char) -> bool {
    '0' <= c && c <= '9'
}

/// A nonempty run of decimal digits.
pub open spec fn all_digits(s: Seq<char>) -> bool {
    s.len() > 0 && forall|i: int| 0 <= i < s.len() ==> is_digit(#[trigger] s[i])
}

/// Strict ASCII order on character sequences.
pub open spec fn lex_lt(a: Seq<char>, b: Seq<char>) -> bool
    decreases a.len(),
{
    if a.len() == 0 {
        b.len() > 0
    } else if b.len() == 0 {
        false
    } else if a[0] != b[0] {
        (a[0] as u32) < (b[0] as u32)
    } else {
        lex_lt(a.subrange(1, a.len() as int), b.subrange(1, b.len() as int))
    }
}

/// Strict order on two pre-release identifiers: numeric identifiers
/// compare numerically (equal to length-then-lex order, as neither has
/// leading zeros), numeric ranks below alphanumeric, and alphanumeric
/// identifiers compare in ASCII order.
pub open spec fn id_lt(a: Seq<char>, b: Seq<char>) -> bool {
    if all_digits(a) && all_digits(b) {
        a.len() < b.len() || (a.len() == b.len() && lex_lt(a, b))
    } else if all_digits(a) {
        true
    } else if all_digits(b) {
        false
    } else {
        lex_lt(a, b)
    }
}

/// The position of the first dot at or after `from`, or the length of
/// `s` if there is none.
pub open spec fn find_dot(s: Seq<char>, from: int) -> int
    decreases s.len() - from,
    when 0 <= from <= s.len()
{
    if from == s.len() {
        s.len() as int
    } else if s[from] == '.' {
        from
    } else {
        find_dot(s, from + 1)
    }
}

/// Where the first dot lies and what stands before it.
pub proof fn lemma_find_dot(s: Seq<char>, from: int)
    requires
        0 <= from <= s.len(),
    ensures
        from <= find_dot(s, from) <= s.len(),
        find_dot(s, from) < s.len() ==> s[find_dot(s, from)] == '.',
        forall|m: int| from <= m < find_dot(s, from) ==> s[m] != '.',
    decreases s.len() - from,
{
    if from < s.len() && s[from] != '.' {
        lemma_find_dot(s, from + 1);
    }
}

/// Strict order on two nonempty pre-release strings, identifier by
/// identifier from a position: on the first differing identifier its
/// order decides; a string that runs out first ranks below.
pub open spec fn pre_lt_from(a: Seq<char>, b: Seq<char>, i: int, j: int) -> bool
    decreases a.len() - i,
    when 0 <= i <= a.len() && 0 <= j <= b.len()
    via pre_lt_from_decreases
{
    let da = find_dot(a, i);
    let db = find_dot(b, j);
    let ia = a.subrange(i, da);
    let ib = b.subrange(j, db);
    if ia == ib {
        if da == a.len() {
            db < b.len()
        } else if db == b.len() {
            false
        } else {
            pre_lt_from(a, b, da + 1, db + 1)
        }
    } else {
        id_lt(ia, ib)
    }
}

#[via_fn]
proof fn pre_lt_from_decreases(a: Seq<char>, b: Seq<char>, i: int, j: int) {
    lemma_find_dot(a, i);
    lemma_find_dot(b, j);
}

/// Strict precedence on pre-release strings: the empty string, a plain
/// release, ranks above everything else.
pub open spec fn pre_lt(a: Seq<char>, b: Seq<char>) -> bool {
    if a.len() == 0 {
        false
    } else if b.len() == 0 {
        true
    } else {
        pre_lt_from(a, b, 0, 0)
    }
}

/// Strict semantic-version precedence over parsed parts.
pub open spec fn parts_lt(a: (u64, u64, u64, Seq<char>), b: (u64, u64, u64, Seq<char>)) -> bool {
    if a.0 != b.0 {
        a.0 < b.0
    } else if a.1 != b.1 {
        a.1 < b.1
    } else if a.2 != b.2 {
        a.2 < b.2
    } else {
        pre_lt(a.3, b.3)
    }
}

/// Strict semantic-version precedence.
pub open spec fn spec_version_lt(a: Version, b: Version) -> bool {
    parts_lt((a.major, a.minor, a.patch, a.pre@), (b.major, b.minor, b.patch, b.pre@))
}

/// Strict ASCII order on two strings, executable form.
fn lex_lt_exec(a: &str, b: &str) -> (r: bool)
    ensures
        r == lex_lt(a@, b@),
    decreases a@.len(),
{
    let a_len = a.unicode_len();
    let b_len = b.unicode_len();
    if a_len == 0 {
        return b_len > 0;
    }
    if b_len == 0 {
        return false;
    }
    let ca = a.get_char(0);
    let cb = b.get_char(0);
    if ca != cb {
        return (ca as u32) < (cb as u32);
    }
    let ra = a.substring_char(1, a_len);
    let rb = b.substring_char(1, b_len);
    lex_lt_exec(ra, rb)
}

/// Whether every character of a nonempty string is a decimal digit.
fn all_digits_exec(s: &str) -> (r: bool)
    ensures
        r == all_digits(s@),
{
    let n = s.unicode_len();
    if n == 0 {
        return false;
    }
    let mut i: usize = 0;
    while i < n
        invariant
            n == s@.len(),
            i <= n,
            forall|j: int| 0 <= j < i ==> is_digit(#[trigger] s@[j]),
        decreases n - i,
    {
        let c = s.get_char(i);
        if !('0' <= c && c <= '9') {
            return false;
        }
        i = i + 1;
    }
    true
}

/// Strict order on two pre-release identifiers, executable form.
fn id_lt_exec(a: &str, b: &str) -> (r: bool)
    ensures
        r == id_lt(a@, b@),
{
    let da = all_digits_exec(a);
    let db = all_digits_exec(b);
    if da && db {
        let a_len = a.unicode_len();
        let b_len = b.unicode_len();
        a_len < b_len || (a_len == b_len && lex_lt_exec(a, b))
    } else if da {
        true
    } else if db {
        false
    } else {
        lex_lt_exec(a, b)
    }
}

/// The position of the first dot at or after `from`, executable form.
fn find_dot_exec(s: &str, from: usize) -> (r: usize)
    requires
        from <= s@.len(),
    ensures
        r == find_dot(s@, from as int),
{
    let len = s.unicode_len();
    let mut j = from;
    while j < len
        invariant
            from <= j <= len,
            len == s@.len(),
            forall|m: int| from <= m < j ==> s@[m] != '.',
        decreases len - j,
    {
        if s.get_char(j) == '.' {
            proof {
                lemma_find_dot_eq(s@, from as int, j as int);
            }
            return j;
        }
        j = j + 1;
    }
    proof {
        lemma_find_dot_eq(s@, from as int, len as int);
    }
    len
}

/// Scanning stops at the first dot.
proof fn lemma_find_dot_eq(s: Seq<char>, from: int, j: int)
    requires
        0 <= from <= j <= s.len(),
        forall|m: int| from <= m < j ==> s[m] != '.',
        j < s.len() ==> s[j] == '.',
    ensures
        find_dot(s, from) == j,
    decreases j - from,
{
    if from < j {
        lemma_find_dot_eq(s, from + 1, j);
    }
}

/// Strict order on two nonempty pre-release strings, executable form.
fn pre_lt_exec(a: &str, b: &str) -> (r: bool)
    requires
        a@.len() > 0,
        b@.len() > 0,
    ensures
        r == pre_lt(a@, b@),
{
    let a_len = a.unicode_len();
    let b_len = b.unicode_len();
    let mut i: usize = 0;
    let mut j: usize = 0;
    loop
        invariant
            a_len == a@.len(),
            b_len == b@.len(),
            i <= a_len,
            j <= b_len,
            pre_lt(a@, b@) == pre_lt_from(a@, b@, i as int, j as int),
        decreases a_len - i,
    {
        let da = find_dot_exec(a, i);
        let db = find_dot_exec(b, j);
        proof {
            lemma_find_dot(a@, i as int);
            lemma_find_dot(b@, j as int);
        }
        let ia = a.substring_char(i, da);
        let ib = b.substring_char(j, db);
        if crate::strutil::str_eq(ia, ib) {
            if da == a_len {
                return db < b_len;
            }
            if db == b_len {
                return false;
            }
            i = da + 1;
            j = db + 1;
        } else {
            return id_lt_exec(ia, ib);
        }
    }
}

impl Version {
    /// Parse a semantic version; a malformed string is a parse error.
    pub fn parse(s: &str) -> (r: Result<Version, crate::errors::OzyError>)
        ensures
            r matches Ok(v) ==> semver_parts_of(s@) == Some((v.major, v.minor, v.patch, v.pre@)),
            r matches Err(e) ==> e is ParseError && semver_parts_of(s@) is None,
            r is Ok <==> semver_parts_of(s@) is Some,
    {
        match parse_semver(s) {
            Ok(v) => Ok(v),
            Err(detail) => Err(crate::errors::OzyError::ParseError(detail)),
        }
    }

    /// Whether this version ranks strictly below the other.
    pub fn lt(&self, other: &Version) -> (r: bool)
        ensures
            r == spec_version_lt(*self, *other),
    {
        if self.major != other.major {
            return self.major < other.major;
        }
        if self.minor != other.minor {
            return self.minor < other.minor;
        }
        if self.patch != other.patch {
            return self.patch < other.patch;
        }
        let self_pre_len = self.pre.as_str().unicode_len();
        let other_pre_len = other.pre.as_str().unicode_len();
        if self_pre_len == 0 {
            return false;
        }
        if other_pre_len == 0 {
            return true;
        }
        pre_lt_exec(self.pre.as_str(), other.pre.as_str())
    }
}

} // verus!
