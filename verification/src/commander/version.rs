//! Checking that the jj that is installed is recent enough.
use vstd::prelude::*;

use crate::strings::{chars_of, owned, string_from_chars, sub_chars};

verus! {

/// The oldest version of jj that is known to work with lazyjj.
/// 0.33.0 changed the template language for evolog/obslog
pub const JJ_MIN_VERSION: &'static str = "0.33.0";

/// How to run lazyjj with a jj it does not accept.
pub const JJ_VERSION_IGNORE_HELP: &'static str = "If you want to continue anyway, use --ignore-jj-version";

/// How one version compares with another.
#[derive(Debug, Clone, Copy, PartialEq, Eq, Structural)]
pub enum VersionOrder {
    Eq,
    Ne,
    Lt,
    Le,
    Ge,
    Gt,
}

/// How `version_compare::compare` orders two version strings, or `None` if
/// one of them is not a version.
pub uninterp spec fn version_order(a: Seq<char>, b: Seq<char>) -> Option<VersionOrder>;

/// Compares two version strings with `version_compare::compare`. Its
/// documentation promises one of `Eq`, `Lt` and `Gt` when both are versions;
/// how it splits and orders versions is not restated here.
#[verifier::external_body]
fn compare_versions(a: &str, b: &str) -> (r: Option<VersionOrder>)
    ensures
        r == version_order(a@, b@),
        r matches Some(o) ==> o == VersionOrder::Eq || o == VersionOrder::Lt || o == VersionOrder::Gt,
{
    match version_compare::compare(a, b) {
        Ok(version_compare::Cmp::Eq) => Some(VersionOrder::Eq),
        Ok(version_compare::Cmp::Ne) => Some(VersionOrder::Ne),
        Ok(version_compare::Cmp::Lt) => Some(VersionOrder::Lt),
        Ok(version_compare::Cmp::Le) => Some(VersionOrder::Le),
        Ok(version_compare::Cmp::Ge) => Some(VersionOrder::Ge),
        Ok(version_compare::Cmp::Gt) => Some(VersionOrder::Gt),
        Err(_) => None,
    }
}

/// Unicode white space, as `char::is_whitespace` has it.
pub open spec fn is_white_space(c: char) -> bool {
    ||| ('\t' <= c && c <= '\r')
    ||| c == ' '
    ||| c == '\u{85}'
    ||| c == '\u{a0}'
    ||| c == '\u{1680}'
    ||| ('\u{2000}' <= c && c <= '\u{200a}')
    ||| c == '\u{2028}'
    ||| c == '\u{2029}'
    ||| c == '\u{202f}'
    ||| c == '\u{205f}'
    ||| c == '\u{3000}'
}

pub(crate) fn white_space(c: char) -> (r: bool)
    ensures
        r == is_white_space(c),
{
    ('\t' <= c && c <= '\r') || c == ' ' || c == '\u{85}' || c == '\u{a0}' || c == '\u{1680}'
        || ('\u{2000}' <= c && c <= '\u{200a}') || c == '\u{2028}' || c == '\u{2029}'
        || c == '\u{202f}' || c == '\u{205f}' || c == '\u{3000}'
}

/// `s` without white space at either end.
pub open spec fn trimmed(s: Seq<char>) -> Seq<char> {
    if forall|i: int| 0 <= i < s.len() ==> is_white_space(s[i]) {
        seq![]
    } else {
        let a = choose|a: int| 0 <= a < s.len() && !is_white_space(s[a]) && forall|i: int| 0 <= i < a ==> is_white_space(s[i]);
        let b = choose|b: int| 0 <= b < s.len() && !is_white_space(s[b]) && forall|i: int| b < i < s.len() ==> is_white_space(s[i]);
        s.subrange(a, b + 1)
    }
}

/// `v` without white space at either end.
pub fn trim_chars(v: &Vec<char>) -> (r: Vec<char>)
    ensures
        r@ == trimmed(v@),
{
    let n = v.len();
    let mut a: usize = 0;
    while a < n && white_space(v[a])
        invariant
            a <= n == v@.len(),
            forall|i: int| 0 <= i < a ==> is_white_space(v@[i]),
        decreases n - a,
    {
        a = a + 1;
    }
    if a == n {
        return Vec::new();
    }
    let mut b: usize = n - 1;
    while white_space(v[b])
        invariant
            a <= b < n == v@.len(),
            !is_white_space(v@[a as int]),
            forall|i: int| b < i < n ==> is_white_space(v@[i]),
        decreases b,
    {
        b = b - 1;
    }
    proof {
        let s = v@;
        let ca = choose|x: int| 0 <= x < s.len() && !is_white_space(s[x]) && forall|i: int| 0 <= i < x ==> is_white_space(s[i]);
        assert(ca == a) by {
            if ca < a { assert(is_white_space(s[ca])); }
            if ca > a { assert(is_white_space(s[a as int])); }
        }
        let cb = choose|x: int| 0 <= x < s.len() && !is_white_space(s[x]) && forall|i: int| x < i < s.len() ==> is_white_space(s[i]);
        assert(cb == b) by {
            if cb < b { assert(is_white_space(s[b as int])); }
            if cb > b { assert(is_white_space(s[cb])); }
        }
    }
    sub_chars(v, a, b + 1)
}

/// The number of bytes that UTF-8 uses for `c`.
pub open spec fn utf8_width(c: char) -> nat {
    if (c as u32) < 0x80 {
        1
    } else if (c as u32) < 0x800 {
        2
    } else if (c as u32) < 0x10000 {
        3
    } else {
        4
    }
}

/// The number of UTF-8 bytes of `s`.
pub open spec fn utf8_len(s: Seq<char>) -> nat
    decreases s.len(),
{
    if s.len() == 0 {
        0
    } else {
        utf8_len(s.drop_last()) + utf8_width(s.last())
    }
}

/// The first three bytes of `s` are whole characters.
pub open spec fn three_bytes_are_chars(s: Seq<char>) -> bool {
    exists|k: int| 0 <= k <= s.len() && utf8_len(s.take(k)) == 3
}

/// Why the installed jj is not accepted.
#[derive(Debug, Clone)]
pub enum JjVersionError {
    /// `jj version` did not print `jj <version>`.
    NotRecognized,
    /// The version could not be compared with the oldest one supported.
    Incomparable(String),
    /// The version is older than the oldest one supported.
    TooOld(String),
}

/// The version that `jj version` printed: what follows `jj `, without white
/// space at either end.
pub open spec fn printed_version(output: Seq<char>) -> Seq<char> {
    trimmed(output.skip(3))
}

/// The output starts with `jj `.
pub open spec fn starts_with_jj(output: Seq<char>) -> bool {
    output.len() >= 3 && output[0] == 'j' && output[1] == 'j' && output[2] == ' '
}

/// Checks the output of `jj version`: it must read `jj <version>`, and the
/// version must not be older than `JJ_MIN_VERSION`.
pub fn check_jj_version_output(output: &str) -> (r: Result<(), JjVersionError>)
    requires
        three_bytes_are_chars(output@),
    ensures
        !starts_with_jj(output@) ==> r matches Err(JjVersionError::NotRecognized),
        starts_with_jj(output@) ==> match version_order(printed_version(output@), JJ_MIN_VERSION@) {
            None => r matches Err(JjVersionError::Incomparable(v)) && v@ == printed_version(output@),
            Some(VersionOrder::Lt) => r matches Err(JjVersionError::TooOld(v)) && v@ == printed_version(output@),
            Some(_) => r is Ok,
        },
{
    let v = chars_of(output);
    if !(v.len() >= 3 && v[0] == 'j' && v[1] == 'j' && v[2] == ' ') {
        return Err(JjVersionError::NotRecognized);
    }
    let rest = sub_chars(&v, 3, v.len());
    assert(rest@ =~= v@.skip(3));
    let found = string_from_chars(trim_chars(&rest).as_slice());
    match compare_versions(found.as_str(), JJ_MIN_VERSION) {
        None => Err(JjVersionError::Incomparable(found)),
        Some(VersionOrder::Lt) => Err(JjVersionError::TooOld(found)),
        Some(_) => Ok(()),
    }
}

impl JjVersionError {
    /// The message shown for this error.
    pub fn message(&self) -> (r: String)
        ensures
            r@ == match self {
                JjVersionError::NotRecognized => "jj version string was not recognized"@,
                JjVersionError::Incomparable(v) => "Unable to compare version '"@ + v@ + "' to '"@ + JJ_MIN_VERSION@
                    + "'\n"@ + JJ_VERSION_IGNORE_HELP@,
                JjVersionError::TooOld(v) => "jj version is too old ("@ + v@ + "). Must be at least "@
                    + JJ_MIN_VERSION@ + "\n"@ + JJ_VERSION_IGNORE_HELP@,
            },
    {
        match self {
            JjVersionError::NotRecognized => owned("jj version string was not recognized"),
            JjVersionError::Incomparable(v) => {
                let mut s = owned("Unable to compare version '");
                s.append(v.as_str());
                s.append("' to '");
                s.append(JJ_MIN_VERSION);
                s.append("'\n");
                s.append(JJ_VERSION_IGNORE_HELP);
                s
            },
            JjVersionError::TooOld(v) => {
                let mut s = owned("jj version is too old (");
                s.append(v.as_str());
                s.append("). Must be at least ");
                s.append(JJ_MIN_VERSION);
                s.append("\n");
                s.append(JJ_VERSION_IGNORE_HELP);
                s
            },
        }
    }
}

} // verus!
