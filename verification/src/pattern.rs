//! Regular-expression search, as the `regex` crate performs it.

use vstd::prelude::*;
use crate::application::{archive_stamp_minutes, archive_stamp_seconds, ipch_cache, vc_database};

verus! {

/// `regex::Regex::new` accepts `pattern` (it parses and fits the default
/// size limit).
pub uninterp spec fn regex_compiles(pattern: Seq<char>) -> bool;

/// `regex::Regex::find` of the regex compiled from `pattern` finds a match
/// somewhere in `text`.
pub uninterp spec fn regex_finds(pattern: Seq<char>, text: Seq<char>) -> bool;

/// An ASCII decimal digit, the class `[0-9]`.
pub open spec fn is_ascii_digit(c: char) -> bool {
    '0' <= c <= '9'
}

/// The last `n` characters of `text` (all of it if it is shorter).
pub open spec fn tail(text: Seq<char>, n: int) -> Seq<char> {
    text.subrange(text.len() - n, text.len() as int)
}

/// `text` ends in `-20DDDDDD-DDDD`, one character other than a line feed, and
/// `zip` (each `D` an ASCII digit): the texts in which `archive_stamp_minutes`
/// finds a match.
pub open spec fn ends_like_minutes_stamp(text: Seq<char>) -> bool {
    text.len() >= 18 && {
        let s = tail(text, 18);
        &&& s[0] == '-'
        &&& s[1] == '2'
        &&& s[2] == '0'
        &&& forall|i: int| 3 <= i < 9 ==> is_ascii_digit(#[trigger] s[i])
        &&& s[9] == '-'
        &&& forall|i: int| 10 <= i < 14 ==> is_ascii_digit(#[trigger] s[i])
        &&& s[14] != '\n'
        &&& s[15] == 'z'
        &&& s[16] == 'i'
        &&& s[17] == 'p'
    }
}

/// `text` ends in `-20DDDDDD-DDDDDD`, one character other than a line feed,
/// and `zip`: the texts in which `archive_stamp_seconds` finds a match.
pub open spec fn ends_like_archive_stamp(text: Seq<char>) -> bool {
    text.len() >= 20 && {
        let s = tail(text, 20);
        &&& s[0] == '-'
        &&& s[1] == '2'
        &&& s[2] == '0'
        &&& forall|i: int| 3 <= i < 9 ==> is_ascii_digit(#[trigger] s[i])
        &&& s[9] == '-'
        &&& forall|i: int| 10 <= i < 16 ==> is_ascii_digit(#[trigger] s[i])
        &&& s[16] != '\n'
        &&& s[17] == 'z'
        &&& s[18] == 'i'
        &&& s[19] == 'p'
    }
}

/// `text` ends in a character other than a line feed, `VC`, another such
/// character, and `db`: the texts in which `vc_database` finds a match.
pub open spec fn ends_like_vc_database(text: Seq<char>) -> bool {
    text.len() >= 6 && {
        let s = tail(text, 6);
        &&& s[0] != '\n'
        &&& s[1] == 'V'
        &&& s[2] == 'C'
        &&& s[3] != '\n'
        &&& s[4] == 'd'
        &&& s[5] == 'b'
    }
}

/// `text` ends in a character other than a line feed and `ipch`: the texts in
/// which `ipch_cache` finds a match.
pub open spec fn ends_like_ipch_cache(text: Seq<char>) -> bool {
    text.len() >= 5 && {
        let s = tail(text, 5);
        &&& s[0] != '\n'
        &&& s[1] == 'i'
        &&& s[2] == 'p'
        &&& s[3] == 'c'
        &&& s[4] == 'h'
    }
}

#[verifier::external_type_specification]
#[verifier::external_body]
pub struct ExRegexError(regex::Error);

/// Calls `regex::Regex::new` on `pattern` and, when it succeeds,
/// `regex::Regex::find` on `text`. Claims that compilation succeeds exactly
/// when `regex_compiles` holds of the pattern, and that the search then
/// reports `regex_finds` of the pattern and the text. The two calls stand in
/// one item because the compiled `Regex` between them is opaque to Verus and
/// only its pattern says what it finds.
///
/// For the four exclusion patterns of this tool it further claims what the
/// crate's syntax documentation gives: each is valid and small, so it
/// compiles; each is a fixed-length sequence of literal characters, `[0-9]`
/// (an ASCII digit) and `.` (any character but `\n`) anchored by `$` at the
/// end of the haystack, so it finds a match exactly when the text ends in
/// characters of that shape.
#[verifier::external_body]
fn regex_search(pattern: &str, text: &str) -> (r: Result<bool, regex::Error>)
    ensures
        r is Ok <==> regex_compiles(pattern@),
        r matches Ok(found) ==> found == regex_finds(pattern@, text@),
        pattern@ == archive_stamp_minutes() ==> r is Ok && r->Ok_0 == ends_like_minutes_stamp(text@),
        pattern@ == archive_stamp_seconds() ==> r is Ok && r->Ok_0 == ends_like_archive_stamp(text@),
        pattern@ == vc_database() ==> r is Ok && r->Ok_0 == ends_like_vc_database(text@),
        pattern@ == ipch_cache() ==> r is Ok && r->Ok_0 == ends_like_ipch_cache(text@),
{
    let re = regex::Regex::new(pattern)?;
    Ok(re.find(text).is_some())
}

/// Whether the regular expression `regex` matches somewhere in `text`.
pub fn matches(regex: &str, text: &str) -> (r: bool)
    requires
        regex_compiles(regex@),
    ensures
        r == regex_finds(regex@, text@),
{
    match regex_search(regex, text) {
        Ok(found) => found,
        Err(_) => false,
    }
}

/// Whether `regex` matches somewhere in `text`; `None` when `regex` does not
/// compile.
pub fn try_matches(regex: &str, text: &str) -> (r: Option<bool>)
    ensures
        r == (if regex_compiles(regex@) {
            Some(regex_finds(regex@, text@))
        } else {
            None::<bool>
        }),
        regex@ == archive_stamp_minutes() ==> r == Some(ends_like_minutes_stamp(text@)),
        regex@ == archive_stamp_seconds() ==> r == Some(ends_like_archive_stamp(text@)),
        regex@ == vc_database() ==> r == Some(ends_like_vc_database(text@)),
        regex@ == ipch_cache() ==> r == Some(ends_like_ipch_cache(text@)),
{
    match regex_search(regex, text) {
        Ok(_) => Some(self::matches(regex, text)),
        Err(_) => None,
    }
}

} // verus!
