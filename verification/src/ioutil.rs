//! Reading a line of console input and a yes/no answer.

use vstd::prelude::*;
use crate::application::same_text;

verus! {

/// `s` in upper case, as `str::to_uppercase` returns it.
pub uninterp spec fn uppercased(s: Seq<char>) -> Seq<char>;

/// Every character of `s` is ASCII.
pub open spec fn all_ascii(s: Seq<char>) -> bool {
    forall|i: int| 0 <= i < s.len() ==> (#[trigger] s[i] as int) < 128
}

/// The upper case of an ASCII character: `a` to `z` become `A` to `Z`, and
/// every other character stays.
pub open spec fn ascii_upper(c: char) -> char {
    if 'a' <= c <= 'z' {
        ((c as int) - 32) as char
    } else {
        c
    }
}

/// The upper case of an ASCII text, character by character.
pub open spec fn ascii_upper_text(s: Seq<char>) -> Seq<char> {
    s.map_values(|c: char| ascii_upper(c))
}

/// Calls `str::to_uppercase`. Claims that the result is `uppercased` of the
/// text, and, as the Unicode case mapping that its documentation names gives
/// for ASCII, that an ASCII text has `a` to `z` turned into `A` to `Z` and
/// keeps every other character.
#[verifier::external_body]
fn upper_text(s: &str) -> (r: String)
    ensures
        r@ == uppercased(s@),
        all_ascii(s@) ==> r@ == ascii_upper_text(s@),
{
    s.to_uppercase()
}

/// A line without its terminating line break: a final `\n` is removed, and
/// with it a `\r` just before it; a line without a final `\n` is kept whole.
pub open spec fn without_line_break(line: Seq<char>) -> Seq<char> {
    if line.len() > 0 && line.last() == '\n' {
        let rest = line.drop_last();
        if rest.len() > 0 && rest.last() == '\r' {
            rest.drop_last()
        } else {
            rest
        }
    } else {
        line
    }
}

/// The line that a console read yields: the whole line read without its
/// terminating line break, or the empty string when the read failed.
pub fn line_text(read: Option<String>) -> (r: String)
    ensures
        match read {
            Some(line) => r@ == without_line_break(line@),
            None => r@ == Seq::<char>::empty(),
        },
{
    match read {
        Some(line) => {
            let s = line.as_str();
            let mut end = s.unicode_len();
            if end > 0 && s.get_char(end - 1) == '\n' {
                end = end - 1;
                if end > 0 && s.get_char(end - 1) == '\r' {
                    end = end - 1;
                }
            }
            let kept = s.substring_char(0, end).to_owned();
            assert(kept@ =~= without_line_break(line@));
            kept
        },
        None => String::new(),
    }
}

/// The meaning of an upper-cased answer: `Y` or `YES` is yes, `N` or `NO` is
/// no, anything else is no answer.
pub open spec fn answer_meaning(upper: Seq<char>) -> Option<bool> {
    if upper == "Y"@ || upper == "YES"@ {
        Some(true)
    } else if upper == "N"@ || upper == "NO"@ {
        Some(false)
    } else {
        None
    }
}

/// An upper-cased answer is yes exactly when it is `Y` or `YES`, no exactly
/// when it is `N` or `NO`, and no answer (the question is asked again) for
/// every other text.
pub proof fn lemma_only_four_answers_count(u: Seq<char>)
    ensures
        answer_meaning(u) == Some(true) <==> (u == "Y"@ || u == "YES"@),
        answer_meaning(u) == Some(false) <==> (u == "N"@ || u == "NO"@),
        answer_meaning(u) is None <==> !(u == "Y"@ || u == "YES"@ || u == "N"@ || u == "NO"@),
{
    reveal_strlit("Y");
    reveal_strlit("YES");
    reveal_strlit("N");
    reveal_strlit("NO");
    assert("Y"@[0] != "N"@[0]);
    assert("Y"@.len() != "NO"@.len());
    assert("YES"@.len() != "N"@.len());
    assert("YES"@.len() != "NO"@.len());
}

/// What an upper-cased answer means.
pub fn classify_answer(upper: &str) -> (r: Option<bool>)
    ensures
        r == answer_meaning(upper@),
{
    if same_text(upper, "Y") || same_text(upper, "YES") {
        Some(true)
    } else if same_text(upper, "N") || same_text(upper, "NO") {
        Some(false)
    } else {
        None
    }
}

/// What an answer means, whatever its case: yes, no, or no answer (the
/// question is asked again).
pub fn interpret_answer(answer: &str) -> (r: Option<bool>)
    ensures
        r == answer_meaning(uppercased(answer@)),
        all_ascii(answer@) ==> r == answer_meaning(ascii_upper_text(answer@)),
{
    let upper = upper_text(answer);
    classify_answer(upper.as_str())
}

} // verus!
