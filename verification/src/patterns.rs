use vstd::prelude::*;

verus! {

/// Whether the `regex` crate accepts `pattern` (`Regex::new(pattern).is_ok()`).
/// Which patterns compile is the regex syntax and its size limits: pages to state.
pub uninterp spec fn regex_compiles(pattern: Seq<char>) -> bool;

/// Whether the compiled `pattern` matches somewhere in `text` (`Regex::is_match`).
pub uninterp spec fn regex_is_match(pattern: Seq<char>, text: Seq<char>) -> bool;

/// Calls `regex::Regex::new(pattern)`; the result is whether the regex
/// crate accepted the pattern, named `regex_compiles`.
#[verifier::external_body]
pub(crate) fn regex_valid(pattern: &str) -> (r: bool)
    ensures
        r == regex_compiles(pattern@),
{
    regex::Regex::new(pattern).is_ok()
}

/// Calls `regex::Regex::new(pattern)` and `Regex::is_match(text)` on a pattern
/// that compiles; the result is named `regex_is_match`.
#[verifier::external_body]
pub(crate) fn regex_match(pattern: &str, text: &str) -> (r: bool)
    requires
        regex_compiles(pattern@),
    ensures
        r == regex_is_match(pattern@, text@),
{
    regex::Regex::new(pattern).unwrap().is_match(text)
}

/// The texts of the successive non-overlapping matches of the compiled
/// `pattern` in `text`, from the left (`Regex::find_iter`).
pub uninterp spec fn regex_find_all(pattern: Seq<char>, text: Seq<char>) -> Seq<Seq<char>>;

/// Calls `regex::Regex::new(pattern)` and `Regex::find_iter(text)` on a
/// pattern that compiles, taking each match's text; the result is named
/// `regex_find_all`.
#[verifier::external_body]
pub(crate) fn regex_find_texts(pattern: &str, text: &str) -> (r: Vec<String>)
    requires
        regex_compiles(pattern@),
    ensures
        r@.map_values(|s: String| s@) == regex_find_all(pattern@, text@),
{
    regex::Regex::new(pattern).unwrap().find_iter(text).map(|m| m.as_str().to_string()).collect()
}

/// The text that group `group` of the first match of the compiled
/// `pattern` in `text` took: none when nothing matches, `Some(None)` when
/// the group took no part in the match.
pub uninterp spec fn regex_first_capture(pattern: Seq<char>, text: Seq<char>, group: nat) -> Option<Option<Seq<char>>>;

/// The view of a capture as `regex_capture` hands it back.
pub open spec fn capture_view(r: Option<Option<String>>) -> Option<Option<Seq<char>>> {
    match r {
        None => None,
        Some(None) => Some(None),
        Some(Some(t)) => Some(Some(t@)),
    }
}

/// Calls `regex::Regex::new(pattern)`, then `Regex::captures(text)` (the
/// first match) and `Captures::get(group)`, on a pattern that compiles;
/// the result is named `regex_first_capture`.
#[verifier::external_body]
pub(crate) fn regex_capture(pattern: &str, text: &str, group: usize) -> (r: Option<Option<String>>)
    requires
        regex_compiles(pattern@),
    ensures
        capture_view(r) == regex_first_capture(pattern@, text@, group as nat),
{
    match regex::Regex::new(pattern).unwrap().captures(text) {
        Some(c) => match c.get(group) {
            Some(m) => Some(Some(m.as_str().to_string())),
            None => Some(None),
        },
        None => None,
    }
}

/// The value of an ASCII hexadecimal digit.
pub open spec fn hex_value(c: char) -> int {
    if '0' <= c <= '9' {
        c as int - '0' as int
    } else if 'a' <= c <= 'f' {
        c as int - 'a' as int + 10
    } else {
        c as int - 'A' as int + 10
    }
}

/// Whether `c` is an ASCII hexadecimal digit, of either case.
pub open spec fn is_hex_digit(c: char) -> bool {
    ('0' <= c <= '9') || ('a' <= c <= 'f') || ('A' <= c <= 'F')
}

/// The bytes that the hexadecimal text `s` writes, two digits a byte, the
/// high one first; none when `s` has an odd length or a character that is
/// not a hexadecimal digit.
pub open spec fn hex_bytes(s: Seq<char>) -> Option<Seq<u8>> {
    if s.len() % 2 == 0 && forall|i: int| 0 <= i < s.len() ==> #[trigger] is_hex_digit(s[i]) {
        Some(Seq::new(s.len() / 2, |k: int| (hex_value(s[2 * k]) * 16 + hex_value(s[2 * k + 1])) as u8))
    } else {
        None
    }
}

/// Calls `hex::decode(s)`: the bytes that the hexadecimal text writes, or
/// an error (its message, as the crate words it, is not stated) when the
/// text has an odd length or a character that is not a hexadecimal digit.
#[verifier::external_body]
pub(crate) fn hex_decode(s: &str) -> (r: Result<Vec<u8>, String>)
    ensures
        match hex_bytes(s@) {
            Some(b) => r matches Ok(v) && v@ == b,
            None => r is Err,
        },
{
    match hex::decode(s) {
        Ok(v) => Ok(v),
        Err(e) => Err(e.to_string()),
    }
}

/// How many bytes the hexadecimal text `s` writes, or none when it is not
/// hexadecimal (see `hex_bytes`).
pub fn hex_decoded_len(s: &str) -> (r: Option<usize>)
    ensures
        match hex_bytes(s@) {
            Some(b) => r == Some(b.len() as usize),
            None => r is None,
        },
{
    match hex_decode(s) {
        Ok(v) => Some(v.len()),
        Err(_) => None,
    }
}

} // verus!
