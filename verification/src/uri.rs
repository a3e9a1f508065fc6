//! Validation of URIs against the strict profile.
//!
//! A URI is a sequence of tokens separated by `.`. In the strict profile no
//! token is empty, every character of a token is `_`, a digit or a lowercase
//! alphanumeric character, and the string does not start with the reserved
//! prefix `wamp.`. So no separator stands at the start of the string, at its
//! end, or directly behind another separator. The empty string has no
//! character to object to, and passes.
//!
//! The grammar is stated once, as [`is_strict_uri`], over the characters of a
//! string. [`strict_uri_violation`] scans a string from left to right and
//! reports the first offence; [`is_valid_strict_uri`] only says whether there
//! is one.

use vstd::prelude::*;
use vstd::utf8::{encode_scalar, encode_utf8};
use crate::unicode::{unicode_alphanumeric, unicode_lowercase};

verus! {

/// What can be wrong with a single character of a URI.
#[derive(Debug, Clone, Copy, PartialEq, Eq, Structural)]
pub enum CharFault {
    /// The character is a separator that ends a token of no characters.
    EmptyToken,
    /// The character is neither a digit nor lowercase.
    NotLowercase,
    /// The character is lowercase, but neither a letter nor a number.
    NotAlphanumeric,
}

/// Why a string is not a strict URI.
#[derive(Debug, Clone, Copy, PartialEq, Eq, Structural)]
pub enum UriViolation {
    /// The string starts with the reserved prefix `wamp.`.
    ReservedPrefix,
    /// The character at `index` (counted in characters, not bytes) is the
    /// first that breaks the grammar, in the way that `fault` names.
    Character { index: usize, fault: CharFault },
    /// No character is at fault, but the string ends in a separator: its last
    /// token, which ends at `index`, the length of the string in characters,
    /// is empty.
    EmptyLastToken { index: usize },
}

/// The prefix of the namespace that the protocol keeps for itself.
pub open spec fn reserved_prefix() -> Seq<char> {
    seq!['w', 'a', 'm', 'p', '.']
}

/// Whether `s` lies in the reserved namespace.
pub open spec fn has_reserved_prefix(s: Seq<char>) -> bool {
    reserved_prefix().is_prefix_of(s)
}

/// Whether `c` is one of the digits `0` to `9`.
pub open spec fn is_digit(c: char) -> bool {
    '0' <= c <= '9'
}

/// The fault of one character, given what is known about it: whether the
/// token it belongs to (or ends) has no characters before it, and its two
/// Unicode properties. A separator is held to the token it ends, `_` and the
/// digits pass, and any other character has to be lowercase and
/// alphanumeric.
pub open spec fn char_fault(
    c: char,
    token_empty: bool,
    lowercase: bool,
    alphanumeric: bool,
) -> Option<CharFault> {
    if c == '.' {
        if token_empty {
            Some(CharFault::EmptyToken)
        } else {
            None
        }
    } else if c == '_' || is_digit(c) {
        None
    } else if !lowercase {
        Some(CharFault::NotLowercase)
    } else if !alphanumeric {
        Some(CharFault::NotAlphanumeric)
    } else {
        None
    }
}

/// The fault of the character at position `i` of `s`, if it has one.
///
/// A token is empty at `i` when `i` is the start of the string or directly
/// follows a separator.
pub open spec fn fault_at(s: Seq<char>, i: int) -> Option<CharFault>
    recommends
        0 <= i < s.len(),
{
    char_fault(
        s[i],
        i == 0 || s[i - 1] == '.',
        unicode_lowercase(s[i]),
        unicode_alphanumeric(s[i]),
    )
}

/// Whether no character of `s` has a fault.
pub open spec fn no_char_fault(s: Seq<char>) -> bool {
    forall|i: int| 0 <= i < s.len() ==> fault_at(s, i) is None
}

/// Whether `s` ends in a separator, which leaves its last token empty.
pub open spec fn ends_in_separator(s: Seq<char>) -> bool {
    s.len() > 0 && s.last() == '.'
}

/// The strict URI grammar.
pub open spec fn is_strict_uri(s: Seq<char>) -> bool {
    &&& !has_reserved_prefix(s)
    &&& no_char_fault(s)
    &&& !ends_in_separator(s)
}

/// Whether position `i` is the first of `s` with a fault, and `fault` is that
/// fault.
pub open spec fn is_first_fault(s: Seq<char>, i: int, fault: CharFault) -> bool {
    &&& 0 <= i < s.len()
    &&& fault_at(s, i) == Some(fault)
    &&& forall|j: int| 0 <= j < i ==> fault_at(s, j) is None
}

/// Whether `verdict` is what a left-to-right check of `s` reports: nothing
/// for a strict URI, the reserved prefix before anything else, then the
/// first faulty character, and the empty last token only where no character
/// is at fault.
pub open spec fn is_verdict_of(s: Seq<char>, verdict: Option<UriViolation>) -> bool {
    match verdict {
        None => is_strict_uri(s),
        Some(UriViolation::ReservedPrefix) => has_reserved_prefix(s),
        Some(UriViolation::Character { index, fault }) => {
            &&& !has_reserved_prefix(s)
            &&& is_first_fault(s, index as int, fault)
        },
        Some(UriViolation::EmptyLastToken { index }) => {
            &&& !has_reserved_prefix(s)
            &&& no_char_fault(s)
            &&& ends_in_separator(s)
            &&& index == s.len()
        },
    }
}

/// Every string has exactly one verdict.
pub proof fn lemma_verdict_unique(
    s: Seq<char>,
    first: Option<UriViolation>,
    second: Option<UriViolation>,
)
    requires
        is_verdict_of(s, first),
        is_verdict_of(s, second),
    ensures
        first == second,
{
    if let Some(UriViolation::Character { index: i, fault: _ }) = first {
        if let Some(UriViolation::Character { index: j, fault: _ }) = second {
            // Neither fault can come before the other.
            assert(!(i < j) && !(j < i));
        }
    }
}

/// No token of a strict URI is empty: a separator stands neither first nor
/// last, and none follows another.
pub proof fn lemma_strict_uri_tokens(s: Seq<char>, i: int)
    requires
        is_strict_uri(s),
        0 <= i < s.len(),
        s[i] == '.',
    ensures
        0 < i < s.len() - 1,
        s[i - 1] != '.',
        s[i + 1] != '.',
{
    assert(fault_at(s, i) is None);
    assert(fault_at(s, i + 1) is None);
}

/// A string that ends in a separator is no strict URI, whatever stands
/// before the separator.
pub proof fn lemma_trailing_separator_refused(s: Seq<char>)
    ensures
        !is_strict_uri(s.push('.')),
{
    assert(s.push('.').last() == '.');
}

/// The empty string is a strict URI.
pub proof fn lemma_empty_string_accepted()
    ensures
        is_strict_uri(Seq::<char>::empty()),
{
}

/// The letters `a` to `z`.
pub open spec fn is_ascii_lower_letter(c: char) -> bool {
    'a' <= c <= 'z'
}

/// The letters `A` to `Z`.
pub open spec fn is_ascii_upper_letter(c: char) -> bool {
    'A' <= c <= 'Z'
}

/// Whether every character of `s` is an ASCII character.
pub open spec fn is_ascii_text(s: Seq<char>) -> bool {
    forall|i: int| 0 <= i < s.len() ==> (#[trigger] s[i]) as u32 <= 0x7f
}

/// The usual reading of the two Unicode properties on the ASCII characters:
/// the lowercase ones are the letters `a` to `z`, and the alphanumeric ones
/// are the letters and the digits.
///
/// This is a premise, and nothing in this crate asserts it. It serves
/// [`lemma_ascii_grammar`], which says what the grammar comes to wherever the
/// premise holds.
pub open spec fn ascii_properties_are_the_usual() -> bool {
    forall|c: char|
        c as u32 <= 0x7f ==> {
            &&& #[trigger] unicode_lowercase(c) == is_ascii_lower_letter(c)
            &&& #[trigger] unicode_alphanumeric(c) == (is_ascii_lower_letter(c)
                || is_ascii_upper_letter(c) || is_digit(c))
        }
}

/// The strict grammar as it is commonly written for ASCII strings: tokens of
/// the characters `a` to `z`, `0` to `9` and `_`, none of them empty, with
/// single separators between them, and not in the reserved namespace.
pub open spec fn is_ascii_strict_uri(s: Seq<char>) -> bool {
    &&& !has_reserved_prefix(s)
    &&& forall|i: int|
        0 <= i < s.len() ==> #[trigger] s[i] == '.' || s[i] == '_' || is_digit(s[i])
            || is_ascii_lower_letter(s[i])
    &&& forall|i: int|
        0 <= i < s.len() && #[trigger] s[i] == '.' ==> 0 < i < s.len() - 1 && s[i - 1] != '.'
}

/// On ASCII strings, and under the usual reading of the two Unicode
/// properties, the strict grammar is the common one.
pub proof fn lemma_ascii_grammar(s: Seq<char>)
    requires
        is_ascii_text(s),
    ensures
        ascii_properties_are_the_usual() ==> (is_strict_uri(s) <==> is_ascii_strict_uri(s)),
{
    if ascii_properties_are_the_usual() {
        if is_strict_uri(s) {
            assert forall|i: int| 0 <= i < s.len() implies #[trigger] s[i] == '.' || s[i] == '_'
                || is_digit(s[i]) || is_ascii_lower_letter(s[i]) by {
                assert(fault_at(s, i) is None);
                assert(unicode_lowercase(s[i]) == is_ascii_lower_letter(s[i]));
            }
            assert forall|i: int| 0 <= i < s.len() && #[trigger] s[i] == '.' implies 0 < i
                < s.len() - 1 && s[i - 1] != '.' by {
                lemma_strict_uri_tokens(s, i);
            }
        }
        if is_ascii_strict_uri(s) {
            assert forall|i: int| 0 <= i < s.len() implies fault_at(s, i) is None by {
                let c = s[i];
                assert(unicode_lowercase(c) == is_ascii_lower_letter(c));
                assert(unicode_alphanumeric(c) == (is_ascii_lower_letter(c)
                    || is_ascii_upper_letter(c) || is_digit(c)));
            }
            if s.len() > 0 && s.last() == '.' {
                assert(s[s.len() - 1] == '.');
            }
        }
    }
}

/// Decides the fault of one character from what the caller found out
/// about it.
pub fn check_char(c: char, token_len: usize, lowercase: bool, alphanumeric: bool) -> (fault:
    Option<CharFault>)
    ensures
        fault == char_fault(c, token_len == 0, lowercase, alphanumeric),
{
    if c == '.' {
        if token_len == 0 {
            Some(CharFault::EmptyToken)
        } else {
            None
        }
    } else if c == '_' || ('0' <= c && c <= '9') {
        None
    } else if !lowercase {
        Some(CharFault::NotLowercase)
    } else if !alphanumeric {
        Some(CharFault::NotAlphanumeric)
    } else {
        None
    }
}

/// A string has at most as many characters as its UTF-8 encoding has bytes.
proof fn lemma_chars_fit_in_bytes(chars: Seq<char>)
    ensures
        chars.len() <= encode_utf8(chars).len(),
    decreases chars.len(),
{
    if chars.len() > 0 {
        lemma_chars_fit_in_bytes(chars.drop_first());
        assert(encode_scalar(chars[0] as u32).len() >= 1);
    }
}

/// Whether `uri` starts with the reserved prefix `wamp.`.
pub fn starts_with_reserved_prefix(uri: &str) -> (reserved: bool)
    ensures
        reserved == has_reserved_prefix(uri@),
{
    let prefix: [char; 5] = ['w', 'a', 'm', 'p', '.'];
    let mut matched: usize = 0;
    for c in it: uri.chars()
        invariant
            it.seq() == uri@,
            matched == it.index(),
            matched <= 5,
            prefix@ == reserved_prefix(),
            forall|j: int| 0 <= j < matched ==> uri@[j] == reserved_prefix()[j],
    {
        if matched == 5 {
            assert(uri@.subrange(0, 5) =~= reserved_prefix());
            return true;
        }
        if c != prefix[matched] {
            assert(uri@[matched as int] != reserved_prefix()[matched as int]);
            return false;
        }
        matched = matched + 1;
    }
    if matched == 5 {
        assert(uri@.subrange(0, 5) =~= reserved_prefix());
    }
    matched == 5
}

/// Checks `uri` against the strict grammar and reports the first offence.
///
/// The reserved prefix is reported before any character. Otherwise the
/// characters are checked from left to right, and the first faulty one is
/// reported with its position, counted in characters. Where no character is
/// at fault, a separator at the end is reported as an empty last token.
/// `None` means that `uri` is a strict URI.
pub fn strict_uri_violation(uri: &str) -> (verdict: Option<UriViolation>)
    ensures
        is_verdict_of(uri@, verdict),
        verdict is None <==> is_strict_uri(uri@),
{
    if starts_with_reserved_prefix(uri) {
        return Some(UriViolation::ReservedPrefix);
    }
    let byte_len: usize = uri.as_bytes().len();
    proof {
        lemma_chars_fit_in_bytes(uri@);
    }
    let mut index: usize = 0;
    let mut token_len: usize = 0;
    for c in it: uri.chars()
        invariant
            it.seq() == uri@,
            index == it.index(),
            uri@.len() <= byte_len,
            !has_reserved_prefix(uri@),
            token_len <= index,
            token_len == 0 <==> (index == 0 || uri@[index - 1] == '.'),
            forall|j: int| 0 <= j < index ==> fault_at(uri@, j) is None,
    {
        let lowercase = c.is_lowercase();
        let alphanumeric = c.is_alphanumeric();
        match check_char(c, token_len, lowercase, alphanumeric) {
            Some(fault) => {
                return Some(UriViolation::Character { index, fault });
            },
            None => {},
        }
        if c == '.' {
            token_len = 0;
        } else {
            token_len = token_len + 1;
        }
        index = index + 1;
    }
    if index > 0 && token_len == 0 {
        return Some(UriViolation::EmptyLastToken { index });
    }
    None
}

/// Returns whether a URI is valid or not (using strict rules).
pub fn is_valid_strict_uri(uri: &str) -> (valid: bool)
    ensures
        valid == is_strict_uri(uri@),
{
    strict_uri_violation(uri).is_none()
}

} // verus!
