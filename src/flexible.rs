//! Tolerant booleans: the provider sends some flags as JSON booleans and
//! sometimes as strings, so both encodings are read.
use vstd::prelude::*;
use crate::error::DecodeError;
use crate::json::{JsonModel, json_model, json_text, as_bool, as_string, is_null, render};

verus! {

/// `c` is the character `w` of an accepted word, up to ASCII case. The words
/// are plain ASCII, and no other character lowercases to one of their letters.
pub open spec fn letter_matches(c: char, w: char) -> bool {
    if 'a' <= w && w <= 'z' {
        c == w || (c as u32) + 32 == (w as u32)
    } else {
        c == w
    }
}

/// `s` spells the word `w`, ignoring ASCII case.
pub open spec fn spells(s: Seq<char>, w: Seq<char>) -> bool {
    s.len() == w.len() && forall|i: int| 0 <= i < s.len() ==> letter_matches(#[trigger] s[i], w[i])
}

pub open spec fn is_true_word(s: Seq<char>) -> bool {
    spells(s, seq!['t', 'r', 'u', 'e']) || spells(s, seq!['1']) || spells(s, seq!['y', 'e', 's'])
}

pub open spec fn is_false_word(s: Seq<char>) -> bool {
    spells(s, seq!['f', 'a', 'l', 's', 'e']) || spells(s, seq!['0']) || spells(s, seq!['n', 'o'])
}

/// The boolean a string stands for, if it is one of the accepted words.
pub open spec fn text_bool(s: Seq<char>) -> Option<bool> {
    if is_true_word(s) {
        Some(true)
    } else if is_false_word(s) {
        Some(false)
    } else {
        None
    }
}

/// The value a tolerant boolean member decodes to: `None` when the member is
/// not a valid encoding, else the (possibly absent) boolean.
pub open spec fn flexible_bool_of(j: JsonModel) -> Option<Option<bool>> {
    match j {
        JsonModel::Null => Some(None),
        JsonModel::Bool(b) => Some(Some(b)),
        JsonModel::Str(s) => match text_bool(s) {
            Some(b) => Some(Some(b)),
            None => None,
        },
        _ => None,
    }
}

fn spells_word(s: &str, w: &str) -> (r: bool)
    ensures
        r == spells(s@, w@),
{
    let n = s.unicode_len();
    if n != w.unicode_len() {
        return false;
    }
    let mut i: usize = 0;
    while i < n
        invariant
            n == s@.len(),
            n == w@.len(),
            i <= n,
            forall|k: int| 0 <= k < i ==> letter_matches(#[trigger] s@[k], w@[k]),
        decreases n - i,
    {
        let c = s.get_char(i);
        let l = w.get_char(i);
        let ok = if 'a' <= l && l <= 'z' {
            c == l || (c as u32) + 32 == (l as u32)
        } else {
            c == l
        };
        if !ok {
            assert(!letter_matches(s@[i as int], w@[i as int]));
            return false;
        }
        i = i + 1;
    }
    true
}

/// Reads a boolean written as a word: `true`, `1`, `yes` and `false`, `0`,
/// `no`, in any ASCII case. Anything else is `None`.
pub fn coerce_bool_text(s: &str) -> (r: Option<bool>)
    ensures
        r == text_bool(s@),
{
    proof {
        reveal_strlit("true");
        reveal_strlit("1");
        reveal_strlit("yes");
        reveal_strlit("false");
        reveal_strlit("0");
        reveal_strlit("no");
    }
    assert("true"@ =~= seq!['t', 'r', 'u', 'e']);
    assert("1"@ =~= seq!['1']);
    assert("yes"@ =~= seq!['y', 'e', 's']);
    assert("false"@ =~= seq!['f', 'a', 'l', 's', 'e']);
    assert("0"@ =~= seq!['0']);
    assert("no"@ =~= seq!['n', 'o']);
    if spells_word(s, "true") || spells_word(s, "1") || spells_word(s, "yes") {
        Some(true)
    } else if spells_word(s, "false") || spells_word(s, "0") || spells_word(s, "no") {
        Some(false)
    } else {
        None
    }
}

/// Decodes a tolerant boolean member named `field`: a JSON boolean as itself,
/// null as absent, an accepted word as its boolean; any other string or kind
/// of value is an `InvalidBooleanEncoding` error carrying the offending value.
pub fn flexible_bool(v: &serde_json::Value, field: &str) -> (r: Result<Option<bool>, DecodeError>)
    ensures
        match flexible_bool_of(json_model(*v)) {
            Some(b) => r == Ok::<Option<bool>, DecodeError>(b),
            None => match r {
                Err(DecodeError::InvalidBooleanEncoding { field: f, raw }) => f@ == field@ && (
                match json_model(*v) {
                    JsonModel::Str(s) => raw@ == s,
                    _ => raw@ == json_text(*v),
                }),
                _ => false,
            },
        },
{
    if is_null(v) {
        return Ok(None);
    }
    match as_bool(v) {
        Some(b) => Ok(Some(b)),
        None => match as_string(v) {
            Some(s) => match coerce_bool_text(s.as_str()) {
                Some(b) => Ok(Some(b)),
                None => Err(DecodeError::InvalidBooleanEncoding { field: field.to_string(), raw: s }),
            },
            None => Err(DecodeError::InvalidBooleanEncoding { field: field.to_string(), raw: render(v) }),
        },
    }
}

} // verus!
