//! Text helpers shared by the request builders.
use vstd::prelude::*;
use vstd::arithmetic::power::pow;
use vstd::string::StringExecFns;

verus! {

/// `true` or `false`, as the service writes a flag in a query.
pub open spec fn bool_text(b: bool) -> Seq<char> {
    if b {
        "true"@
    } else {
        "false"@
    }
}

/// Whether two strings hold the same characters.
pub fn same_text(a: &str, b: &str) -> (r: bool)
    ensures
        r == (a@ == b@),
{
    let x = String::from_str(a);
    let y = String::from_str(b);
    x == y
}

/// A copy of an optional text.
pub(crate) fn copy_text_opt(o: &Option<String>) -> (r: Option<String>)
    ensures
        r == *o,
{
    match o {
        Some(s) => Some(s.clone()),
        None => None,
    }
}

/// The query form of a flag.
pub fn bool_str(b: bool) -> (r: &'static str)
    ensures
        r@ == bool_text(b),
{
    if b {
        "true"
    } else {
        "false"
    }
}

/// The lowercase hex digit of `d`, for `d` below 16.
pub open spec fn hex_char(d: int) -> char {
    "0123456789abcdef"@[d]
}

/// The `k`-th of the 32 hex digits of `id`, the most significant first.
pub open spec fn hex_digit_of(id: u128, k: int) -> int {
    (id as int / pow(16, (31 - k) as nat)) % 16
}

/// Which hex digit stands at position `i` (not a hyphen) of the hyphenated text.
pub open spec fn digit_index(i: int) -> int {
    if i < 8 {
        i
    } else if i < 13 {
        i - 1
    } else if i < 18 {
        i - 2
    } else if i < 23 {
        i - 3
    } else {
        i - 4
    }
}

/// The hyphenated lowercase text of the identifier whose 128 bits are `id`:
/// its 32 hex digits, most significant first, in groups of 8, 4, 4, 4 and 12.
pub open spec fn uuid_text_of(id: u128) -> Seq<char> {
    Seq::new(
        36,
        |i: int|
            if i == 8 || i == 13 || i == 18 || i == 23 {
                '-'
            } else {
                hex_char(hex_digit_of(id, digit_index(i)))
            },
    )
}

/// The JSON string literal (quoted and escaped) of the text `s`.
pub uninterp spec fn json_string_of(s: Seq<char>) -> Seq<char>;

/// Relies on uuid's `Uuid::from_u128` (the bytes of `id`, big-endian) and its
/// `Display`: the hyphenated lowercase form of those bytes.
#[verifier::external_body]
pub(crate) fn uuid_text(id: u128) -> (r: String)
    ensures
        r@ == uuid_text_of(id),
{
    uuid::Uuid::from_u128(id).to_string()
}

/// Relies on serde_json::to_string on a `str`: the JSON string literal of the
/// text, which escapes only `"`, `\\` and the control characters below U+0020.
/// Serialising a `str` does not fail; the empty fallback is never taken.
#[verifier::external_body]
pub(crate) fn json_string(s: &str) -> (r: String)
    ensures
        r@ == json_string_of(s@),
        (forall|i: int|
            0 <= i < s@.len() ==> #[trigger] s@[i] != '"' && s@[i] != '\\' && s@[i] as u32 >= 0x20)
            ==> r@ == "\""@ + s@ + "\""@,
{
    match serde_json::to_string(s) {
        Ok(t) => t,
        Err(_) => String::new(),
    }
}

} // verus!
