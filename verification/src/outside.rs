//! The calls that leave this crate. Their contracts are believed, not proved.

use vstd::prelude::*;
use vstd::utf8::*;

verus! {

/// The text that `Debug` formatting of a string slice with these characters
/// produces: the characters between double quotes, with escapes where the
/// standard library writes them.
pub uninterp spec fn debug_quoted(s: Seq<char>) -> Seq<char>;

/// The string value of the member `key` of the JSON object written in `text`;
/// `None` where `text` is no JSON document, the document is no object, the
/// object has no such member, or the member is not a string.
pub uninterp spec fn json_string_member(text: Seq<char>, key: Seq<char>) -> Option<Seq<char>>;

/// Calls `format!("{:?}", s)`, the standard library's `Debug` formatting of a
/// `str`. Believed: the result depends on the characters of `s` alone.
#[verifier::external_body]
pub(crate) fn quote_debug(s: &str) -> (r: String)
    ensures
        r@ == debug_quoted(s@),
{
    format!("{:?}", s)
}

/// The standard library's point in time on the system clock.
#[verifier::external_type_specification]
#[verifier::external_body]
pub struct ExSystemTime(std::time::SystemTime);

/// Calls `SystemTime::now`. Nothing is promised of the time that comes back.
#[verifier::external_body]
pub(crate) fn clock_now() -> (r: std::time::SystemTime) {
    std::time::SystemTime::now()
}

/// Calls `SystemTime::duration_since` with `UNIX_EPOCH`: the time elapsed
/// since the epoch, `None` where the clock shows a time before it. Nothing is
/// promised of which it is.
#[verifier::external_body]
pub(crate) fn since_epoch(t: &std::time::SystemTime) -> (r: Option<std::time::Duration>) {
    t.duration_since(std::time::UNIX_EPOCH).ok()
}

/// The whole seconds that a duration holds, what is left of a second dropped.
pub uninterp spec fn whole_seconds(d: core::time::Duration) -> u64;

/// `Duration::as_secs`: the whole seconds of a duration. Believed: the number
/// depends on the duration alone.
pub assume_specification[ core::time::Duration::as_secs ](d: &core::time::Duration) -> (r: u64)
    ensures
        r == whole_seconds(*d),
;

/// Calls `std::str::from_utf8`. Believed, as its documentation says: the bytes
/// are accepted exactly when they are valid UTF-8, and the text that comes
/// back is made of those same bytes.
#[verifier::external_body]
pub(crate) fn utf8_text(bytes: &[u8]) -> (r: Option<&str>)
    ensures
        r.is_some() == valid_utf8(bytes@),
        r matches Some(s) ==> encode_utf8(s@) == bytes@,
{
    std::str::from_utf8(bytes).ok()
}

/// Calls `serde_json::from_str` for a `serde_json::Value`, then `Value::get`
/// with `key` and `Value::as_str` on what it found. Believed: the result is a
/// function of the two texts alone.
#[verifier::external_body]
pub(crate) fn read_string_member(text: &str, key: &str) -> (r: Option<String>)
    ensures
        (match r { Some(s) => Some(s@), None => None }) == json_string_member(text@, key@),
{
    let value: serde_json::Value = serde_json::from_str(text).ok()?;
    value.get(key)?.as_str().map(|s| s.to_string())
}

} // verus!
