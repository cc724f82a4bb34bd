//! What the library takes from outside: each item here is trusted, not proved.

use vstd::prelude::*;

verus! {

/// `String::push` of std: the character is appended at the end.
pub assume_specification[ String::push ](s: &mut String, c: char)
    ensures
        final(s)@ == old(s)@.push(c),
;

// ---------------------------------------------------------------------------
// url
// ---------------------------------------------------------------------------

/// What `url::Url::parse` makes of a text: the URL's serialization, or the text of its error.
pub uninterp spec fn parsed_url(text: Seq<char>) -> Result<Seq<char>, Seq<char>>;

/// What `url::Url::set_path` makes of the URL that `base` is parsed to: the serialization
/// with its path replaced.
pub uninterp spec fn url_with_path(base: Seq<char>, path: Seq<char>) -> Seq<char>;

/// What `url::Url::set_username` and then `url::Url::set_password` make of the URL that
/// `text` is parsed to; `None` where it does not parse or cannot carry credentials.
pub uninterp spec fn url_with_credentials(
    text: Seq<char>,
    username: Seq<char>,
    password: Seq<char>,
) -> Option<Seq<char>>;

/// Whether texts of these lengths together stay far below what a URL can hold: `url` keeps
/// positions in 32 bits and panics when a setter makes a URL longer than that. One character
/// of input becomes a few dozen bytes at most (a domain label in Punycode, or percent-encoded
/// UTF-8).
pub open spec fn url_sized(total: nat) -> bool {
    total <= 0x100_0000
}

/// `url::Url::parse` and `url::Url::to_string`. The result is the named one: a function of the
/// text alone.
#[verifier::external_body]
pub(crate) fn parse_url(text: &str) -> (r: Result<String, String>)
    ensures
        match r {
            Ok(url) => parsed_url(text@) == Ok::<Seq<char>, Seq<char>>(url@),
            Err(cause) => parsed_url(text@) == Err::<Seq<char>, Seq<char>>(cause@),
        },
{
    match url::Url::parse(text) {
        Ok(url) => Ok(url.to_string()),
        Err(cause) => Err(cause.to_string()),
    }
}

/// `url::Url::set_path` on a text that parses as a URL. The result is the named one: a
/// function of the two texts alone.
#[verifier::external_body]
pub(crate) fn set_url_path(base: &str, path: &str) -> (r: String)
    requires
        parsed_url(base@) is Ok,
        url_sized(base@.len() + path@.len()),
    ensures
        r@ == url_with_path(base@, path@),
{
    let mut url = url::Url::parse(base).unwrap();
    url.set_path(path);
    url.to_string()
}

/// `url::Url::set_username` and `url::Url::set_password`, one after the other, on a text that
/// is parsed first. The result is the named one: a function of the three texts alone.
#[verifier::external_body]
pub(crate) fn set_url_credentials(text: &str, username: &str, password: &str) -> (r: Option<String>)
    requires
        url_sized(text@.len() + username@.len() + password@.len()),
    ensures
        match r {
            Some(url) => url_with_credentials(text@, username@, password@) == Some(url@),
            None => url_with_credentials(text@, username@, password@) is None,
        },
{
    let mut url = url::Url::parse(text).ok()?;
    url.set_username(username).ok()?;
    url.set_password(Some(password)).ok()?;
    Some(url.to_string())
}

// ---------------------------------------------------------------------------
// serde_json
// ---------------------------------------------------------------------------

/// A JSON value.
#[verifier::external_type_specification]
#[verifier::external_body]
pub struct ExJsonValue(serde_json::Value);

/// The members of a JSON object whose values are strings, by key; none for any other value.
pub uninterp spec fn string_members(value: serde_json::Value) -> Map<Seq<char>, Seq<char>>;

/// What `serde_json::from_str` reads from a text: the string members of the value, or `None`
/// where the text is no JSON.
pub uninterp spec fn json_string_members(text: Seq<char>) -> Option<Map<Seq<char>, Seq<char>>>;

/// `serde_json::from_str` for a `serde_json::Value`: whether it succeeds, and which string
/// members the value has, is a function of the text alone.
#[verifier::external_body]
pub(crate) fn parse_json(text: &str) -> (r: Option<serde_json::Value>)
    ensures
        match r {
            Some(value) => json_string_members(text@) == Some(string_members(value)),
            None => json_string_members(text@) is None,
        },
{
    serde_json::from_str(text).ok()
}

/// `serde_json::Value::get` with a key, and `serde_json::Value::as_str` on what it finds: the
/// string under that key, `None` where there is no such member or its value is no string.
#[verifier::external_body]
pub(crate) fn string_member(value: &serde_json::Value, key: &str) -> (r: Option<String>)
    ensures
        match r {
            Some(text) => string_members(*value).contains_key(key@) && string_members(*value)[key@]
                == text@,
            None => !string_members(*value).contains_key(key@),
        },
{
    value.get(key).and_then(serde_json::Value::as_str).map(str::to_string)
}

// ---------------------------------------------------------------------------
// chrono
// ---------------------------------------------------------------------------

/// What `chrono::DateTime::parse_from_rfc3339` reads from a text: seconds since the Unix epoch
/// and the nanoseconds on top, or `None` where it fails.
pub uninterp spec fn rfc3339_instant(text: Seq<char>) -> Option<(i64, u32)>;

/// `chrono::DateTime::parse_from_rfc3339`, with the instant it reads as
/// `chrono::DateTime::timestamp` and `chrono::DateTime::timestamp_subsec_nanos` give it. The
/// result is the named one: a function of the text alone.
#[verifier::external_body]
pub(crate) fn parse_instant(text: &str) -> (r: Option<(i64, u32)>)
    ensures
        r == rfc3339_instant(text@),
{
    match chrono::DateTime::parse_from_rfc3339(text) {
        Ok(instant) => Some((instant.timestamp(), instant.timestamp_subsec_nanos())),
        Err(_) => None,
    }
}

// ---------------------------------------------------------------------------
// uuid
// ---------------------------------------------------------------------------

/// Whether `c` is a lower-case hexadecimal digit.
pub open spec fn is_lower_hex(c: char) -> bool {
    '0' <= c <= '9' || 'a' <= c <= 'f'
}

/// Whether `s` is written as a random (version 4) UUID is: five groups of lower-case
/// hexadecimal digits with hyphens between them, with the version and the variant in place.
pub open spec fn is_random_uuid(s: Seq<char>) -> bool {
    &&& s.len() == 36
    &&& s[8] == '-' && s[13] == '-' && s[18] == '-' && s[23] == '-'
    &&& forall|i: int|
        0 <= i < 36 && i != 8 && i != 13 && i != 18 && i != 23 ==> is_lower_hex(#[trigger] s[i])
    &&& s[14] == '4'
    &&& s[19] == '8' || s[19] == '9' || s[19] == 'a' || s[19] == 'b'
}

/// `uuid::Uuid::new_v4`, as `uuid::Uuid::to_string` writes it. The digits are random: only
/// the shape is stated. The call panics on a machine that yields no random bytes.
#[verifier::external_body]
pub(crate) fn random_uuid() -> (r: String)
    ensures
        is_random_uuid(r@),
{
    uuid::Uuid::new_v4().to_string()
}

} // verus!
