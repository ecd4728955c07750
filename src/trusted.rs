//! The calls into outside crates, each with the contract the library relies on.
//!
//! Where a result takes pages to state, it is named by a spec function without
//! a body, and the contracts of the callers speak of that name.
use vstd::prelude::*;
use vstd::utf8::{decode_utf8, valid_utf8};
use base64::Engine;
use md5::Digest;

verus! {

/// The lower-case hexadecimal MD5 digest of the UTF-8 encoding of a text.
pub uninterp spec fn md5_hex_of(text: Seq<char>) -> Seq<char>;

/// The bytes that standard Base64 (with padding) decodes a text to, or
/// `None` where the text is no valid encoding.
pub uninterp spec fn base64_decoded(text: Seq<char>) -> Option<Seq<u8>>;

/// The text of capture group `group` of the leftmost match of `pattern` in
/// `text`: `None` where the pattern does not compile, `Some(None)` where
/// there is no match or the group took no part in it.
pub uninterp spec fn regex_capture_of(pattern: Seq<char>, text: Seq<char>, group: nat) -> Option<
    Option<Seq<char>>,
>;

/// `text` with the leftmost match of `pattern` replaced by `rep`, where
/// `$` references in `rep` are expanded to capture groups; `None` where the
/// pattern does not compile.
pub uninterp spec fn regex_replace_of(pattern: Seq<char>, text: Seq<char>, rep: Seq<char>) -> Option<
    Seq<char>,
>;

/// The decoded key/value pairs of the query string `query`, in order, or
/// `None` where no URL can carry it.
pub uninterp spec fn query_pairs_of(query: Seq<char>) -> Option<Seq<(Seq<char>, Seq<char>)>>;

/// A character that may stand in an HTTP header value: a tab, or anything
/// from the space on but the delete character. Every byte of a character
/// outside ASCII is at least 0x80, so it passes.
pub open spec fn header_char_ok(c: char) -> bool {
    c == '\t' || (32 <= c as u32 && c as u32 != 127)
}

pub open spec fn header_value_ok(value: Seq<char>) -> bool {
    forall|i: int| 0 <= i < value.len() ==> header_char_ok(#[trigger] value[i])
}

/// Relies on the `md-5` crate's `Md5` hasher, printed with `{:x}`.
#[verifier::external_body]
pub fn md5(text: &str) -> (r: String)
    ensures
        r@ == md5_hex_of(text@),
{
    let mut hasher = md5::Md5::new();
    hasher.update(text.as_bytes());
    format!("{:x}", hasher.finalize())
}

/// Relies on `base64`'s `BASE64_STANDARD.decode`.
#[verifier::external_body]
pub(crate) fn decode_base64(text: &str) -> (r: Option<Vec<u8>>)
    ensures
        match r {
            Some(v) => base64_decoded(text@) == Some(v@),
            None => base64_decoded(text@) is None,
        },
{
    base64::prelude::BASE64_STANDARD.decode(text).ok()
}

/// Relies on `String::from_utf8`: the bytes decoded where they are valid
/// UTF-8, and an error otherwise.
#[verifier::external_body]
pub(crate) fn utf8_string(bytes: Vec<u8>) -> (r: Option<String>)
    ensures
        match r {
            Some(s) => valid_utf8(bytes@) && s@ == decode_utf8(bytes@),
            None => !valid_utf8(bytes@),
        },
{
    String::from_utf8(bytes).ok()
}

/// Relies on `regex::Regex::new` and `Regex::captures`: the text of one
/// capture group of the leftmost match.
#[verifier::external_body]
pub(crate) fn regex_capture(pattern: &str, text: &str, group: usize) -> (r: Result<
    Option<String>,
    String,
>)
    ensures
        match r {
            Ok(c) => regex_capture_of(pattern@, text@, group as nat) == Some(
                match c {
                    Some(s) => Some(s@),
                    None => None,
                },
            ),
            Err(_) => regex_capture_of(pattern@, text@, group as nat) is None,
        },
{
    let re = regex::Regex::new(pattern).map_err(|e| e.to_string())?;
    Ok(re.captures(text).and_then(|c| c.get(group)).map(|m| m.as_str().to_string()))
}

/// Relies on `regex::Regex::new` and `Regex::replace`: the leftmost match
/// replaced.
#[verifier::external_body]
pub(crate) fn regex_replace(pattern: &str, text: &str, rep: &str) -> (r: Result<String, String>)
    ensures
        match r {
            Ok(s) => regex_replace_of(pattern@, text@, rep@) == Some(s@),
            Err(_) => regex_replace_of(pattern@, text@, rep@) is None,
        },
{
    let re = regex::Regex::new(pattern).map_err(|e| e.to_string())?;
    Ok(re.replace(text, rep).into_owned())
}

/// Relies on `url::Url::parse` of `http://example.com?` followed by the
/// query, and on `Url::query_pairs`.
#[verifier::external_body]
pub(crate) fn query_pairs(query: &str) -> (r: Option<Vec<(String, String)>>)
    ensures
        match r {
            Some(v) => query_pairs_of(query@) == Some(
                v@.map_values(|p: (String, String)| (p.0@, p.1@)),
            ),
            None => query_pairs_of(query@) is None,
        },
{
    let url = url::Url::parse(&format!("http://example.com?{}", query)).ok()?;
    Some(url.query_pairs().map(|(k, v)| (k.into_owned(), v.into_owned())).collect())
}

/// Relies on `rand::random`: a uniformly drawn number, of which nothing
/// else is known.
#[verifier::external_body]
pub(crate) fn random_u128() -> (r: u128) {
    rand::random::<u128>()
}

/// Relies on `reqwest::header::HeaderValue::from_str`, which accepts a value
/// exactly when each of its bytes is a tab or at least 32 and not 127.
#[verifier::external_body]
pub(crate) fn header_value_valid(value: &str) -> (r: bool)
    ensures
        r == header_value_ok(value@),
{
    reqwest::header::HeaderValue::from_str(value).is_ok()
}

} // verus!
