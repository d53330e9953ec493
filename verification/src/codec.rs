//! Calls into std and outside crates that only compute: case folding, hashing,
//! Base64, random identifiers, image decoding and reading fields of JSON text.  Each function here is trusted:
//! Verus believes its contract and does not see its body.

use base64::Engine;
use vstd::prelude::*;

verus! {

/// What `str::to_lowercase` returns for a string with the characters `s`.
pub uninterp spec fn spec_lowercase(s: Seq<char>) -> Seq<char>;

/// `str::to_lowercase`: the string with every character replaced by its Unicode
/// lower-case mapping.  The contract names the result and states nothing more of it.
#[verifier::external_body]
pub(crate) fn lowercase(s: &str) -> (r: String)
    ensures
        r@ == spec_lowercase(s@),
{
    s.to_lowercase()
}

/// What the std default hasher (`DefaultHasher::new()`, fed by `Hash`) yields for a
/// list of strings.  `DefaultHasher::new()` is not seeded: within one build of the
/// program (one target, one std) the same list gives the same hash.
pub uninterp spec fn spec_hash_strings(v: Seq<Seq<char>>) -> u64;

/// What the std default hasher yields for a string, within one build of the program.
pub uninterp spec fn spec_hash_text(s: Seq<char>) -> u64;

/// What the std default hasher yields for a byte vector, within one build of the program.
pub uninterp spec fn spec_hash_bytes(b: Seq<u8>) -> u64;

/// `BuildHasher::hash_one` with `BuildHasherDefault<DefaultHasher>`: the hash of
/// the list of strings, as `DefaultHasher::new()` followed by `Hash::hash` and
/// `Hasher::finish` gives it.  The std documentation promises that every
/// `DefaultHasher::new()` hasher gives the same output for the same input within
/// one build; the contract names the result and states nothing more of it.
#[verifier::external_body]
pub(crate) fn hash_strings(v: &Vec<String>) -> (h: u64)
    ensures
        h == spec_hash_strings(v@.map_values(|s: String| s@)),
{
    std::hash::BuildHasher::hash_one(
        &std::hash::BuildHasherDefault::<std::collections::hash_map::DefaultHasher>::default(),
        v,
    )
}

/// `BuildHasher::hash_one` with `BuildHasherDefault<DefaultHasher>` on a string;
/// the contract names the result and states nothing more of it.
#[verifier::external_body]
pub(crate) fn hash_text(s: &String) -> (h: u64)
    ensures
        h == spec_hash_text(s@),
{
    std::hash::BuildHasher::hash_one(
        &std::hash::BuildHasherDefault::<std::collections::hash_map::DefaultHasher>::default(),
        s,
    )
}

/// `BuildHasher::hash_one` with `BuildHasherDefault<DefaultHasher>` on a byte
/// vector; the contract names the result and states nothing more of it.
#[verifier::external_body]
pub(crate) fn hash_bytes(b: &Vec<u8>) -> (h: u64)
    ensures
        h == spec_hash_bytes(b@),
{
    std::hash::BuildHasher::hash_one(
        &std::hash::BuildHasherDefault::<std::collections::hash_map::DefaultHasher>::default(),
        b,
    )
}

/// What `base64::engine::general_purpose::STANDARD.encode` returns for the bytes `b`.
pub uninterp spec fn spec_base64_encode(b: Seq<u8>) -> Seq<char>;

/// What `base64::engine::general_purpose::STANDARD.decode` returns for the bytes of
/// a string with the characters `s`: the decoded bytes, or `None` for an error.
pub uninterp spec fn spec_base64_decode(s: Seq<char>) -> Option<Seq<u8>>;

/// `STANDARD.encode` of the base64 crate: padded standard Base64 text of `b`,
/// four characters for every started group of three bytes, as the crate's
/// `encoded_len` computes it.  The crate panics when that length overflows
/// `usize`, which `requires` rules out.
#[verifier::external_body]
pub(crate) fn base64_encode(b: &[u8]) -> (r: String)
    requires
        4 * ((b@.len() + 2) / 3) <= usize::MAX,
    ensures
        r@ == spec_base64_encode(b@),
        r@.len() == 4 * ((b@.len() + 2) / 3),
{
    base64::engine::general_purpose::STANDARD.encode(b)
}

/// `STANDARD.decode` of the base64 crate on the bytes of `s`: the decoded bytes,
/// or `None` where the crate returns a `DecodeError`.  The contract names the
/// result and states nothing more of it.
#[verifier::external_body]
pub(crate) fn base64_decode(s: &str) -> (r: Option<Vec<u8>>)
    ensures
        match r {
            Some(v) => spec_base64_decode(s@) == Some(v@),
            None => spec_base64_decode(s@) is None,
        },
{
    match base64::engine::general_purpose::STANDARD.decode(s.as_bytes()) {
        Ok(v) => Some(v),
        Err(_) => None,
    }
}

/// Whether `c` is a lower-case hexadecimal digit.
pub open spec fn lower_hex_digit(c: char) -> bool {
    (0x30 <= (c as int) && (c as int) <= 0x39) || (0x61 <= (c as int) && (c as int) <= 0x66)
}

/// Whether `s` is the hyphenated lower-case text of a random (version 4, RFC 4122
/// variant) UUID: 36 characters, hyphens at 8, 13, 18 and 23, lower-case hex
/// digits elsewhere, `4` at 14 and one of `8`, `9`, `a`, `b` at 19.
pub open spec fn uuid_v4_text(s: Seq<char>) -> bool {
    &&& s.len() == 36
    &&& forall|i: int| 0 <= i < 36 ==> if i == 8 || i == 13 || i == 18 || i == 23 {
        s[i] == '-'
    } else {
        lower_hex_digit(s[i])
    }
    &&& s[14] == '4'
    &&& (s[19] == '8' || s[19] == '9' || s[19] == 'a' || s[19] == 'b')
}

/// `uuid::Uuid::new_v4().to_string()`: random bits with the version set to 4 and the
/// variant to RFC 4122, shown in the hyphenated lower-case form.  Which of those
/// identifiers comes back is left open: two calls may give any two of them.
#[verifier::external_body]
pub(crate) fn new_uuid() -> (r: String)
    ensures
        uuid_v4_text(r@),
{
    uuid::Uuid::new_v4().to_string()
}

/// A decoded image: width, height and RGBA pixels, four bytes per pixel, row by row.
pub struct RgbaImage {
    pub width: u32,
    pub height: u32,
    pub pixels: Vec<u8>,
}

/// What `image::load_from_memory(b)` followed by `to_rgba8` gives: width, height
/// and pixel bytes, or `None` where loading fails.
pub uninterp spec fn spec_decode_image(b: Seq<u8>) -> Option<(u32, u32, Seq<u8>)>;

/// `image::load_from_memory` (format guessed from the bytes), then `to_rgba8`,
/// `dimensions` and `into_raw`.  The contract names the result and states nothing
/// more of it.
#[verifier::external_body]
pub(crate) fn decode_image(b: &[u8]) -> (r: Option<RgbaImage>)
    ensures
        match r {
            Some(img) => spec_decode_image(b@) == Some((img.width, img.height, img.pixels@)),
            None => spec_decode_image(b@) is None,
        },
{
    match image::load_from_memory(b) {
        Ok(img) => {
            let rgba = img.to_rgba8();
            let (width, height) = rgba.dimensions();
            Some(RgbaImage { width, height, pixels: rgba.into_raw() })
        },
        Err(_) => None,
    }
}

/// What `serde_json::from_str::<serde_json::Value>` on the text `text`, then
/// `Value::get(key)` and `Value::as_str` give: the string held under `key` by the
/// JSON object `text`, or `None` where `text` is no JSON, not an object, lacks `key`
/// or holds no string under it.
pub uninterp spec fn spec_json_str_field(text: Seq<char>, key: Seq<char>) -> Option<Seq<char>>;

/// What `serde_json::from_str::<serde_json::Value>` on the text `text`, then
/// `Value::get(key)` and `Value::as_u64` give: the non-negative integer that fits a
/// `u64` held under `key` by the JSON object `text`, or `None` otherwise.
pub uninterp spec fn spec_json_u64_field(text: Seq<char>, key: Seq<char>) -> Option<u64>;

/// `serde_json::from_str::<serde_json::Value>`, `Value::get` and `Value::as_str`: the
/// string field `key` of the JSON object `text`.  The contract names the result and
/// states nothing more of it.
#[verifier::external_body]
pub(crate) fn json_str_field(text: &String, key: &str) -> (r: Option<String>)
    ensures
        match r {
            Some(v) => spec_json_str_field(text@, key@) == Some(v@),
            None => spec_json_str_field(text@, key@) is None,
        },
{
    match serde_json::from_str::<serde_json::Value>(text.as_str()) {
        Ok(v) => match v.get(key) {
            Some(field) => match field.as_str() {
                Some(t) => Some(t.to_string()),
                None => None,
            },
            None => None,
        },
        Err(_) => None,
    }
}

/// `serde_json::from_str::<serde_json::Value>`, `Value::get` and `Value::as_u64`: the
/// unsigned integer field `key` of the JSON object `text`.  The contract names the
/// result and states nothing more of it.
#[verifier::external_body]
pub(crate) fn json_u64_field(text: &String, key: &str) -> (r: Option<u64>)
    ensures
        r == spec_json_u64_field(text@, key@),
{
    match serde_json::from_str::<serde_json::Value>(text.as_str()) {
        Ok(v) => match v.get(key) {
            Some(field) => field.as_u64(),
            None => None,
        },
        Err(_) => None,
    }
}

} // verus!
