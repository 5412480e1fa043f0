//! The few places where the library leans on outside code: wall-clock time,
//! random identifiers, the host name, the MD5 digest behind history ids, and
//! single-character appends to a `String`. Each item carries the contract the
//! rest of the library is verified against.

use vstd::prelude::*;

use md5::Digest;
use md5::Md5;

verus! {

/// The lowercase hexadecimal rendering of the MD5 digest of a byte sequence.
/// The digest is a pure function of its input; its value is not axiomatised.
pub uninterp spec fn md5_hex_of(bytes: Seq<u8>) -> Seq<char>;

/// True of the sixteen characters that lowercase hexadecimal uses.
pub open spec fn is_lower_hex_char(c: char) -> bool {
    ('0' <= c && c <= '9') || ('a' <= c && c <= 'f')
}

/// Relies on the `md5` crate's `Md5` hasher and on `generic-array`'s
/// `LowerHex` formatting: the digest is 16 bytes, printed as exactly two
/// lowercase hexadecimal digits per byte, and depends on the input alone.
#[verifier::external_body]
pub fn md5_hex(bytes: &[u8]) -> (r: String)
    ensures
        r@ == md5_hex_of(bytes@),
        r@.len() == 32,
        forall|i: int| 0 <= i < r@.len() ==> is_lower_hex_char(#[trigger] r@[i]),
{
    let mut hasher = Md5::new();
    hasher.update(bytes);
    format!("{:x}", hasher.finalize())
}

/// Relies on `uuid::Uuid::new_v4` and its `Display` rendering: a random
/// identifier in the hyphenated form, which is 36 characters long. Nothing is
/// assumed about which identifier comes back.
#[verifier::external_body]
pub fn generate_uuid() -> (r: String)
    ensures
        r@.len() == 36,
{
    uuid::Uuid::new_v4().to_string()
}

/// Relies on `std::time::SystemTime::now`: the current time in milliseconds
/// since the Unix epoch, or 0 when the clock reads before the epoch. Nothing
/// is assumed about the value.
#[verifier::external_body]
pub fn now_ms() -> i64 {
    std::time::SystemTime::now()
        .duration_since(std::time::UNIX_EPOCH)
        .map(|d| d.as_millis() as i64)
        .unwrap_or(0)
}

/// Relies on `hostname::get`: the machine's host name, when the platform
/// reports one that is valid Unicode. Nothing is assumed about the value.
#[verifier::external_body]
pub fn host_name() -> Option<String> {
    match hostname::get() {
        Ok(name) => match name.to_str() {
            Some(s) => Some(s.to_string()),
            None => None,
        },
        Err(_) => None,
    }
}

/// Relies on `String::push`: appends the given character to the end of the
/// string.
#[verifier::external_body]
pub fn push_char(s: &mut String, c: char)
    ensures
        final(s)@ == old(s)@.push(c),
{
    s.push(c);
}

} // verus!
