//! Specifications of the functions of std and of the outside crates that the
//! library calls. Verus takes these contracts on trust.

use vstd::prelude::*;

verus! {

#[verifier::external_type_specification]
#[verifier::external_body]
pub struct ExDecodeError(data_encoding::DecodeError);

#[verifier::external_type_specification]
#[verifier::external_body]
pub struct ExSystemTimeError(std::time::SystemTimeError);

/// Relies on String::push: the character is appended at the end.
pub assume_specification[ String::push ](s: &mut String, ch: char)
    ensures
        final(s)@ == old(s)@.push(ch),
;

/// Whether `c` is a symbol of the RFC 4648 Base32 alphabet ('A' to 'Z', '2' to '7').
pub open spec fn is_base32_symbol(c: char) -> bool {
    ('A' <= c <= 'Z') || ('2' <= c <= '7')
}

/// Whether `c` may stand in padded Base32 text: a symbol or the padding '='.
pub open spec fn is_base32_char(c: char) -> bool {
    is_base32_symbol(c) || c == '='
}

/// Whether `text` is whole blocks of eight Base32 symbols, without padding.
pub open spec fn is_unpadded_base32(text: Seq<char>) -> bool {
    &&& text.len() % 8 == 0
    &&& forall|i: int| 0 <= i < text.len() ==> #[trigger] is_base32_symbol(text[i])
}

/// The bytes that padded RFC 4648 Base32 decoding gives for `text`, or `None`
/// where `text` is no valid padded Base32.
pub uninterp spec fn base32_decoding(text: Seq<char>) -> Option<Seq<u8>>;

/// Relies on data_encoding::BASE32.decode on the text's UTF-8 bytes: standard
/// alphabet, '=' padding required, nothing ignored. It fails on a character
/// outside the alphabet and the padding, and on a length that is not a
/// multiple of eight; whole blocks of eight symbols give five bytes each. It
/// panics only on an input longer than `usize::MAX / 8` bytes.
#[verifier::external_body]
pub(crate) fn base32_decode(text: &str) -> (r: Result<Vec<u8>, data_encoding::DecodeError>)
    requires
        text.len() <= usize::MAX / 8,
    ensures
        r is Ok <==> base32_decoding(text@) is Some,
        r matches Ok(bytes) ==> base32_decoding(text@) == Some(bytes@),
        (exists|i: int| 0 <= i < text@.len() && !#[trigger] is_base32_char(text@[i])) ==> r is Err,
        text@.len() % 8 != 0 ==> r is Err,
        is_unpadded_base32(text@) ==> r is Ok,
        r matches Ok(bytes) ==> (is_unpadded_base32(text@) ==> bytes@.len() == text@.len() / 8 * 5),
{
    data_encoding::BASE32.decode(text.as_bytes())
}

/// The HMAC-SHA1 tag of `message` under `key`.
pub uninterp spec fn hmac_sha1_tag(key: Seq<u8>, message: Seq<u8>) -> Seq<u8>;

/// Relies on hmacsha1::hmac_sha1: the 20-byte HMAC-SHA1 tag, which depends on
/// the key and the message alone. Every key is accepted, the empty one too.
#[verifier::external_body]
pub(crate) fn hmac_sha1(key: &[u8], message: &[u8]) -> (tag: [u8; 20])
    ensures
        tag@ == hmac_sha1_tag(key@, message@),
{
    hmacsha1::hmac_sha1(key, message)
}

/// Relies on SystemTime::elapsed, called on UNIX_EPOCH: the time since the
/// epoch by the system clock, or an error where the clock reads an earlier
/// time. Nothing is known of the value.
#[verifier::external_body]
pub(crate) fn elapsed_since_unix_epoch() -> Result<
    core::time::Duration,
    std::time::SystemTimeError,
> {
    std::time::UNIX_EPOCH.elapsed()
}

/// Relies on Duration::as_secs: the whole seconds of a duration.
pub assume_specification[ core::time::Duration::as_secs ](d: &core::time::Duration) -> u64;

} // verus!
