//! Code derivation from a Base32 secret and a Unix time, and the period
//! arithmetic around it.

use vstd::prelude::*;

use crate::error::{TOTPError, TOTPErrorReason};
use crate::foreign::{
    base32_decode, base32_decoding, elapsed_since_unix_epoch, hmac_sha1, hmac_sha1_tag,
    is_base32_char, is_unpadded_base32,
};
use crate::hotp::{big_endian, code_text, counter_bytes, code_to_str, hash_to_code, is_code,
    lemma_code_text_is_code, truncated,
};

verus! {

/// Length of a time step, in seconds.
pub const TIME_PERIOD: u64 = 30;

/// The index of the time step that holds `time`: the HOTP counter.
pub open spec fn period_begin(time: u64) -> nat {
    time as nat / TIME_PERIOD as nat
}

/// The step index of `time` plus the period length. The sum adds a count of
/// seconds to a count of steps; it is not the wall-clock end of the step.
pub open spec fn period_end(time: u64) -> nat {
    time as nat / TIME_PERIOD as nat + TIME_PERIOD as nat
}

/// The HOTP code for a decoded key and a counter.
pub open spec fn hotp_code(key: Seq<u8>, counter: u64) -> Seq<char> {
    code_text(truncated(hmac_sha1_tag(key, big_endian(counter))))
}

/// What deriving a code from the secret text at `time` gives: the code of the
/// decoded secret at the time's step, or `InvalidKey` where the secret is no
/// valid Base32.
pub open spec fn totp_outcome(key: Seq<char>, time: u64) -> Result<Seq<char>, TOTPErrorReason> {
    match base32_decoding(key) {
        Some(bytes) => Ok(hotp_code(bytes, period_begin(time) as u64)),
        None => Err(TOTPErrorReason::InvalidKey),
    }
}

/// A derivation's result, by views.
pub open spec fn outcome_of(r: Result<String, TOTPError>) -> Result<Seq<char>, TOTPErrorReason> {
    match r {
        Ok(s) => Ok(s@),
        Err(e) => Err(e@),
    }
}

/// Whether `key` holds a character that no padded Base32 text can hold.
pub open spec fn has_non_base32_char(key: Seq<char>) -> bool {
    exists|i: int| 0 <= i < key.len() && !#[trigger] is_base32_char(key[i])
}

/// Seconds since the Unix epoch by the system clock.
fn epoch() -> (r: Result<u64, TOTPError>)
    ensures
        r matches Err(e) ==> e@ == TOTPErrorReason::InvalidTime,
{
    match elapsed_since_unix_epoch() {
        Ok(d) => Ok(d.as_secs()),
        Err(_) => Err(TOTPError::new(TOTPErrorReason::InvalidTime)),
    }
}

/// The HMAC-SHA1 tag of the counter's big-endian bytes under the key.
fn hash_time(key: &[u8], time: u64) -> (tag: [u8; 20])
    ensures
        tag@ == hmac_sha1_tag(key@, big_endian(time)),
{
    let message = counter_bytes(time);
    hmac_sha1(key, message.as_slice())
}

/// The secret's bytes, decoded from Base32.
fn key_to_bytes(key: &str) -> (r: Result<Vec<u8>, TOTPError>)
    requires
        key.len() <= usize::MAX / 8,
    ensures
        base32_decoding(key@) matches Some(bytes) ==> (r matches Ok(v) && v@ == bytes),
        base32_decoding(key@) is None ==> (r matches Err(e) && e@ == TOTPErrorReason::InvalidKey),
        has_non_base32_char(key@) ==> base32_decoding(key@) is None,
        is_unpadded_base32(key@) ==> base32_decoding(key@) is Some,
        key@.len() % 8 != 0 ==> base32_decoding(key@) is None,
        r matches Ok(v) ==> (is_unpadded_base32(key@) ==> v@.len() == key@.len() / 8 * 5),
{
    match base32_decode(key) {
        Ok(bytes) => Ok(bytes),
        Err(_) => Err(TOTPError::new(TOTPErrorReason::InvalidKey)),
    }
}

/// The six-digit code that a digest truncates to.
pub fn code_from_digest(digest: [u8; 20]) -> (s: String)
    ensures
        s@ == code_text(truncated(digest@)),
        is_code(s@),
{
    code_to_str(hash_to_code(digest))
}

/// The code for the secret text at the Unix time `epoch`.
pub fn otp_with_time(key: &str, epoch: u64) -> (r: Result<String, TOTPError>)
    requires
        key.len() <= usize::MAX / 8,
    ensures
        outcome_of(r) == totp_outcome(key@, epoch),
        r is Ok <==> base32_decoding(key@) is Some,
        is_unpadded_base32(key@) ==> r is Ok,
        r matches Ok(s) ==> is_code(s@),
        has_non_base32_char(key@) ==> (r matches Err(e) && e@ == TOTPErrorReason::InvalidKey),
        key@.len() % 8 != 0 ==> (r matches Err(e) && e@ == TOTPErrorReason::InvalidKey),
{
    let bytes = match key_to_bytes(key) {
        Ok(bytes) => bytes,
        Err(e) => return Err(e),
    };
    let tag = hash_time(bytes.as_slice(), begin_period_with_time(epoch));
    Ok(code_from_digest(tag))
}

/// The code for the secret text at the current time.
pub fn otp(key: &str) -> (r: Result<String, TOTPError>)
    requires
        key.len() <= usize::MAX / 8,
    ensures
        (r matches Err(e) && e@ == TOTPErrorReason::InvalidTime) || exists|t: u64|
            outcome_of(r) == #[trigger] totp_outcome(key@, t),
        r matches Ok(s) ==> is_code(s@),
        has_non_base32_char(key@) ==> r is Err,
        key@.len() % 8 != 0 ==> r is Err,
{
    let now = match epoch() {
        Ok(t) => t,
        Err(e) => return Err(e),
    };
    otp_with_time(key, now)
}

/// The index of the time step that holds `time`.
pub fn begin_period_with_time(time: u64) -> (r: u64)
    ensures
        r == period_begin(time),
{
    time / TIME_PERIOD
}

/// The step index of `time` plus the period length.
pub fn end_period_with_time(time: u64) -> (r: u64)
    ensures
        r == period_end(time),
{
    begin_period_with_time(time) + TIME_PERIOD
}

/// The index of the current time step.
pub fn begin_period() -> (r: Result<u64, TOTPError>)
    ensures
        r matches Err(e) ==> e@ == TOTPErrorReason::InvalidTime,
        r matches Ok(p) ==> exists|t: u64| p == #[trigger] period_begin(t),
{
    match epoch() {
        Ok(t) => Ok(begin_period_with_time(t)),
        Err(e) => Err(e),
    }
}

/// The index of the current time step plus the period length.
pub fn end_period() -> (r: Result<u64, TOTPError>)
    ensures
        r matches Err(e) ==> e@ == TOTPErrorReason::InvalidTime,
        r matches Ok(p) ==> exists|t: u64| p == #[trigger] period_end(t),
{
    match epoch() {
        Ok(t) => Ok(end_period_with_time(t)),
        Err(e) => Err(e),
    }
}

/// For every valid Base32 secret and every time, the derivation succeeds and
/// gives exactly six ASCII digits.
pub proof fn lemma_valid_secret_gives_code(key: Seq<char>, time: u64)
    requires
        base32_decoding(key) is Some,
    ensures
        totp_outcome(key, time) matches Ok(code) && is_code(code),
{
    let bytes = base32_decoding(key)->Some_0;
    lemma_code_text_is_code(truncated(hmac_sha1_tag(bytes, big_endian(period_begin(time) as u64))));
}

/// Two derivations from the same secret at the same time give the same
/// outcome.
pub proof fn lemma_otp_deterministic(
    key: Seq<char>,
    time: u64,
    first: Result<Seq<char>, TOTPErrorReason>,
    second: Result<Seq<char>, TOTPErrorReason>,
)
    requires
        first == totp_outcome(key, time),
        second == totp_outcome(key, time),
    ensures
        first == second,
{
}

/// Two times in the same thirty-second step give the same outcome.
pub proof fn lemma_same_window_same_code(key: Seq<char>, t1: u64, t2: u64)
    requires
        t1 / TIME_PERIOD == t2 / TIME_PERIOD,
    ensures
        totp_outcome(key, t1) == totp_outcome(key, t2),
{
}

/// For every time, the period's end is its beginning plus the period length.
pub proof fn lemma_period_end_is_begin_plus_period(time: u64)
    ensures
        period_begin(time) + TIME_PERIOD == period_end(time),
{
}

} // verus!
