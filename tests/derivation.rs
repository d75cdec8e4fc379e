use totp::hotp::{code_to_str, counter_bytes, hash_to_code, last_six_digits_of_num};
use totp::totp::code_from_digest;
use totp::{
    begin_period, begin_period_with_time, end_period, end_period_with_time, otp, otp_with_time,
    TOTPError, TOTPErrorReason,
};

const KEY: &str = "TKI3J4MD6HBVVLAB";
const TIME: u64 = 1578082942;

/// Base32 of the ASCII secret "12345678901234567890".
const RFC_KEY: &str = "GEZDGNBVGY3TQOJQGEZDGNBVGY3TQOJQ";

fn is_six_digits(s: &str) -> bool {
    s.len() == 6 && s.chars().all(|c| c.is_ascii_digit())
}

#[test]
fn generate_valid_otp() {
    const RESULT: &str = "075767";

    assert_eq!(otp_with_time(KEY, TIME).unwrap(), RESULT);
}

#[test]
fn rfc_6238_sha1_vectors() {
    assert_eq!(otp_with_time(RFC_KEY, 59).unwrap(), "287082");
    assert_eq!(otp_with_time(RFC_KEY, 1111111109).unwrap(), "081804");
    assert_eq!(otp_with_time(RFC_KEY, 1111111111).unwrap(), "050471");
    assert_eq!(otp_with_time(RFC_KEY, 1234567890).unwrap(), "005924");
    assert_eq!(otp_with_time(RFC_KEY, 2000000000).unwrap(), "279037");
    assert_eq!(otp_with_time(RFC_KEY, 20000000000).unwrap(), "353130");
}

#[test]
fn code_is_six_ascii_digits() {
    for t in [0u64, 1, 29, 30, TIME, u64::MAX] {
        let code = otp_with_time(KEY, t).unwrap();
        assert!(is_six_digits(&code));
    }
}

#[test]
fn same_arguments_give_same_code() {
    assert_eq!(otp_with_time(KEY, TIME), otp_with_time(KEY, TIME));
}

#[test]
fn same_window_gives_same_code() {
    let start = TIME / 30 * 30;
    let expected = otp_with_time(KEY, TIME).unwrap();
    assert_eq!(otp_with_time(KEY, start).unwrap(), expected);
    assert_eq!(otp_with_time(KEY, start + 29).unwrap(), expected);
}

#[test]
fn next_window_gives_another_code() {
    assert_ne!(otp_with_time(KEY, TIME).unwrap(), otp_with_time(KEY, TIME + 30).unwrap());
}

#[test]
fn digit_one_is_invalid_key() {
    let err = otp_with_time("TKI3J4MD6HBVVLA1", TIME).unwrap_err();
    assert_eq!(err.reason(), TOTPErrorReason::InvalidKey);
}

#[test]
fn lowercase_is_invalid_key() {
    let err = otp_with_time("tki3j4md6hbvvlab", TIME).unwrap_err();
    assert_eq!(err.reason(), TOTPErrorReason::InvalidKey);
}

#[test]
fn partial_block_is_invalid_key() {
    let err = otp_with_time("TKI3J4M", TIME).unwrap_err();
    assert_eq!(err, TOTPError::new(TOTPErrorReason::InvalidKey));
}

#[test]
fn misplaced_padding_is_invalid_key() {
    let err = otp_with_time("MF=RGG==", TIME).unwrap_err();
    assert_eq!(err.reason(), TOTPErrorReason::InvalidKey);
}

#[test]
fn padded_key_is_accepted() {
    let code = otp_with_time("MFRGG===", TIME).unwrap();
    assert!(is_six_digits(&code));
}

#[test]
fn empty_key_is_accepted() {
    let code = otp_with_time("", TIME).unwrap();
    assert!(is_six_digits(&code));
}

#[test]
fn current_code_is_six_digits() {
    let code = otp(KEY).unwrap();
    assert!(is_six_digits(&code));
}

#[test]
fn current_code_rejects_invalid_key() {
    assert!(otp("1").is_err());
}

#[test]
fn small_value_is_zero_padded() {
    assert_eq!(code_to_str(42), "000042");
    assert_eq!(code_to_str(0), "000000");
}

#[test]
fn large_value_keeps_last_six_digits() {
    assert_eq!(last_six_digits_of_num(1234567), 234567);
    assert_eq!(last_six_digits_of_num(999999), 999999);
    assert_eq!(last_six_digits_of_num(1000000), 0);
    assert_eq!(code_to_str(1234567), "234567");
    assert_eq!(code_to_str(u64::MAX), "551615");
}

#[test]
fn rfc_4226_truncation_example() {
    let digest: [u8; 20] = [
        0x1f, 0x86, 0x98, 0x69, 0x0e, 0x02, 0xca, 0x16, 0x61, 0x85, 0x50, 0xef, 0x7f, 0x19, 0xda,
        0x8e, 0x94, 0x5b, 0x55, 0x5a,
    ];
    assert_eq!(hash_to_code(digest), 0x50ef7f19);
    assert_eq!(hash_to_code(digest), 1357872921);
    assert_eq!(code_from_digest(digest), "872921");
}

#[test]
fn truncation_clears_top_bit() {
    let mut digest = [0xffu8; 20];
    digest[19] = 0xf0;
    assert_eq!(hash_to_code(digest), 0x7fffffff);
    digest[19] = 0x0f;
    assert_eq!(hash_to_code(digest), 0x7fffffff);
    let mut zero = [0u8; 20];
    zero[19] = 0x03;
    assert_eq!(hash_to_code(zero), 0);
}

#[test]
fn counter_is_big_endian() {
    assert_eq!(counter_bytes(1), [0, 0, 0, 0, 0, 0, 0, 1]);
    assert_eq!(counter_bytes(0x0102030405060708), [1, 2, 3, 4, 5, 6, 7, 8]);
    assert_eq!(counter_bytes(TIME / 30), (TIME / 30).to_be_bytes());
}

#[test]
fn period_arithmetic() {
    assert_eq!(begin_period_with_time(59), 1);
    assert_eq!(begin_period_with_time(60), 2);
    assert_eq!(end_period_with_time(59), 31);
    assert_eq!(begin_period_with_time(TIME), 52602764);
    assert_eq!(end_period_with_time(TIME), 52602794);
    assert_eq!(begin_period_with_time(u64::MAX) + 30, end_period_with_time(u64::MAX));
}

#[test]
fn current_period_is_available() {
    let begin = begin_period().unwrap();
    let end = end_period().unwrap();
    assert!(end >= begin + 30);
}

#[test]
fn error_descriptions_differ() {
    let key = TOTPError::new(TOTPErrorReason::InvalidKey);
    let time = TOTPError::new(TOTPErrorReason::InvalidTime);
    assert_eq!(key.description(), "Provided key could not be BASE32 decoded");
    assert_eq!(time.description(), "System time set to before UNIX epoch");
    assert_eq!(time.reason(), TOTPErrorReason::InvalidTime);
}

#[test]
fn length_not_multiple_of_eight_is_invalid_key() {
    let err = otp_with_time("TKI3J4MD6HBVVLA", TIME).unwrap_err();
    assert_eq!(err.reason(), TOTPErrorReason::InvalidKey);
    assert_eq!(otp("TKI3J4MD6HBVVLA").unwrap_err().reason(), TOTPErrorReason::InvalidKey);
}
