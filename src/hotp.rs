//! The pure stages of code derivation: the counter's big-endian encoding,
//! dynamic truncation of a digest, and the six-digit decimal rendering.

use vstd::prelude::*;

verus! {

/// Number of decimal digits in a code.
pub const DIGITS: usize = 6;

/// Ten to the power of the number of digits in a code.
pub const CODE_MODULUS: u64 = 1000000;

/// The 31-bit integer that dynamic truncation takes from a digest: the four
/// bytes starting at the offset given by the low nibble of byte 19, read
/// big-endian, with the top bit cleared.
pub open spec fn truncated(digest: Seq<u8>) -> nat
    recommends
        digest.len() == 20,
{
    let offset = (digest[19] % 16) as int;
    ((digest[offset] % 128) as nat) * 0x1000000
        + (digest[offset + 1] as nat) * 0x10000
        + (digest[offset + 2] as nat) * 0x100
        + (digest[offset + 3] as nat)
}

/// Dynamic truncation of an HMAC-SHA1 digest.
pub fn hash_to_code(hash: [u8; 20]) -> (code: u64)
    ensures
        code == truncated(hash@),
        code < 0x80000000,
{
    let last = hash[19];
    let offset = (last & 0xf) as usize;
    assert(last & 0xf == last % 16) by (bit_vector);
    let b0 = hash[offset];
    let b1 = hash[offset + 1];
    let b2 = hash[offset + 2];
    let b3 = hash[offset + 3];
    let code = (b0 as u64 & 0x7f) << 24 | (b1 as u64 & 0xff) << 16 | (b2 as u64 & 0xff) << 8 | (
    b3 as u64 & 0xff);
    assert(code == (b0 % 128) as u64 * 0x1000000 + b1 as u64 * 0x10000 + b2 as u64 * 0x100
        + b3 as u64 && code < 0x80000000) by (bit_vector)
        requires
            code == (b0 as u64 & 0x7f) << 24 | (b1 as u64 & 0xff) << 16 | (b2 as u64 & 0xff) << 8 | (
            b3 as u64 & 0xff),
    ;
    code
}

/// Ten to the power `k`.
pub open spec fn pow10(k: nat) -> nat
    decreases k,
{
    if k == 0 {
        1
    } else {
        10 * pow10((k - 1) as nat)
    }
}

proof fn lemma_pow10_positive(k: nat)
    ensures
        pow10(k) >= 1,
    decreases k,
{
    if k > 0 {
        lemma_pow10_positive((k - 1) as nat);
    }
}

/// The character of the decimal digit `d`.
pub open spec fn digit_char(d: nat) -> char {
    ((d + 48) as u8) as char
}

/// Whether `c` is one of the ASCII digits '0' to '9'.
pub open spec fn is_ascii_digit(c: char) -> bool {
    '0' <= c <= '9'
}

/// Whether `s` is a code: exactly six ASCII digits.
pub open spec fn is_code(s: Seq<char>) -> bool {
    &&& s.len() == DIGITS
    &&& forall|i: int| 0 <= i < s.len() ==> #[trigger] is_ascii_digit(s[i])
}

/// The value reduced to its last six decimal digits.
pub open spec fn last_six_digits(value: nat) -> nat {
    value % (CODE_MODULUS as nat)
}

/// `value` written in decimal with exactly six digits, most significant first,
/// padded with '0' on the left; for values of a million or more, their last
/// six digits.
pub open spec fn padded_decimal(value: nat) -> Seq<char> {
    Seq::new(DIGITS as nat, |i: int| digit_char((value / pow10((DIGITS - 1 - i) as nat)) % 10))
}

/// The code that a truncated value renders to.
pub open spec fn code_text(value: nat) -> Seq<char> {
    padded_decimal(last_six_digits(value))
}

/// Every rendered value is a code.
pub proof fn lemma_code_text_is_code(value: nat)
    ensures
        is_code(code_text(value)),
{
    let s = code_text(value);
    assert forall|i: int| 0 <= i < s.len() implies #[trigger] is_ascii_digit(s[i]) by {
        let d = (last_six_digits(value) / pow10((DIGITS - 1 - i) as nat)) % 10;
        assert(0 <= d < 10);
    }
}

/// Reduction of a value to its last six decimal digits.
pub fn last_six_digits_of_num(num: u64) -> (r: u64)
    ensures
        r == last_six_digits(num as nat),
        r < CODE_MODULUS,
{
    num % CODE_MODULUS
}

fn digit_to_char(d: u64) -> (c: char)
    requires
        d < 10,
    ensures
        c == digit_char(d as nat),
{
    ((d as u8) + 48) as char
}

/// The six-digit, zero-padded decimal rendering of the last six digits of
/// `code`.
pub fn code_to_str(code: u64) -> (s: String)
    ensures
        s@ == code_text(code as nat),
        is_code(s@),
{
    let value = last_six_digits_of_num(code);
    let mut s = String::new();
    let mut div: u64 = 100000;
    let mut i: usize = 0;
    proof {
        reveal_with_fuel(pow10, 6);
    }
    while i < DIGITS
        invariant
            i <= DIGITS,
            value == last_six_digits(code as nat),
            i < DIGITS ==> div == pow10((DIGITS - 1 - i) as nat),
            s@ == code_text(code as nat).take(i as int),
        decreases DIGITS - i,
    {
        proof {
            lemma_pow10_positive((DIGITS - 1 - i) as nat);
        }
        let d = (value / div) % 10;
        s.push(digit_to_char(d));
        assert(s@ =~= code_text(code as nat).take(i + 1));
        if i + 1 < DIGITS {
            div = div / 10;
        }
        i = i + 1;
    }
    assert(s@ =~= code_text(code as nat));
    proof {
        lemma_code_text_is_code(code as nat);
    }
    s
}

/// The eight-byte big-endian encoding of `n`.
pub open spec fn big_endian(n: u64) -> Seq<u8> {
    seq![
        (n / 0x100000000000000) as u8,
        ((n / 0x1000000000000) % 0x100) as u8,
        ((n / 0x10000000000) % 0x100) as u8,
        ((n / 0x100000000) % 0x100) as u8,
        ((n / 0x1000000) % 0x100) as u8,
        ((n / 0x10000) % 0x100) as u8,
        ((n / 0x100) % 0x100) as u8,
        (n % 0x100) as u8,
    ]
}

/// The counter as the eight-byte big-endian HMAC message.
pub fn counter_bytes(n: u64) -> (r: [u8; 8])
    ensures
        r@ == big_endian(n),
{
    let r = [
        (n >> 56) as u8,
        (n >> 48) as u8,
        (n >> 40) as u8,
        (n >> 32) as u8,
        (n >> 24) as u8,
        (n >> 16) as u8,
        (n >> 8) as u8,
        n as u8,
    ];
    assert((n >> 56) as u8 == (n / 0x100000000000000) as u8) by (bit_vector);
    assert((n >> 48) as u8 == ((n / 0x1000000000000) % 0x100) as u8) by (bit_vector);
    assert((n >> 40) as u8 == ((n / 0x10000000000) % 0x100) as u8) by (bit_vector);
    assert((n >> 32) as u8 == ((n / 0x100000000) % 0x100) as u8) by (bit_vector);
    assert((n >> 24) as u8 == ((n / 0x1000000) % 0x100) as u8) by (bit_vector);
    assert((n >> 16) as u8 == ((n / 0x10000) % 0x100) as u8) by (bit_vector);
    assert((n >> 8) as u8 == ((n / 0x100) % 0x100) as u8) by (bit_vector);
    assert(n as u8 == (n % 0x100) as u8) by (bit_vector);
    assert(r@ =~= big_endian(n));
    r
}

} // verus!
