//! Time-based one-time passwords: a six-digit code derived from a Base32
//! secret and the Unix time, by HMAC-SHA1 over a thirty-second step counter
//! and dynamic truncation.

pub mod error;
pub mod foreign;
pub mod hotp;
pub mod totp;

pub use error::{TOTPError, TOTPErrorReason};
pub use totp::{
    begin_period, begin_period_with_time, end_period, end_period_with_time, otp, otp_with_time,
};
