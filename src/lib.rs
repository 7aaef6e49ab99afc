//! Generating and checking one-time passwords (HOTP and TOTP), and reading and writing
//! `otpauth://` URLs.
pub mod algorithm;
pub mod auth;
pub mod base;
pub mod counter;
pub mod digits;
pub mod hotp;
pub mod integer;
pub mod otp;
pub mod period;
pub mod secret;
pub mod skew;
pub mod text;
pub mod time;
pub mod totp;

pub use algorithm::Algorithm;
pub use auth::{Auth, Label, OwnedLabel, OwnedPart, Part};
pub use base::{Base, Owned as OwnedBase};
pub use counter::Counter;
pub use digits::Digits;
pub use hotp::{Hotp, Owned as OwnedHotp};
pub use otp::{Otp, Owned as OwnedOtp, Type};
pub use period::Period;
pub use secret::{Length, Owned as OwnedSecret, Secret};
pub use skew::Skew;
pub use time::now;
pub use totp::{Owned as OwnedTotp, Totp};
