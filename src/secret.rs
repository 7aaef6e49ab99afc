//! Secrets used in OTP generation.
pub mod encoding;
pub mod generate;
pub mod length;
pub mod value;

pub use length::Length;
pub use value::{Error, Owned, Secret};
