//! One-Time Password authentication: `otpauth://` URLs.
pub mod query;
pub mod url;
pub mod utf8;
pub mod part;
pub mod label;
pub mod scheme;
pub mod entry;

pub use entry::{Auth, Owned};
pub use label::{Label, Owned as OwnedLabel};
pub use part::{Owned as OwnedPart, Part};
pub use scheme::SCHEME;
pub use url::Url;
