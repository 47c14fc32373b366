//! Fetching the "ebuild cleanup candidates" report of the Gentoo QA site,
//! with a verified builder for its URL, together with the block arithmetic
//! and keychain search options that the project carries.
pub mod blocks;
pub mod err;
pub mod item;
pub mod report;
pub mod ua;
pub mod url_build;

pub use err::{ErrorKind, UrlParseError};
pub use ua::parse_url;
pub use url_build::UrlBuilder;
