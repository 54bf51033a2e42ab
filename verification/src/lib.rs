//! Checks whether the Ruby buildpack's bundled Bundler exceeds a configured
//! minimum version.
//!
//! The core pipeline discovers the latest buildpack release tag from a
//! syndication feed, extracts the `BUNDLER_VERSION` literal from the release's
//! source text, layers an optional cache-aside store over both lookups, and
//! compares the result against a semantic-version floor.

pub mod assoc;
pub mod cache;
pub mod compare;
pub mod errors;
pub mod extract;
pub mod feed;
pub mod negotiate;
pub mod resolver;
pub mod text;
pub mod transport;

pub use errors::{CheckError, ResolveError};
