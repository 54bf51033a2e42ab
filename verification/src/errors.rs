//! Error taxonomy of the version-resolution pipeline.
//!
//! Transient cache failures never surface here: the cache layer degrades to a
//! miss instead. These variants cover only contract violations — a broken
//! feed, a malformed release identifier, an unreachable remote, or an
//! unparseable semantic version.

use vstd::prelude::*;

verus! {

/// A fatal failure while resolving the current Bundler version.
#[derive(Clone, Copy, Debug, PartialEq, Eq, Structural)]
pub enum ResolveError {
    /// The release feed could not be fetched.
    FeedUnavailable,
    /// The feed was not well-formed XML, or held no entry identifier.
    MalformedFeed,
    /// The entry identifier held no path separator to split a tag from.
    MalformedReleaseId,
    /// The release's source text could not be fetched.
    SourceUnavailable,
}

/// A fatal failure of the overall upgrade check.
#[derive(Clone, Copy, Debug, PartialEq, Eq, Structural)]
pub enum CheckError {
    /// Version resolution failed.
    Resolve(ResolveError),
    /// The configured version floor is not a semantic version.
    FloorUnparseable,
    /// The resolved candidate is not a semantic version.
    CandidateUnparseable,
}

impl ResolveError {
    /// The description that `message` returns for each variant.
    pub open spec fn message_spec(self) -> Seq<char> {
        match self {
            ResolveError::FeedUnavailable => "could not download the release feed"@,
            ResolveError::MalformedFeed => "could not find the latest release in the feed"@,
            ResolveError::MalformedReleaseId => "no path separator in the release identifier"@,
            ResolveError::SourceUnavailable => "could not download the release's source text"@,
        }
    }

    /// A short description, for callers that log or render the failure.
    pub fn message(&self) -> (r: &'static str)
        ensures
            r@ == self.message_spec(),
    {
        match self {
            ResolveError::FeedUnavailable => "could not download the release feed",
            ResolveError::MalformedFeed => "could not find the latest release in the feed",
            ResolveError::MalformedReleaseId => "no path separator in the release identifier",
            ResolveError::SourceUnavailable => "could not download the release's source text",
        }
    }
}

impl CheckError {
    /// The description that `message` returns for each variant.
    pub open spec fn message_spec(self) -> Seq<char> {
        match self {
            CheckError::Resolve(e) => e.message_spec(),
            CheckError::FloorUnparseable => "could not parse the minimum version"@,
            CheckError::CandidateUnparseable => "could not parse the resolved version"@,
        }
    }

    /// A short description, for callers that log or render the failure.
    pub fn message(&self) -> (r: &'static str)
        ensures
            r@ == self.message_spec(),
    {
        match self {
            CheckError::Resolve(e) => e.message(),
            CheckError::FloorUnparseable => "could not parse the minimum version",
            CheckError::CandidateUnparseable => "could not parse the resolved version",
        }
    }
}

} // verus!
