use bundler_upgraded::{CheckError, ResolveError};

#[test]
fn resolve_error_messages() {
    assert_eq!(
        ResolveError::FeedUnavailable.message(),
        "could not download the release feed"
    );
    assert_eq!(
        ResolveError::MalformedFeed.message(),
        "could not find the latest release in the feed"
    );
    assert_eq!(
        ResolveError::MalformedReleaseId.message(),
        "no path separator in the release identifier"
    );
    assert_eq!(
        ResolveError::SourceUnavailable.message(),
        "could not download the release's source text"
    );
}

#[test]
fn check_error_messages() {
    assert_eq!(
        CheckError::Resolve(ResolveError::FeedUnavailable).message(),
        "could not download the release feed"
    );
    assert_eq!(
        CheckError::FloorUnparseable.message(),
        "could not parse the minimum version"
    );
    assert_eq!(
        CheckError::CandidateUnparseable.message(),
        "could not parse the resolved version"
    );
}
