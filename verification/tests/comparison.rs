use bundler_upgraded::compare::{default_min_bundler_version, is_above_floor};
use bundler_upgraded::errors::CheckError;

#[test]
fn candidate_above_floor() {
    assert_eq!(is_above_floor("1.16.0", "1.15.9"), Ok(true));
}

#[test]
fn candidate_equal_to_floor() {
    assert_eq!(is_above_floor("1.16.0", "1.16.0"), Ok(false));
}

#[test]
fn candidate_below_floor() {
    assert_eq!(is_above_floor("1.15.0", "1.16.0"), Ok(false));
}

#[test]
fn minor_beats_patch() {
    assert_eq!(is_above_floor("2.1.0", "2.0.9"), Ok(true));
}

#[test]
fn prerelease_orders_below_release() {
    assert_eq!(is_above_floor("1.16.0-rc.1", "1.16.0"), Ok(false));
    assert_eq!(is_above_floor("1.16.0", "1.16.0-rc.1"), Ok(true));
}

#[test]
fn unparseable_floor_is_an_error() {
    assert_eq!(
        is_above_floor("1.16.0", "not-a-version"),
        Err(CheckError::FloorUnparseable)
    );
}

#[test]
fn unparseable_candidate_is_an_error() {
    assert_eq!(
        is_above_floor("not-a-version", "1.16.0"),
        Err(CheckError::CandidateUnparseable)
    );
}

#[test]
fn floor_checked_before_candidate() {
    assert_eq!(
        is_above_floor("also-bad", "not-a-version"),
        Err(CheckError::FloorUnparseable)
    );
}

#[test]
fn default_floor_value() {
    assert_eq!(default_min_bundler_version(), "1.16.0");
}
