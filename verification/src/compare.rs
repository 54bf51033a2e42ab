//! Strict semantic-version comparison against the configured floor.
//!
//! Parsing and precedence are delegated to the semver crate; the comparison
//! is strict greater-than, so equality with the floor means "not upgraded".

use vstd::prelude::*;

verus! {

use crate::errors::CheckError;

/// Whether `s` is a well-formed semantic version, as semver's parser accepts
/// it.
pub uninterp spec fn semver_parses(s: Seq<char>) -> bool;

/// Whether version text `a` orders strictly below version text `b` under
/// semver's precedence; meaningful when both texts parse.
pub uninterp spec fn semver_lt(a: Seq<char>, b: Seq<char>) -> bool;

/// Declares semver's version type so it can stand in a field.
#[verifier::external_type_specification]
#[verifier::external_body]
pub struct ExVersion(semver::Version);

/// A parsed semantic version, remembering the text it was parsed from.
pub struct SemVersion {
    parsed: semver::Version,
    source: String,
}

impl SemVersion {
    /// The text this version was parsed from.
    pub closed spec fn text(self) -> Seq<char> {
        self.source@
    }
}

/// Relies on `semver::Version::parse`: strict SemVer 2.0 parsing, `Ok`
/// exactly on well-formed version strings.
#[verifier::external_body]
pub fn parse_version(s: &str) -> (r: Option<SemVersion>)
    ensures
        r is Some <==> semver_parses(s@),
        r matches Some(v) ==> v.text() == s@,
{
    match semver::Version::parse(s) {
        Ok(parsed) => Some(SemVersion { parsed, source: s.to_owned() }),
        Err(_) => None,
    }
}

/// Relies on the `Ord` that `semver::Version` derives: major, minor and
/// patch numerically, then pre-release under SemVer precedence, then build
/// metadata as a tiebreak — a deterministic function of the two version
/// texts alone.
#[verifier::external_body]
pub fn version_lt(a: &SemVersion, b: &SemVersion) -> (r: bool)
    ensures
        r == semver_lt(a.text(), b.text()),
{
    a.parsed < b.parsed
}

/// What the comparison yields: a parse failure of either operand is fatal,
/// the floor checked first; otherwise whether the floor orders strictly
/// below the candidate.
pub open spec fn spec_is_above_floor(candidate: Seq<char>, floor: Seq<char>) -> Result<
    bool,
    CheckError,
> {
    if !semver_parses(floor) {
        Err(CheckError::FloorUnparseable)
    } else if !semver_parses(candidate) {
        Err(CheckError::CandidateUnparseable)
    } else {
        Ok(semver_lt(floor, candidate))
    }
}

/// Whether `candidate` exceeds `floor` under strict semver precedence.
///
/// Strictly greater-than: equality with the floor yields `false`. A parse
/// failure of either operand is an error, never a quiet `false`.
pub fn is_above_floor(candidate: &str, floor: &str) -> (r: Result<bool, CheckError>)
    ensures
        r == spec_is_above_floor(candidate@, floor@),
{
    let floor_version = match parse_version(floor) {
        Some(v) => v,
        None => {
            return Err(CheckError::FloorUnparseable);
        },
    };
    let candidate_version = match parse_version(candidate) {
        Some(v) => v,
        None => {
            return Err(CheckError::CandidateUnparseable);
        },
    };
    Ok(version_lt(&floor_version, &candidate_version))
}

/// The compiled-in default version floor, used when no other is configured.
pub fn default_min_bundler_version() -> (r: &'static str)
    ensures
        r@ == "1.16.0"@,
{
    "1.16.0"
}

} // verus!
