//! Extracts the Bundler version literal from the buildpack's source text.
//!
//! The buildpack declares its bundled dependency manager as a quoted literal
//! after the `BUNDLER_VERSION` marker, e.g. `BUNDLER_VERSION = "2.3.4"`. The
//! recognised shape is: the marker, one or more spaces, `= "`, then the
//! shortest run of one or more characters (none of them a newline) up to a
//! closing quote. The earliest position in the text where that whole shape
//! matches wins.

use vstd::prelude::*;

verus! {

use vstd::string::StrSliceExecFns;
use vstd::string::StringExecFns;
use crate::errors::ResolveError;
use crate::text::{chars_of, matches_at};
use crate::transport::Transport;

/// The marker that announces the version literal.
pub open spec fn marker() -> Seq<char> {
    "BUNDLER_VERSION"@
}

/// The first index at or after `i` whose character is not a space; `t.len()`
/// if spaces run to the end.
pub open spec fn space_run_end(t: Seq<char>, i: int) -> int
    decreases t.len() - i,
{
    if i < 0 || i >= t.len() {
        i
    } else if t[i] == ' ' {
        space_run_end(t, i + 1)
    } else {
        i
    }
}

/// The position of the closing quote: the first `"` at or after `j`, provided
/// no newline comes first. `None` if a newline or the end of the text is
/// reached before any quote.
pub open spec fn close_quote_from(t: Seq<char>, j: int) -> Option<int>
    decreases t.len() - j,
{
    if j < 0 || j >= t.len() {
        None
    } else if t[j] == '"' {
        Some(j)
    } else if t[j] == '\n' {
        None
    } else {
        close_quote_from(t, j + 1)
    }
}

/// The whole shape matches starting at position `i`: marker, at least one
/// space, `= "`, then at least one non-newline character before a closing
/// quote.
pub open spec fn match_at(t: Seq<char>, i: int) -> bool {
    let m = i + marker().len();
    let k = space_run_end(t, m);
    &&& 0 <= i
    &&& m <= t.len()
    &&& t.subrange(i, m) == marker()
    &&& m < k
    &&& k + 3 < t.len()
    &&& t[k] == '='
    &&& t[k + 1] == ' '
    &&& t[k + 2] == '"'
    &&& t[k + 3] != '\n'
    &&& close_quote_from(t, k + 4) is Some
}

/// The captured literal of a match at position `i`: everything between the
/// opening and the closing quote.
pub open spec fn capture_at(t: Seq<char>, i: int) -> Seq<char> {
    let k = space_run_end(t, i + marker().len());
    match close_quote_from(t, k + 4) {
        Some(e) => t.subrange(k + 3, e),
        None => Seq::empty(),
    }
}

/// The earliest match position at or after `i`.
pub open spec fn first_match_from(t: Seq<char>, i: int) -> Option<int>
    decreases t.len() - i,
{
    if i < 0 || i >= t.len() {
        None
    } else if match_at(t, i) {
        Some(i)
    } else {
        first_match_from(t, i + 1)
    }
}

/// The version literal embedded in `t`, if the shape occurs anywhere.
pub open spec fn extracted(t: Seq<char>) -> Option<Seq<char>> {
    match first_match_from(t, 0) {
        Some(i) => Some(capture_at(t, i)),
        None => None,
    }
}

/// `r` carries exactly the sequence `s`, if any.
pub open spec fn opt_matches(r: Option<String>, s: Option<Seq<char>>) -> bool {
    match (r, s) {
        (Some(v), Some(w)) => v@ == w,
        (None, None) => true,
        _ => false,
    }
}

/// The closing quote never lies before the position the scan starts from.
pub proof fn lemma_close_quote_not_before_start(t: Seq<char>, j: int)
    requires
        close_quote_from(t, j) is Some,
    ensures
        close_quote_from(t, j) matches Some(e) && j <= e < t.len(),
    decreases t.len() - j,
{
    if 0 <= j < t.len() && t[j] != '"' && t[j] != '\n' {
        lemma_close_quote_not_before_start(t, j + 1);
    }
}

/// The position the scan finds is a position where the shape matches.
pub proof fn lemma_first_match_is_match(t: Seq<char>, j: int)
    requires
        first_match_from(t, j) is Some,
    ensures
        first_match_from(t, j) matches Some(i) && match_at(t, i),
    decreases t.len() - j,
{
    if 0 <= j < t.len() && !match_at(t, j) {
        lemma_first_match_is_match(t, j + 1);
    }
}

/// An extracted version literal is never empty: the shape demands at least
/// one character between the quotes.
pub proof fn lemma_extracted_nonempty(t: Seq<char>)
    ensures
        extracted(t) matches Some(v) ==> v.len() > 0,
{
    if first_match_from(t, 0) is Some {
        lemma_first_match_is_match(t, 0);
        let i = first_match_from(t, 0)->Some_0;
        let k = space_run_end(t, i + marker().len());
        lemma_close_quote_not_before_start(t, k + 4);
    }
}

/// Finds the end of the space run beginning at `i`.
fn space_end(t: &Vec<char>, i: usize) -> (k: usize)
    requires
        i <= t@.len(),
    ensures
        k == space_run_end(t@, i as int),
        i <= k <= t@.len(),
{
    let mut k: usize = i;
    while k < t.len() && t[k] == ' '
        invariant
            i <= k <= t@.len(),
            space_run_end(t@, i as int) == space_run_end(t@, k as int),
        decreases t@.len() - k,
    {
        proof {
            assert(space_run_end(t@, k as int) == space_run_end(t@, k + 1));
        }
        k = k + 1;
    }
    proof {
        assert(space_run_end(t@, k as int) == k);
    }
    k
}

/// Scans for the closing quote from position `j` on.
fn close_quote(t: &Vec<char>, j: usize) -> (r: Option<usize>)
    requires
        j <= t@.len(),
    ensures
        match r {
            Some(e) => close_quote_from(t@, j as int) == Some(e as int) && j <= e < t@.len(),
            None => close_quote_from(t@, j as int) is None,
        },
{
    let mut e: usize = j;
    while e < t.len()
        invariant
            j <= e <= t@.len(),
            close_quote_from(t@, j as int) == close_quote_from(t@, e as int),
        decreases t@.len() - e,
    {
        if t[e] == '"' {
            proof {
                assert(close_quote_from(t@, e as int) == Some(e as int));
            }
            return Some(e);
        }
        if t[e] == '\n' {
            proof {
                assert(close_quote_from(t@, e as int) is None);
            }
            return None;
        }
        proof {
            assert(close_quote_from(t@, e as int) == close_quote_from(t@, e + 1));
        }
        e = e + 1;
    }
    proof {
        assert(close_quote_from(t@, e as int) is None);
    }
    None
}

/// Extracts the Bundler version literal from source text.
///
/// Returns the capture of the earliest occurrence of the marker shape, and
/// `None` when the text nowhere declares the version — a legitimate absence,
/// not an error.
pub fn extract_version(text: &str) -> (r: Option<String>)
    ensures
        opt_matches(r, extracted(text@)),
{
    let t = chars_of(text);
    let mk = chars_of("BUNDLER_VERSION");
    proof {
        reveal_strlit("BUNDLER_VERSION");
        assert(mk@ == marker());
        assert(marker().len() == 15);
    }
    let mut i: usize = 0;
    while i < t.len()
        invariant
            t@ == text@,
            mk@ == marker(),
            marker().len() == 15,
            i <= t@.len(),
            first_match_from(t@, 0) == first_match_from(t@, i as int),
        decreases t@.len() - i,
    {
        if matches_at(&t, &mk, i) {
            let m = i + 15;
            let k = space_end(&t, m);
            if k > m && t.len() - k > 3 && t[k] == '=' && t[k + 1] == ' ' && t[k + 2] == '"'
                && t[k + 3] != '\n' {
                match close_quote(&t, k + 4) {
                    Some(e) => {
                        proof {
                            assert(t@.subrange(i as int, i + 15) == mk@);
                            assert(match_at(t@, i as int));
                            assert(first_match_from(t@, i as int) == Some(i as int));
                            assert(extracted(text@) == Some(capture_at(text@, i as int)));
                        }
                        let cap = text.substring_char(k + 3, e).to_owned();
                        return Some(cap);
                    },
                    None => {
                        proof {
                            assert(!match_at(t@, i as int));
                            assert(first_match_from(t@, i as int) == first_match_from(
                                t@,
                                i + 1,
                            ));
                        }
                    },
                }
            } else {
                proof {
                    assert(!match_at(t@, i as int));
                    assert(first_match_from(t@, i as int) == first_match_from(t@, i + 1));
                }
            }
        } else {
            proof {
                assert(!(t@.subrange(i as int, i + 15) == mk@ && i + 15 <= t@.len()));
                assert(!match_at(t@, i as int));
                assert(first_match_from(t@, i as int) == first_match_from(t@, i + 1));
            }
        }
        i = i + 1;
    }
    proof {
        assert(first_match_from(t@, i as int) is None);
        assert(extracted(text@) is None);
    }
    None
}

/// The URL of the buildpack source file that declares the Bundler version,
/// for the release named by `tag`.
pub open spec fn source_url_spec(tag: Seq<char>) -> Seq<char> {
    "https://raw.githubusercontent.com/heroku/heroku-buildpack-ruby/"@ + tag
        + "/lib/language_pack/ruby.rb"@
}

/// Builds the source-file URL for a release tag.
pub fn source_url(tag: &str) -> (r: String)
    ensures
        r@ == source_url_spec(tag@),
{
    let mut url = String::from_str("https://raw.githubusercontent.com/heroku/heroku-buildpack-ruby/");
    url.append(tag);
    url.append("/lib/language_pack/ruby.rb");
    url
}

/// `r` carries exactly the resolved version or error that `s` names.
pub open spec fn version_result_matches(
    r: Result<Option<String>, ResolveError>,
    s: Result<Option<Seq<char>>, ResolveError>,
) -> bool {
    match (r, s) {
        (Ok(a), Ok(b)) => opt_matches(a, b),
        (Err(e), Err(f)) => e == f,
        _ => false,
    }
}

/// What fetching and scanning the release's source text yields from the
/// given resources: the embedded version, `None` when the marker is absent,
/// an error only when the text cannot be fetched.
pub open spec fn spec_fetch_version(bodies: Map<Seq<char>, Seq<char>>, tag: Seq<char>) -> Result<
    Option<Seq<char>>,
    ResolveError,
> {
    if !bodies.contains_key(source_url_spec(tag)) {
        Err(ResolveError::SourceUnavailable)
    } else {
        Ok(extracted(bodies[source_url_spec(tag)]))
    }
}

/// Downloads the release's source text and extracts the version literal.
///
/// A fetched text is always scanned faithfully; only the fetch itself may
/// fail spuriously, and never on a reliable transport that has the text.
pub fn version_from_source<T: Transport>(tr: &mut T, tag: &str) -> (r: Result<
    Option<String>,
    ResolveError,
>)
    ensures
        final(tr).bodies() == old(tr).bodies(),
        final(tr).reliable() == old(tr).reliable(),
        r matches Ok(o) ==> (spec_fetch_version(old(tr).bodies(), tag@) matches Ok(w)
            && opt_matches(o, w)),
        r is Err ==> r == Err::<Option<String>, ResolveError>(ResolveError::SourceUnavailable),
        old(tr).reliable() ==> version_result_matches(r, spec_fetch_version(old(tr).bodies(), tag@)),
{
    let url = source_url(tag);
    match tr.fetch(url.as_str()) {
        Err(_) => Err(ResolveError::SourceUnavailable),
        Ok(text) => Ok(extract_version(text.as_str())),
    }
}

} // verus!
