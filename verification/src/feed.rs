//! Discovers the latest buildpack release tag from the upstream release feed.
//!
//! The feed is a syndication XML document whose first entry carries an
//! identifier shaped like a URL or path; the release tag is its final path
//! segment, after the last `/`.

use vstd::prelude::*;

verus! {

use vstd::string::StrSliceExecFns;
use crate::errors::ResolveError;
use crate::extract::opt_matches;
use crate::text::chars_of;
use crate::transport::Transport;

/// The fixed URL of the release feed.
pub open spec fn feed_url_spec() -> Seq<char> {
    "https://github.com/heroku/heroku-buildpack-ruby/releases.atom"@
}

/// The fixed URL of the release feed.
pub fn feed_url() -> (r: &'static str)
    ensures
        r@ == feed_url_spec(),
{
    "https://github.com/heroku/heroku-buildpack-ruby/releases.atom"
}

/// The text of the first entry's `id` element of the feed document, or `None`
/// when the document does not parse or holds no such element.
pub uninterp spec fn entry_id_of(xml: Seq<char>) -> Option<Seq<char>>;

/// Relies on rquery `0.2`: `Document::new_from_xml_string` builds the DOM of
/// the XML text, `select("entry id")` walks it in document order for the
/// first `id` element under an `entry` element, and `text()` returns that
/// element's character data — all deterministic functions of the document
/// text alone. Parse and select failures are folded into `None`. (xml-rs
/// reports truncated or unbalanced documents as reader errors, so parsing
/// returns `Err` rather than panicking.)
#[verifier::external_body]
fn latest_entry_id(xml: &str) -> (r: Option<String>)
    ensures
        opt_matches(r, entry_id_of(xml@)),
{
    match rquery::Document::new_from_xml_string(xml) {
        Ok(doc) => match doc.select("entry id") {
            Ok(element) => Some(element.text().clone()),
            Err(_) => None,
        },
        Err(_) => None,
    }
}

/// The position of the last `/` at or before position `i`.
pub open spec fn last_slash_from(t: Seq<char>, i: int) -> Option<int>
    decreases i + 1,
{
    if i < 0 || i >= t.len() {
        None
    } else if t[i] == '/' {
        Some(i)
    } else {
        last_slash_from(t, i - 1)
    }
}

/// The release tag a feed entry identifier names: its final path segment,
/// after the last `/`; `None` when the identifier holds no `/` at all.
pub open spec fn tag_of_id(id: Seq<char>) -> Option<Seq<char>> {
    match last_slash_from(id, id.len() - 1) {
        Some(s) => Some(id.subrange(s + 1, id.len() as int)),
        None => None,
    }
}

/// Splits the release tag off an entry identifier.
pub fn release_tag_of_id(id: &str) -> (r: Option<String>)
    ensures
        opt_matches(r, tag_of_id(id@)),
{
    let t = chars_of(id);
    let mut j: usize = t.len();
    while j > 0
        invariant
            t@ == id@,
            j <= t@.len(),
            last_slash_from(t@, t@.len() - 1) == last_slash_from(t@, j as int - 1),
        decreases j,
    {
        j = j - 1;
        if t[j] == '/' {
            proof {
                assert(last_slash_from(t@, j as int) == Some(j as int));
            }
            let tag = id.substring_char(j + 1, t.len()).to_owned();
            return Some(tag);
        }
        proof {
            assert(last_slash_from(t@, j as int) == last_slash_from(t@, j as int - 1));
        }
    }
    proof {
        assert(last_slash_from(t@, -1) is None);
    }
    None
}

/// `r` carries exactly the tag or error that `s` names.
pub open spec fn tag_result_matches(
    r: Result<String, ResolveError>,
    s: Result<Seq<char>, ResolveError>,
) -> bool {
    match (r, s) {
        (Ok(v), Ok(w)) => v@ == w,
        (Err(e), Err(f)) => e == f,
        _ => false,
    }
}

/// What the feed document yields: the first entry's identifier's final path
/// segment, or the error naming what broke.
pub open spec fn spec_tag_from_feed(xml: Seq<char>) -> Result<Seq<char>, ResolveError> {
    match entry_id_of(xml) {
        None => Err(ResolveError::MalformedFeed),
        Some(id) => match tag_of_id(id) {
            None => Err(ResolveError::MalformedReleaseId),
            Some(tag) => Ok(tag),
        },
    }
}

/// Derives the latest release tag from the feed document text.
pub fn latest_tag_from_feed(xml: &str) -> (r: Result<String, ResolveError>)
    ensures
        tag_result_matches(r, spec_tag_from_feed(xml@)),
{
    match latest_entry_id(xml) {
        None => Err(ResolveError::MalformedFeed),
        Some(id) => match release_tag_of_id(id.as_str()) {
            None => Err(ResolveError::MalformedReleaseId),
            Some(tag) => Ok(tag),
        },
    }
}

/// What fetching and reading the feed yields from the given resources.
pub open spec fn spec_fetch_tag(bodies: Map<Seq<char>, Seq<char>>) -> Result<
    Seq<char>,
    ResolveError,
> {
    if !bodies.contains_key(feed_url_spec()) {
        Err(ResolveError::FeedUnavailable)
    } else {
        spec_tag_from_feed(bodies[feed_url_spec()])
    }
}

/// Fetches the release feed and derives the latest release tag.
///
/// A fetched feed is always read faithfully; only the fetch itself may fail
/// spuriously, and never on a reliable transport that has the feed.
pub fn download_latest_release<T: Transport>(tr: &mut T) -> (r: Result<String, ResolveError>)
    ensures
        final(tr).bodies() == old(tr).bodies(),
        final(tr).reliable() == old(tr).reliable(),
        r matches Ok(v) ==> (spec_fetch_tag(old(tr).bodies()) matches Ok(w) && v@ == w),
        r matches Err(e) ==> (e == ResolveError::FeedUnavailable || spec_fetch_tag(
            old(tr).bodies(),
        ) == Err::<Seq<char>, ResolveError>(e)),
        old(tr).reliable() ==> tag_result_matches(r, spec_fetch_tag(old(tr).bodies())),
{
    match tr.fetch(feed_url()) {
        Err(_) => Err(ResolveError::FeedUnavailable),
        Ok(xml) => latest_tag_from_feed(xml.as_str()),
    }
}

} // verus!
