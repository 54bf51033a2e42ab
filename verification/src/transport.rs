//! The outbound HTTP dependency of the resolver, as an injected capability.
//!
//! A transport maps URLs to the text of immutable remote resources. Fetching
//! may always fail — networks do — but a fetched body is always the resource's
//! one true text, and a reliable transport with the resource present never
//! fails. An adapter around a real HTTP client lives outside the verified
//! boundary; `FixtureTransport` serves preloaded bodies deterministically and
//! counts outbound calls, so tests can pin down how many requests a resolution
//! issued.

use vstd::prelude::*;

verus! {

use crate::assoc::{lookup, lemma_pairs_map_push, pairs_map};

/// A failed outbound request: a transport error or a timeout.
#[derive(Clone, Copy, Debug, PartialEq, Eq, Structural)]
pub struct FetchError;

/// An HTTP GET capability over immutable remote resources.
pub trait Transport: Sized {
    /// The text each URL's resource currently holds. The default model is an
    /// unknown remote: no body can be promised, for adapters outside the
    /// verified boundary that do not model the network.
    open spec fn bodies(&self) -> Map<Seq<char>, Seq<char>> {
        Map::empty()
    }

    /// Whether every fetch of a present resource succeeds.
    open spec fn reliable(&self) -> bool {
        false
    }

    /// Fetches the body behind `url`.
    fn fetch(&mut self, url: &str) -> (r: Result<String, FetchError>)
        ensures
            final(self).bodies() == old(self).bodies(),
            final(self).reliable() == old(self).reliable(),
            r matches Ok(b) ==> old(self).bodies().contains_pair(url@, b@),
            old(self).reliable() && old(self).bodies().contains_key(url@) ==> r is Ok,
    ;
}

/// A deterministic transport serving preloaded bodies, counting every fetch.
pub struct FixtureTransport {
    entries: Vec<(String, String)>,
    calls: u64,
}

impl FixtureTransport {
    /// The number of fetches issued so far.
    pub closed spec fn calls_spec(&self) -> u64 {
        self.calls
    }

    /// An empty transport with no resources.
    pub fn new() -> (t: FixtureTransport)
        ensures
            t.bodies() == Map::<Seq<char>, Seq<char>>::empty(),
            t.reliable(),
            t.calls_spec() == 0,
    {
        FixtureTransport { entries: Vec::new(), calls: 0 }
    }

    /// Preloads the body served for a URL.
    pub fn add_body(&mut self, url: &str, body: &str)
        ensures
            final(self).bodies() == old(self).bodies().insert(url@, body@),
            final(self).reliable() == old(self).reliable(),
            final(self).calls_spec() == old(self).calls_spec(),
    {
        self.entries.push((url.to_owned(), body.to_owned()));
        proof {
            lemma_pairs_map_push(old(self).entries@, (self.entries@.last()));
        }
    }

    /// How many fetches have been issued against this transport.
    pub fn fetch_calls(&self) -> (n: u64)
        ensures
            n == self.calls_spec(),
    {
        self.calls
    }
}

impl Transport for FixtureTransport {
    closed spec fn bodies(&self) -> Map<Seq<char>, Seq<char>> {
        pairs_map(self.entries@)
    }

    closed spec fn reliable(&self) -> bool {
        true
    }

    fn fetch(&mut self, url: &str) -> (r: Result<String, FetchError>) {
        if self.calls < u64::MAX {
            self.calls = self.calls + 1;
        }
        match lookup(&self.entries, url) {
            Some(body) => Ok(body),
            None => Err(FetchError),
        }
    }
}

} // verus!
