//! Picks a response content type from a request's `Accept` header value.
//!
//! The choice is deliberately crude: a caller whose `Accept` value mentions
//! `application/json` anywhere gets JSON, everyone else gets HTML.

use vstd::prelude::*;

verus! {

use crate::text::{contains_seq, contains_str};

/// A response representation the caller can ask for.
#[derive(Clone, Copy, Debug, PartialEq, Eq, Structural)]
pub enum ContentType {
    /// The boolean result as a small JSON object.
    Json,
    /// The rendered HTML page.
    Html,
}

/// The `Accept` substring that selects JSON.
pub open spec fn json_mime() -> Seq<char> {
    "application/json"@
}

/// The `Accept` header value, if the request carried one.
pub open spec fn accept_view(accept: Option<&str>) -> Option<Seq<char>> {
    match accept {
        Some(a) => Some(a@),
        None => None,
    }
}

/// The content type an `Accept` value selects: JSON exactly when the value
/// mentions `application/json`, HTML otherwise or when no header was sent.
pub open spec fn spec_content_type(accept: Option<Seq<char>>) -> ContentType {
    match accept {
        Some(a) => if contains_seq(a, json_mime()) {
            ContentType::Json
        } else {
            ContentType::Html
        },
        None => ContentType::Html,
    }
}

/// Picks the response content type for a request's `Accept` value.
pub fn determine_content_type(accept: Option<&str>) -> (r: ContentType)
    ensures
        r == spec_content_type(accept_view(accept)),
{
    match accept {
        Some(a) => if contains_str(a, "application/json") {
            ContentType::Json
        } else {
            ContentType::Html
        },
        None => ContentType::Html,
    }
}

impl ContentType {
    /// The MIME value `mime` returns for each variant.
    pub open spec fn mime_spec(self) -> Seq<char> {
        match self {
            ContentType::Json => "application/json"@,
            ContentType::Html => "text/html"@,
        }
    }

    /// The MIME value naming this content type.
    pub fn mime(&self) -> (r: &'static str)
        ensures
            r@ == self.mime_spec(),
    {
        match self {
            ContentType::Json => "application/json",
            ContentType::Html => "text/html",
        }
    }
}

} // verus!
