//! Resolves the Bundler version bundled with the current buildpack release.
//!
//! The resolver layers the optional cache over the feed client and the
//! source-text extractor, in a fixed, load-bearing order: the cached release
//! tag is preferred to fetching the feed, and the cached version for that tag
//! is preferred to fetching the source text — a warm cache answers without
//! any outbound call. Values computed on a miss are written back: the tag
//! with a TTL, the version write-once, since a released tag's version never
//! changes.

use vstd::prelude::*;

verus! {

use crate::cache::Cache;
use crate::compare::{is_above_floor, spec_is_above_floor};
use crate::errors::{CheckError, ResolveError};
use crate::extract::{
    extracted,
    lemma_extracted_nonempty,
    opt_matches,
    source_url_spec,
    spec_fetch_version,
    version_from_source,
    version_result_matches,
};
use crate::feed::{download_latest_release, spec_fetch_tag, tag_result_matches};
use crate::transport::Transport;

/// The scalar cache key under which the latest release tag is stored.
pub open spec fn latest_release_key_spec() -> Seq<char> {
    "latest_buildpack_release"@
}

/// The scalar cache key under which the latest release tag is stored.
pub fn latest_release_key() -> (r: &'static str)
    ensures
        r@ == latest_release_key_spec(),
{
    "latest_buildpack_release"
}

/// The cache space of write-once release-tag-to-version fields.
pub open spec fn versions_space_spec() -> Seq<char> {
    "bundler_version"@
}

/// The cache space of write-once release-tag-to-version fields.
pub fn versions_space() -> (r: &'static str)
    ensures
        r@ == versions_space_spec(),
{
    "bundler_version"
}

/// The scalar entries of an optional cache; an absent cache holds none.
pub open spec fn scalars_of<C: Cache>(cache: Option<C>) -> Map<Seq<char>, Seq<char>> {
    match cache {
        Some(c) => c.scalars(),
        None => Map::empty(),
    }
}

/// The field entries of an optional cache; an absent cache holds none.
pub open spec fn fields_of<C: Cache>(cache: Option<C>) -> Map<(Seq<char>, Seq<char>), Seq<char>> {
    match cache {
        Some(c) => c.fields(),
        None => Map::empty(),
    }
}

/// Whether writes to an optional cache stick; they never do on an absent one.
pub open spec fn stores_of<C: Cache>(cache: Option<C>) -> bool {
    match cache {
        Some(c) => c.stores_writes(),
        None => false,
    }
}

/// The release tag a resolution works with: the cached one if present, else
/// the one the feed yields.
pub open spec fn spec_latest_tag(
    scalars: Map<Seq<char>, Seq<char>>,
    bodies: Map<Seq<char>, Seq<char>>,
) -> Result<Seq<char>, ResolveError> {
    if scalars.contains_key(latest_release_key_spec()) {
        Ok(scalars[latest_release_key_spec()])
    } else {
        spec_fetch_tag(bodies)
    }
}

/// What a resolution yields from the given cache contents and remote
/// resources: the cached version for the tag if present, else the version
/// extracted from the release's source text.
pub open spec fn spec_resolve(
    scalars: Map<Seq<char>, Seq<char>>,
    fields: Map<(Seq<char>, Seq<char>), Seq<char>>,
    bodies: Map<Seq<char>, Seq<char>>,
) -> Result<Option<Seq<char>>, ResolveError> {
    match spec_latest_tag(scalars, bodies) {
        Err(e) => Err(e),
        Ok(tag) => if fields.contains_key((versions_space_spec(), tag)) {
            Ok(Some(fields[(versions_space_spec(), tag)]))
        } else {
            spec_fetch_version(bodies, tag)
        },
    }
}

/// Every cached version field is the one its release's source text declares.
pub open spec fn fields_consistent(
    fields: Map<(Seq<char>, Seq<char>), Seq<char>>,
    bodies: Map<Seq<char>, Seq<char>>,
) -> bool {
    forall|tag: Seq<char>| #[trigger]
        fields.contains_key((versions_space_spec(), tag)) ==> (bodies.contains_key(
            source_url_spec(tag),
        ) && extracted(bodies[source_url_spec(tag)]) == Some(fields[(versions_space_spec(), tag)]))
}

/// Determines the latest buildpack release tag, preferring the cached one.
///
/// On a cache miss the tag is derived from the feed and written back with a
/// TTL; the caller proceeds with the tag whether or not the write stuck. With
/// the tag cached, the transport is never touched.
pub fn latest_buildpack_release<C: Cache, T: Transport>(
    cache: &mut Option<C>,
    tr: &mut T,
) -> (r: Result<String, ResolveError>)
    ensures
        final(tr).bodies() == old(tr).bodies(),
        final(tr).reliable() == old(tr).reliable(),
        (*old(cache)) is Some <==> (*final(cache)) is Some,
        stores_of(*final(cache)) == stores_of(*old(cache)),
        fields_of(*final(cache)) == fields_of(*old(cache)),
        r matches Ok(tag) ==> (scalars_of(*final(cache)) == scalars_of(*old(cache))
            || scalars_of(*final(cache)) == scalars_of(*old(cache)).insert(
            latest_release_key_spec(),
            tag@,
        )),
        r is Err ==> scalars_of(*final(cache)) == scalars_of(*old(cache)),
        r matches Ok(v) ==> (spec_latest_tag(scalars_of(*old(cache)), old(tr).bodies()) matches Ok(
            w,
        ) && v@ == w),
        r matches Err(e) ==> (e == ResolveError::FeedUnavailable || spec_latest_tag(
            scalars_of(*old(cache)),
            old(tr).bodies(),
        ) == Err::<Seq<char>, ResolveError>(e)),
        old(tr).reliable() ==> tag_result_matches(
            r,
            spec_latest_tag(scalars_of(*old(cache)), old(tr).bodies()),
        ),
        stores_of(*old(cache)) ==> (r matches Ok(tag) ==> scalars_of(
            *final(cache),
        ).contains_pair(latest_release_key_spec(), tag@)),
        scalars_of(*old(cache)).contains_key(latest_release_key_spec()) ==> ((*final(tr) == *old(
            tr,
        )) && (r matches Ok(v) && v@ == scalars_of(*old(cache))[latest_release_key_spec()])),
{
    match cache {
        Some(c) => {
            match c.get(latest_release_key()) {
                Some(tag) => Ok(tag),
                None => {
                    match download_latest_release(tr) {
                        Ok(tag) => {
                            let stored = c.set_with_ttl(latest_release_key(), tag.as_str(), 3600);
                            Ok(stored)
                        },
                        Err(e) => Err(e),
                    }
                },
            }
        },
        None => download_latest_release(tr),
    }
}

/// Reads the cached version for a release tag; an absent cache always
/// misses.
pub fn cached_version_from_buildpack_release<C: Cache>(
    buildpack_release: &str,
    cache: &mut Option<C>,
) -> (r: Option<String>)
    ensures
        (*old(cache)) is Some <==> (*final(cache)) is Some,
        scalars_of(*final(cache)) == scalars_of(*old(cache)),
        fields_of(*final(cache)) == fields_of(*old(cache)),
        stores_of(*final(cache)) == stores_of(*old(cache)),
        r matches Some(v) ==> fields_of(*old(cache)).contains_pair(
            (versions_space_spec(), buildpack_release@),
            v@,
        ),
        fields_of(*old(cache)).contains_key((versions_space_spec(), buildpack_release@))
            ==> r is Some,
{
    match cache {
        Some(c) => c.hash_get(versions_space(), buildpack_release),
        None => None,
    }
}

/// Resolves the Bundler version of the current buildpack release.
///
/// Works in the fixed order the cache-aside design requires: cached tag
/// before feed, cached version before source text. `Ok(None)` means the
/// source text declares no version — an absence, not an error. On a warm
/// cache the transport is never touched; a version computed on a miss is
/// written back write-once, so the cache only ever holds versions some
/// extraction actually produced.
pub fn bundler_version_from_ruby_buildpack<C: Cache, T: Transport>(
    cache: &mut Option<C>,
    tr: &mut T,
) -> (r: Result<Option<String>, ResolveError>)
    ensures
        final(tr).bodies() == old(tr).bodies(),
        final(tr).reliable() == old(tr).reliable(),
        (*old(cache)) is Some <==> (*final(cache)) is Some,
        stores_of(*final(cache)) == stores_of(*old(cache)),
        old(tr).reliable() ==> version_result_matches(
            r,
            spec_resolve(scalars_of(*old(cache)), fields_of(*old(cache)), old(tr).bodies()),
        ),
        r matches Ok(o) ==> (spec_resolve(
            scalars_of(*old(cache)),
            fields_of(*old(cache)),
            old(tr).bodies(),
        ) matches Ok(w) && opt_matches(o, w)),
        r is Err ==> fields_of(*final(cache)) == fields_of(*old(cache)),
        r matches Ok(o) ==> (fields_of(*final(cache)) == fields_of(*old(cache)) || (o matches Some(
            v,
        ) && spec_latest_tag(scalars_of(*old(cache)), old(tr).bodies()) matches Ok(t) && fields_of(
            *final(cache),
        ) == fields_of(*old(cache)).insert((versions_space_spec(), t), v@))),
        fields_consistent(fields_of(*old(cache)), old(tr).bodies()) ==> fields_consistent(
            fields_of(*final(cache)),
            old(tr).bodies(),
        ),
        stores_of(*old(cache)) ==> (r matches Ok(o) ==> (o matches Some(v) ==> (spec_latest_tag(
            scalars_of(*old(cache)),
            old(tr).bodies(),
        ) matches Ok(t) && scalars_of(*final(cache)).contains_pair(latest_release_key_spec(), t)
            && fields_of(*final(cache)).contains_pair((versions_space_spec(), t), v@)))),
        (scalars_of(*old(cache)).contains_key(latest_release_key_spec()) && fields_of(
            *old(cache),
        ).contains_key(
            (versions_space_spec(), scalars_of(*old(cache))[latest_release_key_spec()]),
        )) ==> ((*final(tr) == *old(tr)) && (r matches Ok(o) && opt_matches(
            o,
            Some(
                fields_of(*old(cache))[
                    (versions_space_spec(), scalars_of(*old(cache))[latest_release_key_spec()])
                ],
            ),
        ))),
{
    let buildpack_release = match latest_buildpack_release(cache, tr) {
        Ok(tag) => tag,
        Err(e) => {
            return Err(e);
        },
    };
    if let Some(cached_version) = cached_version_from_buildpack_release(
        buildpack_release.as_str(),
        cache,
    ) {
        return Ok(Some(cached_version));
    }
    match version_from_source(tr, buildpack_release.as_str()) {
        Err(e) => Err(e),
        Ok(None) => Ok(None),
        Ok(Some(version)) => {
            if let Some(c) = cache {
                c.hash_set_if_absent(versions_space(), buildpack_release.as_str(), version.as_str());
            }
            Ok(Some(version))
        },
    }
}

/// Whether the current buildpack release's Bundler exceeds the floor.
///
/// `false` both when the candidate does not exceed the floor and when no
/// version was resolved at all; in the latter case the comparator is never
/// consulted, so the floor may even be unparseable. Resolution and parse
/// failures are errors, never a quiet `false`.
pub open spec fn spec_is_bundler_upgraded(
    scalars: Map<Seq<char>, Seq<char>>,
    fields: Map<(Seq<char>, Seq<char>), Seq<char>>,
    bodies: Map<Seq<char>, Seq<char>>,
    min_version: Seq<char>,
) -> Result<bool, CheckError> {
    match spec_resolve(scalars, fields, bodies) {
        Err(e) => Err(CheckError::Resolve(e)),
        Ok(None) => Ok(false),
        Ok(Some(v)) => spec_is_above_floor(v, min_version),
    }
}

/// Decides whether the buildpack's Bundler has been upgraded past the
/// configured minimum version.
pub fn is_bundler_upgraded<C: Cache, T: Transport>(
    cache: &mut Option<C>,
    tr: &mut T,
    min_version: &str,
) -> (r: Result<bool, CheckError>)
    ensures
        final(tr).bodies() == old(tr).bodies(),
        final(tr).reliable() == old(tr).reliable(),
        (*old(cache)) is Some <==> (*final(cache)) is Some,
        stores_of(*final(cache)) == stores_of(*old(cache)),
        old(tr).reliable() ==> r == spec_is_bundler_upgraded(
            scalars_of(*old(cache)),
            fields_of(*old(cache)),
            old(tr).bodies(),
            min_version@,
        ),
        fields_consistent(fields_of(*old(cache)), old(tr).bodies()) ==> fields_consistent(
            fields_of(*final(cache)),
            old(tr).bodies(),
        ),
        (scalars_of(*old(cache)).contains_key(latest_release_key_spec()) && fields_of(
            *old(cache),
        ).contains_key(
            (versions_space_spec(), scalars_of(*old(cache))[latest_release_key_spec()]),
        )) ==> *final(tr) == *old(tr),
{
    match bundler_version_from_ruby_buildpack(cache, tr) {
        Err(e) => Err(CheckError::Resolve(e)),
        Ok(None) => Ok(false),
        Ok(Some(version)) => is_above_floor(version.as_str(), min_version),
    }
}

/// Law: a consistent cache never holds a malformed or empty version: each
/// stored value is exactly what extraction of its release's source text
/// produced, and an extracted value is never empty.
pub proof fn lemma_consistent_cache_holds_extracted_versions(
    fields: Map<(Seq<char>, Seq<char>), Seq<char>>,
    bodies: Map<Seq<char>, Seq<char>>,
    tag: Seq<char>,
)
    requires
        fields_consistent(fields, bodies),
        fields.contains_key((versions_space_spec(), tag)),
    ensures
        extracted(bodies[source_url_spec(tag)]) == Some(fields[(versions_space_spec(), tag)]),
        fields[(versions_space_spec(), tag)].len() > 0,
{
    lemma_extracted_nonempty(bodies[source_url_spec(tag)]);
}

/// What resolution does with no cache at all: the pure two-step pipeline
/// over the remote resources, one outbound call per layer.
pub open spec fn spec_pipeline(bodies: Map<Seq<char>, Seq<char>>) -> Result<
    Option<Seq<char>>,
    ResolveError,
> {
    match spec_fetch_tag(bodies) {
        Err(e) => Err(e),
        Ok(tag) => spec_fetch_version(bodies, tag),
    }
}

/// Law: with no cache configured, resolution is exactly the pure pipeline —
/// correct every time, merely at the cost of one outbound call per layer.
pub proof fn lemma_resolve_without_cache(bodies: Map<Seq<char>, Seq<char>>)
    ensures
        spec_resolve(
            Map::<Seq<char>, Seq<char>>::empty(),
            Map::<(Seq<char>, Seq<char>), Seq<char>>::empty(),
            bodies,
        ) == spec_pipeline(bodies),
{
}

/// Law: a cache warm for a tag and its version answers resolution by
/// itself, whatever the remote resources currently hold.
pub proof fn lemma_resolve_warm_cache(
    scalars: Map<Seq<char>, Seq<char>>,
    fields: Map<(Seq<char>, Seq<char>), Seq<char>>,
    bodies: Map<Seq<char>, Seq<char>>,
    tag: Seq<char>,
    version: Seq<char>,
)
    requires
        scalars.contains_pair(latest_release_key_spec(), tag),
        fields.contains_pair((versions_space_spec(), tag), version),
    ensures
        spec_resolve(scalars, fields, bodies) == Ok::<Option<Seq<char>>, ResolveError>(
            Some(version),
        ),
{
}

/// Law: once a resolution that found a version has warmed the cache with its
/// tag and version, a second resolution yields the same version from the
/// cache alone.
pub proof fn lemma_second_resolution_cached(
    scalars: Map<Seq<char>, Seq<char>>,
    fields: Map<(Seq<char>, Seq<char>), Seq<char>>,
    bodies: Map<Seq<char>, Seq<char>>,
    tag: Seq<char>,
    version: Seq<char>,
)
    requires
        spec_latest_tag(scalars, bodies) == Ok::<Seq<char>, ResolveError>(tag),
        spec_resolve(scalars, fields, bodies) == Ok::<Option<Seq<char>>, ResolveError>(
            Some(version),
        ),
    ensures
        spec_resolve(
            scalars.insert(latest_release_key_spec(), tag),
            fields.insert((versions_space_spec(), tag), version),
            bodies,
        ) == Ok::<Option<Seq<char>>, ResolveError>(Some(version)),
{
    lemma_resolve_warm_cache(
        scalars.insert(latest_release_key_spec(), tag),
        fields.insert((versions_space_spec(), tag), version),
        bodies,
        tag,
        version,
    );
}

} // verus!
