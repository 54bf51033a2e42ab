use bundler_upgraded::cache::MemoryCache;
use bundler_upgraded::errors::{CheckError, ResolveError};
use bundler_upgraded::extract::source_url;
use bundler_upgraded::feed::feed_url;
use bundler_upgraded::resolver::{
    bundler_version_from_ruby_buildpack, is_bundler_upgraded, latest_buildpack_release,
};
use bundler_upgraded::transport::FixtureTransport;

fn feed_fixture() -> String {
    let mut xml = String::new();
    xml.push_str("<?xml version=\"1.0\" encoding=\"UTF-8\"?>\n");
    xml.push_str("<feed xmlns=\"http://www.w3.org/2005/Atom\">\n");
    xml.push_str("  <entry>\n");
    xml.push_str("    <id>tag:github.com,2008:Repository/123/v212</id>\n");
    xml.push_str("    <title>v212</title>\n");
    xml.push_str("  </entry>\n");
    xml.push_str("</feed>\n");
    xml
}

fn source_fixture() -> String {
    let mut text = String::new();
    text.push_str("module LanguagePack\n");
    text.push_str("  class Ruby\n");
    text.push_str("    BUNDLER_VERSION = \"1.17.2\"\n");
    text.push_str("  end\n");
    text.push_str("end\n");
    text
}

fn loaded_transport() -> FixtureTransport {
    let mut tr = FixtureTransport::new();
    tr.add_body(feed_url(), &feed_fixture());
    tr.add_body(&source_url("v212"), &source_fixture());
    tr
}

#[test]
fn resolves_without_cache_every_time() {
    let mut cache: Option<MemoryCache> = None;
    let mut tr = loaded_transport();
    assert_eq!(
        bundler_version_from_ruby_buildpack(&mut cache, &mut tr),
        Ok(Some("1.17.2".to_string()))
    );
    assert_eq!(tr.fetch_calls(), 2);
    assert_eq!(
        bundler_version_from_ruby_buildpack(&mut cache, &mut tr),
        Ok(Some("1.17.2".to_string()))
    );
    assert_eq!(tr.fetch_calls(), 4);
}

#[test]
fn second_resolution_with_cache_makes_no_outbound_call() {
    let mut cache: Option<MemoryCache> = Some(MemoryCache::new());
    let mut tr = loaded_transport();
    assert_eq!(
        bundler_version_from_ruby_buildpack(&mut cache, &mut tr),
        Ok(Some("1.17.2".to_string()))
    );
    assert_eq!(tr.fetch_calls(), 2);
    assert_eq!(
        bundler_version_from_ruby_buildpack(&mut cache, &mut tr),
        Ok(Some("1.17.2".to_string()))
    );
    assert_eq!(tr.fetch_calls(), 2);
}

#[test]
fn cached_version_wins_over_changed_source() {
    let mut cache: Option<MemoryCache> = Some(MemoryCache::new());
    let mut tr = loaded_transport();
    assert_eq!(
        bundler_version_from_ruby_buildpack(&mut cache, &mut tr),
        Ok(Some("1.17.2".to_string()))
    );
    tr.add_body(
        &source_url("v212"),
        "BUNDLER_VERSION = \"9.9.9\"",
    );
    assert_eq!(
        bundler_version_from_ruby_buildpack(&mut cache, &mut tr),
        Ok(Some("1.17.2".to_string()))
    );
}

#[test]
fn latest_release_prefers_the_cached_tag() {
    let mut cache: Option<MemoryCache> = Some(MemoryCache::new());
    let mut tr = loaded_transport();
    assert_eq!(
        latest_buildpack_release(&mut cache, &mut tr),
        Ok("v212".to_string())
    );
    assert_eq!(tr.fetch_calls(), 1);
    assert_eq!(
        latest_buildpack_release(&mut cache, &mut tr),
        Ok("v212".to_string())
    );
    assert_eq!(tr.fetch_calls(), 1);
}

#[test]
fn missing_feed_fails_resolution() {
    let mut cache: Option<MemoryCache> = None;
    let mut tr = FixtureTransport::new();
    assert_eq!(
        bundler_version_from_ruby_buildpack(&mut cache, &mut tr),
        Err(ResolveError::FeedUnavailable)
    );
}

#[test]
fn missing_source_text_fails_resolution() {
    let mut cache: Option<MemoryCache> = None;
    let mut tr = FixtureTransport::new();
    tr.add_body(feed_url(), &feed_fixture());
    assert_eq!(
        bundler_version_from_ruby_buildpack(&mut cache, &mut tr),
        Err(ResolveError::SourceUnavailable)
    );
}

#[test]
fn source_without_marker_resolves_to_none() {
    let mut cache: Option<MemoryCache> = None;
    let mut tr = FixtureTransport::new();
    tr.add_body(feed_url(), &feed_fixture());
    tr.add_body(&source_url("v212"), "module LanguagePack\nend\n");
    assert_eq!(
        bundler_version_from_ruby_buildpack(&mut cache, &mut tr),
        Ok(None)
    );
}

#[test]
fn upgraded_when_floor_is_below_resolved_version() {
    let mut cache: Option<MemoryCache> = None;
    let mut tr = loaded_transport();
    assert_eq!(is_bundler_upgraded(&mut cache, &mut tr, "1.16.0"), Ok(true));
}

#[test]
fn not_upgraded_when_floor_is_above_resolved_version() {
    let mut cache: Option<MemoryCache> = None;
    let mut tr = loaded_transport();
    assert_eq!(is_bundler_upgraded(&mut cache, &mut tr, "1.18.0"), Ok(false));
}

#[test]
fn not_upgraded_when_no_version_is_declared() {
    let mut cache: Option<MemoryCache> = None;
    let mut tr = FixtureTransport::new();
    tr.add_body(feed_url(), &feed_fixture());
    tr.add_body(&source_url("v212"), "no marker in here");
    assert_eq!(is_bundler_upgraded(&mut cache, &mut tr, "1.16.0"), Ok(false));
}

#[test]
fn bad_floor_fails_the_check() {
    let mut cache: Option<MemoryCache> = None;
    let mut tr = loaded_transport();
    assert_eq!(
        is_bundler_upgraded(&mut cache, &mut tr, "one.sixteen"),
        Err(CheckError::FloorUnparseable)
    );
}

#[test]
fn resolution_error_surfaces_in_the_check() {
    let mut cache: Option<MemoryCache> = None;
    let mut tr = FixtureTransport::new();
    assert_eq!(
        is_bundler_upgraded(&mut cache, &mut tr, "1.16.0"),
        Err(CheckError::Resolve(ResolveError::FeedUnavailable))
    );
}
