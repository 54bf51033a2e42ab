use bundler_upgraded::negotiate::{determine_content_type, ContentType};

#[test]
fn json_when_accept_mentions_json() {
    assert_eq!(
        determine_content_type(Some("application/json")),
        ContentType::Json
    );
}

#[test]
fn json_when_accept_lists_json_among_others() {
    assert_eq!(
        determine_content_type(Some("text/html, application/json;q=0.9")),
        ContentType::Json
    );
}

#[test]
fn html_when_accept_has_no_json() {
    assert_eq!(
        determine_content_type(Some("text/html,application/xhtml+xml")),
        ContentType::Html
    );
}

#[test]
fn html_without_accept_header() {
    assert_eq!(determine_content_type(None), ContentType::Html);
}

#[test]
fn mime_values() {
    assert_eq!(ContentType::Json.mime(), "application/json");
    assert_eq!(ContentType::Html.mime(), "text/html");
}
