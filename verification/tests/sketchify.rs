use hatysa::command::sketchify::{
    request_for, resolve_url, response_for, sketchified, sketchify, PostRequest,
};
use hatysa::command::{CommandError, Response};

#[test]
fn resolve_url_writes_the_url_out_again() {
    assert_eq!(resolve_url("https://git.sr.ht"), Some("https://git.sr.ht/".to_string()));
    assert_eq!(
        resolve_url("HTTP://Example.COM/a b"),
        Some("http://example.com/a%20b".to_string())
    );
}

#[test]
fn resolve_url_agrees_with_the_parser() {
    let parsed = url::Url::parse("https://lobste.rs/s/abc?x=1#top").unwrap();
    assert_eq!(resolve_url("https://lobste.rs/s/abc?x=1#top"), Some(String::from(parsed)));
}

#[test]
fn resolve_url_tries_again_behind_http() {
    assert_eq!(resolve_url("example.com/path"), Some("http://example.com/path".to_string()));
    assert_eq!(resolve_url("git.sr.ht"), Some("http://git.sr.ht/".to_string()));
}

#[test]
fn resolve_url_gives_up_after_the_second_try() {
    assert_eq!(resolve_url("%393j+}[4"), None);
    assert_eq!(resolve_url(""), None);
    assert_eq!(resolve_url(" "), None);
}

#[test]
fn request_for_builds_the_form() {
    assert_eq!(
        request_for(Some("http://example.com/".to_string())),
        Ok(PostRequest {
            url: "http://verylegit.link/sketchify".to_string(),
            field: "long_url".to_string(),
            value: "http://example.com/".to_string(),
        })
    );
    assert_eq!(request_for(None), Err(CommandError::InvalidUrl));
}

#[test]
fn response_for_holds_the_url() {
    assert_eq!(
        response_for(Some("http://a.b/".to_string())),
        Ok(Response::Sketchify { url: "http://a.b/".to_string() })
    );
    assert_eq!(response_for(None), Err(CommandError::InvalidUrl));
}

#[test]
fn sketchify_asks_for_the_resolved_url() {
    assert_eq!(
        sketchify("git.sr.ht".to_string()),
        Ok(PostRequest {
            url: "http://verylegit.link/sketchify".to_string(),
            field: "long_url".to_string(),
            value: "http://git.sr.ht/".to_string(),
        })
    );
}

#[test]
fn sketchify_refuses_what_is_no_url() {
    assert_eq!(sketchify("%393j+}[4".to_string()), Err(CommandError::InvalidUrl));
}

#[test]
fn sketchified_reads_the_reply() {
    assert_eq!(
        sketchified("verylegit.link/a1b2*free-money.exe".to_string()),
        Ok(Response::Sketchify {
            url: "http://verylegit.link/a1b2*free-money.exe".to_string()
        })
    );
    assert_eq!(
        sketchified("http://verylegit.link/x".to_string()),
        Ok(Response::Sketchify { url: "http://verylegit.link/x".to_string() })
    );
    assert_eq!(sketchified(String::new()), Err(CommandError::InvalidUrl));
}
