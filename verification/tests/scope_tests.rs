use scraped::document::parse_url;
use scraped::scope::{
    candidate_href, child_href_in_scope, keep_if_url, validate_child_href, ChildScope,
    RelativeHrefs,
};
use scraped::urls::{host_of, is_absolute_url, PageUrl};

fn page() -> PageUrl {
    parse_url("https://dev.null/page").unwrap()
}

fn filtered(hrefs: &[&str], scope: ChildScope) -> Vec<String> {
    hrefs.iter().filter_map(|href| validate_child_href(href, &scope, &page())).collect()
}

#[test]
fn http_scope_lets_only_http_through() {
    let urls = filtered(&["http://a.com", "./local.html", "file:///x"], ChildScope::Http());
    assert_eq!(urls, vec!["http://a.com".to_string()]);
}

#[test]
fn file_scope_lets_only_file_through() {
    let urls = filtered(&["http://a.com", "./local.html", "file:///x"], ChildScope::File());
    assert_eq!(urls, vec!["file:///x".to_string()]);
}

#[test]
fn relative_scope_joins_word_like_hrefs_to_the_page() {
    let urls = filtered(
        &["http://a.com", "./local.html", "about.html", "struct.Foo.html#x", "a b", ""],
        ChildScope::Relative(),
    );
    assert_eq!(
        urls,
        vec![
            "https://dev.null/page/about.html".to_string(),
            "https://dev.null/page/struct.Foo.html#x".to_string()
        ]
    );
}

#[test]
fn all_scope_keeps_urls_and_joins_the_rest() {
    let urls = filtered(&["http://a.com", "./local.html", "file:///x", "about.html"], ChildScope::All());
    assert_eq!(
        urls,
        vec![
            "http://a.com".to_string(),
            "https://dev.null/page/./local.html".to_string(),
            "file:///x".to_string(),
            "https://dev.null/page/about.html".to_string()
        ]
    );
}

#[test]
fn absolute_scope_keeps_only_urls() {
    let urls = filtered(
        &["http://a.com", "./local.html", "file:///x", "about.html", "mailto:a@b.c"],
        ChildScope::Absolute(),
    );
    assert_eq!(
        urls,
        vec!["http://a.com".to_string(), "file:///x".to_string(), "mailto:a@b.c".to_string()]
    );
}

#[test]
fn what_is_no_url_is_dropped() {
    assert_eq!(validate_child_href("http://[broken", &ChildScope::Http(), &page()), None);
    assert_eq!(keep_if_url(Some("not a url".to_string())), None);
    assert_eq!(keep_if_url(Some("https://a.b".to_string())), Some("https://a.b".to_string()));
    assert_eq!(keep_if_url(None), None);
}

#[test]
fn candidates_follow_the_scope() {
    let p = "https://dev.null/page";
    assert_eq!(candidate_href("x", &ChildScope::All(), p, false, true), Some("x".to_string()));
    assert_eq!(
        candidate_href("x", &ChildScope::All(), p, true, false),
        Some("https://dev.null/page/x".to_string())
    );
    assert_eq!(
        candidate_href("x", &ChildScope::Relative(), p, true, true),
        Some("https://dev.null/page/x".to_string())
    );
    assert_eq!(candidate_href("x", &ChildScope::Relative(), p, false, true), None);
    assert_eq!(candidate_href("x", &ChildScope::Absolute(), p, true, true), Some("x".to_string()));
    assert_eq!(candidate_href("x", &ChildScope::Absolute(), p, true, false), None);
    assert_eq!(candidate_href("httpx", &ChildScope::Http(), p, false, false), Some("httpx".to_string()));
    assert_eq!(candidate_href("x", &ChildScope::Http(), p, true, true), None);
    assert_eq!(candidate_href("files", &ChildScope::File(), p, false, false), Some("files".to_string()));
    assert_eq!(candidate_href("x", &ChildScope::File(), p, true, true), None);
}

#[test]
fn relative_hrefs_are_words_dots_and_hashes() {
    let matcher = RelativeHrefs::new();
    assert!(matcher.accepts("about.html"));
    assert!(matcher.accepts("struct.Foo.html#method.bar"));
    assert!(matcher.accepts("März"));
    assert!(!matcher.accepts(""));
    assert!(!matcher.accepts("./about.html"));
    assert!(!matcher.accepts("a/b"));
    assert!(!matcher.accepts("about.html\n"));
    assert!(!matcher.accepts("http://a.com"));
    assert_eq!(
        child_href_in_scope(&matcher, "about.html", &ChildScope::Relative(), &page()),
        Some("https://dev.null/page/about.html".to_string())
    );
}

#[test]
fn urls_are_written_the_way_the_url_crate_writes_them() {
    assert_eq!(parse_url("https://dev.null").unwrap().as_str(), "https://dev.null/");
    assert_eq!(parse_url("HTTPS://Dev.Null/a/../b").unwrap().as_str(), "https://dev.null/b");
    assert!(parse_url("dev.null").is_err());
    assert_eq!(PageUrl::parse("https://dev.null/x").unwrap(), parse_url("https://dev.null/x").unwrap());
}

#[test]
fn joining_resolves_like_a_browser() {
    let base = parse_url("https://example.net/a/b.html").unwrap();
    assert_eq!(base.join("c.png").unwrap().as_str(), "https://example.net/a/c.png");
    assert_eq!(base.join("/v1/meta").unwrap().as_str(), "https://example.net/v1/meta");
    assert_eq!(base.join("http://eve.com/b").unwrap().as_str(), "http://eve.com/b");
    assert_eq!(base.join("//eve.com/b").unwrap().as_str(), "https://eve.com/b");
    assert!(base.join("http://[::1").is_none());
}

#[test]
fn hosts() {
    assert_eq!(parse_url("https://dev.null/page").unwrap().host(), Some("dev.null".to_string()));
    assert_eq!(host_of("https://127.0.0.1/x"), Some("127.0.0.1".to_string()));
    assert_eq!(host_of("mailto:a@b.c"), None);
    assert_eq!(host_of("not a url"), None);
    assert!(is_absolute_url("file:///x"));
    assert!(!is_absolute_url("./local.html"));
}
