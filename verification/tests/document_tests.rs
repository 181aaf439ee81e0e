use scraped::document::{
    docs_rs_child_selectors, docs_rs_selectors, generic_selectors, DebuggableCallback, Document,
    Preset, PropertyCallback, SelectorSpec,
};
use scraped::error::ScrapedError;
use scraped::results::{SelectionResult, Selections, SelectorKind};
use scraped::scope::ChildScope;
use scraped::util::{header_value_ok, BearerTokens, RequestSettings};
use serde_json::Value;

fn names(doc: &Document) -> Vec<String> {
    doc.selector_entries().iter().map(|e| e.0.clone()).collect()
}

fn one(_: &Selections) -> Value {
    Value::from(1)
}

#[test]
fn invalid_selector_is_refused_and_changes_nothing() {
    let mut doc: Document = Document::new("https://dev.null").unwrap();
    doc.add_selector("h1", "h1").unwrap();
    match doc.add_selector("bad", "h1 >") {
        Err(ScrapedError::InvalidSelector { name, pattern }) => {
            assert_eq!(name, "bad");
            assert_eq!(pattern, "h1 >");
        }
        other => panic!("not refused: {:?}", other),
    }
    assert!(doc.add_list_selector("bad", "[").is_err());
    assert_eq!(names(&doc), vec!["h1".to_string()]);
    assert!(SelectorSpec::new(SelectorKind::Item, "a:has(b)").is_some());
    assert!(SelectorSpec::new(SelectorKind::Item, "").is_none());
}

#[test]
fn selector_of_a_known_name_is_replaced_in_place() {
    let mut doc: Document = Document::new("https://dev.null").unwrap();
    doc.add_selector("a", "h1").unwrap();
    doc.add_selector("b", "h2").unwrap();
    doc.add_list_selector("a", "p").unwrap();
    assert_eq!(names(&doc), vec!["a".to_string(), "b".to_string()]);
    assert_eq!(doc.selector_entries()[0].1.kind(), SelectorKind::List);
    let results = doc.provide_response(Vec::new(), "<h1>x</h1><p>one</p><p>two</p>").results();
    match results.selections.get("a") {
        Some(SelectionResult::List(els)) => assert_eq!(els.len(), 2),
        other => panic!("not a list: {:?}", other),
    }
}

#[test]
fn generic_selectors_are_all_registered() {
    let mut doc: Document = Document::new("https://dev.null").unwrap();
    doc.add_generic_selectors().unwrap();
    assert_eq!(
        names(&doc),
        vec!["h1", "title", "h2", "h3", "links", "images", "scripts", "styles", "meta"]
    );
    assert_eq!(generic_selectors().len(), 9);
    let page = "<html><head><title>T</title><link rel='stylesheet' href='a.css'><meta charset='utf-8'></head>
        <body><h1>H</h1><img src='x.gif'><script src='a.js'></script><a href='b.html'>b</a></body></html>";
    let results = doc.provide_response(Vec::new(), page).results();
    for (name, expected) in [("links", 2), ("images", 1), ("scripts", 1), ("styles", 1), ("meta", 1)] {
        match results.selections.get(name) {
            Some(SelectionResult::List(els)) => assert_eq!(els.len(), expected, "{}", name),
            other => panic!("{} is not a list: {:?}", name, other),
        }
    }
    assert_eq!(results.selections.get("h2"), Some(&SelectionResult::Absent()));
    assert!(matches!(results.selections.get("title"), Some(SelectionResult::Element(_))));
}

#[test]
fn docs_rs_preset_registers_selectors_and_marks() {
    let mut doc: Document = Document::new("https://docs.rs/url/latest/url/").unwrap();
    doc.for_docs_rs().unwrap();
    assert_eq!(names(&doc).len(), docs_rs_selectors().len());
    assert_eq!(names(&doc).len(), 12);
    let marks: Vec<(String, ChildScope)> = docs_rs_child_selectors()
        .into_iter()
        .map(|name| (name.to_string(), ChildScope::Relative()))
        .collect();
    assert_eq!(doc.mark_entries(), &marks);
    assert_eq!(marks.len(), 7);

    let page = "<div class='module-item'><a class='struct' href='struct.Url.html'>Url</a></div>
        <div class='module-item'><a class='enum' href='enum.Host.html'>Host</a></div>
        <div class='module-item'><a class='struct' href='https://elsewhere.org/x'>X</a></div>";
    let results = doc.provide_response(Vec::new(), page).results();
    assert_eq!(
        results.child_urls,
        Some(vec![
            "https://docs.rs/url/latest/url//struct.Url.html".to_string(),
            "https://docs.rs/url/latest/url//enum.Host.html".to_string(),
        ])
    );
}

#[test]
fn presets_stop_at_the_first_invalid_pattern() {
    let mut doc: Document = Document::new("https://dev.null").unwrap();
    let table = vec![
        Preset { name: "a", kind: SelectorKind::Item, pattern: "h1" },
        Preset { name: "b", kind: SelectorKind::Item, pattern: "h1 >" },
        Preset { name: "c", kind: SelectorKind::Item, pattern: "h3" },
    ];
    match doc.add_selectors(&table) {
        Err(ScrapedError::InvalidSelector { name, pattern }) => {
            assert_eq!(name, "b");
            assert_eq!(pattern, "h1 >");
        }
        other => panic!("not refused: {:?}", other),
    }
    assert_eq!(names(&doc), vec!["a".to_string()]);
}

#[test]
fn unknown_child_selector_is_refused_and_marks_nothing() {
    let mut doc: Document = Document::new("https://dev.null").unwrap();
    doc.add_selector("h1", "h1").unwrap();
    doc.add_list_selector("links", "a").unwrap();
    match doc.child_selectors(vec!["links", "nope", "h1", "neither"], ChildScope::All()) {
        Err(ScrapedError::UnknownSelector { names }) => {
            assert_eq!(names, vec!["nope".to_string(), "neither".to_string()]);
        }
        other => panic!("not refused: {:?}", other),
    }
    assert!(doc.mark_entries().is_empty());
    doc.child_selectors(vec!["links"], ChildScope::Http()).unwrap();
    doc.child_selectors(vec!["h1", "links"], ChildScope::File()).unwrap();
    assert_eq!(
        doc.mark_entries(),
        &vec![
            ("links".to_string(), ChildScope::Http()),
            ("h1".to_string(), ChildScope::File()),
            ("links".to_string(), ChildScope::File()),
        ]
    );
    doc.child_selectors(Vec::new(), ChildScope::All()).unwrap();
    assert_eq!(doc.mark_entries().len(), 3);
}

#[test]
fn callbacks_are_wrapped_and_extracted() {
    let callback: PropertyCallback = one;
    let wrapped = DebuggableCallback::new(callback);
    assert_eq!(wrapped.describe(), "callback function");
    let extracted = wrapped.extract();
    assert_eq!(extracted(&Selections::new()), Value::from(1));
    let mut doc: Document = Document::new("https://dev.null").unwrap();
    doc.add_property("one", one);
    assert_eq!(doc.property_entries().len(), 1);
    assert_eq!(doc.property_entries()[0].0, "one");
}

#[test]
fn bearer_tokens_are_scoped_by_domain() {
    let mut tokens = BearerTokens::new();
    assert_eq!(tokens.get(Some("github.com")), None);
    tokens.add("github.com|abc").unwrap();
    tokens.add("xyz").unwrap();
    tokens.add("docs.rs|one|two").unwrap();
    assert_eq!(tokens.get(Some("github.com")), Some(&"Bearer abc".to_string()));
    assert_eq!(tokens.get(Some("docs.rs")), Some(&"Bearer one|two".to_string()));
    assert_eq!(tokens.get(Some("example.com")), Some(&"Bearer xyz".to_string()));
    assert_eq!(tokens.get(None), None);
    tokens.add("github.com|def").unwrap();
    assert_eq!(tokens.get(Some("github.com")), Some(&"Bearer def".to_string()));
    assert_eq!(tokens.scoped.len(), 2);
    tokens.add("|empty").unwrap();
    assert_eq!(tokens.get(Some("")), Some(&"Bearer empty".to_string()));
}

#[test]
fn tokens_that_cannot_be_sent_are_refused() {
    let mut tokens = BearerTokens::new();
    match tokens.add("github.com|a\nb") {
        Err(ScrapedError::InvalidHeader { value }) => assert_eq!(value, "a\nb"),
        other => panic!("not refused: {:?}", other),
    }
    match tokens.add("a\u{7f}") {
        Err(ScrapedError::InvalidHeader { value }) => assert_eq!(value, "a\u{7f}"),
        other => panic!("not refused: {:?}", other),
    }
    assert_eq!(tokens, BearerTokens::new());
    assert!(header_value_ok("plain text\twith tab and é"));
    assert!(header_value_ok(""));
    assert!(!header_value_ok("line\r\nbreak"));
    assert!(!header_value_ok("\u{0}"));
}

#[test]
fn document_carries_request_settings() {
    let mut doc: Document = Document::new("https://dev.null").unwrap();
    assert_eq!(doc.request(), &RequestSettings::new());
    doc.bearer_token("dev.null|secret").unwrap();
    doc.user_agent("scraper/1.0").unwrap();
    assert!(doc.user_agent("bad\nagent").is_err());
    assert!(doc.bearer_token("bad\ntoken").is_err());
    assert_eq!(doc.request().user_agent, Some("scraper/1.0".to_string()));
    assert_eq!(doc.request().bearer_tokens.get(Some("dev.null")), Some(&"Bearer secret".to_string()));
    assert_eq!(doc.request().bearer_tokens.get(Some("other")), None);
}

#[test]
fn error_messages_name_what_was_refused() {
    let e = ScrapedError::KeyNotFound { key: "k".to_string() };
    assert!(e.message().ends_with("k"));
    let e = ScrapedError::UnknownSelector { names: vec!["a".to_string(), "b".to_string()] };
    assert!(e.message().ends_with(": a b"));
    let e = ScrapedError::FetchFailed { url: "http://x".to_string(), reason: "down".to_string() };
    assert_eq!(e.message(), "could not fetch http://x: down");
    let e = ScrapedError::InvalidSelector { name: "n".to_string(), pattern: "[".to_string() };
    assert_eq!(e.message(), "invalid pattern for the selector n: [");
    let e = ScrapedError::InvalidHeader { value: "v".to_string() };
    assert!(e.message().ends_with("v"));
    let doc: Result<Document, ScrapedError> = Document::new("nope");
    assert_eq!(doc.err().unwrap().message(), "the URL was not able to be parsed");
}

#[test]
fn document_describes_itself_by_its_address() {
    let doc: Document = Document::new("https://dev.null").unwrap();
    assert_eq!(doc.to_string(), "Document[ https://dev.null/ ]");
}

#[test]
fn header_values_are_judged_as_the_http_crate_judges_them() {
    for value in ["", "abc", "a b\tc", "é", "a\nb", "a\rb", "\u{7f}", "\u{1f}", "\u{80}", "~", " "] {
        assert_eq!(
            header_value_ok(value),
            reqwest::header::HeaderValue::from_str(value).is_ok(),
            "{:?}",
            value
        );
    }
}
