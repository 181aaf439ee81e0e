use scraped::document::{parse_url, Document};
use scraped::dom::DomNode;
use scraped::element::{Element, HrefType};
use scraped::results::{
    children_of_page, headers_to_map, select_result, Found, ScrapedResults, SelectionResult,
    Selections, SelectorKind,
};
use scraped::scope::ChildScope;
use serde_json::Value;

const PAGE: &str = "<html><head><title>T</title></head><body>
<h1>Title</h1>
<ul>
  <li><a class=\"item\" href=\"one.html\">One</a></li>
  <li><a class=\"item\" href=\"http://other.org/two\">Two</a></li>
  <li><a class=\"item\">No link</a></li>
  <li><a class=\"item\" href=\"#top\">Top</a></li>
</ul>
<div id=\"wrap\"><a href=\"wrapped.html\">W</a></div>
<p class=\"empty\"></p>
</body></html>";

fn node(tag: &str, text: &str) -> DomNode {
    DomNode {
        tag_name: tag.to_string(),
        attrs: Vec::new(),
        text: text.to_string(),
        inner_html: text.to_string(),
        href: None,
        src: None,
        type_attr: None,
        child_count: 1,
        first_child_href: None,
    }
}

fn null(_: &Selections) -> Value {
    Value::Null
}

fn count(selections: &Selections) -> Value {
    Value::from(selections.len())
}

fn title_text(selections: &Selections) -> Value {
    match selections.get("h1") {
        Some(SelectionResult::Element(el)) => match &el.text {
            Some(text) => Value::String(text.clone()),
            None => Value::Null,
        },
        _ => Value::Null,
    }
}

#[test]
fn item_selector_without_match_is_absent() {
    let page = parse_url("https://dev.null/page").unwrap();
    assert_eq!(select_result(SelectorKind::Item, &Vec::new(), &page), SelectionResult::Absent());
}

#[test]
fn list_selector_without_match_is_absent() {
    let page = parse_url("https://dev.null/page").unwrap();
    assert_eq!(select_result(SelectorKind::List, &Vec::new(), &page), SelectionResult::Absent());
}

#[test]
fn item_selector_takes_the_first_match() {
    let page = parse_url("https://dev.null/page").unwrap();
    let nodes = vec![node("h2", "first"), node("h2", "second")];
    match select_result(SelectorKind::Item, &nodes, &page) {
        SelectionResult::Element(el) => assert_eq!(el.text, Some("first".to_string())),
        other => panic!("not an element: {:?}", other),
    }
}

#[test]
fn list_selector_takes_all_matches_in_order() {
    let page = parse_url("https://dev.null/page").unwrap();
    let nodes = vec![node("h2", "first"), node("h2", "second")];
    match select_result(SelectorKind::List, &nodes, &page) {
        SelectionResult::List(els) => {
            let texts: Vec<Option<String>> = els.into_iter().map(|el| el.text).collect();
            assert_eq!(texts, vec![Some("first".to_string()), Some("second".to_string())]);
        }
        other => panic!("not a list: {:?}", other),
    }
    match select_result(SelectorKind::List, &nodes[..1].to_vec(), &page) {
        SelectionResult::List(els) => assert_eq!(els.len(), 1),
        other => panic!("not a list: {:?}", other),
    }
}

#[test]
fn selectors_without_match_are_absent_in_the_results() {
    let mut doc: Document = Document::new("https://dev.null/page").unwrap();
    doc.add_selector("missing_item", "h5").unwrap();
    doc.add_list_selector("missing_list", "table td").unwrap();
    let results = doc.provide_response(Vec::new(), PAGE).results();
    assert_eq!(results.selections.get("missing_item"), Some(&SelectionResult::Absent()));
    assert_eq!(results.selections.get("missing_list"), Some(&SelectionResult::Absent()));
    assert!(results.get("missing_item").is_ok());
    assert!(results.get("missing_list").is_ok());
}

#[test]
fn selections_come_in_the_order_of_registration() {
    let mut doc: Document = Document::new("https://dev.null/page").unwrap();
    doc.add_list_selector("items", "a.item").unwrap();
    doc.add_selector("h1", "h1").unwrap();
    doc.add_selector("first_item", "a.item").unwrap();
    let results = doc.provide_response(Vec::new(), PAGE).results();
    let names: Vec<&str> = results.selections.entries.iter().map(|e| e.0.as_str()).collect();
    assert_eq!(names, vec!["items", "h1", "first_item"]);
    match results.selections.get("items") {
        Some(SelectionResult::List(els)) => {
            assert_eq!(els.len(), 4);
            assert_eq!(els[0].href, Some("one.html".to_string()));
            assert_eq!(els[0].full_href, Some("https://dev.null/one.html".to_string()));
            assert_eq!(els[1].href_type, Some(HrefType::Absolute));
            assert_eq!(els[2].href, None);
            assert_eq!(els[3].href_type, Some(HrefType::AnchorLink));
            assert_eq!(els[0].attrs, vec![("class".to_string(), "item".to_string()), ("href".to_string(), "one.html".to_string())]);
        }
        other => panic!("not a list: {:?}", other),
    }
    match results.selections.get("first_item") {
        Some(SelectionResult::Element(el)) => assert_eq!(el.text, Some("One".to_string())),
        other => panic!("not an element: {:?}", other),
    }
    assert_eq!(results.url.as_str(), "https://dev.null/page");
    assert!(results.children.is_empty());
}

#[test]
fn href_of_an_only_child_is_adopted_from_the_page() {
    let mut doc: Document = Document::new("https://dev.null/page").unwrap();
    doc.add_selector("wrap", "#wrap").unwrap();
    doc.add_selector("empty", "p.empty").unwrap();
    let results = doc.provide_response(Vec::new(), PAGE).results();
    match results.selections.get("wrap") {
        Some(SelectionResult::Element(el)) => {
            assert_eq!(el.href, Some("wrapped.html".to_string()));
            assert_eq!(el.tag_name, "div");
            assert_eq!(el.html, Some("<a href=\"wrapped.html\">W</a>".to_string()));
        }
        other => panic!("not an element: {:?}", other),
    }
    match results.selections.get("empty") {
        Some(SelectionResult::Element(el)) => {
            assert_eq!(el.text, None);
            assert_eq!(el.html, None);
        }
        other => panic!("not an element: {:?}", other),
    }
}

#[test]
fn property_masks_selector_of_the_same_name() {
    let mut doc: Document = Document::new("https://dev.null/page").unwrap();
    doc.add_selector("h1", "h1").unwrap();
    doc.add_property("h1", null);
    let results = doc.provide_response(Vec::new(), PAGE).results();
    match results.get("h1").unwrap() {
        Found::Property(value) => assert_eq!(value, &Value::Null),
        Found::Selection(_) => panic!("the selector was not masked"),
    }
    assert!(matches!(results.selections.get("h1"), Some(SelectionResult::Element(_))));
}

#[test]
fn missing_key_is_an_error_that_names_the_key() {
    let mut doc: Document = Document::new("https://dev.null/page").unwrap();
    doc.add_selector("h1", "h1").unwrap();
    let results = doc.provide_response(Vec::new(), PAGE).results();
    match results.get("nope") {
        Err(scraped::error::ScrapedError::KeyNotFound { key }) => assert_eq!(key, "nope"),
        other => panic!("not a missing key: {:?}", other),
    }
    assert!(matches!(results.get("h1"), Ok(Found::Selection(SelectionResult::Element(_)))));
}

#[test]
fn every_callback_gets_all_selections() {
    let mut doc: Document = Document::new("https://dev.null/page").unwrap();
    doc.add_selector("h1", "h1").unwrap();
    doc.add_list_selector("items", "a.item").unwrap();
    doc.add_property("count", count);
    doc.add_property("title", title_text);
    doc.add_property("count", count);
    let results = doc.provide_response(Vec::new(), PAGE).results();
    assert_eq!(
        results.properties,
        vec![
            ("count".to_string(), Value::from(2)),
            ("title".to_string(), Value::String("Title".to_string()))
        ]
    );
}

#[test]
fn later_property_replaces_earlier_one_in_place() {
    let mut doc: Document = Document::new("https://dev.null/page").unwrap();
    doc.add_property("a", count);
    doc.add_property("b", count);
    doc.add_property("a", null);
    let results = doc.provide_response(Vec::new(), PAGE).results();
    assert_eq!(
        results.properties,
        vec![("a".to_string(), Value::Null), ("b".to_string(), Value::from(0))]
    );
}

#[test]
fn child_urls_follow_marks_and_document_order() {
    let mut doc: Document = Document::new("https://dev.null/page").unwrap();
    doc.add_selector("h1", "h1").unwrap();
    doc.add_list_selector("items", "a.item").unwrap();
    doc.add_selector("wrap", "#wrap").unwrap();
    let unmarked = doc.provide_response(Vec::new(), PAGE).results();
    assert_eq!(unmarked.child_urls, None);

    doc.child_selectors(vec!["wrap", "items"], ChildScope::All()).unwrap();
    let results = doc.provide_response(Vec::new(), PAGE).results();
    assert_eq!(
        results.child_urls,
        Some(vec![
            "https://dev.null/page/one.html".to_string(),
            "http://other.org/two".to_string(),
            "https://dev.null/page/#top".to_string(),
            "https://dev.null/page/wrapped.html".to_string(),
        ])
    );
    let http_only = results.get_child_urls(&vec![("items".to_string(), ChildScope::Http())]);
    assert_eq!(http_only, vec!["http://other.org/two".to_string()]);
    let first_mark_counts = results.get_child_urls(&vec![
        ("items".to_string(), ChildScope::Http()),
        ("items".to_string(), ChildScope::All()),
    ]);
    assert_eq!(first_mark_counts, vec!["http://other.org/two".to_string()]);
    assert_eq!(results.get_child_urls(&Vec::new()), Vec::<String>::new());
}

#[test]
fn child_urls_of_hand_made_selections() {
    let page = parse_url("https://dev.null/page").unwrap();
    let mut a = Element::new("a");
    a.href = Some("http://a.com".to_string());
    let mut b = Element::new("a");
    b.href = Some("./local.html".to_string());
    let mut c = Element::new("a");
    c.href = Some("file:///x".to_string());
    let selections = Selections {
        entries: vec![
            ("skipped".to_string(), SelectionResult::Element(a.clone())),
            ("links".to_string(), SelectionResult::List(vec![a, b, c])),
            ("none".to_string(), SelectionResult::Absent()),
        ],
    };
    let marks = vec![
        ("links".to_string(), ChildScope::Http()),
        ("none".to_string(), ChildScope::All()),
    ];
    assert_eq!(children_of_page(&selections, &marks, &page), vec!["http://a.com".to_string()]);
}

#[test]
fn headers_are_grouped_by_name() {
    let lines = vec![
        ("set-cookie".to_string(), "a=1".to_string()),
        ("content-type".to_string(), "text/html".to_string()),
        ("set-cookie".to_string(), "b=2".to_string()),
    ];
    assert_eq!(
        headers_to_map(&lines),
        vec![
            ("set-cookie".to_string(), vec!["a=1".to_string(), "b=2".to_string()]),
            ("content-type".to_string(), vec!["text/html".to_string()]),
        ]
    );
    assert_eq!(headers_to_map(&Vec::new()), Vec::new());
    let mut doc: Document = Document::new("https://dev.null/page").unwrap();
    doc.add_selector("h1", "h1").unwrap();
    let results = ScrapedResults::from(&doc.provide_response(lines, PAGE));
    assert_eq!(results.headers.len(), 2);
}

#[test]
fn item_result_is_absent_without_a_first_node() {
    let page = parse_url("https://dev.null/page").unwrap();
    assert_eq!(scraped::results::item_result(&None, &page), SelectionResult::Absent());
    match scraped::results::item_result(&Some(node("h1", " x ")), &page) {
        SelectionResult::Element(el) => assert_eq!(el.text, Some("x".to_string())),
        other => panic!("not an element: {:?}", other),
    }
}

#[test]
fn selectors_read_what_the_page_holds() {
    let page = scraper::Html::parse_document(
        "<body><script type='module' src='app.js'></script><p id='a'>one<!-- c --><b>two</b></p><p>three</p></body>",
    );
    let paragraphs = scraped::document::SelectorSpec::new(SelectorKind::List, "p").unwrap();
    let all = paragraphs.matches_in(&page);
    assert_eq!(all.len(), 2);
    assert_eq!(all[0].tag_name, "p");
    assert_eq!(all[0].text, "onetwo");
    assert_eq!(all[0].inner_html, "one<!-- c --><b>two</b>");
    assert_eq!(all[0].child_count, 3);
    assert_eq!(all[0].attrs, vec![("id".to_string(), "a".to_string())]);
    assert_eq!(all[0].first_child_href, None);
    assert_eq!(all[1].text, "three");
    assert_eq!(paragraphs.first_match_in(&page), Some(all[0].clone()));
    let tables = scraped::document::SelectorSpec::new(SelectorKind::Item, "table").unwrap();
    assert_eq!(tables.first_match_in(&page), None);
    assert!(tables.matches_in(&page).is_empty());
    let scripts = scraped::document::SelectorSpec::new(SelectorKind::Item, "script").unwrap();
    let script = scripts.first_match_in(&page).unwrap();
    assert_eq!(script.type_attr, Some("module".to_string()));
    assert_eq!(script.src, Some("app.js".to_string()));
    assert_eq!(script.href, None);
    assert_eq!(script.child_count, 0);

    let mut doc: Document = Document::new("https://dev.null/page").unwrap();
    doc.add_selector("script", "script").unwrap();
    let results = doc.provide_response(Vec::new(), "<script type='module' src='app.js'></script>").results();
    match results.selections.get("script") {
        Some(SelectionResult::Element(el)) => {
            assert_eq!(el._type, Some("module".to_string()));
            assert_eq!(el.src, Some("app.js".to_string()));
        }
        other => panic!("not an element: {:?}", other),
    }
}
