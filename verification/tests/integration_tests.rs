use scraped::document::{parse_url, Document, LoadedDocument};
use scraped::results::{Found, ScrapedResults, SelectionResult, Selections};
use serde_json::Value;

const SIMPLE_DOC: &str = "<!DOCTYPE html>
<html>
  <head>
    <title>Simple Document</title>
    <link rel='stylesheet' href='/styles/main.css'>
  </head>
  <body>
    <h1>My Title</h1>
    <h2><a href=\"#first\">First</a></h2>
    <h2><a href=\"#second\">Second</a></h2>
    <p>Some <b>bold</b> text and an <img src=\"pictures/cat.png\" alt=\"\"> image.</p>
    <a class=\"ext\" href=\"https://example.com/about.html\">About</a>
  </body>
</html>";

fn load_simple_doc<'a>(doc: &'a Document) -> LoadedDocument<'a> {
    doc.provide_response(Vec::new(), SIMPLE_DOC)
}

#[test]
fn valid_string_url_is_accepted() {
    let url = String::from("https://dev.null");

    let doc: Result<Document, _> = Document::new(&url);
    assert!(doc.is_ok());
}

#[test]
fn invalid_string_url_is_rejected() {
    let url = String::from("\\x!//");
    let doc: Result<Document, _> = Document::new(&url);
    assert!(doc.is_err());
}

#[test]
fn using_rust_selectors_on_simple_html_works_but_no_result_returned() {
    let mut doc: Document = Document::new("https://dev.null").unwrap();
    doc.for_docs_rs().unwrap();

    let result = ScrapedResults::from(&load_simple_doc(&doc));
    let valid_but_empty = result.get("structs");
    assert!(valid_but_empty.is_ok());
    match valid_but_empty.unwrap() {
        Found::Selection(selection) => assert_eq!(selection, &SelectionResult::Absent()),
        Found::Property(_) => panic!("structs is a selector, not a property"),
    }
}

#[test]
fn document_from_url() {
    let str = "https://google.com";
    let url = parse_url(str).unwrap();
    let from_url: Document = Document::from_url(&url);
    let from_str: Document = Document::new(str).unwrap();
    assert_eq!(from_url.url(), from_str.url());
}

#[test]
fn single_selector_matches() {
    let mut doc: Document = Document::new("https://dev.null").unwrap();
    doc.add_selector("h1", "h1").unwrap();

    let result = ScrapedResults::from(&load_simple_doc(&doc));
    let h1 = result.get("h1").unwrap();

    if let Found::Selection(SelectionResult::Element(h1)) = h1 {
        match &h1.text {
            None => panic!("h1's text property was none"),
            Some(text) => {
                assert!(
                    text.eq("My Title"),
                    "the h1 text value was supposed to be 'My Title' not {}",
                    text
                );
            }
        }
    } else {
        panic!("h1 was not an object");
    }
}

fn hello(_: &Selections) -> Value {
    Value::String("world".to_string())
}

#[test]
fn property_definition_available_in_results() {
    let mut doc: Document = Document::new("https://dev.null").unwrap();
    doc.add_property("hello", hello);
    let results = ScrapedResults::from(&load_simple_doc(&doc));

    assert!(results.get("hello").is_ok());
    let hello = results.get("hello").unwrap();
    match hello {
        Found::Property(value) => assert_eq!(value, &Value::String("world".to_string())),
        Found::Selection(_) => panic!("hello is a property, not a selector"),
    }
}

#[test]
fn serialized_results_avoid_empty_props() {
    let mut doc: Document = Document::new("https://dev.null").unwrap();
    doc.add_selector("h1", "h1").unwrap();

    let result = ScrapedResults::from(&load_simple_doc(&doc));

    let shown = format!("{:?}", result);
    assert!(shown.contains("My Title"));
    assert!(result.properties.is_empty());
    assert!(result.child_urls.is_none());
}
