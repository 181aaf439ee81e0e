//! Selector-driven extraction of structured data from HTML documents.
//!
//! A [`document::Document`] is configured with named CSS selectors, property
//! callbacks and child-selector marks. Given the text of a page it yields a
//! [`results::ScrapedResults`]: one selection per selector, one value per
//! property, and the URLs of the child pages that the marked selectors point
//! to. [`traversal::Traversal`] drives the one-level walk over those child
//! pages; the caller does the fetching.
//!
//! Every function here is verified against its contract. The few places where
//! the logic calls into `scraper`, `url` or `regex` are small wrappers whose
//! contracts are taken on trust; each says so in its documentation.

pub mod config;
pub mod document;
pub mod dom;
pub mod element;
pub mod error;
pub mod flatten;
pub mod named;
pub mod results;
pub mod scope;
pub mod selection;
pub mod show;
pub mod text;
pub mod traversal;
pub mod urls;
pub mod util;
