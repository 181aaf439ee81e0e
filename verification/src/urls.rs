//! Absolute URLs, held as text.
//!
//! Parsing, joining and taking the host of a URL are the work of the `url`
//! crate. What it returns for given text is not restated here: each result has
//! a name, and the wrappers below say that the call returns what the name
//! stands for.

use vstd::prelude::*;
use crate::error::ScrapedError;

verus! {

/// What `url::Url::parse` makes of `input`: the serialization of the URL it
/// parsed, or `None` where it refuses the text.
pub uninterp spec fn url_normal_form(input: Seq<char>) -> Option<Seq<char>>;

/// What `url::Url::join` makes of `input` against the URL written `base`: the
/// serialization of the resolved URL, or `None` where `base` is no absolute
/// URL or `input` cannot be resolved against it.
pub uninterp spec fn url_resolved(base: Seq<char>, input: Seq<char>) -> Option<Seq<char>>;

/// What `url::Url::host_str` gives for the URL written `url`: its host, or
/// `None` where the text is no absolute URL or the URL has no host.
pub uninterp spec fn url_host(url: Seq<char>) -> Option<Seq<char>>;

/// Calls `url::Url::parse` and hands back the serialization of the parsed
/// URL, or the crate's error. Trusted: the result is `url_normal_form` of the
/// input.
#[verifier::external_body]
fn parse_text(input: &str) -> (r: Result<String, ::url::ParseError>)
    ensures
        match r {
            Ok(text) => url_normal_form(input@) == Some(text@),
            Err(_) => url_normal_form(input@) is None,
        },
{
    ::url::Url::parse(input).map(String::from)
}

/// Calls `url::Url::join` on the URL parsed from `base`. Trusted: the result
/// is `url_resolved` of the two texts.
#[verifier::external_body]
fn join_text(base: &str, input: &str) -> (r: Option<String>)
    ensures
        r.deep_view() == url_resolved(base@, input@),
{
    match ::url::Url::parse(base) {
        Ok(parsed) => parsed.join(input).ok().map(String::from),
        Err(_) => None,
    }
}

/// Calls `url::Url::host_str` on the URL parsed from `url`. Trusted: the
/// result is `url_host` of the text.
#[verifier::external_body]
fn host_text(url: &str) -> (r: Option<String>)
    ensures
        r.deep_view() == url_host(url@),
{
    match ::url::Url::parse(url) {
        Ok(parsed) => parsed.host_str().map(String::from),
        Err(_) => None,
    }
}

/// An absolute URL in the form in which the `url` crate writes it.
#[derive(Debug, PartialEq, Eq)]
pub struct PageUrl {
    text: String,
}

impl View for PageUrl {
    type V = Seq<char>;

    closed spec fn view(&self) -> Seq<char> {
        self.text@
    }
}

impl DeepView for PageUrl {
    type V = Seq<char>;

    open spec fn deep_view(&self) -> Seq<char> {
        self@
    }
}

impl Clone for PageUrl {
    fn clone(&self) -> (copy: Self)
        ensures
            copy@ == self@,
    {
        PageUrl { text: self.text.clone() }
    }
}

impl PageUrl {
    /// Parses `input` as an absolute URL.
    pub fn parse(input: &str) -> (r: Result<PageUrl, ScrapedError>)
        ensures
            match r {
                Ok(url) => url_normal_form(input@) == Some(url@),
                Err(e) => url_normal_form(input@) is None && e is InvalidUrl,
            },
    {
        match parse_text(input) {
            Ok(text) => Ok(PageUrl { text }),
            Err(e) => Err(ScrapedError::InvalidUrl(e)),
        }
    }

    /// The URL as text.
    pub fn as_str(&self) -> (text: &str)
        ensures
            text@ == self@,
    {
        self.text.as_str()
    }

    /// Resolves `input` against this URL, as a browser resolves an href
    /// against the address of the page that holds it.
    pub fn join(&self, input: &str) -> (r: Option<PageUrl>)
        ensures
            r.deep_view() == url_resolved(self@, input@),
    {
        match join_text(self.text.as_str(), input) {
            Some(text) => Some(PageUrl { text }),
            None => None,
        }
    }

    /// The host of this URL, where it has one.
    pub fn host(&self) -> (r: Option<String>)
        ensures
            r.deep_view() == url_host(self@),
    {
        host_text(self.text.as_str())
    }
}

/// The host of the URL written `url`, where the text is an absolute URL that
/// has one.
pub fn host_of(url: &str) -> (r: Option<String>)
    ensures
        r.deep_view() == url_host(url@),
{
    host_text(url)
}

/// Whether `candidate` is an absolute URL on its own.
pub fn is_absolute_url(candidate: &str) -> (r: bool)
    ensures
        r == url_normal_form(candidate@) is Some,
{
    parse_text(candidate).is_ok()
}

} // verus!
