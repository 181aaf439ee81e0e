//! What can go wrong while configuring a document or reading its results.

use vstd::prelude::*;
use crate::text::{concat, joined};

verus! {

/// The reason `url::Url::parse` gave for refusing a string.
#[verifier::external_type_specification]
#[verifier::external_body]
pub struct ExParseError(::url::ParseError);

/// The failures this library reports.
#[derive(Debug)]
pub enum ScrapedError {
    /// The URL was not able to be parsed.
    InvalidUrl(::url::ParseError),
    /// A selector was registered with a pattern that is no CSS selector.
    InvalidSelector { name: String, pattern: String },
    /// Selectors were marked as sources of child pages before they were
    /// registered.
    UnknownSelector { names: Vec<String> },
    /// Neither a property nor a selection of that name exists in the results.
    KeyNotFound { key: String },
    /// A page could not be fetched.
    FetchFailed { url: String, reason: String },
    /// A request header was given a value that HTTP does not allow.
    InvalidHeader { value: String },
}

/// The names, each with a space before it.
pub open spec fn listed(names: Seq<String>) -> Seq<char>
    decreases names.len(),
{
    if names.len() == 0 {
        Seq::empty()
    } else {
        listed(names.drop_last()) + " "@ + names.last()@
    }
}

/// The sentence that tells the user of a failure.
pub open spec fn message_of(error: ScrapedError) -> Seq<char> {
    match error {
        ScrapedError::InvalidUrl(_) => "the URL was not able to be parsed"@,
        ScrapedError::InvalidSelector { name, pattern } => "invalid pattern for the selector "@
            + name@ + ": "@ + pattern@,
        ScrapedError::UnknownSelector { names } =>
            "unknown selectors marked as sources of child pages:"@ + listed(names@),
        ScrapedError::KeyNotFound { key } => "this key does not exist in the scraped results: "@
            + key@,
        ScrapedError::FetchFailed { url, reason } => "could not fetch "@ + url@ + ": "@ + reason@,
        ScrapedError::InvalidHeader { value } => "invalid header value: "@ + value@,
    }
}

impl ScrapedError {
    /// A sentence for the user, naming what was refused.
    pub fn message(&self) -> (text: String)
        ensures
            text@ == message_of(*self),
    {
        match self {
            ScrapedError::InvalidUrl(_) => "the URL was not able to be parsed".to_owned(),
            ScrapedError::InvalidSelector { name, pattern } => concat(
                joined("invalid pattern for the selector ", name.as_str(), ": ").as_str(),
                pattern.as_str(),
            ),
            ScrapedError::UnknownSelector { names } => {
                let mut text = "unknown selectors marked as sources of child pages:".to_owned();
                let mut i: usize = 0;
                assert(text@ =~= "unknown selectors marked as sources of child pages:"@ + listed(
                    names@.take(0),
                ));
                while i < names.len()
                    invariant
                        i <= names.len(),
                        text@ == "unknown selectors marked as sources of child pages:"@ + listed(
                            names@.take(i as int),
                        ),
                    decreases names.len() - i,
                {
                    proof {
                        assert(names@.take(i + 1).drop_last() =~= names@.take(i as int));
                        assert(names@.take(i + 1).last() == names@[i as int]);
                    }
                    let ghost before = text@;
                    text = joined(text.as_str(), " ", names[i].as_str());
                    assert(text@ =~= "unknown selectors marked as sources of child pages:"@
                        + listed(names@.take(i + 1)));
                    i = i + 1;
                }
                assert(names@.take(names.len() as int) =~= names@);
                text
            },
            ScrapedError::KeyNotFound { key } => concat(
                "this key does not exist in the scraped results: ",
                key.as_str(),
            ),
            ScrapedError::FetchFailed { url, reason } => concat(
                joined("could not fetch ", url.as_str(), ": ").as_str(),
                reason.as_str(),
            ),
            ScrapedError::InvalidHeader { value } => concat(
                "invalid header value: ",
                value.as_str(),
            ),
        }
    }
}

} // verus!
