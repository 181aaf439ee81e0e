//! What a request for a page carries: bearer tokens and the user agent.
//!
//! Sending the request is the caller's work. Here the values are chosen and
//! checked: which token goes to which domain, and whether a value may stand
//! in an HTTP header at all.

use vstd::prelude::*;
use crate::error::ScrapedError;
use crate::named::{
    find_name, keyed, lemma_upsert_with_values, names_of, position, put, upsert, with_values,
};
use crate::text::{chars_of, concat, split_first, split_once};

verus! {

/// Whether a character may stand in the value of an HTTP header: the tab and
/// everything from the space on, but for the delete character.
pub open spec fn header_char_ok(c: char) -> bool {
    (c as u32 >= 32 && c as u32 != 127) || c == '\t'
}

/// Whether a text may be the value of an HTTP header.
pub open spec fn is_header_value(s: Seq<char>) -> bool {
    forall|i: int| 0 <= i < s.len() ==> header_char_ok(#[trigger] s[i])
}

/// Whether a text may be the value of an HTTP header.
pub fn header_value_ok(s: &str) -> (r: bool)
    ensures
        r == is_header_value(s@),
{
    let x = chars_of(s);
    let mut i: usize = 0;
    while i < x.len()
        invariant
            i <= x.len(),
            x@ == s@,
            forall|j: int| 0 <= j < i ==> header_char_ok(#[trigger] x@[j]),
        decreases x.len() - i,
    {
        let n: u32 = x[i] as u32;
        if !((n >= 32 && n != 127) || x[i] == '\t') {
            return false;
        }
        i = i + 1;
    }
    true
}

/// The value of the `Authorization` header that carries `token`.
pub open spec fn bearer_value(token: Seq<char>) -> Seq<char> {
    "Bearer "@ + token
}

/// Bearer tokens, as the values of the `Authorization` header that carry
/// them.
#[derive(Debug, Clone, PartialEq, Eq)]
pub struct BearerTokens {
    /// a bearer token that should be used for ALL URLs
    pub global: Option<String>,
    /// bearer tokens that should be used only for the domains they stand
    /// under
    pub scoped: Vec<(String, String)>,
}

/// [`BearerTokens`] as a mathematical value.
pub struct BearerTokensView {
    pub global: Option<Seq<char>>,
    pub scoped: Seq<(Seq<char>, Seq<char>)>,
}

impl View for BearerTokens {
    type V = BearerTokensView;

    open spec fn view(&self) -> BearerTokensView {
        BearerTokensView { global: self.global.deep_view(), scoped: self.scoped.deep_view() }
    }
}

impl DeepView for BearerTokens {
    type V = BearerTokensView;

    open spec fn deep_view(&self) -> BearerTokensView {
        self@
    }
}

/// The header value for a page on `domain`: the value for that domain where
/// there is one, else the value for all URLs; none for a page whose host is
/// no domain.
pub open spec fn token_for(tokens: BearerTokens, domain: Option<Seq<char>>) -> Option<String> {
    match domain {
        Some(name) => match position(names_of(tokens.scoped@), name) {
            Some(i) => Some(tokens.scoped@[i].1),
            None => tokens.global,
        },
        None => None,
    }
}

/// The tokens after `token` was added: under the domain that stands before
/// the first `|` in it, or for all URLs where it holds no `|`.
pub open spec fn with_token(tokens: BearerTokensView, token: Seq<char>) -> BearerTokensView {
    match split_first(token, '|') {
        Some((domain, secret)) => BearerTokensView {
            global: tokens.global,
            scoped: upsert(tokens.scoped, domain, bearer_value(secret)),
        },
        None => BearerTokensView { global: Some(bearer_value(token)), scoped: tokens.scoped },
    }
}

/// The part of `token` that is sent: what follows the first `|`, or all of it.
pub open spec fn secret_of(token: Seq<char>) -> Seq<char> {
    match split_first(token, '|') {
        Some((_, secret)) => secret,
        None => token,
    }
}

impl BearerTokens {
    /// No tokens.
    pub fn new() -> (tokens: BearerTokens)
        ensures
            tokens@ == (BearerTokensView { global: None, scoped: Seq::empty() }),
    {
        let tokens = BearerTokens { global: None, scoped: Vec::new() };
        assert(tokens.scoped.deep_view() =~= Seq::empty());
        tokens
    }

    /// Get the bearer token for a page on the given domain.
    pub fn get(&self, domain: Option<&str>) -> (r: Option<&String>)
        ensures
            match token_for(*self, domain.deep_view()) {
                Some(value) => r == Some(&value),
                None => r is None,
            },
    {
        match domain {
            Some(name) => match find_name(&self.scoped, name) {
                Some(i) => Some(&self.scoped[i].1),
                None => self.global.as_ref(),
            },
            None => None,
        }
    }

    /// Adds a bearer token for auth and/or rate-limiting purposes.
    ///
    /// The token is for ALL pages, or for the pages of one domain: then the
    /// domain stands before the token, with a `|` between them. A token that
    /// cannot be sent in a header is refused and nothing changes.
    pub fn add(&mut self, token: &str) -> (r: Result<(), ScrapedError>)
        ensures
            r is Ok <==> is_header_value(bearer_value(secret_of(token@))),
            r is Ok ==> final(self)@ == with_token(old(self)@, token@),
            r matches Err(e) ==> {
                &&& *final(self) == *old(self)
                &&& e matches ScrapedError::InvalidHeader { value }
                &&& value@ == secret_of(token@)
            },
    {
        match split_once(token, '|') {
            Some((domain, secret)) => {
                let value = concat("Bearer ", secret.as_str());
                if header_value_ok(value.as_str()) {
                    let ghost before = self.scoped@;
                    put(&mut self.scoped, domain.as_str(), value);
                    proof {
                        let f = |v: String| v@;
                        assert(with_values(keyed(before), f) =~= old(self).scoped.deep_view());
                        assert(with_values(keyed(self.scoped@), f) =~= self.scoped.deep_view());
                        lemma_upsert_with_values(keyed(before), domain@, value, f);
                    }
                    Ok(())
                } else {
                    Err(ScrapedError::InvalidHeader { value: secret })
                }
            },
            None => {
                let value = concat("Bearer ", token);
                if header_value_ok(value.as_str()) {
                    self.global = Some(value);
                    Ok(())
                } else {
                    Err(ScrapedError::InvalidHeader { value: token.to_owned() })
                }
            },
        }
    }
}

/// What is sent along with the request for a page.
#[derive(Debug, Clone, PartialEq, Eq)]
pub struct RequestSettings {
    /// bearer tokens sent in as configuration; scoped by domain
    pub bearer_tokens: BearerTokens,
    /// the value of the `User-Agent` header, where one was set
    pub user_agent: Option<String>,
}

impl RequestSettings {
    /// Nothing is sent along.
    pub fn new() -> (settings: RequestSettings)
        ensures
            settings.bearer_tokens@ == (BearerTokensView { global: None, scoped: Seq::empty() }),
            settings.user_agent is None,
    {
        RequestSettings { bearer_tokens: BearerTokens::new(), user_agent: None }
    }

    /// Sets the user agent. A value that cannot be sent in a header is
    /// refused and nothing changes.
    pub fn set_user_agent(&mut self, user_agent: &str) -> (r: Result<(), ScrapedError>)
        ensures
            final(self).bearer_tokens == old(self).bearer_tokens,
            r is Ok <==> is_header_value(user_agent@),
            r is Ok ==> final(self).user_agent.deep_view() == Some(user_agent@),
            r matches Err(e) ==> {
                &&& final(self).user_agent == old(self).user_agent
                &&& e matches ScrapedError::InvalidHeader { value }
                &&& value@ == user_agent@
            },
    {
        if header_value_ok(user_agent) {
            self.user_agent = Some(user_agent.to_owned());
            Ok(())
        } else {
            Err(ScrapedError::InvalidHeader { value: user_agent.to_owned() })
        }
    }
}

} // verus!
