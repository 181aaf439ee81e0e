//! Which hrefs count as links to child pages.

use vstd::prelude::*;
use crate::text::{joined, starts_with};
use crate::urls::{is_absolute_url, url_normal_form, PageUrl};

verus! {

/// A compiled regular expression, as `regex` holds it.
#[verifier::external_type_specification]
#[verifier::external_body]
pub struct ExRegex(regex::Regex);

/// Whether `regex::Regex::new` accepts `pattern`.
pub uninterp spec fn regex_valid(pattern: Seq<char>) -> bool;

/// The pattern that a compiled regular expression was made from: what was
/// handed to `regex::Regex::new`, and what `regex::Regex::as_str` gives back.
pub uninterp spec fn regex_source(compiled: regex::Regex) -> Seq<char>;

/// Whether the regular expression written `pattern` has a match in `text`.
pub uninterp spec fn regex_matches(pattern: Seq<char>, text: Seq<char>) -> bool;

/// Calls `regex::Regex::new` and drops the reason of a refusal. Trusted: it
/// succeeds on the patterns that are `regex_valid`, and the expression it
/// returns was made from `pattern`.
#[verifier::external_body]
fn compile_regex(pattern: &str) -> (r: Option<regex::Regex>)
    ensures
        r is Some <==> regex_valid(pattern@),
        r matches Some(compiled) ==> regex_source(compiled) == pattern@,
{
    regex::Regex::new(pattern).ok()
}

/// Calls `regex::Regex::is_match`. Trusted: the result depends on nothing but
/// the pattern of the expression and the text, and is what `regex_matches`
/// names.
#[verifier::external_body]
fn regex_is_match(compiled: &regex::Regex, text: &str) -> (r: bool)
    ensures
        r == regex_matches(regex_source(*compiled), text@),
{
    compiled.is_match(text)
}

/// The filter that decides which hrefs of a marked selector are followed.
#[derive(Debug, Clone, Copy, PartialEq, Eq, Structural)]
pub enum ChildScope {
    /// any href is followed: one that is an absolute URL as it stands, every
    /// other one appended to the address of the current page
    All(),
    /// only hrefs made of word characters, dots and hashes are followed,
    /// appended to the address of the current page
    Relative(),
    /// only hrefs that are absolute URLs as they stand are followed
    Absolute(),
    /// only hrefs that start with `http` are followed
    Http(),
    /// only hrefs that start with `file` are followed
    File(),
}

impl View for ChildScope {
    type V = ChildScope;

    open spec fn view(&self) -> ChildScope {
        *self
    }
}

impl DeepView for ChildScope {
    type V = ChildScope;

    open spec fn deep_view(&self) -> ChildScope {
        *self
    }
}

/// The regular expression that an href has to match, from its first character
/// to its last, to count as relative.
pub const RELATIVE_HREF: &'static str = "^[\\w\\.#]+$";

/// Whether an href counts as relative.
pub open spec fn is_relative_href(href: Seq<char>) -> bool {
    regex_valid(RELATIVE_HREF@) && regex_matches(RELATIVE_HREF@, href)
}

/// `page` and `href` with a slash between them.
pub open spec fn path_joined(page: Seq<char>, href: Seq<char>) -> Seq<char> {
    page + "/"@ + href
}

/// The address that `href` stands for under `scope` on the page at `page`,
/// before it is asked whether that address is a URL. `relative` says whether
/// the href counts as relative, `absolute` whether it is an absolute URL as
/// it stands.
pub open spec fn child_candidate(
    href: Seq<char>,
    scope: ChildScope,
    page: Seq<char>,
    relative: bool,
    absolute: bool,
) -> Option<Seq<char>> {
    match scope {
        ChildScope::All() => if absolute {
            Some(href)
        } else {
            Some(path_joined(page, href))
        },
        ChildScope::Relative() => if relative {
            Some(path_joined(page, href))
        } else {
            None
        },
        ChildScope::Absolute() => if absolute {
            Some(href)
        } else {
            None
        },
        ChildScope::Http() => if "http"@.is_prefix_of(href) {
            Some(href)
        } else {
            None
        },
        ChildScope::File() => if "file"@.is_prefix_of(href) {
            Some(href)
        } else {
            None
        },
    }
}

/// `candidate` where it is an absolute URL, nothing where it is not.
pub open spec fn only_urls(candidate: Option<Seq<char>>) -> Option<Seq<char>> {
    match candidate {
        Some(address) => if url_normal_form(address) is Some {
            Some(address)
        } else {
            None
        },
        None => None,
    }
}

/// The address of the child page that `href` leads to under `scope` on the
/// page at `page`, or nothing where the scope leaves the href out or the
/// address is no URL.
pub open spec fn child_url(href: Seq<char>, scope: ChildScope, page: Seq<char>) -> Option<
    Seq<char>,
> {
    only_urls(
        child_candidate(href, scope, page, is_relative_href(href), url_normal_form(href) is Some),
    )
}

/// Tells relative hrefs from others. Holds the compiled form of
/// [`RELATIVE_HREF`], so that a scan over many hrefs compiles it once.
pub struct RelativeHrefs {
    compiled: Option<regex::Regex>,
}

impl RelativeHrefs {
    #[verifier::type_invariant]
    spec fn well_formed(&self) -> bool {
        &&& self.compiled is Some <==> regex_valid(RELATIVE_HREF@)
        &&& self.compiled matches Some(compiled) ==> regex_source(compiled) == RELATIVE_HREF@
    }

    /// Compiles the pattern.
    pub fn new() -> (matcher: RelativeHrefs)
        ensures
            matcher.pattern() == (if regex_valid(RELATIVE_HREF@) {
                Some(RELATIVE_HREF@)
            } else {
                None
            }),
    {
        RelativeHrefs { compiled: compile_regex(RELATIVE_HREF) }
    }

    /// The pattern whose compiled form the matcher holds; none where the
    /// `regex` crate refused to compile it.
    pub closed spec fn pattern(&self) -> Option<Seq<char>> {
        match self.compiled {
            Some(compiled) => Some(regex_source(compiled)),
            None => None,
        }
    }

    /// Whether `href` counts as relative.
    pub fn accepts(&self, href: &str) -> (r: bool)
        ensures
            r == is_relative_href(href@),
            r == (match self.pattern() {
                Some(pattern) => regex_matches(pattern, href@),
                None => false,
            }),
    {
        proof {
            use_type_invariant(self);
        }
        match &self.compiled {
            Some(compiled) => regex_is_match(compiled, href),
            None => false,
        }
    }
}

/// Applies the rule of `scope` to `href`, given whether the href counts as
/// relative and whether it is an absolute URL as it stands.
pub fn candidate_href(href: &str, scope: &ChildScope, page: &str, relative: bool, absolute: bool) -> (r:
    Option<String>)
    ensures
        r.deep_view() == child_candidate(href@, *scope, page@, relative, absolute),
{
    match scope {
        ChildScope::All() => {
            if absolute {
                Some(href.to_owned())
            } else {
                Some(joined(page, "/", href))
            }
        },
        ChildScope::Relative() => {
            if relative {
                Some(joined(page, "/", href))
            } else {
                None
            }
        },
        ChildScope::Absolute() => {
            if absolute {
                Some(href.to_owned())
            } else {
                None
            }
        },
        ChildScope::Http() => {
            if starts_with(href, "http") {
                Some(href.to_owned())
            } else {
                None
            }
        },
        ChildScope::File() => {
            if starts_with(href, "file") {
                Some(href.to_owned())
            } else {
                None
            }
        },
    }
}

/// Keeps a candidate that is an absolute URL and drops any other.
pub fn keep_if_url(candidate: Option<String>) -> (r: Option<String>)
    ensures
        r.deep_view() == only_urls(candidate.deep_view()),
{
    match candidate {
        Some(address) => {
            if is_absolute_url(address.as_str()) {
                Some(address)
            } else {
                None
            }
        },
        None => None,
    }
}

/// Decides whether `href` is in scope, with a matcher that is already there.
pub fn child_href_in_scope(
    matcher: &RelativeHrefs,
    href: &str,
    scope: &ChildScope,
    current_page: &PageUrl,
) -> (r: Option<String>)
    ensures
        r.deep_view() == child_url(href@, *scope, current_page@),
        r matches Some(address) ==> url_normal_form(address@) is Some,
{
    let relative = match scope {
        ChildScope::Relative() => matcher.accepts(href),
        _ => false,
    };
    let absolute = match scope {
        ChildScope::All() => is_absolute_url(href),
        ChildScope::Absolute() => is_absolute_url(href),
        _ => false,
    };
    keep_if_url(candidate_href(href, scope, current_page.as_str(), relative, absolute))
}

/// Validates that the scoping rules allow the href and returns the address
/// of the child page if it is in scope. An href that is taken as relative to
/// the current page comes back with the page's address in front of it.
pub fn validate_child_href(href: &str, scope: &ChildScope, current_page: &PageUrl) -> (r: Option<
    String,
>)
    ensures
        r.deep_view() == child_url(href@, *scope, current_page@),
        r matches Some(address) ==> url_normal_form(address@) is Some,
{
    let matcher = RelativeHrefs::new();
    child_href_in_scope(&matcher, href, scope, current_page)
}

} // verus!
