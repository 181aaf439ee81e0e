//! The walk over the child pages of a page, one level deep.
//!
//! Fetching is not done here. A [`Traversal`] says which address to fetch
//! next; the caller fetches it and hands back what came: the page or the
//! failure. Each child page is scraped with the configuration of its parent
//! and becomes a child of the parent's results. The children of the children
//! are never fetched, so the tree is one level deep. The first failure ends
//! the walk.

use vstd::prelude::*;
use crate::document::Document;
use crate::dom::parse_page;
use crate::error::ScrapedError;
use crate::flatten::is_shallow;
use crate::results::{scrape_page, scraped_with, ScrapedResults, Selections};
use crate::urls::{url_normal_form, PageUrl};

verus! {

/// What a fetch gave.
#[derive(Debug)]
pub enum Fetched {
    /// the response: its header lines and its body
    Page { headers: Vec<(String, String)>, body: String },
    /// the reason why there is no response
    Failure { reason: String },
}

/// The addresses of the child pages of `page`, none where none are recorded.
pub open spec fn targets_of(page: ScrapedResults) -> Seq<String> {
    match page.child_urls {
        Some(urls) => urls@,
        None => Seq::empty(),
    }
}

/// A walk over the child pages of one page, with the children scraped so far.
pub struct Traversal {
    page: ScrapedResults,
}

impl Traversal {
    #[verifier::type_invariant]
    spec fn well_formed(&self) -> bool {
        &&& self.page.children@.len() <= targets_of(self.page).len()
        &&& is_shallow(self.page)
    }

    /// The page with the children scraped so far.
    pub closed spec fn page(&self) -> ScrapedResults {
        self.page
    }

    /// The addresses of the child pages, in the order of the walk.
    pub open spec fn targets(&self) -> Seq<String> {
        targets_of(self.page())
    }

    /// How many child pages were scraped so far.
    pub open spec fn done(&self) -> nat {
        self.page().children@.len()
    }

    /// Starts the walk over the child pages of `page`. Children that `page`
    /// already has are dropped.
    pub fn begin(page: ScrapedResults) -> (walk: Traversal)
        ensures
            walk.page().url == page.url,
            walk.page().headers == page.headers,
            walk.page().child_urls == page.child_urls,
            walk.page().properties == page.properties,
            walk.page().selections == page.selections,
            walk.done() == 0,
    {
        let mut page = page;
        page.children = Vec::new();
        Traversal { page }
    }

    /// The address to fetch next; none when every child page was scraped.
    pub fn next(&self) -> (target: Option<&String>)
        ensures
            self.done() <= self.targets().len(),
            match target {
                Some(address) => self.done() < self.targets().len() && *address
                    == self.targets()[self.done() as int],
                None => self.done() == self.targets().len(),
            },
    {
        proof {
            use_type_invariant(self);
        }
        match &self.page.child_urls {
            Some(urls) => {
                if self.page.children.len() < urls.len() {
                    Some(&urls[self.page.children.len()])
                } else {
                    None
                }
            },
            None => None,
        }
    }

    /// Takes what fetching the address given by [`Traversal::next`] gave.
    ///
    /// A page is scraped with the configuration `doc` at that address and
    /// becomes the next child. A failure ends the walk with an error that
    /// names the address and the reason, and so does an address that is no
    /// URL. When no address is left the walk stays as it is.
    pub fn advance<F: Fn(&Selections) -> serde_json::Value>(
        self,
        doc: &Document<F>,
        fetched: Fetched,
    ) -> (r: Result<Traversal, ScrapedError>)
        requires
            doc.wf(),
        ensures
            self.done() <= self.targets().len(),
            self.done() == self.targets().len() ==> (r matches Ok(walk) && walk.page()
                == self.page()),
            self.done() < self.targets().len() ==> match fetched {
                Fetched::Failure { reason } => {
                    &&& r matches Err(ScrapedError::FetchFailed { url, reason: given })
                    &&& url@ == self.targets()[self.done() as int]@
                    &&& given == reason
                },
                Fetched::Page { headers, body } => match url_normal_form(
                    self.targets()[self.done() as int]@,
                ) {
                    None => r matches Err(ScrapedError::InvalidUrl(_)),
                    Some(address) => {
                        &&& r matches Ok(walk)
                        &&& walk.page().url == self.page().url
                        &&& walk.page().headers == self.page().headers
                        &&& walk.page().child_urls == self.page().child_urls
                        &&& walk.page().properties == self.page().properties
                        &&& walk.page().selections == self.page().selections
                        &&& walk.page().children@.len() == self.done() + 1
                        &&& walk.page().children@.take(self.done() as int)
                            == self.page().children@
                        &&& scraped_with(
                            walk.page().children@[self.done() as int],
                            *doc,
                            address,
                            headers.deep_view(),
                            body@,
                        )
                    },
                },
            },
    {
        proof {
            use_type_invariant(&self);
        }
        let Traversal { page } = self;
        let mut page = page;
        let target: String = match &page.child_urls {
            Some(urls) => {
                if page.children.len() < urls.len() {
                    urls[page.children.len()].clone()
                } else {
                    return Ok(Traversal { page });
                }
            },
            None => {
                return Ok(Traversal { page });
            },
        };
        match fetched {
            Fetched::Failure { reason } => Err(ScrapedError::FetchFailed { url: target, reason }),
            Fetched::Page { headers, body } => {
                match PageUrl::parse(target.as_str()) {
                    Err(e) => Err(e),
                    Ok(address) => {
                        let parsed = parse_page(body.as_str());
                        let child = scrape_page(doc, &address, &headers, &parsed);
                        let ghost before = page.children@;
                        page.children.push(child);
                        assert(page.children@.take(before.len() as int) =~= before);
                        Ok(Traversal { page })
                    },
                }
            },
        }
    }

    /// Ends the walk and hands out the page with the children scraped so
    /// far: all of them when [`Traversal::next`] has no address left. No
    /// child has children of its own.
    pub fn finish(self) -> (page: ScrapedResults)
        ensures
            page == self.page(),
            is_shallow(page),
            page.children@.len() <= targets_of(page).len(),
    {
        proof {
            use_type_invariant(&self);
        }
        self.page
    }
}

} // verus!
