//! The configuration of a page to scrape: its address, its named selectors,
//! its properties and the selectors that lead to child pages.

use vstd::prelude::*;
use crate::dom::{
    css_matches, css_valid, first_of, html_source, parse_page, parse_selector, select_first,
    select_nodes, selector_source, DomNode,
};
use crate::error::ScrapedError;
use crate::named::{
    find_name, has_name, keyed, keys, lemma_occurs_has_position, lemma_position_found_is_first,
    lemma_upsert_keeps_names_distinct, lemma_upsert_keys, lemma_upsert_with_values, names_of,
    position, put, upsert, with_values,
};
use crate::results::{scraped_from, ScrapedResults, Selections, SelectorKind};
use crate::scope::ChildScope;
use crate::text::joined;
use crate::urls::{url_normal_form, PageUrl};
use crate::util::{
    bearer_value, is_header_value, secret_of, with_token, BearerTokensView, RequestSettings,
};

verus! {

/// Receives an unvalidated string and returns a validated URL.
pub fn parse_url(url: &str) -> (r: Result<PageUrl, ScrapedError>)
    ensures
        match r {
            Ok(parsed) => url_normal_form(url@) == Some(parsed@),
            Err(e) => url_normal_form(url@) is None && e is InvalidUrl,
        },
{
    PageUrl::parse(url)
}

/// A callback that is given the selections of a page and is expected to turn
/// them into a meaningful JSON value.
pub type PropertyCallback = fn(&Selections) -> serde_json::Value;

/// A callback together with a word on what it is.
pub struct DebuggableCallback<F> {
    text: &'static str,
    value: F,
}

impl<F> DebuggableCallback<F> {
    /// The callback inside the wrapper.
    pub closed spec fn callback(&self) -> F {
        self.value
    }

    /// Wraps a callback.
    pub fn new(cb: F) -> (wrapped: DebuggableCallback<F>)
        ensures
            wrapped.callback() == cb,
            wrapped.description() == "callback function"@,
    {
        DebuggableCallback { text: "callback function", value: cb }
    }

    /// Extracts the callback from the wrapper.
    pub fn extract(&self) -> (cb: &F)
        ensures
            *cb == self.callback(),
    {
        &self.value
    }

    /// What the wrapper says of itself where it is printed.
    pub closed spec fn description(&self) -> Seq<char> {
        self.text@
    }

    /// What the wrapper says of itself where it is printed.
    pub fn describe(&self) -> (text: &'static str)
        ensures
            text@ == self.description(),
    {
        self.text
    }
}

/// A selector as it was registered: its kind and its compiled pattern.
pub struct SelectorSpec {
    kind: SelectorKind,
    compiled: scraper::Selector,
}

/// A [`SelectorSpec`] as a mathematical value.
pub struct SelectorSpecView {
    pub kind: SelectorKind,
    pub pattern: Seq<char>,
}

impl View for SelectorSpec {
    type V = SelectorSpecView;

    closed spec fn view(&self) -> SelectorSpecView {
        SelectorSpecView { kind: self.kind, pattern: selector_source(self.compiled) }
    }
}

impl SelectorSpec {
    /// Compiles `pattern`. Succeeds on the patterns that are CSS selectors.
    pub fn new(kind: SelectorKind, pattern: &str) -> (r: Option<SelectorSpec>)
        ensures
            r is Some <==> css_valid(pattern@),
            r matches Some(spec) ==> spec@ == (SelectorSpecView { kind, pattern: pattern@ }),
    {
        match parse_selector(pattern) {
            Some(compiled) => Some(SelectorSpec { kind, compiled }),
            None => None,
        }
    }

    /// Whether the selector stands for one element or for many.
    pub fn kind(&self) -> (kind: SelectorKind)
        ensures
            kind == self@.kind,
    {
        self.kind
    }

    /// The first element of `page` that matches the selector.
    pub fn first_match_in(&self, page: &scraper::Html) -> (node: Option<DomNode>)
        ensures
            node.deep_view() == first_of(css_matches(html_source(*page), self@.pattern)),
    {
        select_first(page, &self.compiled)
    }

    /// The elements of `page` that match the selector, in the order of the
    /// document.
    pub fn matches_in(&self, page: &scraper::Html) -> (nodes: Vec<DomNode>)
        ensures
            nodes.deep_view() == css_matches(html_source(*page), self@.pattern),
    {
        select_nodes(page, &self.compiled)
    }
}

/// The registered selectors as mathematical values, each under its name.
pub open spec fn selector_views(entries: Seq<(String, SelectorSpec)>) -> Seq<
    (Seq<char>, SelectorSpecView),
> {
    entries.map_values(|entry: (String, SelectorSpec)| (entry.0@, entry.1@))
}

/// The registered callbacks, each under the name of its property.
pub open spec fn callback_views<F>(entries: Seq<(String, DebuggableCallback<F>)>) -> Seq<
    (Seq<char>, F),
> {
    entries.map_values(|entry: (String, DebuggableCallback<F>)| (entry.0@, entry.1.callback()))
}

/// The names among `names` that are not among `registered`, in their order.
pub open spec fn unknown_among(names: Seq<Seq<char>>, registered: Seq<Seq<char>>) -> Seq<
    Seq<char>,
> {
    names.filter(|name: Seq<char>| !has_name(registered, name))
}

/// One mark with the given scope for each name, in the order of the names.
pub open spec fn marks_for(names: Seq<Seq<char>>, scope: ChildScope) -> Seq<
    (Seq<char>, ChildScope),
> {
    names.map_values(|name: Seq<char>| (name, scope))
}

/// A selector to register: its name, its kind and its pattern.
#[derive(Debug, Clone, Copy)]
pub struct Preset {
    pub name: &'static str,
    pub kind: SelectorKind,
    pub pattern: &'static str,
}

impl View for Preset {
    type V = (Seq<char>, SelectorSpecView);

    open spec fn view(&self) -> (Seq<char>, SelectorSpecView) {
        (self.name@, SelectorSpecView { kind: self.kind, pattern: self.pattern@ })
    }
}

impl DeepView for Preset {
    type V = (Seq<char>, SelectorSpecView);

    open spec fn deep_view(&self) -> (Seq<char>, SelectorSpecView) {
        self@
    }
}

/// The position of the first selector of `table` whose pattern is no CSS
/// selector.
pub open spec fn first_invalid(table: Seq<(Seq<char>, SelectorSpecView)>) -> Option<int>
    decreases table.len(),
{
    if table.len() == 0 {
        None
    } else {
        match first_invalid(table.drop_last()) {
            Some(k) => Some(k),
            None => if css_valid(table.last().1.pattern) {
                None
            } else {
                Some(table.len() - 1)
            },
        }
    }
}

/// The registry after each selector of `table` was registered, in turn.
pub open spec fn with_selectors(
    registry: Seq<(Seq<char>, SelectorSpecView)>,
    table: Seq<(Seq<char>, SelectorSpecView)>,
) -> Seq<(Seq<char>, SelectorSpecView)>
    decreases table.len(),
{
    if table.len() == 0 {
        registry
    } else {
        upsert(with_selectors(registry, table.drop_last()), table.last().0, table.last().1)
    }
}

/// The first invalid selector of a table stays the first when the table
/// grows.
pub proof fn lemma_first_invalid_stays(table: Seq<(Seq<char>, SelectorSpecView)>, n: int, k: int)
    requires
        0 <= n <= table.len(),
        first_invalid(table.take(n)) == Some(k),
    ensures
        first_invalid(table) == Some(k),
    decreases table.len() - n,
{
    if n < table.len() {
        assert(table.take(n + 1).drop_last() =~= table.take(n));
        lemma_first_invalid_stays(table, n + 1, k);
    } else {
        assert(table.take(n) =~= table);
    }
}

/// Every name of a table is registered once the table is.
pub proof fn lemma_presets_are_registered(
    registry: Seq<(Seq<char>, SelectorSpecView)>,
    table: Seq<(Seq<char>, SelectorSpecView)>,
    name: Seq<char>,
)
    requires
        has_name(keys(registry), name) || exists|j: int| 0 <= j < table.len() && table[j].0 == name,
    ensures
        has_name(keys(with_selectors(registry, table)), name),
    decreases table.len(),
{
    if table.len() > 0 {
        let rest = table.drop_last();
        let before = with_selectors(registry, rest);
        lemma_upsert_keys(before, table.last().0, table.last().1);
        if table.last().0 != name {
            if !has_name(keys(registry), name) {
                let j = choose|j: int| 0 <= j < table.len() && table[j].0 == name;
                assert(rest[j].0 == name);
            }
            lemma_presets_are_registered(registry, rest, name);
            let at = position(keys(before), name)->0;
            lemma_position_found_is_first(keys(before), name);
            lemma_occurs_has_position(keys(with_selectors(registry, table)), name, at);
        }
    }
}

/// The generic selectors.
pub open spec fn generic_table() -> Seq<(Seq<char>, SelectorSpecView)> {
    seq![
        ("h1"@, SelectorSpecView { kind: SelectorKind::Item, pattern: "h1"@ }),
        ("title"@, SelectorSpecView { kind: SelectorKind::Item, pattern: "title"@ }),
        ("h2"@, SelectorSpecView { kind: SelectorKind::List, pattern: "h2"@ }),
        ("h3"@, SelectorSpecView { kind: SelectorKind::List, pattern: "h3"@ }),
        ("links"@, SelectorSpecView { kind: SelectorKind::List, pattern: "[href]"@ }),
        ("images"@, SelectorSpecView { kind: SelectorKind::List, pattern: "img"@ }),
        ("scripts"@, SelectorSpecView { kind: SelectorKind::List, pattern: "script"@ }),
        ("styles"@, SelectorSpecView { kind: SelectorKind::List, pattern: "[rel='stylesheet']"@ }),
        ("meta"@, SelectorSpecView { kind: SelectorKind::List, pattern: "meta"@ }),
    ]
}

/// The generic selectors.
pub fn generic_selectors() -> (table: Vec<Preset>)
    ensures
        table.deep_view() == generic_table(),
{
    let table = vec![
        Preset { name: "h1", kind: SelectorKind::Item, pattern: "h1" },
        Preset { name: "title", kind: SelectorKind::Item, pattern: "title" },
        Preset { name: "h2", kind: SelectorKind::List, pattern: "h2" },
        Preset { name: "h3", kind: SelectorKind::List, pattern: "h3" },
        Preset { name: "links", kind: SelectorKind::List, pattern: "[href]" },
        Preset { name: "images", kind: SelectorKind::List, pattern: "img" },
        Preset { name: "scripts", kind: SelectorKind::List, pattern: "script" },
        Preset { name: "styles", kind: SelectorKind::List, pattern: "[rel='stylesheet']" },
        Preset { name: "meta", kind: SelectorKind::List, pattern: "meta" },
    ];
    assert(table.deep_view() =~= generic_table());
    table
}

/// The selectors for the pages of `docs.rs`.
pub open spec fn docs_rs_table() -> Seq<(Seq<char>, SelectorSpecView)> {
    seq![
        ("h1"@, SelectorSpecView { kind: SelectorKind::Item, pattern: "h1 .in-band a"@ }),
        ("description"@, SelectorSpecView { kind: SelectorKind::Item, pattern: ".docblock"@ }),
        ("h2"@, SelectorSpecView { kind: SelectorKind::List, pattern: "h2"@ }),
        ("modules"@, SelectorSpecView { kind: SelectorKind::List, pattern: ".module-item a.mod"@ }),
        (
            "structs"@,
            SelectorSpecView { kind: SelectorKind::List, pattern: ".module-item a.struct"@ },
        ),
        ("functions"@, SelectorSpecView { kind: SelectorKind::List, pattern: ".module-item a.fn"@ }),
        ("traits"@, SelectorSpecView { kind: SelectorKind::List, pattern: ".module-item a.trait"@ }),
        (
            "type_defs"@,
            SelectorSpecView { kind: SelectorKind::List, pattern: ".module-item a.type"@ },
        ),
        ("enums"@, SelectorSpecView { kind: SelectorKind::List, pattern: ".module-item a.enum"@ }),
        ("macros"@, SelectorSpecView { kind: SelectorKind::List, pattern: ".module-item a.macro"@ }),
        (
            "attr_macros"@,
            SelectorSpecView { kind: SelectorKind::List, pattern: ".module-item a.attr"@ },
        ),
        ("desc"@, SelectorSpecView { kind: SelectorKind::Item, pattern: "section .docblock"@ }),
    ]
}

/// The selectors for the pages of `docs.rs`.
pub fn docs_rs_selectors() -> (table: Vec<Preset>)
    ensures
        table.deep_view() == docs_rs_table(),
{
    let table = vec![
        Preset { name: "h1", kind: SelectorKind::Item, pattern: "h1 .in-band a" },
        Preset { name: "description", kind: SelectorKind::Item, pattern: ".docblock" },
        Preset { name: "h2", kind: SelectorKind::List, pattern: "h2" },
        Preset { name: "modules", kind: SelectorKind::List, pattern: ".module-item a.mod" },
        Preset { name: "structs", kind: SelectorKind::List, pattern: ".module-item a.struct" },
        Preset { name: "functions", kind: SelectorKind::List, pattern: ".module-item a.fn" },
        Preset { name: "traits", kind: SelectorKind::List, pattern: ".module-item a.trait" },
        Preset { name: "type_defs", kind: SelectorKind::List, pattern: ".module-item a.type" },
        Preset { name: "enums", kind: SelectorKind::List, pattern: ".module-item a.enum" },
        Preset { name: "macros", kind: SelectorKind::List, pattern: ".module-item a.macro" },
        Preset { name: "attr_macros", kind: SelectorKind::List, pattern: ".module-item a.attr" },
        Preset { name: "desc", kind: SelectorKind::Item, pattern: "section .docblock" },
    ];
    assert(table.deep_view() =~= docs_rs_table());
    table
}

/// The selectors of `docs.rs` pages whose results lead to child pages.
pub open spec fn docs_rs_children() -> Seq<Seq<char>> {
    seq![
        "modules"@,
        "structs"@,
        "functions"@,
        "traits"@,
        "type_defs"@,
        "enums"@,
        "macros"@,
    ]
}

/// The selectors of `docs.rs` pages whose results lead to child pages.
pub fn docs_rs_child_selectors() -> (names: Vec<&'static str>)
    ensures
        names.deep_view() == docs_rs_children(),
{
    let names = vec!["modules", "structs", "functions", "traits", "type_defs", "enums", "macros"];
    assert(names.deep_view() =~= docs_rs_children());
    names
}

/// Whether a callback can be called with every selection map.
pub open spec fn accepts_all<F: Fn(&Selections) -> serde_json::Value>(callback: F) -> bool {
    forall|selections: Selections| #[trigger] call_requires(callback, (&selections,))
}

/// The configuration of a page to scrape.
pub struct Document<F: Fn(&Selections) -> serde_json::Value = PropertyCallback> {
    url: PageUrl,
    selectors: Vec<(String, SelectorSpec)>,
    prop_callbacks: Vec<(String, DebuggableCallback<F>)>,
    child_selectors: Vec<(String, ChildScope)>,
    request: RequestSettings,
}

impl<F: Fn(&Selections) -> serde_json::Value> Document<F> {
    /// Whether the configuration is sound: no two selectors have the same
    /// name, nor have two properties, and every registered callback can be
    /// called with every selection map. Each way of building a document makes
    /// it so.
    pub closed spec fn wf(&self) -> bool {
        &&& keys(selector_views(self.selectors@)).no_duplicates()
        &&& keys(callback_views(self.prop_callbacks@)).no_duplicates()
        &&& forall|i: int|
            0 <= i < self.prop_callbacks@.len() ==> accepts_all(
                #[trigger] self.prop_callbacks@[i].1.callback(),
            )
    }

    /// In a sound configuration no name stands for two selectors or for two
    /// properties.
    pub proof fn lemma_names_are_unique(&self)
        requires
            self.wf(),
        ensures
            keys(self.selectors_view()).no_duplicates(),
            keys(self.properties_view()).no_duplicates(),
    {
    }

    /// The address of the page.
    pub closed spec fn address(&self) -> Seq<char> {
        self.url@
    }

    /// The selectors, each under its name, in the order of registration.
    pub closed spec fn selectors_view(&self) -> Seq<(Seq<char>, SelectorSpecView)> {
        selector_views(self.selectors@)
    }

    /// The property callbacks, each under its name, in the order of
    /// registration.
    pub closed spec fn properties_view(&self) -> Seq<(Seq<char>, F)> {
        callback_views(self.prop_callbacks@)
    }

    /// The marks that make selectors sources of child pages, in the order in
    /// which they were set.
    pub closed spec fn marks_view(&self) -> Seq<(Seq<char>, ChildScope)> {
        keyed(self.child_selectors@)
    }

    /// What is sent along with the request for the page.
    pub closed spec fn request_settings(&self) -> RequestSettings {
        self.request
    }

    /// Whether nothing is registered yet.
    pub open spec fn is_blank(&self) -> bool {
        &&& self.selectors_view().len() == 0
        &&& self.properties_view().len() == 0
        &&& self.marks_view().len() == 0
        &&& self.request_settings().user_agent is None
        &&& self.request_settings().bearer_tokens@ == (BearerTokensView {
            global: None,
            scoped: Seq::empty(),
        })
    }

    /// Returns a new document; fails where the string is no URL.
    pub fn new(url: &str) -> (r: Result<Document<F>, ScrapedError>)
        ensures
            match r {
                Ok(doc) => url_normal_form(url@) == Some(doc.address()) && doc.is_blank()
                    && doc.wf(),
                Err(e) => url_normal_form(url@) is None && e is InvalidUrl,
            },
    {
        match parse_url(url) {
            Ok(parsed) => Ok(Document::from_url(&parsed)),
            Err(e) => Err(e),
        }
    }

    /// A new document for a URL that is already validated.
    pub fn from_url(url: &PageUrl) -> (doc: Document<F>)
        ensures
            doc.address() == url@,
            doc.is_blank(),
            doc.wf(),
    {
        Document {
            url: url.clone(),
            selectors: Vec::new(),
            prop_callbacks: Vec::new(),
            child_selectors: Vec::new(),
            request: RequestSettings::new(),
        }
    }

    /// The document in a few words: `Document[ ` and ` ]` around its address.
    pub fn to_string(&self) -> (text: String)
        ensures
            text@ == "Document[ "@ + self.address() + " ]"@,
    {
        joined("Document[ ", self.url.as_str(), " ]")
    }

    /// The address of the page.
    pub fn url(&self) -> (url: &PageUrl)
        ensures
            url@ == self.address(),
    {
        &self.url
    }

    /// What is sent along with the request for the page.
    pub fn request(&self) -> (settings: &RequestSettings)
        ensures
            *settings == self.request_settings(),
    {
        &self.request
    }

    /// Allows adding a bearer token for auth and/or rate-limiting purposes.
    ///
    /// Note: this token can be for ALL pages or scoped to a particular
    /// domain. To scope it to a particular domain you must separate the
    /// domain and the token with the "|" character, as in
    /// `github.com|{token}`.
    pub fn bearer_token(&mut self, token: &str) -> (r: Result<(), ScrapedError>)
        ensures
            final(self).address() == old(self).address(),
            final(self).selectors_view() == old(self).selectors_view(),
            final(self).properties_view() == old(self).properties_view(),
            final(self).marks_view() == old(self).marks_view(),
            old(self).wf() ==> final(self).wf(),
            final(self).request_settings().user_agent == old(self).request_settings().user_agent,
            r is Ok <==> is_header_value(bearer_value(secret_of(token@))),
            r is Ok ==> final(self).request_settings().bearer_tokens@ == with_token(
                old(self).request_settings().bearer_tokens@,
                token@,
            ),
            r matches Err(e) ==> {
                &&& final(self).request_settings() == old(self).request_settings()
                &&& e matches ScrapedError::InvalidHeader { value }
                &&& value@ == secret_of(token@)
            },
    {
        self.request.bearer_tokens.add(token)
    }

    /// Allows explicit setting of the user-agent string.
    pub fn user_agent(&mut self, user_agent: &str) -> (r: Result<(), ScrapedError>)
        ensures
            final(self).address() == old(self).address(),
            final(self).selectors_view() == old(self).selectors_view(),
            final(self).properties_view() == old(self).properties_view(),
            final(self).marks_view() == old(self).marks_view(),
            old(self).wf() ==> final(self).wf(),
            final(self).request_settings().bearer_tokens
                == old(self).request_settings().bearer_tokens,
            r is Ok <==> is_header_value(user_agent@),
            r is Ok ==> final(self).request_settings().user_agent.deep_view() == Some(
                user_agent@,
            ),
            r matches Err(e) ==> {
                &&& final(self).request_settings() == old(self).request_settings()
                &&& e matches ScrapedError::InvalidHeader { value }
                &&& value@ == user_agent@
            },
    {
        self.request.set_user_agent(user_agent)
    }

    /// The registered selectors, each under its name.
    pub fn selector_entries(&self) -> (entries: &Vec<(String, SelectorSpec)>)
        ensures
            selector_views(entries@) == self.selectors_view(),
    {
        &self.selectors
    }

    /// The registered callbacks, each under the name of its property.
    pub fn property_entries(&self) -> (entries: &Vec<(String, DebuggableCallback<F>)>)
        ensures
            callback_views(entries@) == self.properties_view(),
            self.wf() ==> forall|i: int|
                0 <= i < entries@.len() ==> accepts_all(#[trigger] entries@[i].1.callback()),
    {
        &self.prop_callbacks
    }

    /// The marks that make selectors sources of child pages.
    pub fn mark_entries(&self) -> (entries: &Vec<(String, ChildScope)>)
        ensures
            keyed(entries@) == self.marks_view(),
    {
        &self.child_selectors
    }

    /// If for some reason you want to provide the page's content yourself
    /// instead of having it loaded over the network you may do that.
    pub fn provide_response<'a>(&'a self, headers: Vec<(String, String)>, body: &str) -> (loaded:
        LoadedDocument<'a, F>)
        ensures
            *loaded.doc == *self,
            loaded.headers == headers,
            loaded.source() == body@,
    {
        LoadedDocument::new(self, headers, body)
    }

    /// Registers a selector of the given kind under `name`, in the place of
    /// the selector of that name where there is one. Fails, and changes
    /// nothing, where the pattern is no CSS selector.
    pub fn register(&mut self, name: &str, kind: SelectorKind, pattern: &str) -> (r: Result<
        (),
        ScrapedError,
    >)
        ensures
            final(self).address() == old(self).address(),
            final(self).request_settings() == old(self).request_settings(),
            final(self).properties_view() == old(self).properties_view(),
            final(self).marks_view() == old(self).marks_view(),
            old(self).wf() ==> final(self).wf(),
            match r {
                Ok(_) => {
                    &&& css_valid(pattern@)
                    &&& final(self).selectors_view() == upsert(
                        old(self).selectors_view(),
                        name@,
                        SelectorSpecView { kind, pattern: pattern@ },
                    )
                },
                Err(e) => {
                    &&& !css_valid(pattern@)
                    &&& final(self).selectors_view() == old(self).selectors_view()
                    &&& e matches ScrapedError::InvalidSelector { name: n, pattern: p }
                    &&& n@ == name@
                    &&& p@ == pattern@
                },
            },
    {
        match SelectorSpec::new(kind, pattern) {
            Some(spec) => {
                let ghost before = self.selectors@;
                put(&mut self.selectors, name, spec);
                proof {
                    let f = |s: SelectorSpec| s@;
                    assert(selector_views(before) =~= with_values(keyed(before), f));
                    assert(selector_views(self.selectors@) =~= with_values(
                        keyed(self.selectors@),
                        f,
                    ));
                    lemma_upsert_with_values(keyed(before), name@, spec, f);
                    if keys(selector_views(before)).no_duplicates() {
                        lemma_upsert_keeps_names_distinct(selector_views(before), name@, spec@);
                    }
                }
                Ok(())
            },
            None => Err(
                ScrapedError::InvalidSelector { name: name.to_owned(), pattern: pattern.to_owned() },
            ),
        }
    }

    /// Add a selector for an item where the expectation is there is only one
    /// (or more specifically _at most_ one).
    pub fn add_selector(&mut self, name: &str, selector: &str) -> (r: Result<(), ScrapedError>)
        ensures
            final(self).address() == old(self).address(),
            final(self).request_settings() == old(self).request_settings(),
            final(self).properties_view() == old(self).properties_view(),
            final(self).marks_view() == old(self).marks_view(),
            old(self).wf() ==> final(self).wf(),
            r is Ok <==> css_valid(selector@),
            r is Ok ==> final(self).selectors_view() == upsert(
                old(self).selectors_view(),
                name@,
                SelectorSpecView { kind: SelectorKind::Item, pattern: selector@ },
            ),
            r matches Err(e) ==> {
                &&& final(self).selectors_view() == old(self).selectors_view()
                &&& e matches ScrapedError::InvalidSelector { name: n, pattern: p }
                &&& n@ == name@
                &&& p@ == selector@
            },
    {
        self.register(name, SelectorKind::Item, selector)
    }

    /// Add a selector which is expected to bring a _list_ of results.
    pub fn add_list_selector(&mut self, name: &str, selector: &str) -> (r: Result<
        (),
        ScrapedError,
    >)
        ensures
            final(self).address() == old(self).address(),
            final(self).request_settings() == old(self).request_settings(),
            final(self).properties_view() == old(self).properties_view(),
            final(self).marks_view() == old(self).marks_view(),
            old(self).wf() ==> final(self).wf(),
            r is Ok <==> css_valid(selector@),
            r is Ok ==> final(self).selectors_view() == upsert(
                old(self).selectors_view(),
                name@,
                SelectorSpecView { kind: SelectorKind::List, pattern: selector@ },
            ),
            r matches Err(e) ==> {
                &&& final(self).selectors_view() == old(self).selectors_view()
                &&& e matches ScrapedError::InvalidSelector { name: n, pattern: p }
                &&& n@ == name@
                &&& p@ == selector@
            },
    {
        self.register(name, SelectorKind::List, selector)
    }

    /// Registers the selectors of `table` in turn and stops at the first
    /// whose pattern is no CSS selector; those before it stay registered.
    pub fn add_selectors(&mut self, table: &Vec<Preset>) -> (r: Result<(), ScrapedError>)
        ensures
            final(self).address() == old(self).address(),
            final(self).request_settings() == old(self).request_settings(),
            final(self).properties_view() == old(self).properties_view(),
            final(self).marks_view() == old(self).marks_view(),
            old(self).wf() ==> final(self).wf(),
            match first_invalid(table.deep_view()) {
                None => r is Ok && final(self).selectors_view() == with_selectors(
                    old(self).selectors_view(),
                    table.deep_view(),
                ),
                Some(k) => {
                    &&& 0 <= k < table.len()
                    &&& final(self).selectors_view() == with_selectors(
                        old(self).selectors_view(),
                        table.deep_view().take(k),
                    )
                    &&& r matches Err(ScrapedError::InvalidSelector { name, pattern })
                    &&& name@ == table[k].name@
                    &&& pattern@ == table[k].pattern@
                },
            },
    {
        let ghost all = table.deep_view();
        let ghost start = self.selectors_view();
        let mut i: usize = 0;
        assert(all.take(0) =~= Seq::empty());
        while i < table.len()
            invariant
                i <= table.len(),
                all == table.deep_view(),
                start == old(self).selectors_view(),
                self.address() == old(self).address(),
                self.request_settings() == old(self).request_settings(),
                self.properties_view() == old(self).properties_view(),
                self.marks_view() == old(self).marks_view(),
                old(self).wf() ==> self.wf(),
                first_invalid(all.take(i as int)) is None,
                self.selectors_view() == with_selectors(start, all.take(i as int)),
            decreases table.len() - i,
        {
            assert(all.take(i + 1).drop_last() =~= all.take(i as int));
            assert(all.take(i + 1).last() == table[i as int]@);
            match self.register(table[i].name, table[i].kind, table[i].pattern) {
                Ok(_) => {},
                Err(e) => {
                    proof {
                        lemma_first_invalid_stays(all, i + 1, i as int);
                    }
                    return Err(e);
                },
            }
            i = i + 1;
        }
        assert(all.take(table.len() as int) =~= all);
        Ok(())
    }

    /// Adds some useful but generic selectors: `h1`, `title`, `h2`, `h3`,
    /// `links`, `images`, `scripts`, `styles` and `meta`.
    pub fn add_generic_selectors(&mut self) -> (r: Result<(), ScrapedError>)
        ensures
            final(self).address() == old(self).address(),
            final(self).request_settings() == old(self).request_settings(),
            final(self).properties_view() == old(self).properties_view(),
            final(self).marks_view() == old(self).marks_view(),
            old(self).wf() ==> final(self).wf(),
            r is Ok <==> first_invalid(generic_table()) is None,
            r is Ok ==> final(self).selectors_view() == with_selectors(
                old(self).selectors_view(),
                generic_table(),
            ),
    {
        self.add_selectors(&generic_selectors())
    }

    /// Adds the selectors that suit the pages of `docs.rs`, and marks those
    /// that list the items of a module as sources of child pages, to be
    /// followed where their hrefs are relative.
    pub fn for_docs_rs(&mut self) -> (r: Result<(), ScrapedError>)
        ensures
            final(self).address() == old(self).address(),
            final(self).request_settings() == old(self).request_settings(),
            final(self).properties_view() == old(self).properties_view(),
            old(self).wf() ==> final(self).wf(),
            r is Ok <==> first_invalid(docs_rs_table()) is None,
            r is Ok ==> {
                &&& final(self).selectors_view() == with_selectors(
                    old(self).selectors_view(),
                    docs_rs_table(),
                )
                &&& final(self).marks_view() == old(self).marks_view() + marks_for(
                    docs_rs_children(),
                    ChildScope::Relative(),
                )
            },
            r is Err ==> final(self).marks_view() == old(self).marks_view(),
    {
        match self.add_selectors(&docs_rs_selectors()) {
            Ok(_) => {},
            Err(e) => {
                return Err(e);
            },
        }
        let children = docs_rs_child_selectors();
        proof {
            let registered = keys(self.selectors_view());
            let table = docs_rs_table();
            let names = children.deep_view();
            assert forall|i: int| 0 <= i < names.len() implies has_name(
                registered,
                #[trigger] names[i],
            ) by {
                assert(names[i] == table[i + 3].0);
                lemma_presets_are_registered(old(self).selectors_view(), table, names[i]);
            }
            names.lemma_all_neg_filter_empty(|name: Seq<char>| !has_name(registered, name));
        }
        self.child_selectors(children, ChildScope::Relative())
    }

    /// States which selectors are considered to lead to _child pages_ of the
    /// current document where an href is found in their results, and under
    /// which scope. The selectors must be registered before; where one is
    /// not, nothing is marked and the error names the unknown ones.
    pub fn child_selectors(&mut self, selectors: Vec<&str>, scope: ChildScope) -> (r: Result<
        (),
        ScrapedError,
    >)
        ensures
            final(self).address() == old(self).address(),
            final(self).request_settings() == old(self).request_settings(),
            final(self).properties_view() == old(self).properties_view(),
            final(self).selectors_view() == old(self).selectors_view(),
            old(self).wf() ==> final(self).wf(),
            r is Ok <==> unknown_among(
                selectors.deep_view(),
                keys(old(self).selectors_view()),
            ).len() == 0,
            r is Ok ==> final(self).marks_view() == old(self).marks_view() + marks_for(
                selectors.deep_view(),
                scope,
            ),
            r matches Err(e) ==> {
                &&& final(self).marks_view() == old(self).marks_view()
                &&& e matches ScrapedError::UnknownSelector { names }
                &&& names.deep_view() == unknown_among(
                    selectors.deep_view(),
                    keys(old(self).selectors_view()),
                )
            },
    {
        let ghost names = selectors.deep_view();
        let ghost registered = keys(self.selectors_view());
        let ghost unknown = |name: Seq<char>| !has_name(registered, name);
        let mut invalid: Vec<String> = Vec::new();
        let mut i: usize = 0;
        proof {
            assert(registered =~= names_of(self.selectors@));
            assert(names.take(0) =~= Seq::empty());
            reveal(Seq::filter);
            assert(invalid.deep_view() =~= names.take(0).filter(unknown));
        }
        while i < selectors.len()
            invariant
                i <= selectors.len(),
                names == selectors.deep_view(),
                registered == names_of(self.selectors@),
                unknown == |name: Seq<char>| !has_name(registered, name),
                invalid.deep_view() == names.take(i as int).filter(unknown),
            decreases selectors.len() - i,
        {
            let ghost before = invalid.deep_view();
            proof {
                assert(names.take(i + 1) =~= names.take(i as int).push(names[i as int]));
                names.take(i as int).lemma_filter_push(names[i as int], unknown);
            }
            if find_name(&self.selectors, selectors[i]).is_none() {
                invalid.push(selectors[i].to_owned());
                assert(invalid.deep_view() =~= before.push(names[i as int]));
            }
            i = i + 1;
        }
        assert(names.take(selectors.len() as int) =~= names);
        if invalid.len() > 0 {
            return Err(ScrapedError::UnknownSelector { names: invalid });
        }
        let ghost start = keyed(self.child_selectors@);
        let mut j: usize = 0;
        assert(keyed(self.child_selectors@) =~= start + marks_for(names.take(0), scope));
        while j < selectors.len()
            invariant
                j <= selectors.len(),
                names == selectors.deep_view(),
                self.address() == old(self).address(),
                self.request_settings() == old(self).request_settings(),
                self.properties_view() == old(self).properties_view(),
                self.selectors_view() == old(self).selectors_view(),
                old(self).wf() ==> self.wf(),
                keyed(self.child_selectors@) == start + marks_for(names.take(j as int), scope),
            decreases selectors.len() - j,
        {
            let ghost before = self.child_selectors@;
            self.child_selectors.push((selectors[j].to_owned(), scope));
            proof {
                assert(names[j as int] == selectors[j as int]@);
                assert(names.take(j + 1) =~= names.take(j as int).push(names[j as int]));
                assert(keyed(self.child_selectors@) =~= keyed(before).push(
                    (names[j as int], scope),
                ));
                assert(marks_for(names.take(j + 1), scope) =~= marks_for(
                    names.take(j as int),
                    scope,
                ).push((names[j as int], scope)));
            }
            j = j + 1;
        }
        assert(names.take(selectors.len() as int) =~= names);
        Ok(())
    }

    /// Add a **property** callback to the document's configuration, in the
    /// place of the property of that name where there is one.
    pub fn add_property(&mut self, name: &str, callback: F)
        requires
            old(self).wf(),
            accepts_all(callback),
        ensures
            final(self).wf(),
            final(self).address() == old(self).address(),
            final(self).request_settings() == old(self).request_settings(),
            final(self).selectors_view() == old(self).selectors_view(),
            final(self).marks_view() == old(self).marks_view(),
            final(self).properties_view() == upsert(old(self).properties_view(), name@, callback),
            has_name(keys(final(self).properties_view()), name@),
    {
        let ghost before = self.prop_callbacks@;
        let wrapped = DebuggableCallback::new(callback);
        put(&mut self.prop_callbacks, name, wrapped);
        proof {
            let f = |w: DebuggableCallback<F>| w.callback();
            assert(callback_views(before) =~= with_values(keyed(before), f));
            assert(callback_views(self.prop_callbacks@) =~= with_values(
                keyed(self.prop_callbacks@),
                f,
            ));
            lemma_upsert_with_values(keyed(before), name@, wrapped, f);
            lemma_upsert_keys(callback_views(before), name@, callback);
            lemma_upsert_keeps_names_distinct(callback_views(before), name@, callback);
            let after = self.prop_callbacks@;
            assert forall|i: int| 0 <= i < after.len() implies accepts_all(
                #[trigger] after[i].1.callback(),
            ) by {
                assert(keyed(after)[i].1 == after[i].1);
                if i < before.len() {
                    assert(keyed(before)[i].1 == before[i].1);
                }
            }
        }
    }
}

/// A document which has the web content loaded but not yet turned into
/// scraped results.
pub struct LoadedDocument<'a, F: Fn(&Selections) -> serde_json::Value = PropertyCallback> {
    /// the configuration that the content was loaded for
    pub doc: &'a Document<F>,
    /// the _response_ headers returned by the page request, one pair of name
    /// and value for each header line, in the order of the response
    pub headers: Vec<(String, String)>,
    /// the body of the response after having been parsed into a DOM
    pub body: scraper::Html,
}

impl<'a, F: Fn(&Selections) -> serde_json::Value> LoadedDocument<'a, F> {
    /// The text of the page.
    pub open spec fn source(&self) -> Seq<char> {
        html_source(self.body)
    }

    /// Parses the body of a response for the given configuration.
    pub fn new(doc: &'a Document<F>, headers: Vec<(String, String)>, body: &str) -> (loaded:
        LoadedDocument<'a, F>)
        ensures
            *loaded.doc == *doc,
            loaded.headers == headers,
            loaded.source() == body@,
    {
        LoadedDocument { doc, headers, body: parse_page(body) }
    }

    /// Applies the configuration to the page.
    pub fn results(&self) -> (results: ScrapedResults)
        requires
            self.doc.wf(),
        ensures
            scraped_from(results, *self),
    {
        ScrapedResults::from(self)
    }
}

} // verus!
