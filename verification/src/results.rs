//! What a page yields: one selection for each selector, one value for each
//! property, and the addresses of its child pages.

use vstd::prelude::*;
use crate::dom::{DomNode, DomNodeView};
use crate::element::{Element, ElementView};
use crate::error::ScrapedError;
use crate::document::{
    accepts_all, callback_views, selector_views, Document, LoadedDocument, SelectorSpecView,
};
use crate::dom::{css_matches, html_source};
use crate::named::{
    find_name, has_name, keyed, keys, lemma_keys_of_keyed, lemma_position_found_is_first, names_of,
    position,
};
use crate::scope::{child_href_in_scope, child_url, ChildScope, RelativeHrefs};
use crate::selection::{extract, get_selection};
use crate::urls::{url_normal_form, PageUrl};

verus! {

/// A JSON value, as `serde_json` holds it. Property callbacks return one.
#[verifier::external_type_specification]
#[verifier::external_body]
pub struct ExValue(serde_json::Value);

/// Whether a selector stands for at most one element or for all that match.
#[derive(Debug, Clone, Copy, PartialEq, Eq, Structural)]
pub enum SelectorKind {
    /// the first match counts
    Item,
    /// every match counts, in document order
    List,
}

/// What a selector found on a page.
#[derive(Debug, Clone, PartialEq, Eq)]
pub enum SelectionResult {
    /// nothing matched
    Absent(),
    /// what an item selector found
    Element(Element),
    /// what a list selector found
    List(Vec<Element>),
}

/// A [`SelectionResult`] as a mathematical value.
pub enum SelectionResultView {
    Absent,
    Element(ElementView),
    List(Seq<ElementView>),
}

impl View for SelectionResult {
    type V = SelectionResultView;

    open spec fn view(&self) -> SelectionResultView {
        match self {
            SelectionResult::Absent() => SelectionResultView::Absent,
            SelectionResult::Element(element) => SelectionResultView::Element(element@),
            SelectionResult::List(elements) => SelectionResultView::List(elements.deep_view()),
        }
    }
}

impl DeepView for SelectionResult {
    type V = SelectionResultView;

    open spec fn deep_view(&self) -> SelectionResultView {
        self@
    }
}

/// The elements of a selection, in document order.
pub open spec fn elements_of(selection: SelectionResultView) -> Seq<ElementView> {
    match selection {
        SelectionResultView::Absent => Seq::empty(),
        SelectionResultView::Element(element) => seq![element],
        SelectionResultView::List(elements) => elements,
    }
}

/// What a selector of the given kind makes of the nodes that matched it, in
/// document order, on the page at `page`. No match is `Absent` for either kind.
pub open spec fn selection_of(kind: SelectorKind, nodes: Seq<DomNodeView>, page: Seq<char>) -> SelectionResultView {
    if nodes.len() == 0 {
        SelectionResultView::Absent
    } else {
        match kind {
            SelectorKind::Item => SelectionResultView::Element(extract(nodes[0], page)),
            SelectorKind::List => SelectionResultView::List(
                nodes.map_values(|node: DomNodeView| extract(node, page)),
            ),
        }
    }
}

/// Turns the nodes that matched a selector into the selector's result: the
/// first node for an item selector, all of them for a list selector, and
/// `Absent` for either where nothing matched.
pub fn select_result(kind: SelectorKind, nodes: &Vec<DomNode>, url: &PageUrl) -> (r: SelectionResult)
    ensures
        r@ == selection_of(kind, nodes.deep_view(), url@),
        nodes.len() == 0 <==> r is Absent,
{
    if nodes.len() == 0 {
        return SelectionResult::Absent();
    }
    match kind {
        SelectorKind::Item => SelectionResult::Element(get_selection(&nodes[0], url)),
        SelectorKind::List => {
            let mut elements: Vec<Element> = Vec::new();
            let mut i: usize = 0;
            while i < nodes.len()
                invariant
                    i <= nodes.len(),
                    elements.len() == i,
                    forall|j: int| 0 <= j < i ==> elements[j]@ == extract(nodes[j]@, url@),
                decreases nodes.len() - i,
            {
                elements.push(get_selection(&nodes[i], url));
                i = i + 1;
            }
            assert(elements.deep_view() =~= nodes.deep_view().map_values(
                |node: DomNodeView| extract(node, url@),
            ));
            SelectionResult::List(elements)
        },
    }
}

/// Turns the first node that matched an item selector into the selector's
/// result: `Absent` where nothing matched.
pub fn item_result(first: &Option<DomNode>, url: &PageUrl) -> (r: SelectionResult)
    ensures
        r@ == (match first.deep_view() {
            Some(node) => SelectionResultView::Element(extract(node, url@)),
            None => SelectionResultView::Absent,
        }),
        first is None <==> r is Absent,
{
    match first {
        Some(node) => SelectionResult::Element(get_selection(node, url)),
        None => SelectionResult::Absent(),
    }
}

/// The selections of a page, each under the name of its selector, in the
/// order in which the selectors were registered.
#[derive(Debug, Clone, PartialEq, Eq)]
pub struct Selections {
    pub entries: Vec<(String, SelectionResult)>,
}

impl View for Selections {
    type V = Seq<(Seq<char>, SelectionResultView)>;

    open spec fn view(&self) -> Seq<(Seq<char>, SelectionResultView)> {
        self.entries.deep_view()
    }
}

impl DeepView for Selections {
    type V = Seq<(Seq<char>, SelectionResultView)>;

    open spec fn deep_view(&self) -> Seq<(Seq<char>, SelectionResultView)> {
        self@
    }
}

impl Selections {
    /// No selections.
    pub fn new() -> (selections: Selections)
        ensures
            selections.entries@.len() == 0,
    {
        Selections { entries: Vec::new() }
    }

    /// How many selections there are.
    pub fn len(&self) -> (n: usize)
        ensures
            n == self.entries@.len(),
    {
        self.entries.len()
    }

    /// The selection under `name`.
    pub fn get(&self, name: &str) -> (r: Option<&SelectionResult>)
        ensures
            match position(names_of(self.entries@), name@) {
                Some(i) => r == Some(&self.entries@[i].1),
                None => r is None,
            },
    {
        match find_name(&self.entries, name) {
            Some(i) => Some(&self.entries[i].1),
            None => None,
        }
    }
}

/// What a lookup in the results found.
#[derive(Debug)]
pub enum Found<'a> {
    /// the value of a property
    Property(&'a serde_json::Value),
    /// the result of a selector
    Selection(&'a SelectionResult),
}

/// What a lookup of `key` finds in `results`: the property of that name
/// where there is one, else the selection of that name, else nothing.
pub open spec fn found_in<'a>(results: &'a ScrapedResults, key: Seq<char>) -> Option<Found<'a>> {
    match position(names_of(results.properties@), key) {
        Some(i) => Some(Found::Property(&results.properties@[i].1)),
        None => match position(names_of(results.selections.entries@), key) {
            Some(j) => Some(Found::Selection(&results.selections.entries@[j].1)),
            None => None,
        },
    }
}

/// A selector that matches nothing selects `Absent`, whatever its kind.
pub proof fn lemma_no_match_is_absent(kind: SelectorKind, page: Seq<char>)
    ensures
        selection_of(kind, Seq::empty(), page) == SelectionResultView::Absent,
{
}

/// In the selections of a page, a selector that matches nothing on the page
/// stands with `Absent` under its name, be it an item or a list selector.
pub proof fn lemma_unmatched_selector_is_absent(
    specs: Seq<(Seq<char>, SelectorSpecView)>,
    source: Seq<char>,
    page: Seq<char>,
    i: int,
)
    requires
        0 <= i < specs.len(),
    ensures
        css_matches(source, specs[i].1.pattern).len() == 0 ==> selections_of(specs, source, page)[i]
            == (specs[i].0, SelectionResultView::Absent),
{
}

/// A property masks a selection of the same name: where the results hold a
/// property under `key`, a lookup of `key` finds that property, whatever its
/// value is and whatever the selections hold.
pub proof fn lemma_property_masks_selection(results: &ScrapedResults, key: Seq<char>)
    requires
        has_name(names_of(results.properties@), key),
    ensures
        found_in(results, key) matches Some(Found::Property(_)),
{
}

/// A property that is registered is found in whatever the configuration
/// makes of a page, also where a selector of the same name is registered.
pub proof fn lemma_registered_property_is_found<F: Fn(&Selections) -> serde_json::Value>(
    results: &ScrapedResults,
    doc: Document<F>,
    address: Seq<char>,
    headers: Seq<(Seq<char>, Seq<char>)>,
    source: Seq<char>,
    key: Seq<char>,
)
    requires
        scraped_with(*results, doc, address, headers, source),
        has_name(keys(doc.properties_view()), key),
    ensures
        found_in(results, key) matches Some(Found::Property(_)),
{
    assert(names_of(results.properties@) =~= keys(doc.properties_view()));
}

/// What a sound configuration makes of a page holds each name once among its
/// selections and once among its properties.
pub proof fn lemma_result_names_are_unique<F: Fn(&Selections) -> serde_json::Value>(
    results: &ScrapedResults,
    doc: Document<F>,
    address: Seq<char>,
    headers: Seq<(Seq<char>, Seq<char>)>,
    source: Seq<char>,
)
    requires
        doc.wf(),
        scraped_with(*results, doc, address, headers, source),
    ensures
        keys(results.selections@).no_duplicates(),
        names_of(results.properties@).no_duplicates(),
{
    doc.lemma_names_are_unique();
    assert(keys(results.selections@) =~= keys(doc.selectors_view()));
    assert(names_of(results.properties@) =~= keys(doc.properties_view()));
}

/// The scope under which the selector `name` was marked as a source of child
/// pages, if it was. Where a name was marked more than once the first mark
/// counts.
pub open spec fn scope_of(marks: Seq<(Seq<char>, ChildScope)>, name: Seq<char>) -> Option<
    ChildScope,
> {
    match position(keys(marks), name) {
        Some(i) => Some(marks[i].1),
        None => None,
    }
}

/// The address of the child page that an element leads to under `scope`.
pub open spec fn child_of(element: ElementView, scope: ChildScope, page: Seq<char>) -> Option<
    Seq<char>,
> {
    match element.href {
        Some(href) => child_url(href, scope, page),
        None => None,
    }
}

/// The addresses of the child pages that the elements lead to under `scope`,
/// in the order of the elements.
pub open spec fn children_among(elements: Seq<ElementView>, scope: ChildScope, page: Seq<char>) -> Seq<
    Seq<char>,
> {
    elements.filter_map(|element: ElementView| child_of(element, scope, page))
}

/// The addresses of the child pages that one selection leads to, given the
/// mark of its selector.
pub open spec fn children_in(
    selection: SelectionResultView,
    mark: Option<ChildScope>,
    page: Seq<char>,
) -> Seq<Seq<char>> {
    match mark {
        Some(scope) => children_among(elements_of(selection), scope, page),
        None => Seq::empty(),
    }
}

/// The addresses of the child pages of a page: for each selection whose
/// selector is marked, in the order of the selections, what its elements lead
/// to, in document order.
pub open spec fn child_urls_of(
    selections: Seq<(Seq<char>, SelectionResultView)>,
    marks: Seq<(Seq<char>, ChildScope)>,
    page: Seq<char>,
) -> Seq<Seq<char>>
    decreases selections.len(),
{
    if selections.len() == 0 {
        Seq::empty()
    } else {
        child_urls_of(selections.drop_last(), marks, page) + children_in(
            selections.last().1,
            scope_of(marks, selections.last().0),
            page,
        )
    }
}

/// Adds to `urls` the address of the child page that `element` leads to.
fn collect_child(
    urls: &mut Vec<String>,
    matcher: &RelativeHrefs,
    element: &Element,
    scope: &ChildScope,
    page: &PageUrl,
)
    requires
        forall|j: int|
            0 <= j < old(urls).len() ==> url_normal_form(#[trigger] old(urls)[j]@) is Some,
    ensures
        final(urls).deep_view() == old(urls).deep_view() + children_among(
            seq![element@],
            *scope,
            page@,
        ),
        forall|j: int|
            0 <= j < final(urls).len() ==> url_normal_form(#[trigger] final(urls)[j]@) is Some,
{
    let ghost start = urls.deep_view();
    let ghost pick = |element: ElementView| child_of(element, *scope, page@);
    proof {
        Seq::lemma_filter_map_singleton(element@, pick);
    }
    match &element.href {
        Some(href) => {
            match child_href_in_scope(matcher, href.as_str(), scope, page) {
                Some(address) => {
                    urls.push(address);
                    assert(urls.deep_view() =~= start.push(address@));
                },
                None => {},
            }
        },
        None => {},
    }
    assert(urls.deep_view() =~= start + seq![element@].filter_map(pick));
}

/// Adds to `urls` the addresses of the child pages that `elements` lead to.
fn collect_children(
    urls: &mut Vec<String>,
    matcher: &RelativeHrefs,
    elements: &Vec<Element>,
    scope: &ChildScope,
    page: &PageUrl,
)
    requires
        forall|j: int|
            0 <= j < old(urls).len() ==> url_normal_form(#[trigger] old(urls)[j]@) is Some,
    ensures
        final(urls).deep_view() == old(urls).deep_view() + children_among(
            elements.deep_view(),
            *scope,
            page@,
        ),
        forall|j: int|
            0 <= j < final(urls).len() ==> url_normal_form(#[trigger] final(urls)[j]@) is Some,
{
    let ghost all = elements.deep_view();
    let ghost start = urls.deep_view();
    let ghost pick = |element: ElementView| child_of(element, *scope, page@);
    let mut i: usize = 0;
    assert(urls.deep_view() =~= start + all.take(0).filter_map(pick));
    while i < elements.len()
        invariant
            i <= elements.len(),
            all == elements.deep_view(),
            pick == |element: ElementView| child_of(element, *scope, page@),
            urls.deep_view() == start + all.take(i as int).filter_map(pick),
            forall|j: int| 0 <= j < urls.len() ==> url_normal_form(#[trigger] urls[j]@) is Some,
        decreases elements.len() - i,
    {
        let ghost before = urls.deep_view();
        proof {
            all.lemma_filter_map_take_succ(pick, i as int);
            assert(all[i as int] == elements[i as int]@);
        }
        match &elements[i].href {
            Some(href) => {
                match child_href_in_scope(matcher, href.as_str(), scope, page) {
                    Some(address) => {
                        urls.push(address);
                        assert(urls.deep_view() =~= before.push(address@));
                    },
                    None => {},
                }
            },
            None => {},
        }
        assert(urls.deep_view() =~= start + all.take(i + 1).filter_map(pick));
        i = i + 1;
    }
    assert(all.take(elements.len() as int) =~= all);
}

/// The selections that the registered selectors make of the page written
/// `source` at the address `page`, each under the name of its selector.
pub open spec fn selections_of(
    specs: Seq<(Seq<char>, SelectorSpecView)>,
    source: Seq<char>,
    page: Seq<char>,
) -> Seq<(Seq<char>, SelectionResultView)> {
    specs.map_values(
        |spec: (Seq<char>, SelectorSpecView)|
            (spec.0, selection_of(spec.1.kind, css_matches(source, spec.1.pattern), page)),
    )
}

/// Whether `properties` holds, for each callback and under its name, a value
/// that the callback returns for `selections`.
pub open spec fn properties_from<F: Fn(&Selections) -> serde_json::Value>(
    properties: Seq<(String, serde_json::Value)>,
    callbacks: Seq<(Seq<char>, F)>,
    selections: Selections,
) -> bool {
    &&& properties.len() == callbacks.len()
    &&& forall|i: int|
        0 <= i < callbacks.len() ==> {
            &&& (#[trigger] properties[i]).0@ == callbacks[i].0
            &&& call_ensures(callbacks[i].1, (&selections,), properties[i].1)
        }
}

/// The header lines grouped by name: each name once, in the order in which
/// the names first occur, with the values of its lines in their order.
pub open spec fn grouped_headers(lines: Seq<(Seq<char>, Seq<char>)>) -> Seq<
    (Seq<char>, Seq<Seq<char>>),
>
    decreases lines.len(),
{
    if lines.len() == 0 {
        Seq::empty()
    } else {
        let before = grouped_headers(lines.drop_last());
        let name = lines.last().0;
        let value = lines.last().1;
        match position(keys(before), name) {
            Some(i) => before.update(i, (name, before[i].1.push(value))),
            None => before.push((name, seq![value])),
        }
    }
}

/// Groups header lines by name.
pub fn headers_to_map(lines: &Vec<(String, String)>) -> (grouped: Vec<(String, Vec<String>)>)
    ensures
        grouped.deep_view() == grouped_headers(lines.deep_view()),
{
    let ghost all = lines.deep_view();
    let mut grouped: Vec<(String, Vec<String>)> = Vec::new();
    let mut i: usize = 0;
    assert(grouped.deep_view() =~= grouped_headers(all.take(0)));
    while i < lines.len()
        invariant
            i <= lines.len(),
            all == lines.deep_view(),
            grouped.deep_view() == grouped_headers(all.take(i as int)),
        decreases lines.len() - i,
    {
        let ghost before = grouped.deep_view();
        proof {
            assert(all.take(i + 1).drop_last() =~= all.take(i as int));
            assert(all.take(i + 1).last() == all[i as int]);
            assert(names_of(grouped@) =~= keys(before));
        }
        let ghost kept = grouped@;
        assert(all[i as int] == (lines[i as int].0@, lines[i as int].1@));
        match find_name(&grouped, lines[i].0.as_str()) {
            Some(at) => {
                proof {
                    lemma_position_found_is_first(keys(before), all[i as int].0);
                    assert(before[at as int] == kept[at as int].deep_view());
                }
                let (name, mut values) = grouped.remove(at);
                let ghost earlier = values.deep_view();
                values.push(lines[i].1.clone());
                assert(values.deep_view() =~= earlier.push(all[i as int].1));
                grouped.insert(at, (name, values));
                assert(grouped@ =~= kept.update(at as int, (name, values)));
                assert(grouped.deep_view() =~= before.update(
                    at as int,
                    (all[i as int].0, before[at as int].1.push(all[i as int].1)),
                ));
            },
            None => {
                let mut values: Vec<String> = Vec::new();
                values.push(lines[i].1.clone());
                assert(values.deep_view() =~= seq![all[i as int].1]);
                grouped.push((lines[i].0.clone(), values));
                assert(grouped.deep_view() =~= before.push(
                    (all[i as int].0, seq![all[i as int].1]),
                ));
            },
        }
        i = i + 1;
    }
    assert(all.take(lines.len() as int) =~= all);
    grouped
}

/// Whether `results` is what the configuration `doc` makes of the page
/// written `source`, found at `address` and sent with the header lines
/// `headers`: the address and the grouped headers; for each selector, under
/// its name, what it selects on the page; for each property, under its name,
/// a value that its callback returns for those selections; the addresses of
/// the child pages where selectors are marked as their sources; and no
/// children.
pub open spec fn scraped_with<F: Fn(&Selections) -> serde_json::Value>(
    results: ScrapedResults,
    doc: Document<F>,
    address: Seq<char>,
    headers: Seq<(Seq<char>, Seq<char>)>,
    source: Seq<char>,
) -> bool {
    &&& results.url@ == address
    &&& results.headers.deep_view() == grouped_headers(headers)
    &&& results.selections@ == selections_of(doc.selectors_view(), source, address)
    &&& properties_from(results.properties@, doc.properties_view(), results.selections)
    &&& results.child_urls.deep_view() == (if doc.marks_view().len() == 0 {
        None
    } else {
        Some(child_urls_of(results.selections@, doc.marks_view(), address))
    })
    &&& results.children@.len() == 0
}

/// Whether `results` is what the configuration of `loaded` makes of its page.
pub open spec fn scraped_from<F: Fn(&Selections) -> serde_json::Value>(
    results: ScrapedResults,
    loaded: LoadedDocument<F>,
) -> bool {
    scraped_with(
        results,
        *loaded.doc,
        loaded.doc.address(),
        loaded.headers.deep_view(),
        loaded.source(),
    )
}

/// What scraping one page gave: its address, the headers of the response,
/// the selections and properties, the addresses of its child pages and, once
/// they were scraped too, what those gave.
#[derive(Debug)]
pub struct ScrapedResults {
    /// The URL which was parsed.
    pub url: PageUrl,
    /// The headers received in the page's response, grouped by name.
    pub headers: Vec<(String, Vec<String>)>,
    /// The addresses of the child pages; absent where no selector is marked
    /// as a source of child pages.
    pub child_urls: Option<Vec<String>>,
    /// The property values which the configured callbacks gave.
    pub properties: Vec<(String, serde_json::Value)>,
    /// The selector results after applying the page's DOM tree.
    pub selections: Selections,
    /// What the child pages gave, in the order of `child_urls`. The children
    /// of a page have no children themselves.
    pub children: Vec<ScrapedResults>,
}

impl ScrapedResults {
    /// Converts a loaded document and its configuration into results: applies
    /// every selector to the page, hands the selections to every property
    /// callback once, and collects the addresses of the child pages where
    /// selectors are marked as their sources. Nothing is fetched: the results
    /// have no children.
    pub fn from<F: Fn(&Selections) -> serde_json::Value>(loaded: &LoadedDocument<F>) -> (results:
        ScrapedResults)
        requires
            loaded.doc.wf(),
        ensures
            scraped_from(results, *loaded),
    {
        scrape_page(loaded.doc, loaded.doc.url(), &loaded.headers, &loaded.body)
    }

    /// Provides a convenience accessor that allows selection of a particular
    /// _selection_ value or a _property_. If property and selection names
    /// overlap then the property masks the selection of the same name.
    ///
    /// If a non-existent key is passed in, this function returns an error.
    pub fn get(&self, key: &str) -> (r: Result<Found<'_>, ScrapedError>)
        ensures
            match found_in(self, key@) {
                Some(found) => r == Ok::<Found, ScrapedError>(found),
                None => r matches Err(ScrapedError::KeyNotFound { key: missing }) && missing@
                    == key@,
            },
    {
        match find_name(&self.properties, key) {
            Some(i) => Ok(Found::Property(&self.properties[i].1)),
            None => match self.selections.get(key) {
                Some(selection) => Ok(Found::Selection(selection)),
                None => Err(ScrapedError::KeyNotFound { key: key.to_owned() }),
            },
        }
    }

    /// Returns a list of URLs which represent "child URLs". A child URL comes
    /// from a selection whose selector is marked in `selectors`, of an
    /// element that has an href, where the scope of the mark lets the href
    /// in.
    pub fn get_child_urls(&self, selectors: &Vec<(String, ChildScope)>) -> (urls: Vec<String>)
        ensures
            urls.deep_view() == child_urls_of(self.selections@, keyed(selectors@), self.url@),
            forall|i: int| 0 <= i < urls.len() ==> url_normal_form(#[trigger] urls[i]@) is Some,
    {
        children_of_page(&self.selections, selectors, &self.url)
    }
}

/// Applies all _selector configuration_ to the page to arrive at selection
/// _results_: for each selector, under its name, what it selects.
pub fn get_selection_results<F: Fn(&Selections) -> serde_json::Value>(
    doc: &Document<F>,
    url: &PageUrl,
    page: &scraper::Html,
) -> (selections: Selections)
    ensures
        selections@ == selections_of(doc.selectors_view(), html_source(*page), url@),
{
    let specs = doc.selector_entries();
    let mut entries: Vec<(String, SelectionResult)> = Vec::new();
    let mut i: usize = 0;
    while i < specs.len()
        invariant
            i <= specs.len(),
            entries.len() == i,
            forall|j: int|
                0 <= j < i ==> {
                    &&& (#[trigger] entries[j]).0@ == specs[j].0@
                    &&& entries[j].1@ == selection_of(
                        specs[j].1@.kind,
                        css_matches(html_source(*page), specs[j].1@.pattern),
                        url@,
                    )
                },
        decreases specs.len() - i,
    {
        let selection = match specs[i].1.kind() {
            SelectorKind::Item => item_result(&specs[i].1.first_match_in(page), url),
            SelectorKind::List => select_result(
                SelectorKind::List,
                &specs[i].1.matches_in(page),
                url,
            ),
        };
        entries.push((specs[i].0.clone(), selection));
        i = i + 1;
    }
    let selections = Selections { entries };
    assert(selections@ =~= selections_of(selector_views(specs@), html_source(*page), url@));
    selections
}

/// Provides the selection results to all property callbacks, each once, and
/// returns the _property values_, each under the name of its property.
pub fn get_property_results<F: Fn(&Selections) -> serde_json::Value>(
    doc: &Document<F>,
    selections: &Selections,
) -> (properties: Vec<(String, serde_json::Value)>)
    requires
        doc.wf(),
    ensures
        properties_from(properties@, doc.properties_view(), *selections),
{
    let callbacks = doc.property_entries();
    let mut properties: Vec<(String, serde_json::Value)> = Vec::new();
    let mut k: usize = 0;
    while k < callbacks.len()
        invariant
            k <= callbacks.len(),
            properties.len() == k,
            forall|j: int|
                0 <= j < callbacks@.len() ==> accepts_all(#[trigger] callbacks@[j].1.callback()),
            forall|j: int|
                0 <= j < k ==> {
                    &&& (#[trigger] properties[j]).0@ == callbacks[j].0@
                    &&& call_ensures(callbacks[j].1.callback(), (selections,), properties[j].1)
                },
        decreases callbacks.len() - k,
    {
        let callback = callbacks[k].1.extract();
        assert(accepts_all(callbacks@[k as int].1.callback()));
        assert(call_requires(*callback, (selections,)));
        let value = callback(selections);
        properties.push((callbacks[k].0.clone(), value));
        k = k + 1;
    }
    assert(properties_from(properties@, callback_views(callbacks@), *selections));
    properties
}

/// Applies a configuration to a parsed page found at `url`: applies every
/// selector to the page, hands the selections to every property callback
/// once, and collects the addresses of the child pages where selectors are
/// marked as their sources. Nothing is fetched: the results have no children.
pub fn scrape_page<F: Fn(&Selections) -> serde_json::Value>(
    doc: &Document<F>,
    url: &PageUrl,
    headers: &Vec<(String, String)>,
    page: &scraper::Html,
) -> (results: ScrapedResults)
    requires
        doc.wf(),
    ensures
        scraped_with(results, *doc, url@, headers.deep_view(), html_source(*page)),
{
    let selections = get_selection_results(doc, url, page);
    let properties = get_property_results(doc, &selections);
    let marks = doc.mark_entries();
    let child_urls = if marks.len() == 0 {
        None
    } else {
        Some(children_of_page(&selections, marks, url))
    };
    ScrapedResults {
        url: url.clone(),
        headers: headers_to_map(headers),
        child_urls,
        properties,
        selections,
        children: Vec::new(),
    }
}

/// The addresses of the child pages that the selections of the page at
/// `page` lead to under the given marks.
pub fn children_of_page(selections: &Selections, marks: &Vec<(String, ChildScope)>, page: &PageUrl) -> (urls:
    Vec<String>)
    ensures
        urls.deep_view() == child_urls_of(selections@, keyed(marks@), page@),
        forall|i: int| 0 <= i < urls.len() ==> url_normal_form(#[trigger] urls[i]@) is Some,
{
    let matcher = RelativeHrefs::new();
    let ghost all = selections@;
    let mut urls: Vec<String> = Vec::new();
    let mut i: usize = 0;
    assert(urls.deep_view() =~= child_urls_of(all.take(0), keyed(marks@), page@));
    while i < selections.entries.len()
        invariant
            i <= selections.entries.len(),
            all == selections@,
            urls.deep_view() == child_urls_of(all.take(i as int), keyed(marks@), page@),
            forall|j: int| 0 <= j < urls.len() ==> url_normal_form(#[trigger] urls[j]@) is Some,
        decreases selections.entries.len() - i,
    {
        proof {
            assert(all.take(i + 1).drop_last() =~= all.take(i as int));
            assert(all.take(i + 1).last() == all[i as int]);
            lemma_keys_of_keyed(marks@);
        }
        let ghost before = urls.deep_view();
        match find_name(marks, selections.entries[i].0.as_str()) {
            Some(at) => {
                let scope = marks[at].1;
                assert(scope_of(keyed(marks@), all[i as int].0) == Some(scope));
                match &selections.entries[i].1 {
                    SelectionResult::Absent() => {
                        assert(children_among(Seq::empty(), scope, page@) =~= Seq::empty());
                    },
                    SelectionResult::Element(element) => {
                        collect_child(&mut urls, &matcher, element, &scope, page);
                    },
                    SelectionResult::List(elements) => {
                        collect_children(&mut urls, &matcher, elements, &scope, page);
                    },
                }
            },
            None => {},
        }
        assert(urls.deep_view() =~= child_urls_of(all.take(i + 1), keyed(marks@), page@));
        i = i + 1;
    }
    assert(all.take(selections.entries.len() as int) =~= all);
    urls
}

} // verus!
