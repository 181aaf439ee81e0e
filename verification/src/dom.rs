//! What the extraction reads of a parsed page.
//!
//! Parsing HTML and matching CSS selectors are the work of the `scraper`
//! crate. The rules of this library never look into its values: a matched
//! element is first read into a [`DomNode`], a record of plain values, and the
//! rules work on that.

use vstd::prelude::*;

verus! {

/// A parsed page, as `scraper` holds it.
#[verifier::external_type_specification]
#[verifier::external_body]
pub struct ExHtml(scraper::Html);

/// A compiled CSS selector, as `scraper` holds it.
#[verifier::external_type_specification]
#[verifier::external_body]
pub struct ExSelector(scraper::Selector);

/// A reference to one element of a parsed page.
#[verifier::external_type_specification]
#[verifier::external_body]
pub struct ExElementRef<'a>(scraper::ElementRef<'a>);

/// What the extraction reads of one element.
#[derive(Debug, Clone, PartialEq, Eq)]
pub struct DomNode {
    /// the local name of the element
    pub tag_name: String,
    /// every attribute of the element, by local name, with its value
    pub attrs: Vec<(String, String)>,
    /// the text of all text nodes below the element, in document order
    pub text: String,
    /// the markup of what the element holds
    pub inner_html: String,
    /// the value of the `href` attribute
    pub href: Option<String>,
    /// the value of the `src` attribute
    pub src: Option<String>,
    /// the value of the `type` attribute
    pub type_attr: Option<String>,
    /// how many child nodes the element has: elements, text and all others
    pub child_count: usize,
    /// the value of the `href` attribute of the first child node, where that
    /// node is an element and has one
    pub first_child_href: Option<String>,
}

/// A [`DomNode`] as a mathematical value.
pub struct DomNodeView {
    pub tag_name: Seq<char>,
    pub attrs: Seq<(Seq<char>, Seq<char>)>,
    pub text: Seq<char>,
    pub inner_html: Seq<char>,
    pub href: Option<Seq<char>>,
    pub src: Option<Seq<char>>,
    pub type_attr: Option<Seq<char>>,
    pub child_count: nat,
    pub first_child_href: Option<Seq<char>>,
}

impl View for DomNode {
    type V = DomNodeView;

    open spec fn view(&self) -> DomNodeView {
        DomNodeView {
            tag_name: self.tag_name@,
            attrs: self.attrs.deep_view(),
            text: self.text@,
            inner_html: self.inner_html@,
            href: self.href.deep_view(),
            src: self.src.deep_view(),
            type_attr: self.type_attr.deep_view(),
            child_count: self.child_count as nat,
            first_child_href: self.first_child_href.deep_view(),
        }
    }
}

impl DeepView for DomNode {
    type V = DomNodeView;

    open spec fn deep_view(&self) -> DomNodeView {
        self@
    }
}

/// The text that a parsed page was made from: what was handed to
/// `scraper::Html::parse_document`.
pub uninterp spec fn html_source(page: scraper::Html) -> Seq<char>;

/// The pattern that a compiled selector was made from: what was handed to
/// `scraper::Selector::parse`.
pub uninterp spec fn selector_source(selector: scraper::Selector) -> Seq<char>;

/// Whether `scraper::Selector::parse` accepts `pattern` as a group of CSS
/// selectors.
pub uninterp spec fn css_valid(pattern: Seq<char>) -> bool;

/// The elements of the page written `document` that match the selector
/// written `pattern`, in the order in which `scraper::Html::select` yields
/// them, each as [`node_of`] reads it.
pub uninterp spec fn css_matches(document: Seq<char>, pattern: Seq<char>) -> Seq<DomNodeView>;

/// Calls `scraper::Html::parse_document`, which accepts any text. Trusted: the
/// page it returns was made from `document`.
#[verifier::external_body]
pub(crate) fn parse_page(document: &str) -> (page: scraper::Html)
    ensures
        html_source(page) == document@,
{
    scraper::Html::parse_document(document)
}

/// Calls `scraper::Selector::parse` and drops the reason of a refusal.
/// Trusted: it succeeds on the patterns that are `css_valid`, and the selector
/// it returns was made from `pattern`.
#[verifier::external_body]
pub(crate) fn parse_selector(pattern: &str) -> (r: Option<scraper::Selector>)
    ensures
        r is Some <==> css_valid(pattern@),
        r matches Some(selector) ==> selector_source(selector) == pattern@,
{
    scraper::Selector::parse(pattern).ok()
}

/// Calls `scraper::Html::select` and reads each element that it yields.
/// Trusted: the result depends on nothing but the text of the page and the
/// pattern of the selector, and is what `css_matches` names.
#[verifier::external_body]
pub(crate) fn select_nodes(page: &scraper::Html, selector: &scraper::Selector) -> (nodes: Vec<
    DomNode,
>)
    ensures
        nodes.deep_view() == css_matches(html_source(*page), selector_source(*selector)),
{
    page.select(selector).map(|element| DomNode::read(&element)).collect()
}

/// The first of `nodes`, where there is one.
pub open spec fn first_of(nodes: Seq<DomNodeView>) -> Option<DomNodeView> {
    if nodes.len() > 0 {
        Some(nodes[0])
    } else {
        None
    }
}

/// Calls `scraper::Html::select` and reads the first element that it yields,
/// without looking for more. Trusted: the result is the first of what
/// `css_matches` names.
#[verifier::external_body]
pub(crate) fn select_first(page: &scraper::Html, selector: &scraper::Selector) -> (node: Option<
    DomNode,
>)
    ensures
        node.deep_view() == first_of(
            css_matches(html_source(*page), selector_source(*selector)),
        ),
{
    page.select(selector).next().map(|element| DomNode::read(&element))
}

/// The local name of an element: what `scraper::node::Element::name` gives
/// for it.
pub uninterp spec fn element_tag(element: scraper::ElementRef) -> Seq<char>;

/// The attributes of an element, each as its local name and its value, in
/// the order in which `scraper::node::Element::attrs` yields them.
pub uninterp spec fn element_attr_pairs(element: scraper::ElementRef) -> Seq<(Seq<char>, Seq<char>)>;

/// The text below an element: the pieces that `scraper::ElementRef::text`
/// yields, one after the other.
pub uninterp spec fn element_full_text(element: scraper::ElementRef) -> Seq<char>;

/// The markup of what an element holds: what `scraper::ElementRef::inner_html`
/// gives.
pub uninterp spec fn element_markup(element: scraper::ElementRef) -> Seq<char>;

/// The value of the attribute `name` of an element, where it has one: what
/// `scraper::ElementRef::attr` gives.
pub uninterp spec fn element_attr_value(element: scraper::ElementRef, name: Seq<char>) -> Option<
    Seq<char>,
>;

/// How many child nodes an element has, elements, text and all others: how
/// many `ego_tree::NodeRef::children` yields.
pub uninterp spec fn element_children(element: scraper::ElementRef) -> nat;

/// The value of the attribute `name` of the first child node of an element,
/// where that node is an element and has one: what
/// `scraper::node::Element::attr` gives for it.
pub uninterp spec fn first_child_attr_value(element: scraper::ElementRef, name: Seq<char>) -> Option<
    Seq<char>,
>;

/// What the extraction reads of an element: its name, attributes, text and
/// markup, the values of its `href`, `src` and `type` attributes, the number
/// of its child nodes and the `href` of the first of them.
pub open spec fn node_of(element: scraper::ElementRef) -> DomNodeView {
    DomNodeView {
        tag_name: element_tag(element),
        attrs: element_attr_pairs(element),
        text: element_full_text(element),
        inner_html: element_markup(element),
        href: element_attr_value(element, "href"@),
        src: element_attr_value(element, "src"@),
        type_attr: element_attr_value(element, "type"@),
        child_count: element_children(element),
        first_child_href: first_child_attr_value(element, "href"@),
    }
}

impl DomNode {
    /// Reads from a matched element everything that the extraction looks at.
    pub(crate) fn read(element: &scraper::ElementRef) -> (node: DomNode)
        ensures
            node@ == node_of(*element),
    {
        DomNode {
            tag_name: element_name(element),
            attrs: element_attrs(element),
            text: element_text(element),
            inner_html: element_inner_html(element),
            href: element_attr(element, "href"),
            src: element_attr(element, "src"),
            type_attr: element_attr(element, "type"),
            child_count: element_child_count(element),
            first_child_href: first_child_attr(element, "href"),
        }
    }
}

/// Calls `scraper::node::Element::name` on the element. Trusted: the result
/// is what `element_tag` names.
#[verifier::external_body]
fn element_name(element: &scraper::ElementRef) -> (name: String)
    ensures
        name@ == element_tag(*element),
{
    element.value().name().to_string()
}

/// Calls `scraper::node::Element::attrs` on the element and collects the
/// pairs it yields. Trusted: the result is what `element_attr_pairs` names.
#[verifier::external_body]
fn element_attrs(element: &scraper::ElementRef) -> (attrs: Vec<(String, String)>)
    ensures
        attrs.deep_view() == element_attr_pairs(*element),
{
    element.value().attrs().map(|(name, value)| (name.to_string(), value.to_string())).collect()
}

/// Calls `scraper::ElementRef::text` and joins the pieces it yields.
/// Trusted: the result is what `element_full_text` names.
#[verifier::external_body]
fn element_text(element: &scraper::ElementRef) -> (text: String)
    ensures
        text@ == element_full_text(*element),
{
    element.text().collect()
}

/// Calls `scraper::ElementRef::inner_html`. Trusted: the result is what
/// `element_markup` names.
#[verifier::external_body]
fn element_inner_html(element: &scraper::ElementRef) -> (markup: String)
    ensures
        markup@ == element_markup(*element),
{
    element.inner_html()
}

/// Calls `scraper::ElementRef::attr` with the given attribute name. Trusted:
/// the result is what `element_attr_value` names.
#[verifier::external_body]
fn element_attr(element: &scraper::ElementRef, name: &str) -> (value: Option<String>)
    ensures
        value.deep_view() == element_attr_value(*element, name@),
{
    element.attr(name).map(String::from)
}

/// Counts what `ego_tree::NodeRef::children` yields for the element.
/// Trusted: the result is what `element_children` names.
#[verifier::external_body]
fn element_child_count(element: &scraper::ElementRef) -> (count: usize)
    ensures
        count as nat == element_children(*element),
{
    element.children().count()
}

/// Calls `ego_tree::NodeRef::first_child` on the element and, where that
/// child is an element, `scraper::node::Element::attr` on it. Trusted: the
/// result is what `first_child_attr_value` names.
#[verifier::external_body]
fn first_child_attr(element: &scraper::ElementRef, name: &str) -> (value: Option<String>)
    ensures
        value.deep_view() == first_child_attr_value(*element, name@),
{
    match element.first_child() {
        Some(child) => match child.value().as_element() {
            Some(child_element) => child_element.attr(name).map(String::from),
            None => None,
        },
        None => None,
    }
}

} // verus!
