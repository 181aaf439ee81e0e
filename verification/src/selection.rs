//! From a matched DOM node to an [`Element`]: where its href is found, what
//! shape the href has, what it resolves to and what kind of resource it
//! points at.

use vstd::prelude::*;
use crate::dom::{DomNode, DomNodeView};
use crate::element::{Element, ElementView, HrefSource, HrefType, ImageType, ImageTypeView, TargetType};
use crate::text::{
    after_last, contains, has_substring, same_text, starts_with, suffix_after_last, trim, trimmed,
};
use crate::urls::{host_of, url_host, url_resolved, PageUrl};

verus! {

/// The href of a node and where it was found: the node's own `href`, else the
/// `href` of its child where it has exactly one child node.
pub open spec fn found_href(node: DomNodeView) -> Option<(Seq<char>, HrefSource)> {
    if node.href is Some {
        Some((node.href->0, HrefSource::Element))
    } else if node.child_count == 1 && node.first_child_href is Some {
        Some((node.first_child_href->0, HrefSource::OnlyChild))
    } else {
        None
    }
}

/// The shape of an href. The first rule that applies decides.
pub open spec fn href_type_of(href: Seq<char>) -> HrefType {
    if href.len() == 0 {
        HrefType::Empty
    } else if "http"@.is_prefix_of(href) {
        HrefType::Absolute
    } else if href == "#"@ {
        HrefType::SelfReferencingAnchor
    } else if "#"@.is_prefix_of(href) {
        HrefType::AnchorLink
    } else if has_substring(href, "Javascript("@) {
        HrefType::Javascript
    } else {
        HrefType::Relative
    }
}

/// The full address that an href of shape `kind` stands for on the page at
/// `page`, where `resolved` is what joining the href to `page` gave.
pub open spec fn full_href_from(
    kind: HrefType,
    href: Seq<char>,
    page: Seq<char>,
    resolved: Option<Seq<char>>,
) -> Option<Seq<char>> {
    match kind {
        HrefType::Empty => None,
        HrefType::Absolute => Some(href),
        HrefType::SelfReferencingAnchor => Some(page),
        HrefType::AnchorLink => Some(page),
        HrefType::Javascript => None,
        HrefType::Relative => resolved,
    }
}

/// The full address that `href` stands for on the page at `page`.
pub open spec fn full_href_of(href: Seq<char>, page: Seq<char>) -> Option<Seq<char>> {
    full_href_from(href_type_of(href), href, page, url_resolved(page, href))
}

/// Whether a link leads to the site of the page that holds it, told by the
/// two hosts. Where either has no host nothing is known.
pub open spec fn same_site(page_host: Option<Seq<char>>, link_host: Option<Seq<char>>) -> TargetType {
    match (page_host, link_host) {
        (Some(page), Some(link)) => if page == link {
            TargetType::HtmlSameSite
        } else {
            TargetType::HtmlForeignSite
        },
        _ => TargetType::Unknown,
    }
}

/// Whether the kind of resource behind an href with this extension, on an
/// element with this tag, depends on the hosts of page and link.
pub open spec fn site_decides(ext: Seq<char>, tag: Seq<char>, kind: HrefType) -> bool {
    &&& !is_font_extension(ext)
    &&& ext != "css"@
    &&& !is_image_extension(ext)
    &&& if ext == "html"@ {
        kind == HrefType::Absolute
    } else {
        tag == "a"@
    }
}

/// The extensions of font files.
pub open spec fn is_font_extension(ext: Seq<char>) -> bool {
    ext == "woff"@ || ext == "woff2"@ || ext == "ttf"@ || ext == "otf"@ || ext == "fnt"@
}

/// The extensions by which a link is taken to lead to an image.
pub open spec fn is_image_extension(ext: Seq<char>) -> bool {
    ext == "svg"@ || ext == "jpg"@ || ext == "jpeg"@ || ext == "png"@ || ext == "ico"@
}

/// The kind of resource behind an href with extension `ext` and shape `kind`
/// on an element named `tag`, where `site` says whether the link stays on the
/// site of the page.
pub open spec fn target_by_extension(
    ext: Seq<char>,
    tag: Seq<char>,
    kind: HrefType,
    site: TargetType,
) -> TargetType {
    if is_font_extension(ext) {
        TargetType::Font
    } else if ext == "css"@ {
        TargetType::Style
    } else if is_image_extension(ext) {
        TargetType::Image
    } else if ext == "html"@ {
        match kind {
            HrefType::Relative => TargetType::HtmlSameSite,
            HrefType::AnchorLink => TargetType::HtmlSameSite,
            HrefType::SelfReferencingAnchor => TargetType::HtmlSameSite,
            HrefType::Absolute => site,
            HrefType::Javascript => TargetType::Unknown,
            HrefType::Empty => TargetType::Unknown,
        }
    } else if tag == "a"@ {
        site
    } else {
        TargetType::Unknown
    }
}

/// The image format that a source with extension `ext` names. An extension
/// that names none counts only on an `img` element.
pub open spec fn image_type_of(ext: Seq<char>, tag: Seq<char>) -> Option<ImageTypeView> {
    if ext == "gif"@ {
        Some(ImageTypeView::Gif)
    } else if ext == "jpg"@ || ext == "jpeg"@ {
        Some(ImageTypeView::Jpeg)
    } else if ext == "avif"@ {
        Some(ImageTypeView::Avif)
    } else if ext == "webp"@ {
        Some(ImageTypeView::Webp)
    } else if ext == "ico"@ {
        Some(ImageTypeView::Ico)
    } else if ext == "png"@ {
        Some(ImageTypeView::Png)
    } else if ext == "tiff"@ {
        Some(ImageTypeView::Tiff)
    } else if ext == "svg"@ {
        Some(ImageTypeView::Svg)
    } else if tag == "img"@ {
        Some(ImageTypeView::Other(ext))
    } else {
        None
    }
}

/// `s` trimmed, and absent where nothing is left.
pub open spec fn present(s: Seq<char>) -> Option<Seq<char>> {
    if trim(s).len() == 0 {
        None
    } else {
        Some(trim(s))
    }
}

/// Whether an attribute has a value.
pub open spec fn has_value(attr: (Seq<char>, Seq<char>)) -> bool {
    attr.1.len() > 0
}

/// The attributes that have a value, in their order.
pub open spec fn kept_attrs(attrs: Seq<(Seq<char>, Seq<char>)>) -> Seq<(Seq<char>, Seq<char>)> {
    attrs.filter(|attr: (Seq<char>, Seq<char>)| has_value(attr))
}

/// The element made of `node` on the page at `page`, where `resolved` is what
/// joining its href to `page` gave and `site` says whether its link stays on
/// the site of the page.
pub open spec fn element_from(
    node: DomNodeView,
    page: Seq<char>,
    resolved: Option<Seq<char>>,
    site: TargetType,
) -> ElementView {
    let found = found_href(node);
    ElementView {
        tag_name: node.tag_name,
        text: present(node.text),
        html: present(node.inner_html),
        src: node.src,
        target_type: if node.src is Some && node.tag_name == "img"@ {
            Some(TargetType::Image)
        } else {
            match found {
                Some(f) => Some(
                    target_by_extension(
                        after_last(f.0, '.'),
                        node.tag_name,
                        href_type_of(f.0),
                        site,
                    ),
                ),
                None => None,
            }
        },
        image_type: match node.src {
            Some(src) => image_type_of(after_last(src, '.'), node.tag_name),
            None => None,
        },
        href: match found {
            Some(f) => Some(f.0),
            None => None,
        },
        href_source: match found {
            Some(f) => Some(f.1),
            None => None,
        },
        full_href: match found {
            Some(f) => full_href_from(href_type_of(f.0), f.0, page, resolved),
            None => None,
        },
        href_type: match found {
            Some(f) => Some(href_type_of(f.0)),
            None => None,
        },
        _type: node.type_attr,
        attrs: kept_attrs(node.attrs),
    }
}

/// The element made of `node` on the page at `page`.
pub open spec fn extract(node: DomNodeView, page: Seq<char>) -> ElementView {
    match found_href(node) {
        Some(f) => element_from(
            node,
            page,
            url_resolved(page, f.0),
            same_site(
                url_host(page),
                match full_href_of(f.0, page) {
                    Some(full) => url_host(full),
                    None => None,
                },
            ),
        ),
        None => element_from(node, page, None, TargetType::Unknown),
    }
}

/// Tells the shape of an href.
pub fn classify_href(href: &str) -> (kind: HrefType)
    ensures
        kind == href_type_of(href@),
{
    if href.is_empty() {
        HrefType::Empty
    } else if starts_with(href, "http") {
        HrefType::Absolute
    } else if same_text(href, "#") {
        HrefType::SelfReferencingAnchor
    } else if starts_with(href, "#") {
        HrefType::AnchorLink
    } else if contains(href, "Javascript(") {
        HrefType::Javascript
    } else {
        HrefType::Relative
    }
}

/// The full address of an href of the given shape, where `resolved` is what
/// joining it to the page's address gave.
pub fn full_href(kind: HrefType, href: &str, page: &str, resolved: Option<String>) -> (full: Option<
    String,
>)
    ensures
        full.deep_view() == full_href_from(kind, href@, page@, resolved.deep_view()),
{
    match kind {
        HrefType::Empty => None,
        HrefType::Absolute => Some(href.to_owned()),
        HrefType::SelfReferencingAnchor => Some(page.to_owned()),
        HrefType::AnchorLink => Some(page.to_owned()),
        HrefType::Javascript => None,
        HrefType::Relative => resolved,
    }
}

/// Compares the host of a page with the host of a link on it.
pub fn foreign_or_local(page_host: &Option<String>, link_host: &Option<String>) -> (site: TargetType)
    ensures
        site == same_site(page_host.deep_view(), link_host.deep_view()),
{
    match (page_host, link_host) {
        (Some(page), Some(link)) => {
            if *page == *link {
                TargetType::HtmlSameSite
            } else {
                TargetType::HtmlForeignSite
            }
        },
        _ => TargetType::Unknown,
    }
}

/// Whether `ext` is the extension of a font file.
fn font_extension(ext: &str) -> (r: bool)
    ensures
        r == is_font_extension(ext@),
{
    same_text(ext, "woff") || same_text(ext, "woff2") || same_text(ext, "ttf") || same_text(
        ext,
        "otf",
    ) || same_text(ext, "fnt")
}

/// Whether `ext` is an extension by which a link is taken to lead to an image.
fn image_extension(ext: &str) -> (r: bool)
    ensures
        r == is_image_extension(ext@),
{
    same_text(ext, "svg") || same_text(ext, "jpg") || same_text(ext, "jpeg") || same_text(
        ext,
        "png",
    ) || same_text(ext, "ico")
}

/// Whether the hosts of page and link have to be looked at to tell the kind
/// of resource behind an href.
pub fn needs_site(ext: &str, tag: &str, kind: HrefType) -> (r: bool)
    ensures
        r == site_decides(ext@, tag@, kind),
{
    if font_extension(ext) || same_text(ext, "css") || image_extension(ext) {
        false
    } else if same_text(ext, "html") {
        kind == HrefType::Absolute
    } else {
        same_text(tag, "a")
    }
}

/// Tells the kind of resource behind an href from its extension.
pub fn target_type_for(ext: &str, tag: &str, kind: HrefType, site: TargetType) -> (target:
    TargetType)
    ensures
        target == target_by_extension(ext@, tag@, kind, site),
{
    if font_extension(ext) {
        TargetType::Font
    } else if same_text(ext, "css") {
        TargetType::Style
    } else if image_extension(ext) {
        TargetType::Image
    } else if same_text(ext, "html") {
        match kind {
            HrefType::Relative => TargetType::HtmlSameSite,
            HrefType::AnchorLink => TargetType::HtmlSameSite,
            HrefType::SelfReferencingAnchor => TargetType::HtmlSameSite,
            HrefType::Absolute => site,
            HrefType::Javascript => TargetType::Unknown,
            HrefType::Empty => TargetType::Unknown,
        }
    } else if same_text(tag, "a") {
        site
    } else {
        TargetType::Unknown
    }
}

/// Tells the format of an image from the extension of its source.
pub fn image_type_for(ext: &str, tag: &str) -> (image: Option<ImageType>)
    ensures
        image.deep_view() == image_type_of(ext@, tag@),
{
    if same_text(ext, "gif") {
        Some(ImageType::Gif)
    } else if same_text(ext, "jpg") || same_text(ext, "jpeg") {
        Some(ImageType::Jpeg)
    } else if same_text(ext, "avif") {
        Some(ImageType::Avif)
    } else if same_text(ext, "webp") {
        Some(ImageType::Webp)
    } else if same_text(ext, "ico") {
        Some(ImageType::Ico)
    } else if same_text(ext, "png") {
        Some(ImageType::Png)
    } else if same_text(ext, "tiff") {
        Some(ImageType::Tiff)
    } else if same_text(ext, "svg") {
        Some(ImageType::Svg)
    } else if same_text(tag, "img") {
        Some(ImageType::Other(ext.to_owned()))
    } else {
        None
    }
}

/// `s` trimmed, and absent where nothing is left.
pub fn trimmed_or_absent(s: &str) -> (r: Option<String>)
    ensures
        r.deep_view() == present(s@),
{
    let t = trimmed(s);
    if t.as_str().is_empty() {
        None
    } else {
        Some(t)
    }
}

/// The attributes that have a value, in their order.
pub fn attrs_with_value(attrs: &Vec<(String, String)>) -> (kept: Vec<(String, String)>)
    ensures
        kept.deep_view() == kept_attrs(attrs.deep_view()),
{
    let mut kept: Vec<(String, String)> = Vec::new();
    let ghost all = attrs.deep_view();
    let ghost pred = |attr: (Seq<char>, Seq<char>)| has_value(attr);
    let mut i: usize = 0;
    proof {
        reveal(Seq::filter);
        assert(kept.deep_view() =~= all.take(0).filter(pred));
    }
    while i < attrs.len()
        invariant
            i <= attrs.len(),
            all == attrs.deep_view(),
            pred == |attr: (Seq<char>, Seq<char>)| has_value(attr),
            kept.deep_view() == all.take(i as int).filter(pred),
        decreases attrs.len() - i,
    {
        let ghost before = kept.deep_view();
        proof {
            assert(all.take(i + 1) =~= all.take(i as int).push(all[i as int]));
            all.take(i as int).lemma_filter_push(all[i as int], pred);
        }
        if !attrs[i].1.as_str().is_empty() {
            kept.push((attrs[i].0.clone(), attrs[i].1.clone()));
            assert(kept.deep_view() =~= before.push(all[i as int]));
        }
        i = i + 1;
    }
    assert(all.take(attrs.len() as int) =~= all);
    kept
}

/// The href of a node and where it was found.
pub fn find_href(node: &DomNode) -> (found: Option<(String, HrefSource)>)
    ensures
        found.deep_view() == found_href(node@),
{
    match &node.href {
        Some(href) => Some((href.clone(), HrefSource::Element)),
        None => {
            if node.child_count == 1 {
                match &node.first_child_href {
                    Some(href) => Some((href.clone(), HrefSource::OnlyChild)),
                    None => None,
                }
            } else {
                None
            }
        },
    }
}

/// Builds the element of a node from the node and from what the `url` crate
/// said of its href: `resolved`, the href joined to the page's address, and
/// `site`, whether the link stays on the site of the page.
pub fn element_of(node: &DomNode, url: &PageUrl, resolved: Option<String>, site: TargetType) -> (el:
    Element)
    ensures
        el@ == element_from(node@, url@, resolved.deep_view(), site),
{
    let mut el = Element::new(node.tag_name.as_str());
    el.text = trimmed_or_absent(node.text.as_str());
    el.html = trimmed_or_absent(node.inner_html.as_str());
    el._type = node.type_attr.clone();
    el.attrs = attrs_with_value(&node.attrs);
    match find_href(node) {
        Some((href, source)) => {
            let kind = classify_href(href.as_str());
            let ext = suffix_after_last(href.as_str(), '.');
            el.full_href = full_href(kind, href.as_str(), url.as_str(), resolved);
            el.target_type = Some(
                target_type_for(ext.as_str(), node.tag_name.as_str(), kind, site),
            );
            el.href_type = Some(kind);
            el.href_source = Some(source);
            el.href = Some(href);
        },
        None => {},
    }
    match &node.src {
        Some(src) => {
            let ext = suffix_after_last(src.as_str(), '.');
            if same_text(node.tag_name.as_str(), "img") {
                el.target_type = Some(TargetType::Image);
            }
            el.image_type = image_type_for(ext.as_str(), node.tag_name.as_str());
            el.src = Some(src.clone());
        },
        None => {},
    }
    el
}

/// Builds the element of a matched node: its tag, text, markup and
/// attributes, the href found on it or on its only child, the shape and full
/// address of that href, and the kind of resource it points at.
pub fn get_selection(node: &DomNode, url: &PageUrl) -> (el: Element)
    ensures
        el@ == extract(node@, url@),
        el@.href is Some <==> el@.href_type is Some,
        el@.href is Some <==> el@.href_source is Some,
{
    match find_href(node) {
        Some((href, _)) => {
            let kind = classify_href(href.as_str());
            let resolved = if kind == HrefType::Relative {
                match url.join(href.as_str()) {
                    Some(joined) => Some(joined.as_str().to_owned()),
                    None => None,
                }
            } else {
                None
            };
            let ext = suffix_after_last(href.as_str(), '.');
            let site = if needs_site(ext.as_str(), node.tag_name.as_str(), kind) {
                let link_host = match full_href(kind, href.as_str(), url.as_str(), resolved.clone()) {
                    Some(full) => host_of(full.as_str()),
                    None => None,
                };
                foreign_or_local(&url.host(), &link_host)
            } else {
                TargetType::Unknown
            };
            element_of(node, url, resolved, site)
        },
        None => element_of(node, url, None, TargetType::Unknown),
    }
}

} // verus!
