//! The record extracted from one matched DOM node.

use vstd::prelude::*;

verus! {

/// The format of an image, told by the extension of its source.
#[derive(Debug, Clone, PartialEq, Eq)]
pub enum ImageType {
    Gif,
    Jpeg,
    Avif,
    Webp,
    Ico,
    Tiff,
    Png,
    Svg,
    /// An extension that names none of the formats above.
    Other(String),
}

/// An [`ImageType`] as a mathematical value.
pub enum ImageTypeView {
    Gif,
    Jpeg,
    Avif,
    Webp,
    Ico,
    Tiff,
    Png,
    Svg,
    Other(Seq<char>),
}

impl View for ImageType {
    type V = ImageTypeView;

    open spec fn view(&self) -> ImageTypeView {
        match self {
            ImageType::Gif => ImageTypeView::Gif,
            ImageType::Jpeg => ImageTypeView::Jpeg,
            ImageType::Avif => ImageTypeView::Avif,
            ImageType::Webp => ImageTypeView::Webp,
            ImageType::Ico => ImageTypeView::Ico,
            ImageType::Tiff => ImageTypeView::Tiff,
            ImageType::Png => ImageTypeView::Png,
            ImageType::Svg => ImageTypeView::Svg,
            ImageType::Other(ext) => ImageTypeView::Other(ext@),
        }
    }
}

impl DeepView for ImageType {
    type V = ImageTypeView;

    open spec fn deep_view(&self) -> ImageTypeView {
        self@
    }
}

/// The broad kind of resource that an href or a source points at.
#[derive(Debug, Clone, Copy, PartialEq, Eq, Structural)]
pub enum TargetType {
    /// image source
    Image,
    /// code source (e.g., JS, WASM, etc.)
    Code,
    /// style source (typically CSS, possibly SCSS, etc.)
    Style,
    /// link to a document source (e.g., word doc, pdf, etc.)
    Doc,
    Data,
    /// another HTML page on the same site as the page being scraped
    HtmlSameSite,
    /// another HTML page, on a different host than the page being scraped
    HtmlForeignSite,
    Font,
    Unknown,
}

/// The shape of an href.
#[derive(Debug, Clone, Copy, PartialEq, Eq, Structural)]
pub enum HrefType {
    /// A relative path to a location on the same website
    Relative,
    /// A fully qualified address
    Absolute,
    /// the href calls a page level Javascript function
    Javascript,
    /// there was an href but its value was empty
    Empty,
    /// a link that moves within the current page to a named location
    AnchorLink,
    /// an anchor link whose value is just "#", which names no location
    SelfReferencingAnchor,
}

/// Where the href of an element was found.
#[derive(Debug, Clone, Copy, PartialEq, Eq, Structural)]
pub enum HrefSource {
    /// the element selected has the `href` attribute on it directly
    Element,
    /// the element has no `href` but its only child has one
    OnlyChild,
    /// the element has no `href` but exactly one element in its interior has
    SingularChild,
    /// the element has no `href` but several elements in its interior have
    MultipleInterior,
}

impl View for TargetType {
    type V = TargetType;

    open spec fn view(&self) -> TargetType {
        *self
    }
}

impl DeepView for TargetType {
    type V = TargetType;

    open spec fn deep_view(&self) -> TargetType {
        *self
    }
}

impl View for HrefType {
    type V = HrefType;

    open spec fn view(&self) -> HrefType {
        *self
    }
}

impl DeepView for HrefType {
    type V = HrefType;

    open spec fn deep_view(&self) -> HrefType {
        *self
    }
}

impl View for HrefSource {
    type V = HrefSource;

    open spec fn view(&self) -> HrefSource {
        *self
    }
}

impl DeepView for HrefSource {
    type V = HrefSource;

    open spec fn deep_view(&self) -> HrefSource {
        *self
    }
}

/// The DOM node that a selector matched, with what was learned of its links.
#[derive(Debug, Clone, PartialEq, Eq)]
pub struct Element {
    /// the tag name (aka, "a", "h1", "button", etc.) of the element
    pub tag_name: String,
    /// the plain text contained within the element
    pub text: Option<String>,
    /// the inner HTML of the element
    pub html: Option<String>,
    pub src: Option<String>,
    /// the broad category of target that the href or source points at
    pub target_type: Option<TargetType>,
    pub image_type: Option<ImageType>,
    pub href: Option<String>,
    pub href_source: Option<HrefSource>,
    pub full_href: Option<String>,
    pub href_type: Option<HrefType>,
    /// the `type` attribute
    pub _type: Option<String>,
    /// the attributes that have a value, each with its name
    pub attrs: Vec<(String, String)>,
}

/// An [`Element`] as a mathematical value.
pub struct ElementView {
    pub tag_name: Seq<char>,
    pub text: Option<Seq<char>>,
    pub html: Option<Seq<char>>,
    pub src: Option<Seq<char>>,
    pub target_type: Option<TargetType>,
    pub image_type: Option<ImageTypeView>,
    pub href: Option<Seq<char>>,
    pub href_source: Option<HrefSource>,
    pub full_href: Option<Seq<char>>,
    pub href_type: Option<HrefType>,
    pub _type: Option<Seq<char>>,
    pub attrs: Seq<(Seq<char>, Seq<char>)>,
}

impl View for Element {
    type V = ElementView;

    open spec fn view(&self) -> ElementView {
        ElementView {
            tag_name: self.tag_name@,
            text: self.text.deep_view(),
            html: self.html.deep_view(),
            src: self.src.deep_view(),
            target_type: self.target_type,
            image_type: self.image_type.deep_view(),
            href: self.href.deep_view(),
            href_source: self.href_source,
            full_href: self.full_href.deep_view(),
            href_type: self.href_type,
            _type: self._type.deep_view(),
            attrs: self.attrs.deep_view(),
        }
    }
}

impl DeepView for Element {
    type V = ElementView;

    open spec fn deep_view(&self) -> ElementView {
        self@
    }
}

/// The element named `tag_name` of which nothing else is known yet.
pub open spec fn bare_element(tag_name: Seq<char>) -> ElementView {
    ElementView {
        tag_name,
        text: None,
        html: None,
        src: None,
        target_type: None,
        image_type: None,
        href: None,
        href_source: None,
        full_href: None,
        href_type: None,
        _type: None,
        attrs: Seq::empty(),
    }
}

impl Element {
    /// An element with the given tag name and nothing else.
    pub fn new(tag_name: &str) -> (element: Element)
        ensures
            element@ == bare_element(tag_name@),
    {
        let element = Element {
            tag_name: tag_name.to_owned(),
            text: None,
            html: None,
            src: None,
            target_type: None,
            image_type: None,
            href: None,
            full_href: None,
            href_type: None,
            href_source: None,
            _type: None,
            attrs: Vec::new(),
        };
        assert(element.attrs.deep_view() =~= Seq::empty());
        element
    }
}

} // verus!
