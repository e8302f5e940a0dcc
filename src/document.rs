use vstd::prelude::*;

use crate::render::{Node, XmlElement};
use crate::Result;

verus! {

/// Relies on svg's `Element` only as a value carried through unchanged.
#[verifier::external_type_specification]
#[verifier::external_body]
pub struct ExSvgElement(svg::node::element::Element);

/// Relies on svg's `SVG`, the document root, only as a value carried
/// through unchanged.
#[verifier::external_type_specification]
#[verifier::external_body]
pub struct ExSvgRoot(svg::node::element::SVG);

/// Relies on svg's `Element::new`: an element with the tag `name`.
#[verifier::external_body]
fn svg_element(name: &str) -> svg::node::element::Element {
    svg::node::element::Element::new(name)
}

/// Relies on svg's `Node::assign` for `Element`: sets the attribute `name`.
#[verifier::external_body]
fn svg_assign(e: &mut svg::node::element::Element, name: &str, value: &str) {
    svg::Node::assign(e, name, value)
}

/// Relies on svg's `Node::append` for `Element`: adds `child` last.
#[verifier::external_body]
fn svg_append(e: &mut svg::node::element::Element, child: svg::node::element::Element) {
    svg::Node::append(e, child)
}

/// Relies on svg's `SVG::new`: an empty document root.
#[verifier::external_body]
fn svg_root() -> svg::node::element::SVG {
    svg::node::element::SVG::new()
}

/// Relies on svg's `Node::append` for `SVG`: adds `child` last.
#[verifier::external_body]
fn svg_root_append(d: &mut svg::node::element::SVG, child: svg::node::element::Element) {
    svg::Node::append(d, child)
}

/// The svg crate's element for `e`, with its attributes and children.
fn to_svg(e: &XmlElement) -> svg::node::element::Element
    decreases e,
{
    let mut out = svg_element(e.name.as_str());
    let mut i: usize = 0;
    while i < e.attributes.len()
        decreases e.attributes.len() - i,
    {
        svg_assign(&mut out, e.attributes[i].name.as_str(), e.attributes[i].value.as_str());
        i = i + 1;
    }
    let mut j: usize = 0;
    while j < e.children.len()
        invariant
            j <= e.children.len(),
        decreases e.children.len() - j,
    {
        proof {
            assert(decreases_to!(e.children => e.children[j as int]));
        }
        let child = to_svg(&e.children[j]);
        svg_append(&mut out, child);
        j = j + 1;
    }
    out
}

/// An SVG document of the svg crate, used as a sink for rendering.
pub struct SvgDocument {
    doc: svg::node::element::SVG,
    appended: Ghost<Seq<XmlElement>>,
}

impl SvgDocument {
    /// An empty document.
    pub fn new() -> (r: SvgDocument)
        ensures
            r.nodes() == Seq::<XmlElement>::empty(),
    {
        SvgDocument { doc: svg_root(), appended: Ghost(Seq::empty()) }
    }

    /// The finished document.
    pub fn into_document(self) -> svg::node::element::SVG {
        self.doc
    }
}

impl Node for SvgDocument {
    closed spec fn nodes(&self) -> Seq<XmlElement> {
        self.appended@
    }

    /// Never refuses.
    fn append(&mut self, node: XmlElement) -> (r: Result<()>) {
        let child = to_svg(&node);
        svg_root_append(&mut self.doc, child);
        self.appended = Ghost(self.appended@.push(node));
        Ok(())
    }
}

} // verus!
