//! The box tree builder: a depth-first walk of the document tree that pairs
//! every node with its computed style (parents resolved strictly before
//! children), classifies nodes into element, non-visual metadata, doctype
//! and text boxes, and prunes whitespace-only text so it never reaches the
//! emitter. This stage does no geometry or inline reasoning; it is a pure
//! style-attachment and pruning pass.

use vstd::prelude::*;
use crate::document::{DocNode, attrs_view, str_eq};
use crate::registry::{Registry, StylesheetEntry, spec_computed};
use crate::style::{ComputedStyle, spec_system_default};
use crate::text::{is_whitespace_only, spec_ws_only};

verus! {

/// The tags whose elements are inline-by-default: their text feeds the
/// enclosing container's text run instead of opening a container of their
/// own — anchors, bold, italic, strong, abbreviations and generic inline
/// spans.
pub open spec fn spec_is_inline_tag(t: Seq<char>) -> bool {
    t == "a"@ || t == "b"@ || t == "i"@ || t == "strong"@ || t == "abbr"@ || t == "span"@
}

/// Whether `t` names an inline-by-default tag.
pub fn is_inline_tag(t: &str) -> (r: bool)
    ensures
        r == spec_is_inline_tag(t@),
{
    str_eq(t, "a") || str_eq(t, "b") || str_eq(t, "i") || str_eq(t, "strong") || str_eq(t, "abbr")
        || str_eq(t, "span")
}

/// The tags that designate non-visual document metadata: kept in the box
/// tree for completeness, excluded from rendering downstream.
pub open spec fn spec_is_meta_tag(t: Seq<char>) -> bool {
    t == "meta"@ || t == "link"@ || t == "title"@ || t == "head"@
}

/// Whether `t` names a non-visual metadata tag.
pub fn is_meta_tag(t: &str) -> (r: bool)
    ensures
        r == spec_is_meta_tag(t@),
{
    str_eq(t, "meta") || str_eq(t, "link") || str_eq(t, "title") || str_eq(t, "head")
}

/// One node of the box tree: an element or metadata container carrying its
/// computed style, a doctype marker, or surviving (non-whitespace) text.
#[derive(Debug)]
pub enum BoxNode {
    Element { tag: String, attrs: Vec<(String, String)>, children: Vec<BoxNode>, style: ComputedStyle },
    Meta { tag: String, attrs: Vec<(String, String)>, children: Vec<BoxNode>, style: ComputedStyle },
    Doctype,
    Text { text: String },
}

/// The mathematical model of a box tree node, with sequences in place of
/// vectors and character sequences in place of strings.
pub enum BoxModel {
    Element {
        tag: Seq<char>,
        attrs: Seq<(Seq<char>, Seq<char>)>,
        children: Seq<BoxModel>,
        style: ComputedStyle,
    },
    Meta {
        tag: Seq<char>,
        attrs: Seq<(Seq<char>, Seq<char>)>,
        children: Seq<BoxModel>,
        style: ComputedStyle,
    },
    Doctype,
    Text { text: Seq<char> },
}

impl View for BoxNode {
    type V = BoxModel;

    open spec fn view(&self) -> BoxModel
        decreases self,
    {
        match self {
            BoxNode::Element { tag, attrs, children, style } => BoxModel::Element {
                tag: tag@,
                attrs: attrs_view(attrs@),
                children: box_views(children@),
                style: *style,
            },
            BoxNode::Meta { tag, attrs, children, style } => BoxModel::Meta {
                tag: tag@,
                attrs: attrs_view(attrs@),
                children: box_views(children@),
                style: *style,
            },
            BoxNode::Doctype => BoxModel::Doctype,
            BoxNode::Text { text } => BoxModel::Text { text: text@ },
        }
    }
}

/// The models of a list of box nodes, in order.
pub open spec fn box_views(s: Seq<BoxNode>) -> Seq<BoxModel>
    decreases s,
{
    if s.len() == 0 {
        Seq::empty()
    } else {
        box_views(s.drop_last()).push(s.last()@)
    }
}

/// A document node the builder prunes: a text node holding nothing but
/// whitespace.
pub open spec fn spec_pruned(n: DocNode) -> bool {
    n matches DocNode::Text { text, .. } && spec_ws_only(text@)
}

/// The box tree for a document node whose parent computed `parent`: the
/// node's computed style attached, children built under that style, and
/// whitespace-only text dropped from every child list. The document root
/// becomes the root container element.
pub open spec fn spec_build(doc: DocNode, entries: Seq<StylesheetEntry>, parent: ComputedStyle)
    -> BoxModel
    decreases doc,
{
    match doc {
        DocNode::Document { id, children } => {
            let style = spec_computed(entries, id, parent);
            BoxModel::Element {
                tag: "html"@,
                attrs: Seq::empty(),
                children: spec_build_list(children@, entries, style),
                style,
            }
        },
        DocNode::Element { id, tag, attrs, children } => {
            let style = spec_computed(entries, id, parent);
            if spec_is_meta_tag(tag@) {
                BoxModel::Meta {
                    tag: tag@,
                    attrs: attrs_view(attrs@),
                    children: spec_build_list(children@, entries, style),
                    style,
                }
            } else {
                BoxModel::Element {
                    tag: tag@,
                    attrs: attrs_view(attrs@),
                    children: spec_build_list(children@, entries, style),
                    style,
                }
            }
        },
        DocNode::Doctype { .. } => BoxModel::Doctype,
        DocNode::Text { text, .. } => BoxModel::Text { text: text@ },
    }
}

/// The box trees of a child list, in order, with pruned nodes dropped.
pub open spec fn spec_build_list(
    s: Seq<DocNode>,
    entries: Seq<StylesheetEntry>,
    parent: ComputedStyle,
) -> Seq<BoxModel>
    decreases s,
{
    if s.len() == 0 {
        Seq::empty()
    } else {
        let front = spec_build_list(s.drop_last(), entries, parent);
        if spec_pruned(s.last()) {
            front
        } else {
            front.push(spec_build(s.last(), entries, parent))
        }
    }
}

/// Clone an attribute list.
fn clone_attrs(attrs: &Vec<(String, String)>) -> (r: Vec<(String, String)>)
    ensures
        r@ == attrs@,
{
    let mut r: Vec<(String, String)> = Vec::new();
    let mut i: usize = 0;
    while i < attrs.len()
        invariant
            i <= attrs.len(),
            r@ =~= attrs@.take(i as int),
        decreases attrs.len() - i,
    {
        r.push((attrs[i].0.clone(), attrs[i].1.clone()));
        i = i + 1;
    }
    proof {
        assert(attrs@.take(attrs@.len() as int) =~= attrs@);
    }
    r
}

/// Build the box tree for one document node, given the registry and the
/// parent's computed style.
pub fn build_under(doc: &DocNode, reg: &Registry, parent: &ComputedStyle) -> (r: BoxNode)
    ensures
        r@ == spec_build(*doc, reg.entries@, *parent),
    decreases *doc,
{
    match doc {
        DocNode::Document { id, children } => {
            let style = reg.compute_style(*id, parent);
            let kids = build_list(children, reg, &style);
            let attrs: Vec<(String, String)> = Vec::new();
            proof {
                assert(attrs_view(attrs@) =~= Seq::<(Seq<char>, Seq<char>)>::empty());
            }
            BoxNode::Element { tag: "html".to_owned(), attrs, children: kids, style }
        },
        DocNode::Element { id, tag, attrs, children } => {
            let style = reg.compute_style(*id, parent);
            let kids = build_list(children, reg, &style);
            if is_meta_tag(tag.as_str()) {
                BoxNode::Meta { tag: tag.clone(), attrs: clone_attrs(attrs), children: kids, style }
            } else {
                BoxNode::Element {
                    tag: tag.clone(),
                    attrs: clone_attrs(attrs),
                    children: kids,
                    style,
                }
            }
        },
        DocNode::Doctype { .. } => BoxNode::Doctype,
        DocNode::Text { text, .. } => BoxNode::Text { text: text.clone() },
    }
}

/// Build the box trees of a child list, dropping whitespace-only text.
fn build_list(s: &Vec<DocNode>, reg: &Registry, parent: &ComputedStyle) -> (r: Vec<BoxNode>)
    ensures
        box_views(r@) == spec_build_list(s@, reg.entries@, *parent),
    decreases s@,
{
    let mut r: Vec<BoxNode> = Vec::new();
    let mut i: usize = 0;
    while i < s.len()
        invariant
            i <= s.len(),
            box_views(r@) == spec_build_list(s@.take(i as int), reg.entries@, *parent),
        decreases s.len() - i,
    {
        let mut skip = false;
        if let DocNode::Text { text, .. } = &s[i] {
            if is_whitespace_only(text.as_str()) {
                skip = true;
            }
        }
        if !skip {
            let ghost r0 = r@;
            let b = build_under(&s[i], reg, parent);
            r.push(b);
            proof {
                assert(r@.drop_last() =~= r0);
            }
        }
        proof {
            assert(s@.take(i + 1 as int).drop_last() =~= s@.take(i as int));
            assert(s@.take(i + 1 as int).last() == s@[i as int]);
        }
        i = i + 1;
    }
    proof {
        assert(s@.take(s@.len() as int) =~= s@);
    }
    r
}

/// Build the box tree for the document root. The root has no parent; it
/// starts from the bare system defaults.
pub fn build(doc: &DocNode, reg: &Registry) -> (r: BoxNode)
    ensures
        r@ == spec_build(*doc, reg.entries@, spec_system_default()),
{
    let defaults = ComputedStyle::system_default();
    build_under(doc, reg, &defaults)
}

} // verus!
