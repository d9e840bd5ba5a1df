//! End-to-end scenarios: whole documents through registry, cascade, box
//! tree and emission.

use hyda::boxtree::BoxNode;
use hyda::compile;
use hyda::document::DocNode;
use hyda::emit::Primitive;
use hyda::registry::{Registry, StyleRule};
use hyda::style::{Declaration, Dim, Rect4};

fn el(id: u64, tag: &str, children: Vec<DocNode>) -> DocNode {
    DocNode::Element { id, tag: tag.to_string(), attrs: Vec::new(), children }
}

fn txt(id: u64, text: &str) -> DocNode {
    DocNode::Text { id, text: text.to_string() }
}

fn hello_world_doc() -> DocNode {
    DocNode::Document {
        id: 0,
        children: vec![el(
            1,
            "html",
            vec![el(
                2,
                "body",
                vec![el(3, "p", vec![txt(4, "Hello "), el(5, "b", vec![txt(6, "World")])])],
            )],
        )],
    }
}

fn only_container(p: &Primitive) -> &Vec<Primitive> {
    match p {
        Primitive::Container { children, .. } => children,
        Primitive::Text { .. } => panic!("expected a container primitive"),
    }
}

#[test]
fn hello_world_two_segments() {
    let doc = hello_world_doc();
    let reg = Registry::for_document(&doc);
    let out = compile(&doc, &reg);
    assert_eq!(out.len(), 1);
    // root container (document) -> html container
    let root_children = only_container(&out[0]);
    assert_eq!(root_children.len(), 1);
    let html_children = only_container(&root_children[0]);
    assert_eq!(html_children.len(), 1);
    // the body container holds exactly one child container, for the p
    let body = &html_children[0];
    match body {
        Primitive::Container { tag, scrollable, children, .. } => {
            assert_eq!(tag, "body");
            assert!(*scrollable);
            assert_eq!(children.len(), 1);
            match &children[0] {
                Primitive::Container { tag, scrollable, children, .. } => {
                    assert_eq!(tag, "p");
                    assert!(!*scrollable);
                    // sole child: one text primitive with two segments
                    assert_eq!(children.len(), 1);
                    match &children[0] {
                        Primitive::Text { segments } => {
                            assert_eq!(segments.len(), 2);
                            assert_eq!(segments[0].text, "Hello ");
                            assert_eq!(segments[0].font_weight, 400);
                            assert_eq!(segments[1].text, "World");
                            assert_eq!(segments[1].font_weight, 700);
                        }
                        _ => panic!("expected a text primitive"),
                    }
                }
                _ => panic!("expected the p container"),
            }
        }
        _ => panic!("expected the body container"),
    }
}

#[test]
fn whitespace_only_text_is_absent() {
    let doc = DocNode::Document {
        id: 0,
        children: vec![el(
            1,
            "html",
            vec![el(2, "body", vec![txt(3, "   \n  "), el(4, "p", vec![txt(5, "x")])])],
        )],
    };
    let reg = Registry::for_document(&doc);
    // absent from the box tree
    let tree = hyda::boxtree::build(&doc, &reg);
    let html = match &tree {
        BoxNode::Element { children, .. } => &children[0],
        _ => panic!("expected the root element"),
    };
    let body = match html {
        BoxNode::Element { children, .. } => &children[0],
        _ => panic!("expected the html element"),
    };
    match body {
        BoxNode::Element { tag, children, .. } => {
            assert_eq!(tag, "body");
            assert_eq!(children.len(), 1);
            assert!(matches!(&children[0], BoxNode::Element { .. }));
        }
        _ => panic!("expected the body element"),
    }
    // and contributes zero primitives
    let out = compile(&doc, &reg);
    let body = &only_container(&only_container(&out[0])[0])[0];
    let body_children = only_container(body);
    assert_eq!(body_children.len(), 1);
    assert!(matches!(&body_children[0], Primitive::Container { .. }));
}

#[test]
fn author_margin_zero_overrides_default() {
    let doc = DocNode::Document {
        id: 0,
        children: vec![el(1, "html", vec![el(2, "body", vec![el(3, "p", vec![txt(4, "x")])])])],
    };
    let mut reg = Registry::for_document(&doc);
    // default body margin is non-zero
    let sys = hyda::style::ComputedStyle::system_default();
    let html_style = reg.compute_style(1, &sys);
    let before = reg.compute_style(2, &html_style);
    assert_eq!(before.margin, Rect4::all(Dim::Px(8)));
    // an author stylesheet registered after the default wins
    reg.register_tag_rule(
        &doc,
        StyleRule {
            selector: "body".to_string(),
            declarations: vec![Declaration::Margin(Rect4::all(Dim::Px(0)))],
            important: false,
        },
    );
    let after = reg.compute_style(2, &html_style);
    assert_eq!(after.margin, Rect4::all(Dim::Px(0)));
    // and the emitted body container carries the zero margin
    let out = compile(&doc, &reg);
    let body = &only_container(&only_container(&out[0])[0])[0];
    match body {
        Primitive::Container { style, .. } => assert_eq!(style.margin, Rect4::all(Dim::Px(0))),
        _ => panic!("expected the body container"),
    }
}

#[test]
fn metadata_produces_no_primitive_and_keeps_run() {
    // head and title stand between two text nodes; they emit nothing and
    // the two texts join the same run
    let doc = DocNode::Document {
        id: 0,
        children: vec![el(
            1,
            "html",
            vec![el(
                2,
                "body",
                vec![
                    txt(3, "before"),
                    el(4, "title", vec![txt(5, "page title")]),
                    txt(6, "after"),
                ],
            )],
        )],
    };
    let reg = Registry::for_document(&doc);
    let out = compile(&doc, &reg);
    let body = &only_container(&only_container(&out[0])[0])[0];
    let body_children = only_container(body);
    assert_eq!(body_children.len(), 1);
    match &body_children[0] {
        Primitive::Text { segments } => {
            assert_eq!(segments.len(), 2);
            assert_eq!(segments[0].text, "before");
            assert_eq!(segments[1].text, "after");
        }
        _ => panic!("expected one text primitive"),
    }
}

#[test]
fn inline_run_order_is_document_order() {
    let doc = DocNode::Document {
        id: 0,
        children: vec![el(
            1,
            "html",
            vec![el(
                2,
                "body",
                vec![el(
                    3,
                    "p",
                    vec![
                        txt(4, "one "),
                        el(5, "b", vec![txt(6, "two")]),
                        txt(7, " three"),
                    ],
                )],
            )],
        )],
    };
    let reg = Registry::for_document(&doc);
    let out = compile(&doc, &reg);
    let body = &only_container(&only_container(&out[0])[0])[0];
    let p = &only_container(body)[0];
    let p_children = only_container(p);
    assert_eq!(p_children.len(), 1);
    match &p_children[0] {
        Primitive::Text { segments } => {
            let joined: String = segments.iter().map(|s| s.text.as_str()).collect();
            assert_eq!(joined, "one two three");
        }
        _ => panic!("expected one text primitive"),
    }
}

#[test]
fn block_boundary_splits_runs() {
    // text, then a nested block, then text: two text primitives around the
    // inner container, in document order
    let doc = DocNode::Document {
        id: 0,
        children: vec![el(
            1,
            "html",
            vec![el(
                2,
                "body",
                vec![txt(3, "lead"), el(4, "p", vec![txt(5, "inner")]), txt(6, "trail")],
            )],
        )],
    };
    let reg = Registry::for_document(&doc);
    let out = compile(&doc, &reg);
    let body = &only_container(&only_container(&out[0])[0])[0];
    let kids = only_container(body);
    assert_eq!(kids.len(), 3);
    match &kids[0] {
        Primitive::Text { segments } => assert_eq!(segments[0].text, "lead"),
        _ => panic!("expected the leading text primitive"),
    }
    assert!(matches!(&kids[1], Primitive::Container { .. }));
    match &kids[2] {
        Primitive::Text { segments } => assert_eq!(segments[0].text, "trail"),
        _ => panic!("expected the trailing text primitive"),
    }
}

#[test]
fn newlines_collapse_to_spaces_in_segments() {
    let doc = DocNode::Document {
        id: 0,
        children: vec![el(
            1,
            "html",
            vec![el(2, "body", vec![el(3, "p", vec![txt(4, "a\nb\nc")])])],
        )],
    };
    let reg = Registry::for_document(&doc);
    let out = compile(&doc, &reg);
    let body = &only_container(&only_container(&out[0])[0])[0];
    let p = &only_container(body)[0];
    match &only_container(p)[0] {
        Primitive::Text { segments } => assert_eq!(segments[0].text, "a b c"),
        _ => panic!("expected a text primitive"),
    }
}

// child counts in depth-first order, as a cheap structural fingerprint
fn shape_walk(b: &BoxNode, out: &mut Vec<usize>) {
    match b {
        BoxNode::Element { children, .. } | BoxNode::Meta { children, .. } => {
            out.push(children.len());
            for c in children {
                shape_walk(c, out);
            }
        }
        _ => out.push(0),
    }
}

fn shape(b: &BoxNode) -> Vec<usize> {
    let mut out = Vec::new();
    shape_walk(b, &mut out);
    out
}

#[test]
fn builder_keeps_clean_trees_structurally_identical() {
    // a document with no whitespace-only text: the builder prunes nothing,
    // so the box tree has exactly the document's shape
    let doc = hello_world_doc();
    let reg = Registry::for_document(&doc);
    let tree = hyda::boxtree::build(&doc, &reg);
    // document/html/body/p -> one child each; p -> two children; text and b
    assert_eq!(shape(&tree), vec![1, 1, 1, 2, 0, 1, 0]);
}

#[test]
fn empty_document_yields_one_empty_container() {
    let doc = DocNode::Document { id: 0, children: Vec::new() };
    let reg = Registry::for_document(&doc);
    let out = compile(&doc, &reg);
    assert_eq!(out.len(), 1);
    match &out[0] {
        Primitive::Container { tag, scrollable, children, .. } => {
            assert_eq!(tag, "html");
            assert!(!*scrollable);
            assert!(children.is_empty());
        }
        _ => panic!("expected the root container"),
    }
}

#[test]
fn doctype_emits_nothing() {
    let doc = DocNode::Document {
        id: 0,
        children: vec![
            DocNode::Doctype { id: 1 },
            el(2, "html", vec![el(3, "body", vec![txt(4, "x")])]),
        ],
    };
    let reg = Registry::for_document(&doc);
    let out = compile(&doc, &reg);
    assert_eq!(out.len(), 1);
    let root_children = only_container(&out[0]);
    // only the html container; the doctype left nothing
    assert_eq!(root_children.len(), 1);
}
