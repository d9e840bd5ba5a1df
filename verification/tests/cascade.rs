//! Unit tests for the style model, the declaration merge and the cascade.

use hyda::document::DocNode;
use hyda::registry::{Registry, StyleRule};
use hyda::style::{
    apply_decl, apply_decls, Color, ComputedStyle, Declaration, Dim, DisplayKind, Rect4,
};

fn tiny_doc() -> DocNode {
    DocNode::Document {
        id: 0,
        children: vec![DocNode::Element {
            id: 1,
            tag: "html".to_string(),
            attrs: Vec::new(),
            children: vec![DocNode::Element {
                id: 2,
                tag: "body".to_string(),
                attrs: Vec::new(),
                children: Vec::new(),
            }],
        }],
    }
}

#[test]
fn system_default_values() {
    let s = ComputedStyle::system_default();
    assert_eq!(s.color, Color { r: 0, g: 0, b: 0, a: 255 });
    assert_eq!(s.background_color, Color { r: 0, g: 0, b: 0, a: 0 });
    assert_eq!(s.font_weight, 400);
    assert_eq!(s.font_size, 16);
    assert_eq!(s.width, Dim::Auto);
    assert_eq!(s.margin, Rect4::all(Dim::Px(0)));
    assert_eq!(s.display, DisplayKind::Block);
}

#[test]
fn shorthand_then_single_side_patches() {
    let mut s = ComputedStyle::system_default();
    apply_decls(
        &mut s,
        &vec![
            Declaration::Margin(Rect4::all(Dim::Px(10))),
            Declaration::MarginTop(Dim::Px(3)),
        ],
    );
    assert_eq!(
        s.margin,
        Rect4 { top: Dim::Px(3), right: Dim::Px(10), bottom: Dim::Px(10), left: Dim::Px(10) }
    );
}

#[test]
fn single_side_then_shorthand_replaces_whole_unit() {
    let mut s = ComputedStyle::system_default();
    apply_decls(
        &mut s,
        &vec![
            Declaration::MarginTop(Dim::Px(3)),
            Declaration::Margin(Rect4::all(Dim::Px(10))),
        ],
    );
    assert_eq!(s.margin, Rect4::all(Dim::Px(10)));
}

#[test]
fn apply_decl_overwrites_one_field_only() {
    let mut s = ComputedStyle::system_default();
    apply_decl(&mut s, &Declaration::FontWeight(700));
    assert_eq!(s.font_weight, 700);
    assert_eq!(s.font_size, 16);
    assert_eq!(s.color, Color { r: 0, g: 0, b: 0, a: 255 });
}

#[test]
fn later_registered_entry_wins() {
    let doc = tiny_doc();
    let mut reg = Registry::new();
    reg.register(
        StyleRule {
            selector: "body".to_string(),
            declarations: vec![Declaration::TextColor(Color { r: 255, g: 0, b: 0, a: 255 })],
            important: false,
        },
        vec![2],
    );
    reg.register(
        StyleRule {
            selector: "body".to_string(),
            declarations: vec![Declaration::TextColor(Color { r: 0, g: 255, b: 0, a: 255 })],
            important: false,
        },
        vec![2],
    );
    let sys = ComputedStyle::system_default();
    let got = reg.compute_style(2, &sys);
    assert_eq!(got.color, Color { r: 0, g: 255, b: 0, a: 255 });
    // the earlier entry still wins on nodes only it matches
    let _ = doc;
}

#[test]
fn unmatched_entries_change_nothing() {
    let mut reg = Registry::new();
    reg.register(
        StyleRule {
            selector: "p".to_string(),
            declarations: vec![Declaration::FontSize(99)],
            important: false,
        },
        vec![7],
    );
    let sys = ComputedStyle::system_default();
    let got = reg.compute_style(2, &sys);
    assert_eq!(got, sys);
}

#[test]
fn child_inherits_exactly_three_fields() {
    let mut parent = ComputedStyle::system_default();
    parent.color = Color { r: 9, g: 9, b: 9, a: 255 };
    parent.font_weight = 700;
    parent.font_size = 32;
    parent.margin = Rect4::all(Dim::Px(42));
    parent.display = DisplayKind::Flex;
    let reg = Registry::new();
    let child = reg.compute_style(5, &parent);
    // inherited
    assert_eq!(child.color, parent.color);
    assert_eq!(child.font_weight, 700);
    assert_eq!(child.font_size, 32);
    // reset to defaults
    assert_eq!(child.margin, Rect4::all(Dim::Px(0)));
    assert_eq!(child.display, DisplayKind::Block);
}

#[test]
fn registry_for_document_starts_with_default_sheet() {
    let doc = tiny_doc();
    let reg = Registry::for_document(&doc);
    assert_eq!(reg.entries.len(), hyda::defaults::DEFAULT_RULE_COUNT);
    assert_eq!(reg.entries[0].rule.selector, "html");
    assert_eq!(reg.entries[1].rule.selector, "body");
    // the body rule resolved to the body node
    assert_eq!(reg.entries[1].matched, vec![2]);
    // registering appends after the defaults
    let mut reg = reg;
    reg.register_tag_rule(
        &doc,
        StyleRule {
            selector: "body".to_string(),
            declarations: vec![Declaration::Height(Dim::Vh(100))],
            important: false,
        },
    );
    assert_eq!(reg.entries.len(), hyda::defaults::DEFAULT_RULE_COUNT + 1);
    assert_eq!(reg.entries.last().unwrap().matched, vec![2]);
}

#[test]
fn heading_defaults_apply() {
    let doc = DocNode::Document {
        id: 0,
        children: vec![DocNode::Element {
            id: 1,
            tag: "html".to_string(),
            attrs: Vec::new(),
            children: vec![DocNode::Element {
                id: 2,
                tag: "h1".to_string(),
                attrs: Vec::new(),
                children: Vec::new(),
            }],
        }],
    };
    let reg = Registry::for_document(&doc);
    let sys = ComputedStyle::system_default();
    let html_style = reg.compute_style(1, &sys);
    let h1 = reg.compute_style(2, &html_style);
    assert_eq!(h1.font_size, 32);
    assert_eq!(h1.font_weight, 700);
    assert_eq!(h1.margin.top, Dim::Px(21));
    assert_eq!(h1.margin.left, Dim::Px(0));
}

#[test]
fn anchor_default_is_link_blue() {
    let doc = DocNode::Document {
        id: 0,
        children: vec![DocNode::Element {
            id: 1,
            tag: "a".to_string(),
            attrs: Vec::new(),
            children: Vec::new(),
        }],
    };
    let reg = Registry::for_document(&doc);
    let sys = ComputedStyle::system_default();
    let a = reg.compute_style(1, &sys);
    assert_eq!(a.color, Color { r: 0, g: 0, b: 238, a: 255 });
}
