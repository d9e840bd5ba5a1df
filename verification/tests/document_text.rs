//! Unit tests for the document utilities and the text handling.

use hyda::document::{attr_value, linked_stylesheet_refs, str_eq, tag_matched, DocNode};
use hyda::emit::font_asset_for_weight;
use hyda::text::{collapse_newlines, is_whitespace_only};

fn attrs(pairs: &[(&str, &str)]) -> Vec<(String, String)> {
    pairs.iter().map(|(k, v)| (k.to_string(), v.to_string())).collect()
}

#[test]
fn str_eq_views() {
    assert!(str_eq("abc", "abc"));
    assert!(!str_eq("abc", "abd"));
    assert!(!str_eq("abc", "abcd"));
    assert!(str_eq("", ""));
}

#[test]
fn attr_value_first_match() {
    let a = attrs(&[("rel", "stylesheet"), ("href", "style.css")]);
    assert_eq!(attr_value(&a, "rel"), Some("stylesheet".to_string()));
    assert_eq!(attr_value(&a, "href"), Some("style.css".to_string()));
    assert_eq!(attr_value(&a, "id"), None);
}

#[test]
fn whitespace_only_cases() {
    assert!(is_whitespace_only(""));
    assert!(is_whitespace_only("   \n  "));
    assert!(is_whitespace_only(" \t\r\n"));
    assert!(!is_whitespace_only(" a "));
}

#[test]
fn collapse_newlines_exact() {
    assert_eq!(collapse_newlines("a\nb"), "a b");
    assert_eq!(collapse_newlines("\n\n"), "  ");
    assert_eq!(collapse_newlines("plain"), "plain");
    assert_eq!(collapse_newlines(""), "");
}

#[test]
fn tag_matching_is_preorder() {
    let doc = DocNode::Document {
        id: 0,
        children: vec![DocNode::Element {
            id: 1,
            tag: "html".to_string(),
            attrs: Vec::new(),
            children: vec![
                DocNode::Element {
                    id: 2,
                    tag: "p".to_string(),
                    attrs: Vec::new(),
                    children: vec![DocNode::Element {
                        id: 3,
                        tag: "p".to_string(),
                        attrs: Vec::new(),
                        children: Vec::new(),
                    }],
                },
                DocNode::Element {
                    id: 4,
                    tag: "p".to_string(),
                    attrs: Vec::new(),
                    children: Vec::new(),
                },
            ],
        }],
    };
    let mut out = Vec::new();
    tag_matched(&doc, "p", &mut out);
    assert_eq!(out, vec![2, 3, 4]);
}

#[test]
fn linked_stylesheets_in_document_order() {
    let link = |id: u64, rel: &str, href: Option<&str>| {
        let mut a = attrs(&[("rel", rel)]);
        if let Some(h) = href {
            a.push(("href".to_string(), h.to_string()));
        }
        DocNode::Element { id, tag: "link".to_string(), attrs: a, children: Vec::new() }
    };
    let doc = DocNode::Document {
        id: 0,
        children: vec![DocNode::Element {
            id: 1,
            tag: "head".to_string(),
            attrs: Vec::new(),
            children: vec![
                link(2, "stylesheet", Some("a.css")),
                link(3, "icon", Some("fav.ico")),
                link(4, "stylesheet", None),
                link(5, "stylesheet", Some("b.css")),
            ],
        }],
    };
    let mut out = Vec::new();
    linked_stylesheet_refs(&doc, &mut out);
    assert_eq!(out, vec!["a.css".to_string(), "".to_string(), "b.css".to_string()]);
}

#[test]
fn font_asset_buckets() {
    assert_eq!(font_asset_for_weight(100), "fonts/FiraSans-Thin.ttf");
    assert_eq!(font_asset_for_weight(250), "fonts/FiraSans-ExtraLight.ttf");
    assert_eq!(font_asset_for_weight(300), "fonts/FiraSans-Light.ttf");
    assert_eq!(font_asset_for_weight(400), "fonts/FiraSans-Regular.ttf");
    assert_eq!(font_asset_for_weight(550), "fonts/FiraSans-Medium.ttf");
    assert_eq!(font_asset_for_weight(600), "fonts/FiraSans-SemiBold.ttf");
    assert_eq!(font_asset_for_weight(700), "fonts/FiraSans-Bold.ttf");
    assert_eq!(font_asset_for_weight(800), "fonts/FiraSans-ExtraBold.ttf");
    assert_eq!(font_asset_for_weight(900), "fonts/FiraSans-Black.ttf");
}
