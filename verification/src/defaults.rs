//! The built-in default stylesheet: the fixed rule table that is always
//! registered first, before any author stylesheet. It gives baseline values
//! for the root and body, sections, the six heading levels, paragraphs,
//! lists and list items, quotes, addresses, anchors, bold and strong text,
//! and form tags; every other tag falls back to the bare system defaults.
//! Emphasis and italics have no property in the style model, so they need
//! no rule here. All its selectors are bare tag names.

use vstd::prelude::*;
use crate::document::{DocNode, spec_tag_matched};
use crate::registry::{Registry, StyleRule};
use crate::style::{Color, Declaration, Dim, DisplayKind, Rect4};

verus! {

/// The rule table of the default stylesheet: for each rule, its tag
/// selector and its declarations in source order.
pub open spec fn spec_default_sheet() -> Seq<(Seq<char>, Seq<Declaration>)> {
    seq![
        ("html"@, seq![Declaration::Display(DisplayKind::Block)]),
        (
            "body"@,
            seq![
                Declaration::Display(DisplayKind::Block),
                Declaration::Margin(
                    Rect4 {
                        top: Dim::Px(8),
                        right: Dim::Px(8),
                        bottom: Dim::Px(8),
                        left: Dim::Px(8),
                    },
                ),
            ],
        ),
        ("section"@, seq![Declaration::Display(DisplayKind::Block)]),
        (
            "h1"@,
            seq![
                Declaration::Display(DisplayKind::Block),
                Declaration::FontSize(32),
                Declaration::FontWeight(700),
                Declaration::MarginTop(Dim::Px(21)),
                Declaration::MarginBottom(Dim::Px(21)),
            ],
        ),
        (
            "h2"@,
            seq![
                Declaration::Display(DisplayKind::Block),
                Declaration::FontSize(24),
                Declaration::FontWeight(700),
                Declaration::MarginTop(Dim::Px(20)),
                Declaration::MarginBottom(Dim::Px(20)),
            ],
        ),
        (
            "h3"@,
            seq![
                Declaration::Display(DisplayKind::Block),
                Declaration::FontSize(19),
                Declaration::FontWeight(700),
                Declaration::MarginTop(Dim::Px(19)),
                Declaration::MarginBottom(Dim::Px(19)),
            ],
        ),
        (
            "h4"@,
            seq![
                Declaration::Display(DisplayKind::Block),
                Declaration::FontSize(16),
                Declaration::FontWeight(700),
                Declaration::MarginTop(Dim::Px(21)),
                Declaration::MarginBottom(Dim::Px(21)),
            ],
        ),
        (
            "h5"@,
            seq![
                Declaration::Display(DisplayKind::Block),
                Declaration::FontSize(13),
                Declaration::FontWeight(700),
                Declaration::MarginTop(Dim::Px(22)),
                Declaration::MarginBottom(Dim::Px(22)),
            ],
        ),
        (
            "h6"@,
            seq![
                Declaration::Display(DisplayKind::Block),
                Declaration::FontSize(11),
                Declaration::FontWeight(700),
                Declaration::MarginTop(Dim::Px(25)),
                Declaration::MarginBottom(Dim::Px(25)),
            ],
        ),
        (
            "p"@,
            seq![
                Declaration::Display(DisplayKind::Block),
                Declaration::MarginTop(Dim::Px(16)),
                Declaration::MarginBottom(Dim::Px(16)),
            ],
        ),
        (
            "ul"@,
            seq![
                Declaration::Display(DisplayKind::Block),
                Declaration::MarginTop(Dim::Px(16)),
                Declaration::MarginBottom(Dim::Px(16)),
                Declaration::PaddingLeft(Dim::Px(40)),
            ],
        ),
        (
            "ol"@,
            seq![
                Declaration::Display(DisplayKind::Block),
                Declaration::MarginTop(Dim::Px(16)),
                Declaration::MarginBottom(Dim::Px(16)),
                Declaration::PaddingLeft(Dim::Px(40)),
            ],
        ),
        (
            "dl"@,
            seq![
                Declaration::Display(DisplayKind::Block),
                Declaration::MarginTop(Dim::Px(16)),
                Declaration::MarginBottom(Dim::Px(16)),
            ],
        ),
        ("li"@, seq![Declaration::Display(DisplayKind::ListItem)]),
        (
            "blockquote"@,
            seq![
                Declaration::Display(DisplayKind::Block),
                Declaration::MarginTop(Dim::Px(16)),
                Declaration::MarginBottom(Dim::Px(16)),
                Declaration::MarginLeft(Dim::Px(40)),
                Declaration::MarginRight(Dim::Px(40)),
            ],
        ),
        ("address"@, seq![Declaration::Display(DisplayKind::Block)]),
        ("a"@, seq![Declaration::TextColor(Color { r: 0, g: 0, b: 238, a: 255 })]),
        ("b"@, seq![Declaration::FontWeight(700)]),
        ("strong"@, seq![Declaration::FontWeight(700)]),
        ("form"@, seq![Declaration::Display(DisplayKind::Block)]),
        ("input"@, seq![Declaration::Display(DisplayKind::Inline)]),
    ]
}

/// How many rules the default stylesheet holds.
pub const DEFAULT_RULE_COUNT: usize = 21;

/// A rule with the given tag selector and declarations, not important.
fn mk_rule(selector: &str, declarations: Vec<Declaration>) -> (r: StyleRule)
    ensures
        r.selector@ == selector@,
        r.declarations@ == declarations@,
        r.important == false,
{
    StyleRule { selector: selector.to_owned(), declarations, important: false }
}

/// The default rule at position `k` of the table.
fn default_rule_at(k: usize) -> (r: StyleRule)
    requires
        k < DEFAULT_RULE_COUNT,
    ensures
        r.selector@ == spec_default_sheet()[k as int].0,
        r.declarations@ == spec_default_sheet()[k as int].1,
        r.important == false,
{
    let r = match k {
        0 => mk_rule("html", vec![Declaration::Display(DisplayKind::Block)]),
        1 => mk_rule(
            "body",
            vec![
                Declaration::Display(DisplayKind::Block),
                Declaration::Margin(Rect4::all(Dim::Px(8))),
            ],
        ),
        2 => mk_rule("section", vec![Declaration::Display(DisplayKind::Block)]),
        3 => mk_rule(
            "h1",
            vec![
                Declaration::Display(DisplayKind::Block),
                Declaration::FontSize(32),
                Declaration::FontWeight(700),
                Declaration::MarginTop(Dim::Px(21)),
                Declaration::MarginBottom(Dim::Px(21)),
            ],
        ),
        4 => mk_rule(
            "h2",
            vec![
                Declaration::Display(DisplayKind::Block),
                Declaration::FontSize(24),
                Declaration::FontWeight(700),
                Declaration::MarginTop(Dim::Px(20)),
                Declaration::MarginBottom(Dim::Px(20)),
            ],
        ),
        5 => mk_rule(
            "h3",
            vec![
                Declaration::Display(DisplayKind::Block),
                Declaration::FontSize(19),
                Declaration::FontWeight(700),
                Declaration::MarginTop(Dim::Px(19)),
                Declaration::MarginBottom(Dim::Px(19)),
            ],
        ),
        6 => mk_rule(
            "h4",
            vec![
                Declaration::Display(DisplayKind::Block),
                Declaration::FontSize(16),
                Declaration::FontWeight(700),
                Declaration::MarginTop(Dim::Px(21)),
                Declaration::MarginBottom(Dim::Px(21)),
            ],
        ),
        7 => mk_rule(
            "h5",
            vec![
                Declaration::Display(DisplayKind::Block),
                Declaration::FontSize(13),
                Declaration::FontWeight(700),
                Declaration::MarginTop(Dim::Px(22)),
                Declaration::MarginBottom(Dim::Px(22)),
            ],
        ),
        8 => mk_rule(
            "h6",
            vec![
                Declaration::Display(DisplayKind::Block),
                Declaration::FontSize(11),
                Declaration::FontWeight(700),
                Declaration::MarginTop(Dim::Px(25)),
                Declaration::MarginBottom(Dim::Px(25)),
            ],
        ),
        9 => mk_rule(
            "p",
            vec![
                Declaration::Display(DisplayKind::Block),
                Declaration::MarginTop(Dim::Px(16)),
                Declaration::MarginBottom(Dim::Px(16)),
            ],
        ),
        10 => mk_rule(
            "ul",
            vec![
                Declaration::Display(DisplayKind::Block),
                Declaration::MarginTop(Dim::Px(16)),
                Declaration::MarginBottom(Dim::Px(16)),
                Declaration::PaddingLeft(Dim::Px(40)),
            ],
        ),
        11 => mk_rule(
            "ol",
            vec![
                Declaration::Display(DisplayKind::Block),
                Declaration::MarginTop(Dim::Px(16)),
                Declaration::MarginBottom(Dim::Px(16)),
                Declaration::PaddingLeft(Dim::Px(40)),
            ],
        ),
        12 => mk_rule(
            "dl",
            vec![
                Declaration::Display(DisplayKind::Block),
                Declaration::MarginTop(Dim::Px(16)),
                Declaration::MarginBottom(Dim::Px(16)),
            ],
        ),
        13 => mk_rule("li", vec![Declaration::Display(DisplayKind::ListItem)]),
        14 => mk_rule(
            "blockquote",
            vec![
                Declaration::Display(DisplayKind::Block),
                Declaration::MarginTop(Dim::Px(16)),
                Declaration::MarginBottom(Dim::Px(16)),
                Declaration::MarginLeft(Dim::Px(40)),
                Declaration::MarginRight(Dim::Px(40)),
            ],
        ),
        15 => mk_rule("address", vec![Declaration::Display(DisplayKind::Block)]),
        16 => mk_rule("a", vec![Declaration::TextColor(Color { r: 0, g: 0, b: 238, a: 255 })]),
        17 => mk_rule("b", vec![Declaration::FontWeight(700)]),
        18 => mk_rule("strong", vec![Declaration::FontWeight(700)]),
        19 => mk_rule("form", vec![Declaration::Display(DisplayKind::Block)]),
        _ => mk_rule("input", vec![Declaration::Display(DisplayKind::Inline)]),
    };
    proof {
        assert(r.declarations@ =~= spec_default_sheet()[k as int].1);
    }
    r
}

impl Registry {
    /// The registry for one document load: the default stylesheet, each of
    /// its tag rules resolved against the document, and nothing else yet.
    /// Author stylesheets are registered after this, in document order, so
    /// the default stylesheet is always entry zero onward.
    pub fn for_document(doc: &DocNode) -> (r: Registry)
        ensures
            r.entries@.len() == spec_default_sheet().len(),
            forall|k: int|
                0 <= k < r.entries@.len() ==> (#[trigger] r.entries@[k]).rule.selector@
                    == spec_default_sheet()[k].0 && r.entries@[k].rule.declarations@
                    == spec_default_sheet()[k].1 && r.entries@[k].rule.important == false
                    && r.entries@[k].matched@ == spec_tag_matched(
                    *doc,
                    spec_default_sheet()[k].0,
                ),
    {
        let mut r = Registry::new();
        let mut k: usize = 0;
        while k < DEFAULT_RULE_COUNT
            invariant
                k <= DEFAULT_RULE_COUNT,
                r.entries@.len() == k,
                forall|j: int|
                    0 <= j < k ==> (#[trigger] r.entries@[j]).rule.selector@
                        == spec_default_sheet()[j].0 && r.entries@[j].rule.declarations@
                        == spec_default_sheet()[j].1 && r.entries@[j].rule.important == false
                        && r.entries@[j].matched@ == spec_tag_matched(
                        *doc,
                        spec_default_sheet()[j].0,
                    ),
            decreases DEFAULT_RULE_COUNT - k,
        {
            let rule = default_rule_at(k);
            r.register_tag_rule(doc, rule);
            k = k + 1;
        }
        r
    }
}

} // verus!
