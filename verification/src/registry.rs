//! The stylesheet registry and the cascade resolver. The registry is an
//! ordered sequence of entries, each a style rule together with the set of
//! node identities its selector matched, resolved once at registration time.
//! The built-in default stylesheet is always registered first; author
//! stylesheets follow in document order. The cascade computes one final
//! style per node: system defaults, then the inheritable fields from the
//! parent, then every matching entry's declarations in registration order —
//! the last matching rule wins per field, with no specificity weighting.

use vstd::prelude::*;
use crate::document::{DocNode, spec_tag_matched, tag_matched};
use crate::style::{
    Color, ComputedStyle, Declaration, Dim, DisplayKind, spec_apply_decls, spec_system_default,
    apply_decls,
};

verus! {

/// One parsed style rule: its selector text, its declarations in source
/// order, and whether the declaration group was marked important.
#[derive(Debug)]
pub struct StyleRule {
    pub selector: String,
    pub declarations: Vec<Declaration>,
    pub important: bool,
}

/// A registered rule together with the node identities its selector
/// resolved to, fixed once at registration time.
#[derive(Debug)]
pub struct StylesheetEntry {
    pub rule: StyleRule,
    pub matched: Vec<u64>,
}

/// The ordered stylesheet registry, earliest registered first.
#[derive(Debug)]
pub struct Registry {
    pub entries: Vec<StylesheetEntry>,
}

/// Whether a registered entry matched the node with this identity.
pub open spec fn spec_entry_matches(e: StylesheetEntry, id: u64) -> bool {
    e.matched@.contains(id)
}

/// The cascade over a registry prefix: starting from `base`, every entry
/// whose matched set holds `id` overwrites the running style with its
/// declarations, in registration order.
pub open spec fn spec_cascade(entries: Seq<StylesheetEntry>, id: u64, base: ComputedStyle)
    -> ComputedStyle
    decreases entries.len(),
{
    if entries.len() == 0 {
        base
    } else {
        let prev = spec_cascade(entries.drop_last(), id, base);
        if spec_entry_matches(entries.last(), id) {
            spec_apply_decls(prev, entries.last().rule.declarations@)
        } else {
            prev
        }
    }
}

/// The cascade starting point for a node whose parent computed `parent`:
/// system defaults with the three inheritable fields — text color, font
/// weight and font size — taken from the parent.
pub open spec fn spec_inherit(parent: ComputedStyle) -> ComputedStyle {
    ComputedStyle {
        color: parent.color,
        font_weight: parent.font_weight,
        font_size: parent.font_size,
        ..spec_system_default()
    }
}

/// The computed style of the node `id` under this registry and parent.
pub open spec fn spec_computed(entries: Seq<StylesheetEntry>, id: u64, parent: ComputedStyle)
    -> ComputedStyle {
    spec_cascade(entries, id, spec_inherit(parent))
}

/// The root has no parent and starts from the bare system defaults; feeding
/// the system default style in as the "parent" is the same thing, because
/// inheriting from the defaults changes nothing.
pub proof fn lemma_root_inherits_nothing()
    ensures
        spec_inherit(spec_system_default()) == spec_system_default(),
{
}

/// Whether a matched-identity list holds `id`.
pub fn matched_contains(v: &Vec<u64>, id: u64) -> (r: bool)
    ensures
        r == v@.contains(id),
{
    let mut i: usize = 0;
    while i < v.len()
        invariant
            i <= v.len(),
            forall|j: int| 0 <= j < i ==> v@[j] != id,
        decreases v.len() - i,
    {
        if v[i] == id {
            return true;
        }
        i = i + 1;
    }
    false
}

impl Registry {
    /// An empty registry; the pipeline itself always registers the default
    /// stylesheet before anything else, so this is the bare building block.
    pub fn new() -> (r: Registry)
        ensures
            r.entries@.len() == 0,
    {
        Registry { entries: Vec::new() }
    }

    /// Append one entry: a rule with its externally resolved matched set.
    /// The selector matcher is consulted once, at registration time; the
    /// cascade never re-evaluates selectors.
    pub fn register(&mut self, rule: StyleRule, matched: Vec<u64>)
        ensures
            final(self).entries@ == old(self).entries@.push(StylesheetEntry { rule, matched }),
    {
        self.entries.push(StylesheetEntry { rule, matched });
    }

    /// Append one rule whose selector is a bare tag name, resolving it
    /// against the document with the built-in tag matcher. The default
    /// stylesheet only uses tag selectors, so this is how it is registered.
    pub fn register_tag_rule(&mut self, doc: &DocNode, rule: StyleRule)
        ensures
            final(self).entries@.len() == old(self).entries@.len() + 1,
            final(self).entries@.drop_last() == old(self).entries@,
            forall|j: int|
                0 <= j < old(self).entries@.len() ==> final(self).entries@[j] == old(
                    self,
                ).entries@[j],
            final(self).entries@.last().rule == rule,
            final(self).entries@.last().matched@ == spec_tag_matched(*doc, rule.selector@),
    {
        let mut matched: Vec<u64> = Vec::new();
        tag_matched(doc, rule.selector.as_str(), &mut matched);
        self.entries.push(StylesheetEntry { rule, matched });
        proof {
            assert(self.entries@.drop_last() =~= old(self).entries@);
        }
    }

    /// The computed style of node `id` given its parent's computed style:
    /// defaults, inheritance, then every matching entry in registration
    /// order. For the root pass the system default style; that inherits
    /// nothing (`lemma_root_inherits_nothing`).
    pub fn compute_style(&self, id: u64, parent: &ComputedStyle) -> (r: ComputedStyle)
        ensures
            r == spec_computed(self.entries@, id, *parent),
    {
        let mut style = ComputedStyle::system_default();
        style.color = parent.color;
        style.font_weight = parent.font_weight;
        style.font_size = parent.font_size;
        assert(style == spec_inherit(*parent));
        let mut i: usize = 0;
        proof {
            assert(self.entries@.take(0) =~= Seq::<StylesheetEntry>::empty());
        }
        while i < self.entries.len()
            invariant
                i <= self.entries.len(),
                style == spec_cascade(self.entries@.take(i as int), id, spec_inherit(*parent)),
            decreases self.entries.len() - i,
        {
            if matched_contains(&self.entries[i].matched, id) {
                apply_decls(&mut style, &self.entries[i].rule.declarations);
            }
            proof {
                assert(self.entries@.take(i + 1 as int).drop_last() =~= self.entries@.take(
                    i as int,
                ));
                assert(self.entries@.take(i + 1 as int).last() == self.entries@[i as int]);
            }
            i = i + 1;
        }
        proof {
            assert(self.entries@.take(self.entries@.len() as int) =~= self.entries@);
        }
        style
    }
}

} // verus!
