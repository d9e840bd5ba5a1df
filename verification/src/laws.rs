//! The laws of the pipeline, stated and proved over the same spec
//! functions the executable contracts use: what the cascade inherits and
//! what it defaults, that registration order decides conflicts, that
//! whitespace pruning is idempotent, that text runs lose and duplicate
//! nothing, and that non-visual metadata never reaches the scene.

use vstd::prelude::*;
use crate::boxtree::{
    BoxModel, spec_build, spec_build_list, spec_is_inline_tag, spec_is_meta_tag, spec_pruned,
};
use crate::document::{DocNode, attrs_view};
use crate::emit::{
    PrimModel, SegModel, spec_emit_child, spec_emit_list, spec_flush, spec_seg,
};
use crate::registry::{
    StylesheetEntry, spec_cascade, spec_computed, spec_entry_matches, spec_inherit,
};
use crate::style::{ComputedStyle, Declaration, spec_apply_decl, spec_apply_decls,
    spec_system_default};
use crate::text::{spec_collapsed, spec_ws_only};

verus! {

/// One field of the computed style, for speaking about the cascade one
/// field at a time.
pub enum StyleField {
    TextColor,
    BackgroundColor,
    FontWeight,
    FontSize,
    Width,
    Height,
    FlexDirection,
    FlexWrap,
    Margin,
    Padding,
    DisplayMode,
    JustifyContent,
    AlignContent,
}

/// The field a declaration writes. The single-side margin and padding
/// forms write the margin and padding fields.
pub open spec fn spec_decl_field(d: Declaration) -> StyleField {
    match d {
        Declaration::TextColor(_) => StyleField::TextColor,
        Declaration::BackgroundColor(_) => StyleField::BackgroundColor,
        Declaration::FontWeight(_) => StyleField::FontWeight,
        Declaration::FontSize(_) => StyleField::FontSize,
        Declaration::Width(_) => StyleField::Width,
        Declaration::Height(_) => StyleField::Height,
        Declaration::FlexDir(_) => StyleField::FlexDirection,
        Declaration::Wrap(_) => StyleField::FlexWrap,
        Declaration::Margin(_) => StyleField::Margin,
        Declaration::MarginTop(_) => StyleField::Margin,
        Declaration::MarginRight(_) => StyleField::Margin,
        Declaration::MarginBottom(_) => StyleField::Margin,
        Declaration::MarginLeft(_) => StyleField::Margin,
        Declaration::Padding(_) => StyleField::Padding,
        Declaration::PaddingTop(_) => StyleField::Padding,
        Declaration::PaddingRight(_) => StyleField::Padding,
        Declaration::PaddingBottom(_) => StyleField::Padding,
        Declaration::PaddingLeft(_) => StyleField::Padding,
        Declaration::Display(_) => StyleField::DisplayMode,
        Declaration::Justify(_) => StyleField::JustifyContent,
        Declaration::Align(_) => StyleField::AlignContent,
    }
}

/// Whether a declaration replaces its field wholly, so that the field's
/// value afterwards depends on the declaration alone. Everything does but
/// the single-side margin and padding forms, which read-modify-write the
/// current four-sided unit.
pub open spec fn spec_decl_overwrites(d: Declaration) -> bool {
    match d {
        Declaration::MarginTop(_) => false,
        Declaration::MarginRight(_) => false,
        Declaration::MarginBottom(_) => false,
        Declaration::MarginLeft(_) => false,
        Declaration::PaddingTop(_) => false,
        Declaration::PaddingRight(_) => false,
        Declaration::PaddingBottom(_) => false,
        Declaration::PaddingLeft(_) => false,
        _ => true,
    }
}

/// Whether two computed styles agree on one field.
pub open spec fn spec_same_field(a: ComputedStyle, b: ComputedStyle, f: StyleField) -> bool {
    match f {
        StyleField::TextColor => a.color == b.color,
        StyleField::BackgroundColor => a.background_color == b.background_color,
        StyleField::FontWeight => a.font_weight == b.font_weight,
        StyleField::FontSize => a.font_size == b.font_size,
        StyleField::Width => a.width == b.width,
        StyleField::Height => a.height == b.height,
        StyleField::FlexDirection => a.flex_direction == b.flex_direction,
        StyleField::FlexWrap => a.flex_wrap == b.flex_wrap,
        StyleField::Margin => a.margin == b.margin,
        StyleField::Padding => a.padding == b.padding,
        StyleField::DisplayMode => a.display == b.display,
        StyleField::JustifyContent => a.justify_content == b.justify_content,
        StyleField::AlignContent => a.align_content == b.align_content,
    }
}

/// Whether any declaration in the list writes the field.
pub open spec fn spec_decls_touch(ds: Seq<Declaration>, f: StyleField) -> bool {
    exists|i: int| 0 <= i < ds.len() && spec_decl_field(#[trigger] ds[i]) == f
}

/// The three inheritable fields: text color, font weight and font size.
pub open spec fn spec_inherited_field(f: StyleField) -> bool {
    f == StyleField::TextColor || f == StyleField::FontWeight || f == StyleField::FontSize
}

/// A declaration leaves every field it does not write unchanged.
pub proof fn lemma_apply_decl_other(s: ComputedStyle, d: Declaration, f: StyleField)
    requires
        spec_decl_field(d) != f,
    ensures
        spec_same_field(spec_apply_decl(s, d), s, f),
{
}

/// A whole declaration list leaves every field it never writes unchanged.
pub proof fn lemma_apply_decls_untouched(s: ComputedStyle, ds: Seq<Declaration>, f: StyleField)
    requires
        !spec_decls_touch(ds, f),
    ensures
        spec_same_field(spec_apply_decls(s, ds), s, f),
    decreases ds.len(),
{
    if ds.len() > 0 {
        assert(!spec_decls_touch(ds.drop_last(), f)) by {
            assert(forall|i: int|
                0 <= i < ds.drop_last().len() ==> #[trigger] ds.drop_last()[i] == ds[i]);
        }
        lemma_apply_decls_untouched(s, ds.drop_last(), f);
        assert(spec_decl_field(ds.last()) != f) by {
            assert(ds[ds.len() - 1] == ds.last());
        }
        lemma_apply_decl_other(spec_apply_decls(s, ds.drop_last()), ds.last(), f);
    }
}

/// After a declaration that replaces its field wholly, the field's value is
/// the same whatever style it was applied to.
pub proof fn lemma_apply_decl_overwrite(s1: ComputedStyle, s2: ComputedStyle, d: Declaration)
    requires
        spec_decl_overwrites(d),
    ensures
        spec_same_field(spec_apply_decl(s1, d), spec_apply_decl(s2, d), spec_decl_field(d)),
{
}

/// If the last declaration in the list writing field `f` replaces it
/// wholly, that declaration alone decides the field, whatever came before:
/// the result agrees with applying it to the bare system defaults.
pub proof fn lemma_apply_decls_last_sets(
    s: ComputedStyle,
    ds: Seq<Declaration>,
    f: StyleField,
    j: int,
)
    requires
        0 <= j < ds.len(),
        spec_decl_field(ds[j]) == f,
        spec_decl_overwrites(ds[j]),
        forall|m: int| j < m < ds.len() ==> spec_decl_field(#[trigger] ds[m]) != f,
    ensures
        spec_same_field(
            spec_apply_decls(s, ds),
            spec_apply_decl(spec_system_default(), ds[j]),
            f,
        ),
    decreases ds.len(),
{
    if j == ds.len() - 1 {
        lemma_apply_decl_overwrite(
            spec_apply_decls(s, ds.drop_last()),
            spec_system_default(),
            ds.last(),
        );
    } else {
        assert(forall|i: int|
            0 <= i < ds.drop_last().len() ==> #[trigger] ds.drop_last()[i] == ds[i]);
        lemma_apply_decls_last_sets(s, ds.drop_last(), f, j);
        lemma_apply_decl_other(spec_apply_decls(s, ds.drop_last()), ds.last(), f);
    }
}

/// The cascade leaves every field that no matching entry writes at its
/// starting value.
pub proof fn lemma_cascade_preserves_field(
    entries: Seq<StylesheetEntry>,
    id: u64,
    base: ComputedStyle,
    f: StyleField,
)
    requires
        forall|k: int|
            0 <= k < entries.len() && spec_entry_matches(#[trigger] entries[k], id)
                ==> !spec_decls_touch(entries[k].rule.declarations@, f),
    ensures
        spec_same_field(spec_cascade(entries, id, base), base, f),
    decreases entries.len(),
{
    if entries.len() > 0 {
        assert(forall|k: int|
            0 <= k < entries.drop_last().len() ==> #[trigger] entries.drop_last()[k]
                == entries[k]);
        lemma_cascade_preserves_field(entries.drop_last(), id, base, f);
        if spec_entry_matches(entries.last(), id) {
            assert(entries[entries.len() - 1] == entries.last());
            lemma_apply_decls_untouched(
                spec_cascade(entries.drop_last(), id, base),
                entries.last().rule.declarations@,
                f,
            );
        }
    }
}

/// Inheritance touches exactly the inheritable fields: a node on which no
/// matching rule writes field `f` computes, for inheritable `f`, its
/// parent's value, and for every other `f`, the system default.
pub proof fn lemma_inheritance_only_on_inherited_fields(
    entries: Seq<StylesheetEntry>,
    id: u64,
    parent: ComputedStyle,
    f: StyleField,
)
    requires
        forall|k: int|
            0 <= k < entries.len() && spec_entry_matches(#[trigger] entries[k], id)
                ==> !spec_decls_touch(entries[k].rule.declarations@, f),
    ensures
        spec_inherited_field(f) ==> spec_same_field(spec_computed(entries, id, parent), parent, f),
        !spec_inherited_field(f) ==> spec_same_field(
            spec_computed(entries, id, parent),
            spec_system_default(),
            f,
        ),
{
    lemma_cascade_preserves_field(entries, id, spec_inherit(parent), f);
}

/// Registering one more entry computes exactly what the old registry
/// computed, overwritten by the new entry's declarations when it matches:
/// the latest-registered rule is always applied last.
pub proof fn lemma_cascade_snoc(
    entries: Seq<StylesheetEntry>,
    e: StylesheetEntry,
    id: u64,
    base: ComputedStyle,
)
    ensures
        spec_entry_matches(e, id) ==> spec_cascade(entries.push(e), id, base) == spec_apply_decls(
            spec_cascade(entries, id, base),
            e.rule.declarations@,
        ),
        !spec_entry_matches(e, id) ==> spec_cascade(entries.push(e), id, base) == spec_cascade(
            entries,
            id,
            base,
        ),
{
    assert(entries.push(e).drop_last() =~= entries);
    assert(entries.push(e).last() == e);
}

/// Registration order decides conflicts. Let entry `j` match the node and
/// let its declaration at `dj` be the last one in it writing field `f`,
/// replacing the field wholly; if no entry registered after `j` that
/// matches the node writes `f`, then the computed field is exactly what
/// that one declaration sets — whatever any earlier entry declared, and
/// whatever the cascade started from.
pub proof fn lemma_registration_order_cascade(
    entries: Seq<StylesheetEntry>,
    id: u64,
    base: ComputedStyle,
    j: int,
    dj: int,
    f: StyleField,
)
    requires
        0 <= j < entries.len(),
        spec_entry_matches(entries[j], id),
        forall|k: int|
            j < k < entries.len() && spec_entry_matches(#[trigger] entries[k], id)
                ==> !spec_decls_touch(entries[k].rule.declarations@, f),
        0 <= dj < entries[j].rule.declarations@.len(),
        spec_decl_field(entries[j].rule.declarations@[dj]) == f,
        spec_decl_overwrites(entries[j].rule.declarations@[dj]),
        forall|m: int|
            dj < m < entries[j].rule.declarations@.len() ==> spec_decl_field(
                #[trigger] entries[j].rule.declarations@[m],
            ) != f,
    ensures
        spec_same_field(
            spec_cascade(entries, id, base),
            spec_apply_decl(spec_system_default(), entries[j].rule.declarations@[dj]),
            f,
        ),
    decreases entries.len(),
{
    assert(forall|k: int|
        0 <= k < entries.drop_last().len() ==> #[trigger] entries.drop_last()[k] == entries[k]);
    if j == entries.len() - 1 {
        assert(entries.last() == entries[j]);
        lemma_apply_decls_last_sets(
            spec_cascade(entries.drop_last(), id, base),
            entries[j].rule.declarations@,
            f,
            dj,
        );
    } else {
        lemma_registration_order_cascade(entries.drop_last(), id, base, j, dj, f);
        if spec_entry_matches(entries.last(), id) {
            assert(entries[entries.len() - 1] == entries.last());
            lemma_apply_decls_untouched(
                spec_cascade(entries.drop_last(), id, base),
                entries.last().rule.declarations@,
                f,
            );
        }
    }
}

/// A document tree already free of whitespace-only text nodes.
pub open spec fn spec_doc_clean(n: DocNode) -> bool
    decreases n,
{
    match n {
        DocNode::Document { children, .. } => spec_doc_clean_list(children@),
        DocNode::Element { children, .. } => spec_doc_clean_list(children@),
        DocNode::Doctype { .. } => true,
        DocNode::Text { text, .. } => !spec_ws_only(text@),
    }
}

/// Cleanliness of a child list.
pub open spec fn spec_doc_clean_list(s: Seq<DocNode>) -> bool
    decreases s,
{
    if s.len() == 0 {
        true
    } else {
        spec_doc_clean_list(s.drop_last()) && spec_doc_clean(s.last())
    }
}

/// A box tree that is structurally identical to a document tree: node for
/// node and child for child, with the same classification, nothing dropped
/// and nothing added.
pub open spec fn spec_mirrors(b: BoxModel, d: DocNode) -> bool
    decreases d,
{
    match d {
        DocNode::Document { children, .. } => b matches BoxModel::Element {
            tag,
            children: bc,
            ..
        } && tag == "html"@ && spec_mirrors_list(bc, children@),
        DocNode::Element { tag: dt, attrs, children, .. } => {
            if spec_is_meta_tag(dt@) {
                &&& b matches BoxModel::Meta { tag, attrs: ba, children: bc, .. }
                &&& tag == dt@
                &&& ba == attrs_view(attrs@)
                &&& spec_mirrors_list(bc, children@)
            } else {
                &&& b matches BoxModel::Element { tag, attrs: ba, children: bc, .. }
                &&& tag == dt@
                &&& ba == attrs_view(attrs@)
                &&& spec_mirrors_list(bc, children@)
            }
        },
        DocNode::Doctype { .. } => b is Doctype,
        DocNode::Text { text, .. } => b matches BoxModel::Text { text: t } && t == text@,
    }
}

/// Structural identity of child lists, position by position.
pub open spec fn spec_mirrors_list(bs: Seq<BoxModel>, ds: Seq<DocNode>) -> bool
    decreases ds,
{
    if ds.len() == 0 {
        bs.len() == 0
    } else {
        bs.len() > 0 && spec_mirrors_list(bs.drop_last(), ds.drop_last()) && spec_mirrors(
            bs.last(),
            ds.last(),
        )
    }
}

/// Whitespace pruning is idempotent: building the box tree of a document
/// already free of whitespace-only text yields a structurally identical
/// tree — the builder prunes nothing further, whatever the registry and
/// the parent style.
pub proof fn lemma_pruning_idempotent(
    doc: DocNode,
    entries: Seq<StylesheetEntry>,
    parent: ComputedStyle,
)
    requires
        spec_doc_clean(doc),
    ensures
        spec_mirrors(spec_build(doc, entries, parent), doc),
    decreases doc,
{
    match doc {
        DocNode::Document { id, children } => {
            lemma_pruning_idempotent_list(
                children@,
                entries,
                spec_computed(entries, id, parent),
            );
        },
        DocNode::Element { id, tag, attrs, children } => {
            lemma_pruning_idempotent_list(
                children@,
                entries,
                spec_computed(entries, id, parent),
            );
        },
        DocNode::Doctype { .. } => {},
        DocNode::Text { .. } => {},
    }
}

/// Pruning idempotence over a child list: on a clean list the builder
/// keeps every child, in place.
pub proof fn lemma_pruning_idempotent_list(
    s: Seq<DocNode>,
    entries: Seq<StylesheetEntry>,
    parent: ComputedStyle,
)
    requires
        spec_doc_clean_list(s),
    ensures
        spec_mirrors_list(spec_build_list(s, entries, parent), s),
    decreases s,
{
    if s.len() > 0 {
        lemma_pruning_idempotent_list(s.drop_last(), entries, parent);
        lemma_pruning_idempotent(s.last(), entries, parent);
        assert(spec_doc_clean(s.last()));
        assert(!spec_pruned(s.last())) by {
            match s.last() {
                DocNode::Text { text, .. } => {
                    assert(!spec_ws_only(text@));
                },
                _ => {},
            }
        }
        assert(spec_build_list(s, entries, parent).drop_last() =~= spec_build_list(
            s.drop_last(),
            entries,
            parent,
        ));
    }
}

/// The pruning is also complete: no whitespace-only text box survives
/// anywhere in a built box tree.
pub open spec fn spec_box_no_ws_text(b: BoxModel) -> bool
    decreases b,
{
    match b {
        BoxModel::Element { children, .. } => spec_box_no_ws_text_list(children),
        BoxModel::Meta { children, .. } => spec_box_no_ws_text_list(children),
        BoxModel::Doctype => true,
        BoxModel::Text { text } => !spec_ws_only(text),
    }
}

/// No whitespace-only text box in a list of box trees.
pub open spec fn spec_box_no_ws_text_list(s: Seq<BoxModel>) -> bool
    decreases s,
{
    if s.len() == 0 {
        true
    } else {
        spec_box_no_ws_text_list(s.drop_last()) && spec_box_no_ws_text(s.last())
    }
}

/// Every built box tree is free of whitespace-only text, provided the root
/// itself is not a pruned text node (a pruned root never stands in a child
/// list, so the builder has no parent to drop it from).
pub proof fn lemma_pruning_complete(
    doc: DocNode,
    entries: Seq<StylesheetEntry>,
    parent: ComputedStyle,
)
    requires
        !spec_pruned(doc),
    ensures
        spec_box_no_ws_text(spec_build(doc, entries, parent)),
    decreases doc,
{
    match doc {
        DocNode::Document { id, children } => {
            lemma_pruning_complete_list(children@, entries, spec_computed(entries, id, parent));
        },
        DocNode::Element { id, tag, attrs, children } => {
            lemma_pruning_complete_list(children@, entries, spec_computed(entries, id, parent));
        },
        DocNode::Doctype { .. } => {},
        DocNode::Text { .. } => {},
    }
}

/// Pruning completeness over a child list.
pub proof fn lemma_pruning_complete_list(
    s: Seq<DocNode>,
    entries: Seq<StylesheetEntry>,
    parent: ComputedStyle,
)
    ensures
        spec_box_no_ws_text_list(spec_build_list(s, entries, parent)),
    decreases s,
{
    if s.len() > 0 {
        lemma_pruning_complete_list(s.drop_last(), entries, parent);
        if !spec_pruned(s.last()) {
            lemma_pruning_complete(s.last(), entries, parent);
            assert(spec_build_list(s, entries, parent).drop_last() =~= spec_build_list(
                s.drop_last(),
                entries,
                parent,
            ));
        }
    }
}

/// The text a run holds: its segments' texts concatenated, in order.
pub open spec fn spec_run_text(run: Seq<SegModel>) -> Seq<char>
    decreases run.len(),
{
    if run.len() == 0 {
        Seq::empty()
    } else {
        spec_run_text(run.drop_last()) + run.last().text
    }
}

/// The text the text primitives of a list hold, in order; container
/// primitives contribute nothing of their own here.
pub open spec fn spec_prims_text(prims: Seq<PrimModel>) -> Seq<char>
    decreases prims.len(),
{
    if prims.len() == 0 {
        Seq::empty()
    } else {
        spec_prims_text(prims.drop_last()) + (match prims.last() {
            PrimModel::Text { segments } => spec_run_text(segments),
            PrimModel::Container { .. } => Seq::empty(),
        })
    }
}

/// The inline text a box contributes to its enclosing container's run:
/// its own text for a text box, newlines collapsed; its descendants' text
/// for an inline element; nothing for a block element, metadata or a
/// doctype.
pub open spec fn spec_inline_text(b: BoxModel) -> Seq<char>
    decreases b,
{
    match b {
        BoxModel::Text { text } => spec_collapsed(text),
        BoxModel::Element { tag, children, .. } => {
            if spec_is_inline_tag(tag) {
                spec_inline_text_list(children)
            } else {
                Seq::empty()
            }
        },
        BoxModel::Meta { .. } => Seq::empty(),
        BoxModel::Doctype => Seq::empty(),
    }
}

/// Inline text over a child list, in document order.
pub open spec fn spec_inline_text_list(s: Seq<BoxModel>) -> Seq<char>
    decreases s,
{
    if s.len() == 0 {
        Seq::empty()
    } else {
        spec_inline_text_list(s.drop_last()) + spec_inline_text(s.last())
    }
}

/// Flushing moves the run's text, exactly once, into the primitive list.
pub proof fn lemma_flush_text(run: Seq<SegModel>, out: Seq<PrimModel>)
    ensures
        spec_prims_text(spec_flush(run, out)) == spec_prims_text(out) + spec_run_text(run),
{
    if run.len() == 0 {
        assert(spec_prims_text(out) + spec_run_text(run) =~= spec_prims_text(out));
    } else {
        let f = out.push(PrimModel::Text { segments: run });
        assert(f.drop_last() =~= out);
        assert(f.last() == (PrimModel::Text { segments: run }));
    }
}

/// Processing one child neither loses nor duplicates text: the text in the
/// emitted primitives plus the text still in the run grows by exactly the
/// child's inline text.
pub proof fn lemma_emit_child_conserves_text(
    b: BoxModel,
    style: ComputedStyle,
    out: Seq<PrimModel>,
    run: Seq<SegModel>,
)
    ensures
        spec_prims_text(spec_emit_child(b, style, out, run).0) + spec_run_text(
            spec_emit_child(b, style, out, run).1,
        ) == spec_prims_text(out) + spec_run_text(run) + spec_inline_text(b),
    decreases b,
{
    match b {
        BoxModel::Text { text } => {
            let r2 = run.push(spec_seg(text, style));
            assert(r2.drop_last() =~= run);
            assert(spec_run_text(r2) == spec_run_text(run) + spec_collapsed(text));
            assert(spec_prims_text(out) + (spec_run_text(run) + spec_collapsed(text))
                =~= spec_prims_text(out) + spec_run_text(run) + spec_collapsed(text));
        },
        BoxModel::Doctype => {
            assert(spec_prims_text(out) + spec_run_text(run) + Seq::<char>::empty()
                =~= spec_prims_text(out) + spec_run_text(run));
        },
        BoxModel::Meta { .. } => {
            assert(spec_prims_text(out) + spec_run_text(run) + Seq::<char>::empty()
                =~= spec_prims_text(out) + spec_run_text(run));
        },
        BoxModel::Element { tag, children, style: own, .. } => {
            if spec_is_inline_tag(tag) {
                lemma_emit_list_conserves_text(children, own, out, run);
            } else {
                lemma_flush_text(run, out);
                let flushed = spec_flush(run, out);
                let inner = spec_emit_list(children, own, Seq::empty(), Seq::empty());
                let prims = spec_flush(inner.1, inner.0);
                let container = PrimModel::Container {
                    tag: tag,
                    scrollable: tag == "body"@,
                    style: own,
                    children: prims,
                };
                assert(flushed.push(container).drop_last() =~= flushed);
                assert(flushed.push(container).last() == container);
                assert(spec_prims_text(flushed.push(container)) == spec_prims_text(flushed)
                    + Seq::<char>::empty());
                assert(spec_prims_text(flushed) + Seq::<char>::empty() =~= spec_prims_text(
                    flushed,
                ));
                assert(spec_run_text(Seq::<SegModel>::empty()) == Seq::<char>::empty());
                assert(spec_prims_text(flushed) + Seq::<char>::empty() =~= spec_prims_text(out)
                    + spec_run_text(run) + Seq::<char>::empty());
            }
        },
    }
}

/// Processing a whole child list conserves text the same way, child by
/// child in document order.
pub proof fn lemma_emit_list_conserves_text(
    s: Seq<BoxModel>,
    style: ComputedStyle,
    out: Seq<PrimModel>,
    run: Seq<SegModel>,
)
    ensures
        spec_prims_text(spec_emit_list(s, style, out, run).0) + spec_run_text(
            spec_emit_list(s, style, out, run).1,
        ) == spec_prims_text(out) + spec_run_text(run) + spec_inline_text_list(s),
    decreases s,
{
    if s.len() == 0 {
        assert(spec_prims_text(out) + spec_run_text(run) + Seq::<char>::empty()
            =~= spec_prims_text(out) + spec_run_text(run));
    } else {
        lemma_emit_list_conserves_text(s.drop_last(), style, out, run);
        let prev = spec_emit_list(s.drop_last(), style, out, run);
        lemma_emit_child_conserves_text(s.last(), style, prev.0, prev.1);
        assert(spec_prims_text(out) + spec_run_text(run) + spec_inline_text_list(s.drop_last())
            + spec_inline_text(s.last()) =~= spec_prims_text(out) + spec_run_text(run)
            + spec_inline_text_list(s));
    }
}

/// The child primitives of the container a block element emits: its
/// children processed from a fresh state, with the trailing run flushed.
pub open spec fn spec_block_prims(b: BoxModel) -> Seq<PrimModel>
    recommends
        b is Element,
{
    spec_flush(
        spec_emit_list(b->Element_children, b->Element_style, Seq::empty(), Seq::empty()).1,
        spec_emit_list(b->Element_children, b->Element_style, Seq::empty(), Seq::empty()).0,
    )
}

/// A block element emits exactly one container primitive: the run so far
/// is flushed before it, its children's primitives are `spec_block_prims`,
/// and the run afterwards is empty.
pub proof fn lemma_block_emits_container(
    b: BoxModel,
    style: ComputedStyle,
    out: Seq<PrimModel>,
    run: Seq<SegModel>,
)
    requires
        b is Element,
        !spec_is_inline_tag(b->Element_tag),
    ensures
        spec_emit_child(b, style, out, run).0 == spec_flush(run, out).push(
            (PrimModel::Container {
                tag: b->Element_tag,
                scrollable: b->Element_tag == "body"@,
                style: b->Element_style,
                children: spec_block_prims(b),
            }),
        ),
        spec_emit_child(b, style, out, run).1 == Seq::<SegModel>::empty(),
{
}

/// Run-flush completeness: for any container, the concatenation of all its
/// emitted text primitives' text, in order, is exactly the concatenation
/// of its inline and text descendants' text in document order, newlines
/// collapsed — no loss and no duplication.
pub proof fn lemma_run_flush_completeness(b: BoxModel)
    requires
        b is Element,
    ensures
        spec_prims_text(spec_block_prims(b)) == spec_inline_text_list(b->Element_children),
{
    lemma_emit_list_conserves_text(
        b->Element_children,
        b->Element_style,
        Seq::empty(),
        Seq::empty(),
    );
    let inner = spec_emit_list(b->Element_children, b->Element_style, Seq::empty(), Seq::empty());
    lemma_flush_text(inner.1, inner.0);
    assert(spec_prims_text(Seq::empty()) == Seq::<char>::empty());
    assert(spec_run_text(Seq::empty()) == Seq::<char>::empty());
    assert(Seq::<char>::empty() + Seq::<char>::empty() + spec_inline_text_list(
        b->Element_children,
    ) =~= spec_inline_text_list(b->Element_children));
}

/// Metadata exclusion: a non-visual metadata box (and likewise a doctype
/// box) standing anywhere in a child list changes nothing — it produces no
/// primitive and does not interrupt an in-progress text run.
pub proof fn lemma_metadata_exclusion(
    s1: Seq<BoxModel>,
    m: BoxModel,
    s2: Seq<BoxModel>,
    style: ComputedStyle,
    out: Seq<PrimModel>,
    run: Seq<SegModel>,
)
    requires
        m is Meta || m is Doctype,
    ensures
        spec_emit_list(s1 + seq![m] + s2, style, out, run).0 == spec_emit_list(
            s1 + s2,
            style,
            out,
            run,
        ).0,
        spec_emit_list(s1 + seq![m] + s2, style, out, run).1 == spec_emit_list(
            s1 + s2,
            style,
            out,
            run,
        ).1,
    decreases s2.len(),
{
    if s2.len() == 0 {
        assert(s1 + seq![m] + s2 =~= s1.push(m));
        assert(s1.push(m).drop_last() =~= s1);
        assert(s1.push(m).last() == m);
        assert(s1 + s2 =~= s1);
        let whole = s1 + seq![m] + s2;
        let prev = spec_emit_list(whole.drop_last(), style, out, run);
        assert(whole.len() > 0);
        assert(whole.last() == m);
        assert(whole.drop_last() == s1 + s2);
        assert(spec_emit_list(whole, style, out, run).0 == spec_emit_child(
            m,
            style,
            prev.0,
            prev.1,
        ).0);
        assert(spec_emit_list(whole, style, out, run).1 == spec_emit_child(
            m,
            style,
            prev.0,
            prev.1,
        ).1);
        assert(spec_emit_child(m, style, prev.0, prev.1).0 == prev.0);
        assert(spec_emit_child(m, style, prev.0, prev.1).1 == prev.1);
    } else {
        lemma_metadata_exclusion(s1, m, s2.drop_last(), style, out, run);
        assert((s1 + seq![m] + s2).drop_last() =~= s1 + seq![m] + s2.drop_last());
        assert((s1 + s2).drop_last() =~= s1 + s2.drop_last());
        assert((s1 + seq![m] + s2).last() == s2.last());
        assert((s1 + s2).last() == s2.last());
    }
}

} // verus!
