//! The inline-run segmenter and emitter: a depth-first walk of the box tree
//! that gathers consecutive inline and text content into one text run per
//! open container, flushes the run into a text primitive at every block
//! boundary, and emits one container primitive per block element carrying
//! its resolved style and its child primitives in document order.
//! Non-visual metadata, doctype markers and pruned text produce nothing and
//! do not interrupt an in-progress run.

use vstd::prelude::*;
use crate::boxtree::{BoxModel, BoxNode, box_views, spec_is_inline_tag, is_inline_tag};
use crate::document::str_eq;
use crate::style::{Color, ComputedStyle, spec_system_default};
use crate::text::{collapse_newlines, spec_collapsed};

verus! {

/// One styled stretch of text inside a text run: the text (newlines already
/// collapsed) and the text-relevant fields of the style that governed it.
#[derive(Debug)]
pub struct TextSegment {
    pub text: String,
    pub color: Color,
    pub font_weight: u32,
    pub font_size: u32,
}

/// The mathematical model of a text segment.
pub struct SegModel {
    pub text: Seq<char>,
    pub color: Color,
    pub font_weight: u32,
    pub font_size: u32,
}

impl View for TextSegment {
    type V = SegModel;

    open spec fn view(&self) -> SegModel {
        SegModel {
            text: self.text@,
            color: self.color,
            font_weight: self.font_weight,
            font_size: self.font_size,
        }
    }
}

/// A renderer-facing scene primitive: a container with resolved geometry
/// and child primitives in document order, or one text unit made of ordered
/// styled segments. The container of the page's scroll-root body is marked
/// scrollable for the scene runtime.
#[derive(Debug)]
pub enum Primitive {
    Container { tag: String, scrollable: bool, style: ComputedStyle, children: Vec<Primitive> },
    Text { segments: Vec<TextSegment> },
}

/// The mathematical model of a scene primitive.
pub enum PrimModel {
    Container { tag: Seq<char>, scrollable: bool, style: ComputedStyle, children: Seq<PrimModel> },
    Text { segments: Seq<SegModel> },
}

impl View for Primitive {
    type V = PrimModel;

    open spec fn view(&self) -> PrimModel
        decreases self,
    {
        match self {
            Primitive::Container { tag, scrollable, style, children } => PrimModel::Container {
                tag: tag@,
                scrollable: *scrollable,
                style: *style,
                children: prim_views(children@),
            },
            Primitive::Text { segments } => PrimModel::Text { segments: seg_views(segments@) },
        }
    }
}

/// The models of a list of segments, in order.
pub open spec fn seg_views(s: Seq<TextSegment>) -> Seq<SegModel> {
    s.map_values(|t: TextSegment| t@)
}

/// The models of a list of primitives, in order.
pub open spec fn prim_views(s: Seq<Primitive>) -> Seq<PrimModel>
    decreases s,
{
    if s.len() == 0 {
        Seq::empty()
    } else {
        prim_views(s.drop_last()).push(s.last()@)
    }
}

/// The segment that `text` contributes to a run opened under `style`:
/// newlines collapsed to spaces, the style's text fields at time of append.
pub open spec fn spec_seg(text: Seq<char>, style: ComputedStyle) -> SegModel {
    SegModel {
        text: spec_collapsed(text),
        color: style.color,
        font_weight: style.font_weight,
        font_size: style.font_size,
    }
}

/// Flushing a run: a non-empty run becomes exactly one text primitive
/// appended to `out`; an empty run is discarded and emits nothing.
pub open spec fn spec_flush(run: Seq<SegModel>, out: Seq<PrimModel>) -> Seq<PrimModel> {
    if run.len() == 0 {
        out
    } else {
        out.push(PrimModel::Text { segments: run })
    }
}

/// The emitter state after one box node is processed as a child of a
/// container styled `style`, starting from emitted primitives `out` and
/// in-progress run `run`.
///
/// Text appends a segment to the run. Metadata and doctype boxes emit
/// nothing and leave the run alone. An inline element feeds its children
/// into the same run, under its own computed style. A block element first
/// flushes the run, then becomes one container primitive holding its own
/// children's primitives with its own trailing run flushed.
pub open spec fn spec_emit_child(
    b: BoxModel,
    style: ComputedStyle,
    out: Seq<PrimModel>,
    run: Seq<SegModel>,
) -> (Seq<PrimModel>, Seq<SegModel>)
    decreases b,
{
    match b {
        BoxModel::Text { text } => (out, run.push(spec_seg(text, style))),
        BoxModel::Doctype => (out, run),
        BoxModel::Meta { .. } => (out, run),
        BoxModel::Element { tag, children, style: own, .. } => {
            if spec_is_inline_tag(tag) {
                spec_emit_list(children, own, out, run)
            } else {
                let flushed = spec_flush(run, out);
                let inner = spec_emit_list(children, own, Seq::empty(), Seq::empty());
                let prims = spec_flush(inner.1, inner.0);
                let container = PrimModel::Container {
                    tag: tag,
                    scrollable: tag == "body"@,
                    style: own,
                    children: prims,
                };
                (flushed.push(container), Seq::empty())
            }
        },
    }
}

/// The emitter state after a whole child list is processed, left to right.
pub open spec fn spec_emit_list(
    s: Seq<BoxModel>,
    style: ComputedStyle,
    out: Seq<PrimModel>,
    run: Seq<SegModel>,
) -> (Seq<PrimModel>, Seq<SegModel>)
    decreases s,
{
    if s.len() == 0 {
        (out, run)
    } else {
        let prev = spec_emit_list(s.drop_last(), style, out, run);
        spec_emit_child(s.last(), style, prev.0, prev.1)
    }
}

/// The scene primitives for a whole box tree: the root processed as the
/// sole child of a virtual container styled with the system defaults, with
/// the trailing run flushed.
pub open spec fn spec_emit(b: BoxModel) -> Seq<PrimModel> {
    let end = spec_emit_child(b, spec_system_default(), Seq::empty(), Seq::empty());
    spec_flush(end.1, end.0)
}

/// Flush the active run: a non-empty run is emitted as one text primitive;
/// either way the run is empty afterwards.
pub fn flush_run(out: &mut Vec<Primitive>, run: &mut Vec<TextSegment>)
    ensures
        prim_views(final(out)@) == spec_flush(seg_views(old(run)@), prim_views(old(out)@)),
        final(run)@.len() == 0,
{
    if run.len() > 0 {
        let mut segments: Vec<TextSegment> = Vec::new();
        core::mem::swap(run, &mut segments);
        let ghost out0 = out@;
        out.push(Primitive::Text { segments });
        proof {
            assert(out@.drop_last() =~= out0);
            assert(out@.last()@ == (PrimModel::Text { segments: seg_views(old(run)@) }));
            assert(prim_views(out@) == prim_views(out0).push(
                PrimModel::Text { segments: seg_views(old(run)@) },
            ));
        }
    } else {
        proof {
            assert(seg_views(run@) =~= Seq::<SegModel>::empty());
        }
    }
}

/// Process one box node as a child of a container styled `style`,
/// extending the emitted primitives and the active run.
pub fn emit_child(
    b: &BoxNode,
    style: &ComputedStyle,
    out: &mut Vec<Primitive>,
    run: &mut Vec<TextSegment>,
)
    ensures
        prim_views(final(out)@) == spec_emit_child(
            b@,
            *style,
            prim_views(old(out)@),
            seg_views(old(run)@),
        ).0,
        seg_views(final(run)@) == spec_emit_child(
            b@,
            *style,
            prim_views(old(out)@),
            seg_views(old(run)@),
        ).1,
    decreases *b,
{
    match b {
        BoxNode::Text { text } => {
            let ghost run0 = run@;
            run.push(
                TextSegment {
                    text: collapse_newlines(text.as_str()),
                    color: style.color,
                    font_weight: style.font_weight,
                    font_size: style.font_size,
                },
            );
            proof {
                assert(seg_views(run@) =~= seg_views(run0).push(spec_seg(text@, *style)));
            }
        },
        BoxNode::Doctype => {},
        BoxNode::Meta { .. } => {},
        BoxNode::Element { tag, children, style: own, .. } => {
            if is_inline_tag(tag.as_str()) {
                emit_list(children, own, out, run);
            } else {
                flush_run(out, run);
                let mut inner_out: Vec<Primitive> = Vec::new();
                let mut inner_run: Vec<TextSegment> = Vec::new();
                proof {
                    assert(prim_views(inner_out@) =~= Seq::<PrimModel>::empty());
                    assert(seg_views(inner_run@) =~= Seq::<SegModel>::empty());
                }
                emit_list(children, own, &mut inner_out, &mut inner_run);
                flush_run(&mut inner_out, &mut inner_run);
                let ghost prims = prim_views(inner_out@);
                let scrollable = str_eq(tag.as_str(), "body");
                let ghost out1 = out@;
                out.push(
                    Primitive::Container {
                        tag: tag.clone(),
                        scrollable,
                        style: *own,
                        children: inner_out,
                    },
                );
                proof {
                    assert(out@.drop_last() =~= out1);
                    assert(out@.last()@ == (PrimModel::Container {
                        tag: tag@,
                        scrollable: tag@ == "body"@,
                        style: *own,
                        children: prims,
                    }));
                    assert(prim_views(out@) == prim_views(out1).push(
                        PrimModel::Container {
                            tag: tag@,
                            scrollable: tag@ == "body"@,
                            style: *own,
                            children: prims,
                        },
                    ));
                    assert(seg_views(run@) =~= Seq::<SegModel>::empty());
                }
            }
        },
    }
}

/// Process a whole child list, left to right, under the container style
/// `style`.
pub fn emit_list(
    s: &Vec<BoxNode>,
    style: &ComputedStyle,
    out: &mut Vec<Primitive>,
    run: &mut Vec<TextSegment>,
)
    ensures
        prim_views(final(out)@) == spec_emit_list(
            box_views(s@),
            *style,
            prim_views(old(out)@),
            seg_views(old(run)@),
        ).0,
        seg_views(final(run)@) == spec_emit_list(
            box_views(s@),
            *style,
            prim_views(old(out)@),
            seg_views(old(run)@),
        ).1,
    decreases s@,
{
    let mut i: usize = 0;
    while i < s.len()
        invariant
            i <= s.len(),
            prim_views(out@) == spec_emit_list(
                box_views(s@.take(i as int)),
                *style,
                prim_views(old(out)@),
                seg_views(old(run)@),
            ).0,
            seg_views(run@) == spec_emit_list(
                box_views(s@.take(i as int)),
                *style,
                prim_views(old(out)@),
                seg_views(old(run)@),
            ).1,
        decreases s.len() - i,
    {
        emit_child(&s[i], style, out, run);
        proof {
            assert(s@.take(i + 1 as int).drop_last() =~= s@.take(i as int));
            assert(s@.take(i + 1 as int).last() == s@[i as int]);
            assert(box_views(s@.take(i + 1 as int)) == box_views(s@.take(i as int)).push(
                s@[i as int]@,
            ));
            assert(box_views(s@.take(i + 1 as int)).drop_last() =~= box_views(s@.take(i as int)));
            assert(box_views(s@.take(i + 1 as int)).last() == s@[i as int]@);
        }
        i = i + 1;
    }
    proof {
        assert(s@.take(s@.len() as int) =~= s@);
    }
}

/// Emit the scene primitives for a whole box tree.
pub fn emit(root: &BoxNode) -> (r: Vec<Primitive>)
    ensures
        prim_views(r@) == spec_emit(root@),
{
    let style = ComputedStyle::system_default();
    let mut out: Vec<Primitive> = Vec::new();
    let mut run: Vec<TextSegment> = Vec::new();
    proof {
        assert(prim_views(out@) =~= Seq::<PrimModel>::empty());
        assert(seg_views(run@) =~= Seq::<SegModel>::empty());
    }
    emit_child(root, &style, &mut out, &mut run);
    flush_run(&mut out, &mut run);
    out
}

/// The font asset for a numeric font weight: the heaviest face whose
/// threshold the weight reaches, thin below two hundred.
pub open spec fn spec_font_asset(w: u32) -> Seq<char> {
    if w < 200 {
        "fonts/FiraSans-Thin.ttf"@
    } else if w < 300 {
        "fonts/FiraSans-ExtraLight.ttf"@
    } else if w < 400 {
        "fonts/FiraSans-Light.ttf"@
    } else if w < 500 {
        "fonts/FiraSans-Regular.ttf"@
    } else if w < 600 {
        "fonts/FiraSans-Medium.ttf"@
    } else if w < 700 {
        "fonts/FiraSans-SemiBold.ttf"@
    } else if w < 800 {
        "fonts/FiraSans-Bold.ttf"@
    } else if w < 900 {
        "fonts/FiraSans-ExtraBold.ttf"@
    } else {
        "fonts/FiraSans-Black.ttf"@
    }
}

/// The font asset path the scene runtime should load for a text segment of
/// the given weight.
pub fn font_asset_for_weight(w: u32) -> (r: String)
    ensures
        r@ == spec_font_asset(w),
{
    if w < 200 {
        "fonts/FiraSans-Thin.ttf".to_owned()
    } else if w < 300 {
        "fonts/FiraSans-ExtraLight.ttf".to_owned()
    } else if w < 400 {
        "fonts/FiraSans-Light.ttf".to_owned()
    } else if w < 500 {
        "fonts/FiraSans-Regular.ttf".to_owned()
    } else if w < 600 {
        "fonts/FiraSans-Medium.ttf".to_owned()
    } else if w < 700 {
        "fonts/FiraSans-SemiBold.ttf".to_owned()
    } else if w < 800 {
        "fonts/FiraSans-Bold.ttf".to_owned()
    } else if w < 900 {
        "fonts/FiraSans-ExtraBold.ttf".to_owned()
    } else {
        "fonts/FiraSans-Black.ttf".to_owned()
    }
}

} // verus!
