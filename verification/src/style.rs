//! The style value model: dimensions, colors, the fully-populated computed
//! style record, single style declarations, and how a declaration overwrites
//! the current computed style (shorthand margins and paddings replace the
//! whole four-sided unit, single-side declarations patch the current unit).

use vstd::prelude::*;

verus! {

/// An RGBA color with 8-bit channels.
#[derive(Clone, Copy, Debug, PartialEq, Eq, Structural)]
pub struct Color {
    pub r: u8,
    pub g: u8,
    pub b: u8,
    pub a: u8,
}

/// A resolved length: automatic, pixels, or a percentage of the parent,
/// viewport width or viewport height (whole units).
#[derive(Clone, Copy, Debug, PartialEq, Eq, Structural)]
pub enum Dim {
    Auto,
    Px(i64),
    Percent(i64),
    Vw(i64),
    Vh(i64),
}

/// A four-sided box measure (margins, paddings).
#[derive(Clone, Copy, Debug, PartialEq, Eq, Structural)]
pub struct Rect4 {
    pub top: Dim,
    pub right: Dim,
    pub bottom: Dim,
    pub left: Dim,
}

impl Rect4 {
    /// All four sides set to the same dimension.
    pub fn all(d: Dim) -> (r: Rect4)
        ensures
            r == (Rect4 { top: d, right: d, bottom: d, left: d }),
    {
        Rect4 { top: d, right: d, bottom: d, left: d }
    }
}

#[derive(Clone, Copy, Debug, PartialEq, Eq, Structural)]
pub enum FlexDirection {
    Row,
    Column,
    RowReverse,
    ColumnReverse,
}

#[derive(Clone, Copy, Debug, PartialEq, Eq, Structural)]
pub enum FlexWrap {
    NoWrap,
    Wrap,
    WrapReverse,
}

/// The closed display taxonomy of the style model.
#[derive(Clone, Copy, Debug, PartialEq, Eq, Structural)]
pub enum DisplayKind {
    Block,
    Inline,
    Flex,
    ListItem,
}

#[derive(Clone, Copy, Debug, PartialEq, Eq, Structural)]
pub enum JustifyContent {
    Normal,
    SpaceBetween,
    SpaceAround,
    SpaceEvenly,
    Stretch,
    Center,
    Start,
    End,
    FlexStart,
    FlexEnd,
}

#[derive(Clone, Copy, Debug, PartialEq, Eq, Structural)]
pub enum AlignContent {
    Normal,
    SpaceBetween,
    SpaceAround,
    SpaceEvenly,
    Stretch,
    Center,
    Start,
    End,
    FlexStart,
    FlexEnd,
}

/// A fully-populated style record: every field has a value. A node's
/// computed style starts from `system_default`, inherits the inheritable
/// fields from its parent, and is then overwritten by matching rules.
#[derive(Clone, Copy, Debug, PartialEq, Eq, Structural)]
pub struct ComputedStyle {
    pub color: Color,
    pub background_color: Color,
    pub font_weight: u32,
    pub font_size: u32,
    pub width: Dim,
    pub height: Dim,
    pub flex_direction: FlexDirection,
    pub flex_wrap: FlexWrap,
    pub margin: Rect4,
    pub padding: Rect4,
    pub display: DisplayKind,
    pub justify_content: JustifyContent,
    pub align_content: AlignContent,
}

/// The system default style: the baked-in value every field falls back to
/// before the cascade runs.
pub open spec fn spec_system_default() -> ComputedStyle {
    ComputedStyle {
        color: Color { r: 0, g: 0, b: 0, a: 255 },
        background_color: Color { r: 0, g: 0, b: 0, a: 0 },
        font_weight: 400,
        font_size: 16,
        width: Dim::Auto,
        height: Dim::Auto,
        flex_direction: FlexDirection::Row,
        flex_wrap: FlexWrap::NoWrap,
        margin: Rect4 { top: Dim::Px(0), right: Dim::Px(0), bottom: Dim::Px(0), left: Dim::Px(0) },
        padding: Rect4 { top: Dim::Px(0), right: Dim::Px(0), bottom: Dim::Px(0), left: Dim::Px(0) },
        display: DisplayKind::Block,
        justify_content: JustifyContent::Normal,
        align_content: AlignContent::Normal,
    }
}

impl ComputedStyle {
    /// The executable system default style.
    pub fn system_default() -> (r: ComputedStyle)
        ensures
            r == spec_system_default(),
    {
        ComputedStyle {
            color: Color { r: 0, g: 0, b: 0, a: 255 },
            background_color: Color { r: 0, g: 0, b: 0, a: 0 },
            font_weight: 400,
            font_size: 16,
            width: Dim::Auto,
            height: Dim::Auto,
            flex_direction: FlexDirection::Row,
            flex_wrap: FlexWrap::NoWrap,
            margin: Rect4::all(Dim::Px(0)),
            padding: Rect4::all(Dim::Px(0)),
            display: DisplayKind::Block,
            justify_content: JustifyContent::Normal,
            align_content: AlignContent::Normal,
        }
    }
}

/// One style declaration, as a stylesheet rule carries it: a property
/// together with its value. Shorthand margin and padding replace the whole
/// four-sided unit; the single-side forms patch one side of the current unit.
#[derive(Clone, Copy, Debug, PartialEq, Eq, Structural)]
pub enum Declaration {
    TextColor(Color),
    BackgroundColor(Color),
    FontWeight(u32),
    FontSize(u32),
    Width(Dim),
    Height(Dim),
    FlexDir(FlexDirection),
    Wrap(FlexWrap),
    Margin(Rect4),
    MarginTop(Dim),
    MarginRight(Dim),
    MarginBottom(Dim),
    MarginLeft(Dim),
    Padding(Rect4),
    PaddingTop(Dim),
    PaddingRight(Dim),
    PaddingBottom(Dim),
    PaddingLeft(Dim),
    Display(DisplayKind),
    Justify(JustifyContent),
    Align(AlignContent),
}

/// The computed style after one declaration overwrites the current one.
/// Single-side margin and padding declarations read-modify-write the
/// current four-sided unit, so declaration order matters.
pub open spec fn spec_apply_decl(s: ComputedStyle, d: Declaration) -> ComputedStyle {
    match d {
        Declaration::TextColor(c) => ComputedStyle { color: c, ..s },
        Declaration::BackgroundColor(c) => ComputedStyle { background_color: c, ..s },
        Declaration::FontWeight(w) => ComputedStyle { font_weight: w, ..s },
        Declaration::FontSize(z) => ComputedStyle { font_size: z, ..s },
        Declaration::Width(v) => ComputedStyle { width: v, ..s },
        Declaration::Height(v) => ComputedStyle { height: v, ..s },
        Declaration::FlexDir(f) => ComputedStyle { flex_direction: f, ..s },
        Declaration::Wrap(w) => ComputedStyle { flex_wrap: w, ..s },
        Declaration::Margin(m) => ComputedStyle { margin: m, ..s },
        Declaration::MarginTop(v) => ComputedStyle { margin: Rect4 { top: v, ..s.margin }, ..s },
        Declaration::MarginRight(v) => ComputedStyle {
            margin: Rect4 { right: v, ..s.margin },
            ..s
        },
        Declaration::MarginBottom(v) => ComputedStyle {
            margin: Rect4 { bottom: v, ..s.margin },
            ..s
        },
        Declaration::MarginLeft(v) => ComputedStyle { margin: Rect4 { left: v, ..s.margin }, ..s },
        Declaration::Padding(p) => ComputedStyle { padding: p, ..s },
        Declaration::PaddingTop(v) => ComputedStyle {
            padding: Rect4 { top: v, ..s.padding },
            ..s
        },
        Declaration::PaddingRight(v) => ComputedStyle {
            padding: Rect4 { right: v, ..s.padding },
            ..s
        },
        Declaration::PaddingBottom(v) => ComputedStyle {
            padding: Rect4 { bottom: v, ..s.padding },
            ..s
        },
        Declaration::PaddingLeft(v) => ComputedStyle {
            padding: Rect4 { left: v, ..s.padding },
            ..s
        },
        Declaration::Display(k) => ComputedStyle { display: k, ..s },
        Declaration::Justify(j) => ComputedStyle { justify_content: j, ..s },
        Declaration::Align(a) => ComputedStyle { align_content: a, ..s },
    }
}

/// The computed style after a whole declaration list is applied, first
/// declaration first.
pub open spec fn spec_apply_decls(s: ComputedStyle, ds: Seq<Declaration>) -> ComputedStyle
    decreases ds.len(),
{
    if ds.len() == 0 {
        s
    } else {
        spec_apply_decl(spec_apply_decls(s, ds.drop_last()), ds.last())
    }
}

/// Overwrite the current computed style with one declaration.
pub fn apply_decl(s: &mut ComputedStyle, d: &Declaration)
    ensures
        *final(s) == spec_apply_decl(*old(s), *d),
{
    match d {
        Declaration::TextColor(c) => { s.color = *c; },
        Declaration::BackgroundColor(c) => { s.background_color = *c; },
        Declaration::FontWeight(w) => { s.font_weight = *w; },
        Declaration::FontSize(z) => { s.font_size = *z; },
        Declaration::Width(v) => { s.width = *v; },
        Declaration::Height(v) => { s.height = *v; },
        Declaration::FlexDir(f) => { s.flex_direction = *f; },
        Declaration::Wrap(w) => { s.flex_wrap = *w; },
        Declaration::Margin(m) => { s.margin = *m; },
        Declaration::MarginTop(v) => { s.margin.top = *v; },
        Declaration::MarginRight(v) => { s.margin.right = *v; },
        Declaration::MarginBottom(v) => { s.margin.bottom = *v; },
        Declaration::MarginLeft(v) => { s.margin.left = *v; },
        Declaration::Padding(p) => { s.padding = *p; },
        Declaration::PaddingTop(v) => { s.padding.top = *v; },
        Declaration::PaddingRight(v) => { s.padding.right = *v; },
        Declaration::PaddingBottom(v) => { s.padding.bottom = *v; },
        Declaration::PaddingLeft(v) => { s.padding.left = *v; },
        Declaration::Display(k) => { s.display = *k; },
        Declaration::Justify(j) => { s.justify_content = *j; },
        Declaration::Align(a) => { s.align_content = *a; },
    }
}

/// Overwrite the current computed style with a declaration list, in order.
pub fn apply_decls(s: &mut ComputedStyle, ds: &Vec<Declaration>)
    ensures
        *final(s) == spec_apply_decls(*old(s), ds@),
{
    let mut i: usize = 0;
    while i < ds.len()
        invariant
            i <= ds.len(),
            *s == spec_apply_decls(*old(s), ds@.take(i as int)),
        decreases ds.len() - i,
    {
        apply_decl(s, &ds[i]);
        proof {
            assert(ds@.take(i + 1 as int).drop_last() =~= ds@.take(i as int));
            assert(ds@.take(i + 1 as int).last() == ds@[i as int]);
        }
        i = i + 1;
    }
    proof {
        assert(ds@.take(ds@.len() as int) =~= ds@);
    }
}

} // verus!
