//! Text: what is asked of the layout engine, where the laid-out run is put,
//! and how large it is reported to be.
//!
//! Laying text out needs fonts and is not done here. A call for text goes
//! through three steps. The request says what to lay out: the string, the
//! font size, and the family and style in the engine's terms. The placement
//! says how the laid-out run, whose box has its corner at the origin, is
//! moved to the target: centred on the origin, turned, shifted so that the
//! anchor lies on the origin, and shifted to the target. The measurement
//! rounds the extent of the run up to whole pixels and swaps the two sides
//! under a quarter turn.

use vstd::prelude::*;
use crate::color::BackendColor;
use crate::geometry::BackendCoord;
use crate::ieee::{ceil_to_u32, spec_ceil_to_u32};

verus! {

/// The font family a caller asks for.
#[derive(Clone, Copy, Debug, PartialEq, Eq)]
pub enum FontFamily<'a> {
    Serif,
    SansSerif,
    Monospace,
    /// A family by its name.
    Name(&'a str),
}

/// The font style a caller asks for. Bold is one of the four: it cannot be
/// combined with a slant.
#[derive(Clone, Copy, Debug, PartialEq, Eq)]
pub enum FontStyle {
    Normal,
    Oblique,
    Italic,
    Bold,
}

/// The rotation of a text, clockwise on a screen whose rows run downwards.
#[derive(Clone, Copy, Debug, PartialEq, Eq)]
pub enum FontTransform {
    Unrotated,
    Rotate90,
    Rotate180,
    Rotate270,
}

/// Where the anchor lies on the text's box, from left to right.
#[derive(Clone, Copy, Debug, PartialEq, Eq)]
pub enum HPos {
    Left,
    Right,
    Center,
}

/// Where the anchor lies on the text's box, from top to bottom.
#[derive(Clone, Copy, Debug, PartialEq, Eq)]
pub enum VPos {
    Top,
    Center,
    Bottom,
}

/// The anchor of a text: the point of its box that is put on the target.
#[derive(Clone, Copy, Debug, PartialEq, Eq)]
pub struct Pos {
    pub h_pos: HPos,
    pub v_pos: VPos,
}

/// Everything a caller says about how a text is drawn.
#[derive(Clone, Copy, Debug, PartialEq, Eq)]
pub struct TextStyle<'a> {
    pub color: BackendColor,
    /// The font size, as the bit pattern of a binary64 number.
    pub size: u64,
    pub transform: FontTransform,
    pub style: FontStyle,
    pub anchor: Pos,
    pub family: FontFamily<'a>,
}

/// The layout engine's generic families that this backend asks for.
#[derive(Clone, Copy, Debug, PartialEq, Eq)]
pub enum GenericFamily {
    UiSerif,
    UiSansSerif,
    UiMonospace,
}

/// The layout engine's font stack of a single family.
#[derive(Clone, Debug, PartialEq, Eq)]
pub enum FontStack {
    Generic(GenericFamily),
    Named(String),
}

/// The slant of a font in the layout engine.
#[derive(Clone, Copy, Debug, PartialEq, Eq)]
pub enum Slant {
    Normal,
    Italic,
    /// Oblique, at the font's own angle.
    Oblique,
}

/// The weight of a font in the layout engine, where one is asked for.
#[derive(Clone, Copy, Debug, PartialEq, Eq)]
pub enum Weight {
    Bold,
}

/// The one style property that is set on a run besides its font stack:
/// either a slant or a weight.
#[derive(Clone, Copy, Debug, PartialEq, Eq)]
pub enum StyleProperty {
    FontStyle(Slant),
    FontWeight(Weight),
}

/// What the layout engine is asked to lay out.
#[derive(Clone, Debug, PartialEq, Eq)]
pub struct LayoutRequest {
    pub text: String,
    /// The font size, as the bit pattern of a binary64 number.
    pub font_size: u64,
    pub font_stack: FontStack,
    pub property: StyleProperty,
}

/// The mathematical value of a [`FontStack`].
pub enum FontStackView {
    Generic(GenericFamily),
    Named(Seq<char>),
}

/// The mathematical value of a [`LayoutRequest`].
pub struct LayoutRequestView {
    pub text: Seq<char>,
    pub font_size: u64,
    pub font_stack: FontStackView,
    pub property: StyleProperty,
}

impl View for FontStack {
    type V = FontStackView;

    open spec fn view(&self) -> FontStackView {
        match self {
            FontStack::Generic(family) => FontStackView::Generic(*family),
            FontStack::Named(name) => FontStackView::Named(name@),
        }
    }
}

impl View for LayoutRequest {
    type V = LayoutRequestView;

    open spec fn view(&self) -> LayoutRequestView {
        LayoutRequestView {
            text: self.text@,
            font_size: self.font_size,
            font_stack: self.font_stack@,
            property: self.property,
        }
    }
}

/// The engine's font stack for a family: the three generic families go to
/// the engine's user-interface families, a name stays a name.
pub open spec fn spec_font_stack(family: FontFamily<'_>) -> FontStackView {
    match family {
        FontFamily::Serif => FontStackView::Generic(GenericFamily::UiSerif),
        FontFamily::SansSerif => FontStackView::Generic(GenericFamily::UiSansSerif),
        FontFamily::Monospace => FontStackView::Generic(GenericFamily::UiMonospace),
        FontFamily::Name(name) => FontStackView::Named(name@),
    }
}

/// The engine's style property for a style: normal, oblique and italic are
/// slants, bold is a weight.
pub open spec fn spec_style_property(style: FontStyle) -> StyleProperty {
    match style {
        FontStyle::Normal => StyleProperty::FontStyle(Slant::Normal),
        FontStyle::Oblique => StyleProperty::FontStyle(Slant::Oblique),
        FontStyle::Italic => StyleProperty::FontStyle(Slant::Italic),
        FontStyle::Bold => StyleProperty::FontWeight(Weight::Bold),
    }
}

/// The request for a string in a style.
pub open spec fn spec_layout_request(text: Seq<char>, style: TextStyle<'_>) -> LayoutRequestView {
    LayoutRequestView {
        text,
        font_size: style.size,
        font_stack: spec_font_stack(style.family),
        property: spec_style_property(style.style),
    }
}

/// Maps a family to the engine's font stack.
pub fn font_stack(family: FontFamily<'_>) -> (stack: FontStack)
    ensures
        stack@ == spec_font_stack(family),
{
    match family {
        FontFamily::Serif => FontStack::Generic(GenericFamily::UiSerif),
        FontFamily::SansSerif => FontStack::Generic(GenericFamily::UiSansSerif),
        FontFamily::Monospace => FontStack::Generic(GenericFamily::UiMonospace),
        FontFamily::Name(name) => FontStack::Named(name.to_owned()),
    }
}

/// Maps a style to the engine's style property.
pub fn style_property(style: FontStyle) -> (property: StyleProperty)
    ensures
        property == spec_style_property(style),
{
    match style {
        FontStyle::Normal => StyleProperty::FontStyle(Slant::Normal),
        FontStyle::Oblique => StyleProperty::FontStyle(Slant::Oblique),
        FontStyle::Italic => StyleProperty::FontStyle(Slant::Italic),
        FontStyle::Bold => StyleProperty::FontWeight(Weight::Bold),
    }
}

/// Builds the request for a string in a style.
pub fn layout_request(text: &str, style: &TextStyle<'_>) -> (request: LayoutRequest)
    ensures
        request@ == spec_layout_request(text@, *style),
{
    LayoutRequest {
        text: text.to_owned(),
        font_size: style.size,
        font_stack: font_stack(style.family),
        property: style_property(style.style),
    }
}

/// A turn about the origin by a multiple of a right angle, clockwise on a
/// screen whose rows run downwards.
#[derive(Clone, Copy, Debug, PartialEq, Eq)]
pub enum Turn {
    /// By 90 degrees.
    Quarter,
    /// By 180 degrees.
    Half,
    /// By 270 degrees, which is 90 degrees the other way.
    ThreeQuarters,
}

/// A side of the laid-out run's box.
#[derive(Clone, Copy, Debug, PartialEq, Eq)]
pub enum Side {
    Width,
    Height,
}

/// A shift by half a side of the laid-out run's box, forwards or backwards.
#[derive(Clone, Copy, Debug, PartialEq, Eq)]
pub struct HalfSide {
    pub side: Side,
    pub backwards: bool,
}

/// Where a laid-out run is put. The run's box has its corner at the origin;
/// it is first shifted back by half its width and half its height, then:
#[derive(Clone, Copy, Debug, PartialEq, Eq)]
pub struct TextPlacement {
    /// turned about the origin, if at all,
    pub rotation: Option<Turn>,
    /// shifted along the rows, if at all,
    pub anchor_dx: Option<HalfSide>,
    /// shifted along the columns, if at all,
    pub anchor_dy: Option<HalfSide>,
    /// and shifted by the target position.
    pub target: BackendCoord,
}

/// The turn of a rotation.
pub open spec fn spec_turn(transform: FontTransform) -> Option<Turn> {
    match transform {
        FontTransform::Unrotated => None,
        FontTransform::Rotate90 => Some(Turn::Quarter),
        FontTransform::Rotate180 => Some(Turn::Half),
        FontTransform::Rotate270 => Some(Turn::ThreeQuarters),
    }
}

/// Whether a rotation lays the run's width along the columns.
pub open spec fn swaps_sides(transform: FontTransform) -> bool {
    transform is Rotate90 || transform is Rotate270
}

/// The side of the run's box that lies along the rows after a rotation.
pub open spec fn side_along_rows(transform: FontTransform) -> Side {
    if swaps_sides(transform) {
        Side::Height
    } else {
        Side::Width
    }
}

/// The side of the run's box that lies along the columns after a rotation.
pub open spec fn side_along_columns(transform: FontTransform) -> Side {
    if swaps_sides(transform) {
        Side::Width
    } else {
        Side::Height
    }
}

/// The placement of a run: centred, turned, then shifted so that the anchor
/// comes to lie on the origin (a left or top anchor shifts forwards, a right
/// or bottom anchor backwards, a central one not at all), and last shifted
/// to the target.
pub open spec fn spec_place_text(
    transform: FontTransform,
    anchor: Pos,
    target: BackendCoord,
) -> TextPlacement {
    TextPlacement {
        rotation: spec_turn(transform),
        anchor_dx: match anchor.h_pos {
            HPos::Left => Some(HalfSide { side: side_along_rows(transform), backwards: false }),
            HPos::Center => None,
            HPos::Right => Some(HalfSide { side: side_along_rows(transform), backwards: true }),
        },
        anchor_dy: match anchor.v_pos {
            VPos::Top => Some(HalfSide { side: side_along_columns(transform), backwards: false }),
            VPos::Center => None,
            VPos::Bottom => Some(
                HalfSide { side: side_along_columns(transform), backwards: true },
            ),
        },
        target,
    }
}

/// Computes the placement of a run for a rotation, an anchor and a target.
pub fn place_text(transform: FontTransform, anchor: Pos, target: BackendCoord) -> (placement:
    TextPlacement)
    ensures
        placement == spec_place_text(transform, anchor, target),
{
    let (rotation, along_rows, along_columns) = match transform {
        FontTransform::Unrotated => (None, Side::Width, Side::Height),
        FontTransform::Rotate90 => (Some(Turn::Quarter), Side::Height, Side::Width),
        FontTransform::Rotate180 => (Some(Turn::Half), Side::Width, Side::Height),
        FontTransform::Rotate270 => (Some(Turn::ThreeQuarters), Side::Height, Side::Width),
    };
    let anchor_dx = match anchor.h_pos {
        HPos::Left => Some(HalfSide { side: along_rows, backwards: false }),
        HPos::Center => None,
        HPos::Right => Some(HalfSide { side: along_rows, backwards: true }),
    };
    let anchor_dy = match anchor.v_pos {
        VPos::Top => Some(HalfSide { side: along_columns, backwards: false }),
        VPos::Center => None,
        VPos::Bottom => Some(HalfSide { side: along_columns, backwards: true }),
    };
    TextPlacement { rotation, anchor_dx, anchor_dy, target }
}

/// A point turned about the origin.
pub open spec fn turned(rotation: Option<Turn>, p: (int, int)) -> (int, int) {
    match rotation {
        None => p,
        Some(Turn::Quarter) => (-p.1, p.0),
        Some(Turn::Half) => (-p.0, -p.1),
        Some(Turn::ThreeQuarters) => (p.1, -p.0),
    }
}

/// The length of a shift, for a run whose box is `2 * half_width` wide and
/// `2 * half_height` high.
pub open spec fn shift_length(shift: Option<HalfSide>, half_width: int, half_height: int) -> int {
    match shift {
        None => 0,
        Some(HalfSide { side: Side::Width, backwards: false }) => half_width,
        Some(HalfSide { side: Side::Width, backwards: true }) => -half_width,
        Some(HalfSide { side: Side::Height, backwards: false }) => half_height,
        Some(HalfSide { side: Side::Height, backwards: true }) => -half_height,
    }
}

/// Where a placement puts the point `p` of a run whose box is
/// `2 * half_width` wide and `2 * half_height` high. All lengths are counted
/// in one unit, of which `unit` make a pixel, so that half a side can be a
/// whole number whatever the box.
pub open spec fn placed(
    placement: TextPlacement,
    half_width: int,
    half_height: int,
    unit: int,
    p: (int, int),
) -> (int, int) {
    let centred = (p.0 - half_width, p.1 - half_height);
    let turned = turned(placement.rotation, centred);
    (
        turned.0 + shift_length(placement.anchor_dx, half_width, half_height) + placement.target.0
            * unit,
        turned.1 + shift_length(placement.anchor_dy, half_width, half_height) + placement.target.1
            * unit,
    )
}

/// Half the extent along the rows of a box that was turned.
pub open spec fn half_extent_along_rows(
    transform: FontTransform,
    half_width: int,
    half_height: int,
) -> int {
    if swaps_sides(transform) {
        half_height
    } else {
        half_width
    }
}

/// Half the extent along the columns of a box that was turned.
pub open spec fn half_extent_along_columns(
    transform: FontTransform,
    half_width: int,
    half_height: int,
) -> int {
    if swaps_sides(transform) {
        half_width
    } else {
        half_height
    }
}

/// How far the anchor lies from the left edge of the placed box, in halves
/// of the box's extent along the rows.
pub open spec fn anchor_steps_from_left(h_pos: HPos) -> int {
    match h_pos {
        HPos::Left => 0,
        HPos::Center => 1,
        HPos::Right => 2,
    }
}

/// How far the anchor lies from the top edge of the placed box, in halves
/// of the box's extent along the columns.
pub open spec fn anchor_steps_from_top(v_pos: VPos) -> int {
    match v_pos {
        VPos::Top => 0,
        VPos::Center => 1,
        VPos::Bottom => 2,
    }
}

/// The placed box lies where the anchor says. A run's box reaches from the
/// origin to `(2 * half_width, 2 * half_height)`. Once placed it is a box of
/// the turned extents whose left edge lies as many half extents left of the
/// target as the anchor lies right of the left edge, and likewise for its
/// top edge: every point of the run's box is put inside it, the four corners
/// are put on its four corners, and the centre on its centre.
pub proof fn lemma_anchor_lands_on_target(
    transform: FontTransform,
    anchor: Pos,
    target: BackendCoord,
    half_width: int,
    half_height: int,
    unit: int,
)
    requires
        half_width >= 0,
        half_height >= 0,
    ensures
        ({
            let placement = spec_place_text(transform, anchor, target);
            let w = half_extent_along_rows(transform, half_width, half_height);
            let h = half_extent_along_columns(transform, half_width, half_height);
            let left = target.0 * unit - anchor_steps_from_left(anchor.h_pos) * w;
            let top = target.1 * unit - anchor_steps_from_top(anchor.v_pos) * h;
            &&& forall|p: (int, int)|
                0 <= p.0 <= 2 * half_width && 0 <= p.1 <= 2 * half_height ==> {
                    let q = #[trigger] placed(placement, half_width, half_height, unit, p);
                    left <= q.0 <= left + 2 * w && top <= q.1 <= top + 2 * h
                }
            &&& forall|p: (int, int)|
                (p.0 == 0 || p.0 == 2 * half_width) && (p.1 == 0 || p.1 == 2 * half_height) ==> {
                    let q = #[trigger] placed(placement, half_width, half_height, unit, p);
                    (q.0 == left || q.0 == left + 2 * w) && (q.1 == top || q.1 == top + 2 * h)
                }
            &&& placed(placement, half_width, half_height, unit, (half_width, half_height)) == (
                left + w,
                top + h,
            )
        }),
{
}

/// The extent of a laid-out run, each side as the bit pattern of a binary32
/// number.
#[derive(Clone, Copy, Debug, PartialEq, Eq)]
pub struct LayoutExtent {
    /// The width, trailing white space included.
    pub full_width: u32,
    pub height: u32,
}

/// The size reported for a run: each side rounded up to a whole number of
/// pixels, and the two swapped where the rotation is a quarter turn either
/// way.
pub open spec fn spec_measured_size(extent: LayoutExtent, transform: FontTransform) -> (u32, u32) {
    let width = spec_ceil_to_u32(extent.full_width);
    let height = spec_ceil_to_u32(extent.height);
    if swaps_sides(transform) {
        (height, width)
    } else {
        (width, height)
    }
}

/// Computes the size reported for a run of the given extent.
pub fn measured_size(extent: LayoutExtent, transform: FontTransform) -> (size: (u32, u32))
    ensures
        size == spec_measured_size(extent, transform),
{
    let width = ceil_to_u32(extent.full_width);
    let height = ceil_to_u32(extent.height);
    match transform {
        FontTransform::Unrotated | FontTransform::Rotate180 => (width, height),
        FontTransform::Rotate90 | FontTransform::Rotate270 => (height, width),
    }
}

/// A quarter turn either way swaps the two sides of the reported size. The
/// request for a string does not depend on the rotation of its style, so a
/// turned text and the same text without rotation are laid out alike; for
/// the extent the layout gives, the width reported for the turned text is
/// the height reported for the other, and its height is that width.
pub proof fn lemma_quarter_turn_swaps_measure(
    text: Seq<char>,
    style: TextStyle<'_>,
    extent: LayoutExtent,
)
    requires
        style.transform is Rotate90 || style.transform is Rotate270,
    ensures
        ({
            let upright = TextStyle { transform: FontTransform::Unrotated, ..style };
            let turned_size = spec_measured_size(extent, style.transform);
            let upright_size = spec_measured_size(extent, upright.transform);
            &&& spec_layout_request(text, style) == spec_layout_request(text, upright)
            &&& turned_size.0 == upright_size.1
            &&& turned_size.1 == upright_size.0
        }),
{
}

/// A half turn leaves the reported size as it is without rotation.
pub proof fn lemma_half_turn_keeps_measure(extent: LayoutExtent)
    ensures
        spec_measured_size(extent, FontTransform::Rotate180) == spec_measured_size(
            extent,
            FontTransform::Unrotated,
        ),
{
}

} // verus!
