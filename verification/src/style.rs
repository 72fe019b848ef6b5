//! A fluent builder for widget styles, over plain values.
//!
//! The builder records which style attributes a widget sets; the host
//! engine translates the recorded attributes into its own layout and
//! rendering types and leaves unset attributes at its defaults.  The
//! parameter traits let call sites pass lengths, colors, z-indices and
//! edge rectangles in several convenient forms, each conversion pinned by
//! its contract.  The widget style functions at the end record the exact
//! attribute sets of the dialog and swatch widgets.

use crate::colors::{Color, COLOR_ONE};
use vstd::prelude::*;
use vstd::string::StringSliceAdditionalSpecFns;

verus! {

/// A CSS-style length.  Pixel and percent payloads are whole units.
#[derive(Clone, Copy, Debug, PartialEq, Eq, Structural)]
pub enum Val {
    /// Let the layout engine choose.
    Auto,
    /// A length in logical pixels.
    Px(i32),
    /// A percentage of the parent's size.
    Percent(i32),
}

/// How an element is positioned.
#[derive(Clone, Copy, Debug, PartialEq, Eq, Structural)]
pub enum PositionType {
    Relative,
    Absolute,
}

/// Which layout an element uses for its children.
#[derive(Clone, Copy, Debug, PartialEq, Eq, Structural)]
pub enum DisplayMode {
    Flex,
    Grid,
    Hidden,
}

/// The main axis direction of a flex container.
#[derive(Clone, Copy, Debug, PartialEq, Eq, Structural)]
pub enum FlexDirection {
    Row,
    Column,
    RowReverse,
    ColumnReverse,
}

/// How children are distributed along the main axis.
#[derive(Clone, Copy, Debug, PartialEq, Eq, Structural)]
pub enum JustifyContent {
    FlexStart,
    FlexEnd,
    Center,
    Stretch,
    SpaceBetween,
    SpaceAround,
    SpaceEvenly,
}

/// How children are aligned on the cross axis.
#[derive(Clone, Copy, Debug, PartialEq, Eq, Structural)]
pub enum AlignItems {
    FlexStart,
    FlexEnd,
    Center,
    Stretch,
    Baseline,
}

/// A z-ordering index, local to the parent or global to the scene.
#[derive(Clone, Copy, Debug, PartialEq, Eq, Structural)]
pub enum ZIndex {
    Local(i32),
    Global(i32),
}

/// Edge widths: margins, padding, borders.
#[derive(Clone, Copy, Debug, PartialEq, Eq, Structural)]
pub struct UiRect {
    pub left: Val,
    pub right: Val,
    pub top: Val,
    pub bottom: Val,
}

impl UiRect {
    /// The same length on all four edges.
    pub fn all(v: Val) -> (r: UiRect)
        ensures
            r == (UiRect { left: v, right: v, top: v, bottom: v }),
    {
        UiRect { left: v, right: v, top: v, bottom: v }
    }

    /// One length for both horizontal edges, another for both vertical
    /// edges.
    pub fn axes(horizontal: Val, vertical: Val) -> (r: UiRect)
        ensures
            r == (UiRect {
                left: horizontal,
                right: horizontal,
                top: vertical,
                bottom: vertical,
            }),
    {
        UiRect { left: horizontal, right: horizontal, top: vertical, bottom: vertical }
    }

    /// All four edges at zero pixels.
    pub fn zero() -> (r: UiRect)
        ensures
            r == (UiRect { left: Val::Px(0), right: Val::Px(0), top: Val::Px(0), bottom: Val::Px(0) }),
    {
        UiRect { left: Val::Px(0), right: Val::Px(0), top: Val::Px(0), bottom: Val::Px(0) }
    }
}

/// A value usable as a CSS length.
pub trait LengthParam: Sized {
    /// The length this value stands for.
    spec fn to_val_spec(self) -> Val;

    /// Convert to a length.
    fn to_val(self) -> (r: Val)
        ensures
            r == self.to_val_spec(),
    ;
}

impl LengthParam for Val {
    open spec fn to_val_spec(self) -> Val {
        self
    }

    fn to_val(self) -> (r: Val) {
        self
    }
}

impl LengthParam for i32 {
    open spec fn to_val_spec(self) -> Val {
        Val::Px(self)
    }

    fn to_val(self) -> (r: Val) {
        Val::Px(self)
    }
}

/// A value usable as a CSS color.
pub trait ColorParam: Sized {
    /// Whether this value denotes a color at all; a hex literal, for
    /// example, must be well formed.
    spec fn color_ok(self) -> bool;

    /// The color this value stands for, if any.
    spec fn to_color_spec(self) -> Option<Color>;

    /// Convert to an optional color.
    fn to_color(self) -> (r: Option<Color>)
        requires
            self.color_ok(),
        ensures
            r == self.to_color_spec(),
    ;
}

impl ColorParam for Color {
    open spec fn color_ok(self) -> bool {
        true
    }

    open spec fn to_color_spec(self) -> Option<Color> {
        Option::Some(self)
    }

    fn to_color(self) -> (r: Option<Color>) {
        Option::Some(self)
    }
}

impl ColorParam for Option<Color> {
    open spec fn color_ok(self) -> bool {
        true
    }

    open spec fn to_color_spec(self) -> Option<Color> {
        self
    }

    fn to_color(self) -> (r: Option<Color>) {
        self
    }
}

impl ColorParam for &str {
    open spec fn color_ok(self) -> bool {
        crate::colors::hex_valid(self.spec_bytes())
    }

    open spec fn to_color_spec(self) -> Option<Color> {
        Option::Some(crate::colors::hex_color_spec(self.spec_bytes()))
    }

    fn to_color(self) -> (r: Option<Color>) {
        match crate::colors::parse_hex_color(self) {
            Option::Some(c) => Option::Some(c),
            Option::None => vstd::pervasive::unreached(),
        }
    }
}

/// A value usable as a z-index.
pub trait ZIndexParam: Sized {
    /// The z-index this value stands for.
    spec fn to_zindex_spec(self) -> ZIndex;

    /// Convert to a z-index.
    fn to_zindex(self) -> (r: ZIndex)
        ensures
            r == self.to_zindex_spec(),
    ;
}

impl ZIndexParam for ZIndex {
    open spec fn to_zindex_spec(self) -> ZIndex {
        self
    }

    fn to_zindex(self) -> (r: ZIndex) {
        self
    }
}

impl ZIndexParam for i32 {
    open spec fn to_zindex_spec(self) -> ZIndex {
        ZIndex::Local(self)
    }

    fn to_zindex(self) -> (r: ZIndex) {
        ZIndex::Local(self)
    }
}

/// A value usable as a set of edge widths.
pub trait UiRectParam: Sized {
    /// The edge rectangle this value stands for.
    spec fn to_uirect_spec(self) -> UiRect;

    /// Convert to an edge rectangle.
    fn to_uirect(self) -> (r: UiRect)
        ensures
            r == self.to_uirect_spec(),
    ;
}

impl UiRectParam for UiRect {
    open spec fn to_uirect_spec(self) -> UiRect {
        self
    }

    fn to_uirect(self) -> (r: UiRect) {
        self
    }
}

impl UiRectParam for Val {
    open spec fn to_uirect_spec(self) -> UiRect {
        UiRect { left: self, right: self, top: self, bottom: self }
    }

    fn to_uirect(self) -> (r: UiRect) {
        UiRect::all(self)
    }
}

impl UiRectParam for i32 {
    open spec fn to_uirect_spec(self) -> UiRect {
        UiRect { left: Val::Px(self), right: Val::Px(self), top: Val::Px(self), bottom: Val::Px(self) }
    }

    fn to_uirect(self) -> (r: UiRect) {
        UiRect::all(Val::Px(self))
    }
}

impl<H: LengthParam, V: LengthParam> UiRectParam for (H, V) {
    open spec fn to_uirect_spec(self) -> UiRect {
        UiRect {
            left: self.0.to_val_spec(),
            right: self.0.to_val_spec(),
            top: self.1.to_val_spec(),
            bottom: self.1.to_val_spec(),
        }
    }

    fn to_uirect(self) -> (r: UiRect) {
        UiRect::axes(self.0.to_val(), self.1.to_val())
    }
}

/// The style attributes a widget has set; `None` means the attribute was
/// left at the host engine's default.
#[derive(Clone, Copy, Debug, PartialEq, Eq, Structural)]
pub struct StyleBuilder {
    pub position: Option<PositionType>,
    pub display: Option<DisplayMode>,
    pub flex_direction: Option<FlexDirection>,
    pub justify_content: Option<JustifyContent>,
    pub align_items: Option<AlignItems>,
    pub left: Option<Val>,
    pub right: Option<Val>,
    pub top: Option<Val>,
    pub bottom: Option<Val>,
    pub width: Option<Val>,
    pub min_height: Option<Val>,
    pub z_index: Option<ZIndex>,
    pub background_color: Option<Color>,
    pub border_color: Option<Color>,
    pub color: Option<Color>,
    pub font_size: Option<i32>,
    pub border: Option<UiRect>,
    pub padding: Option<UiRect>,
    pub column_gap: Option<Val>,
}

impl StyleBuilder {
    /// A builder with every attribute at the host's default.
    pub fn new() -> (r: StyleBuilder)
        ensures
            r == StyleBuilder::empty_spec(),
    {
        StyleBuilder {
            position: Option::None,
            display: Option::None,
            flex_direction: Option::None,
            justify_content: Option::None,
            align_items: Option::None,
            left: Option::None,
            right: Option::None,
            top: Option::None,
            bottom: Option::None,
            width: Option::None,
            min_height: Option::None,
            z_index: Option::None,
            background_color: Option::None,
            border_color: Option::None,
            color: Option::None,
            font_size: Option::None,
            border: Option::None,
            padding: Option::None,
            column_gap: Option::None,
        }
    }

    /// The builder with every attribute unset.
    pub open spec fn empty_spec() -> StyleBuilder {
        StyleBuilder {
            position: Option::None,
            display: Option::None,
            flex_direction: Option::None,
            justify_content: Option::None,
            align_items: Option::None,
            left: Option::None,
            right: Option::None,
            top: Option::None,
            bottom: Option::None,
            width: Option::None,
            min_height: Option::None,
            z_index: Option::None,
            background_color: Option::None,
            border_color: Option::None,
            color: Option::None,
            font_size: Option::None,
            border: Option::None,
            padding: Option::None,
            column_gap: Option::None,
        }
    }

    /// The border rectangle to edit: the one already set, or all zero.
    pub open spec fn border_base_spec(self) -> UiRect {
        match self.border {
            Option::Some(b) => b,
            Option::None => UiRect {
                left: Val::Px(0),
                right: Val::Px(0),
                top: Val::Px(0),
                bottom: Val::Px(0),
            },
        }
    }

    pub fn position(&mut self, value: PositionType)
        ensures
            *final(self) == (StyleBuilder { position: Option::Some(value), ..*old(self) }),
    {
        self.position = Option::Some(value);
    }

    pub fn display(&mut self, value: DisplayMode)
        ensures
            *final(self) == (StyleBuilder { display: Option::Some(value), ..*old(self) }),
    {
        self.display = Option::Some(value);
    }

    pub fn flex_direction(&mut self, value: FlexDirection)
        ensures
            *final(self) == (StyleBuilder { flex_direction: Option::Some(value), ..*old(self) }),
    {
        self.flex_direction = Option::Some(value);
    }

    pub fn justify_content(&mut self, value: JustifyContent)
        ensures
            *final(self) == (StyleBuilder { justify_content: Option::Some(value), ..*old(self) }),
    {
        self.justify_content = Option::Some(value);
    }

    pub fn align_items(&mut self, value: AlignItems)
        ensures
            *final(self) == (StyleBuilder { align_items: Option::Some(value), ..*old(self) }),
    {
        self.align_items = Option::Some(value);
    }

    pub fn left<L: LengthParam>(&mut self, length: L)
        ensures
            *final(self) == (StyleBuilder {
                left: Option::Some(length.to_val_spec()),
                ..*old(self)
            }),
    {
        self.left = Option::Some(length.to_val());
    }

    pub fn right<L: LengthParam>(&mut self, length: L)
        ensures
            *final(self) == (StyleBuilder {
                right: Option::Some(length.to_val_spec()),
                ..*old(self)
            }),
    {
        self.right = Option::Some(length.to_val());
    }

    pub fn top<L: LengthParam>(&mut self, length: L)
        ensures
            *final(self) == (StyleBuilder {
                top: Option::Some(length.to_val_spec()),
                ..*old(self)
            }),
    {
        self.top = Option::Some(length.to_val());
    }

    pub fn bottom<L: LengthParam>(&mut self, length: L)
        ensures
            *final(self) == (StyleBuilder {
                bottom: Option::Some(length.to_val_spec()),
                ..*old(self)
            }),
    {
        self.bottom = Option::Some(length.to_val());
    }

    pub fn width<L: LengthParam>(&mut self, length: L)
        ensures
            *final(self) == (StyleBuilder {
                width: Option::Some(length.to_val_spec()),
                ..*old(self)
            }),
    {
        self.width = Option::Some(length.to_val());
    }

    pub fn min_height<L: LengthParam>(&mut self, length: L)
        ensures
            *final(self) == (StyleBuilder {
                min_height: Option::Some(length.to_val_spec()),
                ..*old(self)
            }),
    {
        self.min_height = Option::Some(length.to_val());
    }

    pub fn z_index<Z: ZIndexParam>(&mut self, index: Z)
        ensures
            *final(self) == (StyleBuilder {
                z_index: Option::Some(index.to_zindex_spec()),
                ..*old(self)
            }),
    {
        self.z_index = Option::Some(index.to_zindex());
    }

    pub fn background_color<C: ColorParam>(&mut self, c: C)
        requires
            c.color_ok(),
        ensures
            *final(self) == (StyleBuilder { background_color: c.to_color_spec(), ..*old(self) }),
    {
        self.background_color = c.to_color();
    }

    pub fn border_color<C: ColorParam>(&mut self, c: C)
        requires
            c.color_ok(),
        ensures
            *final(self) == (StyleBuilder { border_color: c.to_color_spec(), ..*old(self) }),
    {
        self.border_color = c.to_color();
    }

    pub fn color<C: ColorParam>(&mut self, c: C)
        requires
            c.color_ok(),
        ensures
            *final(self) == (StyleBuilder { color: c.to_color_spec(), ..*old(self) }),
    {
        self.color = c.to_color();
    }

    pub fn font_size(&mut self, size: i32)
        ensures
            *final(self) == (StyleBuilder { font_size: Option::Some(size), ..*old(self) }),
    {
        self.font_size = Option::Some(size);
    }

    pub fn border<R: UiRectParam>(&mut self, rect: R)
        ensures
            *final(self) == (StyleBuilder {
                border: Option::Some(rect.to_uirect_spec()),
                ..*old(self)
            }),
    {
        self.border = Option::Some(rect.to_uirect());
    }

    pub fn border_top<L: LengthParam>(&mut self, length: L)
        ensures
            *final(self) == (StyleBuilder {
                border: Option::Some(UiRect {
                    top: length.to_val_spec(),
                    ..old(self).border_base_spec()
                }),
                ..*old(self)
            }),
    {
        let base = match self.border {
            Option::Some(b) => b,
            Option::None => UiRect::zero(),
        };
        self.border = Option::Some(UiRect { top: length.to_val(), ..base });
    }

    pub fn border_bottom<L: LengthParam>(&mut self, length: L)
        ensures
            *final(self) == (StyleBuilder {
                border: Option::Some(UiRect {
                    bottom: length.to_val_spec(),
                    ..old(self).border_base_spec()
                }),
                ..*old(self)
            }),
    {
        let base = match self.border {
            Option::Some(b) => b,
            Option::None => UiRect::zero(),
        };
        self.border = Option::Some(UiRect { bottom: length.to_val(), ..base });
    }

    pub fn padding<R: UiRectParam>(&mut self, rect: R)
        ensures
            *final(self) == (StyleBuilder {
                padding: Option::Some(rect.to_uirect_spec()),
                ..*old(self)
            }),
    {
        self.padding = Option::Some(rect.to_uirect());
    }

    pub fn column_gap<L: LengthParam>(&mut self, length: L)
        ensures
            *final(self) == (StyleBuilder {
                column_gap: Option::Some(length.to_val_spec()),
                ..*old(self)
            }),
    {
        self.column_gap = Option::Some(length.to_val());
    }
}

/// Style of the dialog's backdrop overlay: an absolutely positioned,
/// centered flex container covering the whole viewport, above everything,
/// with the background color fully transparent — the enter animation fades
/// it in.
pub fn style_dialog_overlay(ss: &mut StyleBuilder)
    ensures
        *final(ss) == (StyleBuilder {
            position: Option::Some(PositionType::Absolute),
            display: Option::Some(DisplayMode::Flex),
            justify_content: Option::Some(JustifyContent::Center),
            align_items: Option::Some(AlignItems::Center),
            left: Option::Some(Val::Px(0)),
            top: Option::Some(Val::Px(0)),
            right: Option::Some(Val::Px(0)),
            bottom: Option::Some(Val::Px(0)),
            z_index: Option::Some(ZIndex::Local(100)),
            background_color: Option::Some(
                Color { red: 118_000, green: 118_000, blue: 133_000, alpha: 0 },
            ),
            ..*old(ss)
        }),
{
    ss.position(PositionType::Absolute);
    ss.display(DisplayMode::Flex);
    ss.justify_content(JustifyContent::Center);
    ss.align_items(AlignItems::Center);
    ss.left(0);
    ss.top(0);
    ss.right(0);
    ss.bottom(0);
    ss.z_index(100);
    ss.background_color(crate::colors::background().with_alpha(0));
}

/// Style of the dialog frame: a relative column flex container of standard
/// width, on the panel background, with a visible border.
pub fn style_dialog(ss: &mut StyleBuilder)
    ensures
        *final(ss) == (StyleBuilder {
            background_color: Option::Some(
                Color { red: 118_000, green: 118_000, blue: 133_000, alpha: COLOR_ONE },
            ),
            position: Option::Some(PositionType::Relative),
            display: Option::Some(DisplayMode::Flex),
            flex_direction: Option::Some(FlexDirection::Column),
            justify_content: Option::Some(JustifyContent::Center),
            align_items: Option::Some(AlignItems::Stretch),
            border_color: Option::Some(
                Color { red: 106_000, green: 106_000, blue: 110_000, alpha: COLOR_ONE },
            ),
            width: Option::Some(Val::Px(400)),
            border: Option::Some(
                UiRect { left: Val::Px(3), right: Val::Px(3), top: Val::Px(3), bottom: Val::Px(3) },
            ),
            ..*old(ss)
        }),
{
    ss.background_color(crate::colors::background());
    ss.position(PositionType::Relative);
    ss.display(DisplayMode::Flex);
    ss.flex_direction(FlexDirection::Column);
    ss.justify_content(JustifyContent::Center);
    ss.align_items(AlignItems::Stretch);
    ss.border_color(crate::colors::gray_050());
    ss.width(400);
    ss.border(3);
}

/// Style of the dialog header: a spaced row with larger text and a hairline
/// bottom border.
pub fn style_dialog_header(ss: &mut StyleBuilder)
    ensures
        *final(ss) == (StyleBuilder {
            display: Option::Some(DisplayMode::Flex),
            flex_direction: Option::Some(FlexDirection::Row),
            justify_content: Option::Some(JustifyContent::SpaceBetween),
            font_size: Option::Some(18),
            border_color: Option::Some(
                Color { red: 137_000, green: 137_000, blue: 149_000, alpha: COLOR_ONE },
            ),
            border: Option::Some(
                UiRect {
                    bottom: Val::Px(1),
                    ..old(ss).border_base_spec()
                },
            ),
            padding: Option::Some(
                UiRect { left: Val::Px(12), right: Val::Px(12), top: Val::Px(6), bottom: Val::Px(6) },
            ),
            ..*old(ss)
        }),
{
    ss.display(DisplayMode::Flex);
    ss.flex_direction(FlexDirection::Row);
    ss.justify_content(JustifyContent::SpaceBetween);
    ss.font_size(18);
    ss.border_color(crate::colors::gray_150());
    ss.border_bottom(1);
    ss.padding((12, 6));
}

/// Style of the dialog body: a stretched column with padding and a minimum
/// height.
pub fn style_dialog_body(ss: &mut StyleBuilder)
    ensures
        *final(ss) == (StyleBuilder {
            display: Option::Some(DisplayMode::Flex),
            flex_direction: Option::Some(FlexDirection::Column),
            align_items: Option::Some(AlignItems::Stretch),
            justify_content: Option::Some(JustifyContent::FlexStart),
            padding: Option::Some(
                UiRect { left: Val::Px(12), right: Val::Px(12), top: Val::Px(6), bottom: Val::Px(6) },
            ),
            min_height: Option::Some(Val::Px(200)),
            ..*old(ss)
        }),
{
    ss.display(DisplayMode::Flex);
    ss.flex_direction(FlexDirection::Column);
    ss.align_items(AlignItems::Stretch);
    ss.justify_content(JustifyContent::FlexStart);
    ss.padding((12, 6));
    ss.min_height(200);
}

/// Style of the dialog footer: a right-aligned row of actions with a
/// hairline top border.
pub fn style_dialog_footer(ss: &mut StyleBuilder)
    ensures
        *final(ss) == (StyleBuilder {
            display: Option::Some(DisplayMode::Flex),
            flex_direction: Option::Some(FlexDirection::Row),
            justify_content: Option::Some(JustifyContent::FlexEnd),
            align_items: Option::Some(AlignItems::Center),
            border_color: Option::Some(
                Color { red: 137_000, green: 137_000, blue: 149_000, alpha: COLOR_ONE },
            ),
            border: Option::Some(
                UiRect {
                    top: Val::Px(1),
                    ..old(ss).border_base_spec()
                },
            ),
            column_gap: Option::Some(Val::Px(4)),
            padding: Option::Some(
                UiRect { left: Val::Px(8), right: Val::Px(8), top: Val::Px(6), bottom: Val::Px(6) },
            ),
            ..*old(ss)
        }),
{
    ss.display(DisplayMode::Flex);
    ss.flex_direction(FlexDirection::Row);
    ss.justify_content(JustifyContent::FlexEnd);
    ss.align_items(AlignItems::Center);
    ss.border_color(crate::colors::gray_150());
    ss.border_top(1);
    ss.column_gap(4);
    ss.padding((8, 6));
}

/// Style of a color swatch: a borderless flex chip with horizontal padding
/// in the default text color.  A border of one pixel is set first and then
/// zeroed again, so the recorded border is zero on all edges.
pub fn style_swatch(ss: &mut StyleBuilder)
    ensures
        *final(ss) == (StyleBuilder {
            border: Option::Some(
                UiRect { left: Val::Px(0), right: Val::Px(0), top: Val::Px(0), bottom: Val::Px(0) },
            ),
            display: Option::Some(DisplayMode::Flex),
            padding: Option::Some(
                UiRect { left: Val::Px(12), right: Val::Px(12), top: Val::Px(0), bottom: Val::Px(0) },
            ),
            color: Option::Some(
                Color { red: 925_000, green: 925_000, blue: 925_000, alpha: COLOR_ONE },
            ),
            ..*old(ss)
        }),
{
    ss.border(1);
    ss.display(DisplayMode::Flex);
    ss.padding((12, 0));
    ss.border(0);
    ss.color(crate::colors::foreground());
}

} // verus!
