//! Plain data records describing the visual configuration of one UI element
//! before it is committed to the entity tree.

use vstd::prelude::*;

verus! {

/// A size along one axis.
///
/// A percentage is kept as the exact fraction `num/den` of a percent base,
/// so a grid cell that takes a third of its row is `Percent { num: 100, den: 3 }`
/// with no rounding.
#[derive(Clone, Copy, Debug, PartialEq, Eq, Structural)]
pub enum Val {
    /// Let the layout system choose.
    Auto,
    /// A fixed number of logical pixels.
    Px(u64),
    /// `num/den` percent of the parent's extent.
    Percent { num: u64, den: u64 },
}

/// An RGBA color with 8-bit channels.
#[derive(Clone, Copy, Debug, PartialEq, Eq, Structural)]
pub struct Color {
    pub r: u8,
    pub g: u8,
    pub b: u8,
    pub a: u8,
}

/// How children are distributed along the main axis.
#[derive(Clone, Copy, Debug, PartialEq, Eq, Structural)]
pub enum JustifyContent {
    Start,
    End,
    Center,
    SpaceBetween,
    SpaceAround,
    SpaceEvenly,
}

/// How children are aligned along the cross axis.
#[derive(Clone, Copy, Debug, PartialEq, Eq, Structural)]
pub enum AlignItems {
    Start,
    End,
    Center,
    Stretch,
    Baseline,
}

/// Whether children wrap onto further lines.
#[derive(Clone, Copy, Debug, PartialEq, Eq, Structural)]
pub enum FlexWrap {
    NoWrap,
    Wrap,
    WrapReverse,
}

/// The layout and paint configuration shared by every kind of UI value.
#[derive(Clone, Copy, Debug, PartialEq, Eq, Structural)]
pub struct Style {
    pub width: Val,
    pub height: Val,
    pub justify_content: JustifyContent,
    pub align_items: AlignItems,
    pub flex_wrap: FlexWrap,
    pub background: Color,
}

/// The style every constructor starts from before classes are applied.
pub open spec fn default_style() -> Style {
    Style {
        width: Val::Auto,
        height: Val::Auto,
        justify_content: JustifyContent::Start,
        align_items: AlignItems::Stretch,
        flex_wrap: FlexWrap::NoWrap,
        background: Color { r: 0, g: 0, b: 0, a: 0 },
    }
}

impl Default for Style {
    fn default() -> (r: Style)
        ensures
            r == default_style(),
    {
        Style {
            width: Val::Auto,
            height: Val::Auto,
            justify_content: JustifyContent::Start,
            align_items: AlignItems::Stretch,
            flex_wrap: FlexWrap::NoWrap,
            background: Color { r: 0, g: 0, b: 0, a: 0 },
        }
    }
}

/// The visual configuration of one run of text.
#[derive(Clone, Copy, Debug, PartialEq, Eq, Structural)]
pub struct TextStyle {
    pub font_size: u64,
    pub color: Color,
}

/// The text style a text constructor starts from before classes are applied.
pub open spec fn default_text_style() -> TextStyle {
    TextStyle { font_size: 12, color: Color { r: 255, g: 255, b: 255, a: 255 } }
}

impl Default for TextStyle {
    fn default() -> (r: TextStyle)
        ensures
            r == default_text_style(),
    {
        TextStyle { font_size: 12, color: Color { r: 255, g: 255, b: 255, a: 255 } }
    }
}

/// One run of text together with its visual style.
#[derive(Clone, Debug, PartialEq, Eq)]
pub struct TextSection {
    pub value: String,
    pub style: TextStyle,
}

/// The configuration of an image element: its layout style and the handle
/// of the picture it shows.  Handle `0` is the null handle.
#[derive(Clone, Copy, Debug, PartialEq, Eq, Structural)]
pub struct ImageProps {
    pub style: Style,
    pub image: u64,
}

/// The image configuration every image constructor starts from.
pub open spec fn default_image_props() -> ImageProps {
    ImageProps { style: default_style(), image: 0 }
}

impl Default for ImageProps {
    fn default() -> (r: ImageProps)
        ensures
            r == default_image_props(),
    {
        ImageProps { style: Style::default(), image: 0 }
    }
}

/// The configuration of a text element: its layout style and its runs of
/// text in order.
#[derive(Clone, Debug, PartialEq, Eq)]
pub struct TextProps {
    pub style: Style,
    pub sections: Vec<TextSection>,
}

} // verus!
