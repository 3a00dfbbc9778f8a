//! Fonts and text styles of the rendering crate, and the pixel size of a text.
//!
//! The layout never looks inside a font or a style: it asks the font for the
//! box of a text, keeps the style that belongs to a caption and hands it back,
//! anchored, when the caption is to be drawn.

use plotters::style::text_anchor::{HPos, Pos, VPos};
use plotters::style::{FontDesc, TextStyle};
use vstd::prelude::*;

verus! {

/// `plotters::style::FontDesc`, a font family with a size and a variation.
/// Nothing is known of what a value holds.
#[verifier::external_type_specification]
#[verifier::external_body]
pub struct ExFontDesc<'a>(FontDesc<'a>);

/// `plotters::style::TextStyle`, a font with a colour and an anchor.
/// Nothing is known of what a value holds.
#[verifier::external_type_specification]
#[verifier::external_body]
pub struct ExTextStyle<'a>(TextStyle<'a>);

/// Where the anchor point of a text lies horizontally, relative to the text.
#[derive(Clone, Copy, PartialEq, Eq, Debug, Structural)]
pub enum HorizontalAnchor {
    Left,
    Right,
    Center,
}

/// Where the anchor point of a text lies vertically, relative to the text.
#[derive(Clone, Copy, PartialEq, Eq, Debug, Structural)]
pub enum VerticalAnchor {
    Top,
    Center,
    Bottom,
}

/// The style that `TextStyle::from` makes of a font: that font, in the
/// rendering crate's default colour and with its default anchor.
pub uninterp spec fn font_text_style(font: FontDesc) -> TextStyle;

/// The style that `TextStyle::pos` makes of a style and an anchor: the same
/// font and colour, anchored at that point.
pub uninterp spec fn anchored_text_style(
    style: TextStyle,
    horizontal: HorizontalAnchor,
    vertical: VerticalAnchor,
) -> TextStyle;

/// Calls `TextStyle::from` on a font. The result is a function of the font
/// alone; the contract gives it its name and claims nothing else.
#[verifier::external_body]
pub(crate) fn text_style_from_font<'a>(font: FontDesc<'a>) -> (style: TextStyle<'a>)
    ensures
        style == font_text_style(font),
{
    TextStyle::from(font)
}

/// Calls `TextStyle::pos` with the anchor made by `Pos::new`. The result is a
/// function of the style and the anchor alone; the contract gives it its name
/// and claims nothing else.
#[verifier::external_body]
pub(crate) fn anchor_text_style<'a>(
    style: &TextStyle<'a>,
    horizontal: HorizontalAnchor,
    vertical: VerticalAnchor,
) -> (anchored: TextStyle<'a>)
    ensures
        anchored == anchored_text_style(*style, horizontal, vertical),
{
    let h_pos = match horizontal {
        HorizontalAnchor::Left => HPos::Left,
        HorizontalAnchor::Right => HPos::Right,
        HorizontalAnchor::Center => HPos::Center,
    };
    let v_pos = match vertical {
        VerticalAnchor::Top => VPos::Top,
        VerticalAnchor::Center => VPos::Center,
        VerticalAnchor::Bottom => VPos::Bottom,
    };
    style.pos(Pos::new(h_pos, v_pos))
}

/// Calls `Clone::clone` on a style, which the rendering crate derives: the
/// copy holds a copy of each field, so it is the same style.
#[verifier::external_body]
pub(crate) fn clone_text_style<'a>(style: &TextStyle<'a>) -> (copy: TextStyle<'a>)
    ensures
        copy == *style,
{
    style.clone()
}

/// What `FontDesc::layout_box` answers for a font and a text: the two
/// corners, upper left and lower right, of the box that the text would fill
/// if drawn in that font, or the message of the font's error.
pub uninterp spec fn font_layout_box_of(font: FontDesc, text: Seq<char>) -> Result<
    ((i32, i32), (i32, i32)),
    Seq<char>,
>;

/// Calls `FontDesc::layout_box`, which computes its answer from what the font
/// holds and from the text. The contract gives that answer its name, an error
/// taken by its message, and claims nothing else of it: neither when the font
/// can measure a text nor which box it reports.
#[verifier::external_body]
pub(crate) fn font_layout_box(font: &FontDesc, text: &str) -> (result: Result<
    ((i32, i32), (i32, i32)),
    String,
>)
    ensures
        match result {
            Ok(corners) => font_layout_box_of(*font, text@) == Ok::<_, Seq<char>>(corners),
            Err(message) => font_layout_box_of(*font, text@) == Err::<
                ((i32, i32), (i32, i32)),
                _,
            >(message@),
        },
{
    match font.layout_box(text) {
        Ok(corners) => Ok(corners),
        Err(error) => Err(error.to_string()),
    }
}

/// The number of pixels from `low` to `high`, as 32 unsigned bits: `high - low`
/// wherever `low <= high`, and that difference reduced modulo `2^32` for an
/// interval whose ends are the wrong way round.
pub open spec fn pixel_extent(low: i32, high: i32) -> int {
    (high - low) % 0x1_0000_0000
}

/// The width and height of a box given by its upper left and lower right
/// corners.
pub open spec fn box_size(corners: ((i32, i32), (i32, i32))) -> (int, int) {
    (pixel_extent(corners.0.0, corners.1.0), pixel_extent(corners.0.1, corners.1.1))
}

fn extent(low: i32, high: i32) -> (pixels: u32)
    ensures
        pixels == pixel_extent(low, high),
        low <= high ==> pixels == high - low,
{
    let difference: i64 = high as i64 - low as i64;
    if difference >= 0 {
        difference as u32
    } else {
        (difference + 0x1_0000_0000) as u32
    }
}

/// The width and height in pixels of a box given by its two corners.
pub fn text_size_of_box(corners: ((i32, i32), (i32, i32))) -> (size: (u32, u32))
    ensures
        size.0 == box_size(corners).0,
        size.1 == box_size(corners).1,
{
    (extent(corners.0.0, corners.1.0), extent(corners.0.1, corners.1.1))
}

/// The width and height in pixels that `text` takes when drawn in `font`:
/// the size of the box that the font reports for the text, or the message of
/// the font's error where it reports none.
pub open spec fn measured_text_size(font: FontDesc, text: Seq<char>) -> Result<
    (int, int),
    Seq<char>,
> {
    match font_layout_box_of(font, text) {
        Ok(corners) => Ok(box_size(corners)),
        Err(message) => Err(message),
    }
}

/// The width and height in pixels that `text` takes when drawn in `font`, or
/// the message of the font's error. The font is asked for the box of the
/// text; the size is [`text_size_of_box`] of that box, and an error of the
/// font comes back as it is.
pub(crate) fn estimate_text_size(text: &str, font: &FontDesc) -> (result: Result<
    (u32, u32),
    String,
>)
    ensures
        match result {
            Ok(size) => measured_text_size(*font, text@) == Ok::<_, Seq<char>>(
                (size.0 as int, size.1 as int),
            ),
            Err(message) => measured_text_size(*font, text@) == Err::<(int, int), _>(message@),
        },
{
    match font_layout_box(font, text) {
        Ok(corners) => Ok(text_size_of_box(corners)),
        Err(message) => Err(message),
    }
}

} // verus!
