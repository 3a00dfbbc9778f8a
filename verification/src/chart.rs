//! The layout descriptor of a chart and its binding to a pixel surface.

use crate::text::{
    anchor_text_style, anchored_text_style, clone_text_style, estimate_text_size,
    font_text_style, measured_text_size, text_style_from_font, HorizontalAnchor,
    VerticalAnchor,
};
use plotters::style::{FontDesc, TextStyle};
use vstd::prelude::*;

verus! {

/// Four pixel sizes, one for each side of a rectangle.
#[derive(Clone, Copy, PartialEq, Eq, Debug, Structural)]
pub struct Sides {
    pub top: u32,
    pub bottom: u32,
    pub left: u32,
    pub right: u32,
}

impl Sides {
    /// The pixels taken from the width: left plus right.
    pub open spec fn horizontal(self) -> int {
        self.left + self.right
    }

    /// The pixels taken from the height: top plus bottom.
    pub open spec fn vertical(self) -> int {
        self.top + self.bottom
    }
}

/// Why a layout could not be set up or bound.
#[derive(PartialEq, Eq, Debug)]
pub enum LayoutError {
    /// The font could not measure the caption; the font's own message.
    Font(String),
    /// The caption is so tall that its band does not fit in 32 bits.
    TextTooTall,
    /// The surface is smaller than the title band, margins and label areas.
    AreaTooSmall,
}

impl LayoutError {
    /// The words of [`Self::message`].
    pub open spec fn message_text(self) -> Seq<char> {
        match self {
            LayoutError::Font(font_message) => font_message@,
            LayoutError::TextTooTall => "the caption is too tall for a title band"@,
            LayoutError::AreaTooSmall => "the surface is smaller than the reserved bands"@,
        }
    }

    /// What went wrong, in words: for a font's error, the font's message.
    pub fn message(&self) -> (message: String)
        ensures
            message@ == self.message_text(),
    {
        match self {
            LayoutError::Font(font_message) => font_message.clone(),
            LayoutError::TextTooTall => "the caption is too tall for a title band".to_string(),
            LayoutError::AreaTooSmall => {
                "the surface is smaller than the reserved bands".to_string()
            },
        }
    }
}

/// The padding above and below a caption whose text is `text_height` pixels
/// tall: half the height of the text, and never more than 5 pixels.
pub open spec fn caption_padding(text_height: int) -> int {
    if text_height / 2 < 5 {
        text_height / 2
    } else {
        5
    }
}

/// The height of the title band for a text of that height: the text with its
/// padding above and below.
pub open spec fn title_band_height(text_height: int) -> int {
    2 * caption_padding(text_height) + text_height
}

/// What a layout knows of its caption.
pub struct Caption<'a> {
    pub text: Seq<char>,
    pub style: TextStyle<'a>,
    pub vertical_padding: nat,
}

/// What a [`ChartLayout`] stands for.
pub struct LayoutModel<'a> {
    /// The height of the title band; 0 where there is none.
    pub title_height: nat,
    pub caption: Option<Caption<'a>>,
    pub margin: Sides,
    pub label_area_size: Sides,
}

impl<'a> LayoutModel<'a> {
    /// Without a caption there is no title band, and with one the band is
    /// the caption's text with the padding that belongs to its height. (A
    /// text that measures 0 pixels has a caption and no band.)
    pub open spec fn wf(self) -> bool {
        match self.caption {
            None => self.title_height == 0,
            Some(caption) => {
                &&& 2 * caption.vertical_padding <= self.title_height
                &&& caption.vertical_padding == caption_padding(
                    self.title_height - 2 * caption.vertical_padding,
                )
            },
        }
    }

    /// The layout with nothing in it.
    pub open spec fn empty() -> Self {
        LayoutModel {
            title_height: 0,
            caption: None,
            margin: Sides { top: 0, bottom: 0, left: 0, right: 0 },
            label_area_size: Sides { top: 0, bottom: 0, left: 0, right: 0 },
        }
    }

    /// The same layout without caption and title band.
    pub open spec fn without_caption(self) -> Self {
        LayoutModel { title_height: 0, caption: None, ..self }
    }

    /// The same layout with the caption `text` in `style`, and the title band
    /// of a text that is `text_height` pixels tall.
    pub open spec fn with_caption(
        self,
        text: Seq<char>,
        style: TextStyle<'a>,
        text_height: int,
    ) -> Self {
        LayoutModel {
            title_height: title_band_height(text_height) as nat,
            caption: Some(
                Caption { text, style, vertical_padding: caption_padding(text_height) as nat },
            ),
            ..self
        }
    }

    /// The same layout with another text in its caption, if it has one; the
    /// style, padding and title band stay as they are.
    pub open spec fn with_caption_text(self, text: Seq<char>) -> Self {
        match self.caption {
            None => self,
            Some(caption) => LayoutModel { caption: Some(Caption { text, ..caption }), ..self },
        }
    }

    /// The width taken by everything but the plotting area.
    pub open spec fn additional_width(self) -> int {
        self.margin.horizontal() + self.label_area_size.horizontal()
    }

    /// The height taken by everything but the plotting area.
    pub open spec fn additional_height(self) -> int {
        self.title_height + self.margin.vertical() + self.label_area_size.vertical()
    }

    /// The size of the image whose plotting area has the size `plot_size`.
    pub open spec fn image_size(self, plot_size: (int, int)) -> (int, int) {
        (plot_size.0 + self.additional_width(), plot_size.1 + self.additional_height())
    }

    /// The height of the image that is `image_width` wide and whose plotting
    /// area is `ratio_height` high for every `ratio_width` of its width,
    /// rounded down; the height of the bands alone where the image is too
    /// narrow for them.
    pub open spec fn image_height_for_width(
        self,
        image_width: int,
        ratio_height: int,
        ratio_width: int,
    ) -> int {
        if image_width < self.additional_width() {
            self.additional_height()
        } else {
            (image_width - self.additional_width()) * ratio_height / ratio_width
                + self.additional_height()
        }
    }

    /// Whether a surface of that size holds the title band, the margins and
    /// the label areas.
    pub open spec fn fits(self, root_size: (u32, u32)) -> bool {
        &&& self.additional_width() <= root_size.0
        &&& self.additional_height() <= root_size.1
    }

    /// The layout bound to a surface of that size: the main area is the
    /// surface without the title band at its top.
    pub open spec fn bound_to(self, root_size: (u32, u32)) -> BoundModel<'a> {
        BoundModel {
            layout: self,
            main_area: (root_size.0, (root_size.1 - self.title_height) as u32),
        }
    }

    /// What is drawn into the title band of a surface that is `root_width`
    /// wide: the caption, anchored at its top centre, in the middle of the
    /// band and its padding below the top. Nothing where there is no band.
    pub open spec fn title_band(self, root_width: u32) -> Option<TitleBandModel<'a>> {
        match self.caption {
            Some(caption) if self.title_height > 0 => Some(
                TitleBandModel {
                    height: self.title_height,
                    text: caption.text,
                    style: anchored_text_style(
                        caption.style,
                        HorizontalAnchor::Center,
                        VerticalAnchor::Top,
                    ),
                    position: (root_width as int / 2, caption.vertical_padding as int),
                },
            ),
            _ => None,
        }
    }
}

/// Specifies the layout of a chart before there is a surface to draw it on:
/// the margins and label areas on the four sides, and a caption with the
/// title band that it needs.
pub struct ChartLayout<'a> {
    title_height: u32,
    title_content: Option<(String, TextStyle<'a>, u32)>,
    margin: Sides,
    label_area_size: Sides,
}

impl<'a> View for ChartLayout<'a> {
    type V = LayoutModel<'a>;

    closed spec fn view(&self) -> LayoutModel<'a> {
        LayoutModel {
            title_height: self.title_height as nat,
            caption: match self.title_content {
                None => None,
                Some((text, style, padding)) => Some(
                    Caption { text: text@, style, vertical_padding: padding as nat },
                ),
            },
            margin: self.margin,
            label_area_size: self.label_area_size,
        }
    }
}

impl<'a> ChartLayout<'a> {
    #[verifier::type_invariant]
    spec fn well_formed(&self) -> bool {
        self@.wf()
    }

    /// A layout without caption, margins or label areas.
    pub fn new() -> (layout: Self)
        ensures
            layout@ == LayoutModel::empty(),
            layout@.wf(),
    {
        Self {
            label_area_size: Sides { top: 0, bottom: 0, left: 0, right: 0 },
            title_height: 0,
            title_content: None,
            margin: Sides { top: 0, bottom: 0, left: 0, right: 0 },
        }
    }

    /// Sets the sizes of the four label areas.
    pub fn set_all_label_area_size(
        &mut self,
        top: u32,
        bottom: u32,
        left: u32,
        right: u32,
    ) -> (ret: &mut Self)
        ensures
            ret@ == (LayoutModel {
                label_area_size: Sides { top, bottom, left, right },
                ..old(self)@
            }),
            ret@.wf(),
            *final(self) == *final(ret),
    {
        proof {
            use_type_invariant(&*self);
        }
        self.label_area_size = Sides { top, bottom, left, right };
        self
    }

    /// Sets the size of the label area of the X axis, below the plotting area.
    pub fn x_label_area_size(&mut self, size: u32) -> (ret: &mut Self)
        ensures
            ret@ == (LayoutModel {
                label_area_size: Sides { bottom: size, ..old(self)@.label_area_size },
                ..old(self)@
            }),
            ret@.wf(),
            *final(self) == *final(ret),
    {
        proof {
            use_type_invariant(&*self);
        }
        self.label_area_size.bottom = size;
        self
    }

    /// Sets the size of the label area of the Y axis, left of the plotting area.
    pub fn y_label_area_size(&mut self, size: u32) -> (ret: &mut Self)
        ensures
            ret@ == (LayoutModel {
                label_area_size: Sides { left: size, ..old(self)@.label_area_size },
                ..old(self)@
            }),
            ret@.wf(),
            *final(self) == *final(ret),
    {
        proof {
            use_type_invariant(&*self);
        }
        self.label_area_size.left = size;
        self
    }

    /// Sets the size of the label area above the plotting area.
    pub fn top_x_label_area_size(&mut self, size: u32) -> (ret: &mut Self)
        ensures
            ret@ == (LayoutModel {
                label_area_size: Sides { top: size, ..old(self)@.label_area_size },
                ..old(self)@
            }),
            ret@.wf(),
            *final(self) == *final(ret),
    {
        proof {
            use_type_invariant(&*self);
        }
        self.label_area_size.top = size;
        self
    }

    /// Sets the size of the label area right of the plotting area.
    pub fn right_y_label_area_size(&mut self, size: u32) -> (ret: &mut Self)
        ensures
            ret@ == (LayoutModel {
                label_area_size: Sides { right: size, ..old(self)@.label_area_size },
                ..old(self)@
            }),
            ret@.wf(),
            *final(self) == *final(ret),
    {
        proof {
            use_type_invariant(&*self);
        }
        self.label_area_size.right = size;
        self
    }

    /// Sets the four margins.
    pub fn set_all_margin(&mut self, top: u32, bottom: u32, left: u32, right: u32) -> (ret:
        &mut Self)
        ensures
            ret@ == (LayoutModel { margin: Sides { top, bottom, left, right }, ..old(self)@ }),
            ret@.wf(),
            *final(self) == *final(ret),
    {
        proof {
            use_type_invariant(&*self);
        }
        self.margin = Sides { top, bottom, left, right };
        self
    }

    /// Sets the four margins to the same size.
    pub fn margin(&mut self, size: u32) -> (ret: &mut Self)
        ensures
            ret@ == (LayoutModel {
                margin: Sides { top: size, bottom: size, left: size, right: size },
                ..old(self)@
            }),
            ret@.wf(),
            *final(self) == *final(ret),
    {
        proof {
            use_type_invariant(&*self);
        }
        self.margin = Sides { top: size, bottom: size, left: size, right: size };
        self
    }

    /// Sets the top margin.
    pub fn margin_top(&mut self, size: u32) -> (ret: &mut Self)
        ensures
            ret@ == (LayoutModel {
                margin: Sides { top: size, ..old(self)@.margin },
                ..old(self)@
            }),
            ret@.wf(),
            *final(self) == *final(ret),
    {
        proof {
            use_type_invariant(&*self);
        }
        self.margin.top = size;
        self
    }

    /// Sets the bottom margin.
    pub fn margin_bottom(&mut self, size: u32) -> (ret: &mut Self)
        ensures
            ret@ == (LayoutModel {
                margin: Sides { bottom: size, ..old(self)@.margin },
                ..old(self)@
            }),
            ret@.wf(),
            *final(self) == *final(ret),
    {
        proof {
            use_type_invariant(&*self);
        }
        self.margin.bottom = size;
        self
    }

    /// Sets the left margin.
    pub fn margin_left(&mut self, size: u32) -> (ret: &mut Self)
        ensures
            ret@ == (LayoutModel {
                margin: Sides { left: size, ..old(self)@.margin },
                ..old(self)@
            }),
            ret@.wf(),
            *final(self) == *final(ret),
    {
        proof {
            use_type_invariant(&*self);
        }
        self.margin.left = size;
        self
    }

    /// Sets the right margin.
    pub fn margin_right(&mut self, size: u32) -> (ret: &mut Self)
        ensures
            ret@ == (LayoutModel {
                margin: Sides { right: size, ..old(self)@.margin },
                ..old(self)@
            }),
            ret@.wf(),
            *final(self) == *final(ret),
    {
        proof {
            use_type_invariant(&*self);
        }
        self.margin.right = size;
        self
    }

    /// Clears the caption and the title band.
    pub fn no_caption(&mut self) -> (ret: &mut Self)
        ensures
            ret@ == old(self)@.without_caption(),
            ret@.wf(),
            *final(self) == *final(ret),
    {
        *self = ChartLayout {
            title_height: 0,
            title_content: None,
            margin: self.margin,
            label_area_size: self.label_area_size,
        };
        self
    }

    /// Sets the caption to `text` in `style`, with the title band that a text
    /// of `text_height` pixels needs: the text, and above and below it
    /// [`caption_padding`]. An earlier caption is replaced. A text so tall
    /// that the band would not fit in 32 bits is refused and the layout
    /// stays as it was.
    pub fn caption_with_height(
        &mut self,
        text: String,
        style: TextStyle<'a>,
        text_height: u32,
    ) -> (result: Result<&mut Self, LayoutError>)
        ensures
            match result {
                Ok(ret) => {
                    &&& title_band_height(text_height as int) <= u32::MAX
                    &&& ret@ == old(self)@.with_caption(text@, style, text_height as int)
                    &&& ret@.wf()
                    &&& *final(self) == *final(ret)
                },
                Err(error) => {
                    &&& title_band_height(text_height as int) > u32::MAX
                    &&& error == LayoutError::TextTooTall
                    &&& *final(self) == *old(self)
                },
            },
    {
        let half = text_height / 2;
        let padding: u32 = if half < 5 {
            half
        } else {
            5
        };
        if text_height > u32::MAX - 2 * padding {
            return Err(LayoutError::TextTooTall);
        }
        *self = ChartLayout {
            title_height: 2 * padding + text_height,
            title_content: Some((text, style, padding)),
            margin: self.margin,
            label_area_size: self.label_area_size,
        };
        Ok(self)
    }

    /// Sets the caption to `text` in the style of `font`, and the title band
    /// to what the text needs when drawn in that font.
    ///
    /// The font measures the text. Where it cannot, its message comes back as
    /// [`LayoutError::Font`] and the layout stays as it was. Where it can,
    /// the layout is the one that [`Self::caption_with_height`] makes of the
    /// measured height, and a text too tall for a title band is refused as
    /// it is there.
    pub fn caption(&mut self, text: String, font: FontDesc<'a>) -> (result: Result<
        &mut Self,
        LayoutError,
    >)
        ensures
            match measured_text_size(font, text@) {
                Ok(size) if title_band_height(size.1) <= u32::MAX => {
                    &&& result matches Ok(ret)
                    &&& ret@ == old(self)@.with_caption(text@, font_text_style(font), size.1)
                    &&& ret@.wf()
                    &&& *final(self) == *final(ret)
                },
                Ok(_) => {
                    &&& result matches Err(error)
                    &&& error == LayoutError::TextTooTall
                    &&& *final(self) == *old(self)
                },
                Err(font_message) => {
                    &&& result matches Err(LayoutError::Font(message))
                    &&& message@ == font_message
                    &&& *final(self) == *old(self)
                },
            },
    {
        match estimate_text_size(text.as_str(), &font) {
            Err(message) => Err(LayoutError::Font(message)),
            Ok((_, text_height)) => {
                let style = text_style_from_font(font);
                self.caption_with_height(text, style, text_height)
            },
        }
    }

    /// Replaces the text of the caption and nothing else: the title band
    /// keeps the height that the earlier text gave it. Without a caption
    /// nothing changes.
    pub fn replace_caption(&mut self, text: String) -> (ret: &mut Self)
        ensures
            ret@ == old(self)@.with_caption_text(text@),
            old(self)@.caption is None ==> ret@ == old(self)@,
            ret@.wf(),
            *final(self) == *final(ret),
    {
        proof {
            use_type_invariant(&*self);
        }
        let mut previous = Self::new();
        core::mem::swap(self, &mut previous);
        *self = match previous.title_content {
            Some((_, style, padding)) => ChartLayout {
                title_height: previous.title_height,
                title_content: Some((text, style, padding)),
                margin: previous.margin,
                label_area_size: previous.label_area_size,
            },
            None => ChartLayout {
                title_height: previous.title_height,
                title_content: None,
                margin: previous.margin,
                label_area_size: previous.label_area_size,
            },
        };
        self
    }

    /// The width and height that the bands take, in 64 bits, where the sums
    /// always fit.
    fn band_sizes(&self) -> (sizes: (u64, u64))
        ensures
            sizes.0 == self@.additional_width(),
            sizes.1 == self@.additional_height(),
    {
        let width: u64 = self.margin.left as u64 + self.margin.right as u64
            + self.label_area_size.left as u64 + self.label_area_size.right as u64;
        let height: u64 = self.title_height as u64 + self.margin.top as u64
            + self.margin.bottom as u64 + self.label_area_size.top as u64
            + self.label_area_size.bottom as u64;
        (width, height)
    }

    /// The width and height that everything but the plotting area takes: the
    /// margins and label areas left and right; the title band and the margins
    /// and label areas above and below. `None` where one of the two sums does
    /// not fit in 32 bits.
    pub fn additional_sizes(&self) -> (sizes: Option<(u32, u32)>)
        ensures
            match sizes {
                Some((width, height)) => {
                    &&& width == self@.additional_width()
                    &&& height == self@.additional_height()
                },
                None => {
                    ||| self@.additional_width() > u32::MAX
                    ||| self@.additional_height() > u32::MAX
                },
            },
    {
        let (width, height) = self.band_sizes();
        if width <= u32::MAX as u64 && height <= u32::MAX as u64 {
            Some((width as u32, height as u32))
        } else {
            None
        }
    }

    /// The size of the image whose plotting area will have the size
    /// `plot_size`: a surface of this size is the one to give to
    /// [`Self::bind`].
    pub fn desired_image_size(&self, plot_size: (u32, u32)) -> (size: (u32, u32))
        requires
            self@.image_size((plot_size.0 as int, plot_size.1 as int)).0 <= u32::MAX,
            self@.image_size((plot_size.0 as int, plot_size.1 as int)).1 <= u32::MAX,
        ensures
            size.0 == self@.image_size((plot_size.0 as int, plot_size.1 as int)).0,
            size.1 == self@.image_size((plot_size.0 as int, plot_size.1 as int)).1,
    {
        let (width, height) = self.band_sizes();
        ((plot_size.0 as u64 + width) as u32, (plot_size.1 as u64 + height) as u32)
    }

    /// The height of the image that is `image_width` wide and whose plotting
    /// area is `aspect_ratio.0` pixels high for every `aspect_ratio.1` pixels
    /// of its width, rounded down. An image too narrow for the bands has no
    /// plotting area, and the answer is the height of the bands alone.
    pub fn desired_image_height_from_width(
        &self,
        image_width: u32,
        aspect_ratio: (u32, u32),
    ) -> (height: u32)
        requires
            aspect_ratio.1 > 0,
            self@.image_height_for_width(
                image_width as int,
                aspect_ratio.0 as int,
                aspect_ratio.1 as int,
            ) <= u32::MAX,
        ensures
            height == self@.image_height_for_width(
                image_width as int,
                aspect_ratio.0 as int,
                aspect_ratio.1 as int,
            ),
            image_width < self@.additional_width() ==> height == self@.additional_height(),
    {
        let (additional_width, additional_height) = self.band_sizes();
        if (image_width as u64) < additional_width {
            additional_height as u32
        } else {
            let plot_width: u64 = image_width as u64 - additional_width;
            assert(plot_width * aspect_ratio.0 <= 0xFFFF_FFFF * 0xFFFF_FFFF)
                by (nonlinear_arith)
                requires
                    0 <= plot_width <= 0xFFFF_FFFF,
                    0 <= aspect_ratio.0 <= 0xFFFF_FFFF,
            ;
            let scaled: u64 = plot_width * (aspect_ratio.0 as u64) / (aspect_ratio.1 as u64);
            (scaled + additional_height) as u32
        }
    }

    /// The height of the title band.
    pub fn title_height(&self) -> (height: u32)
        ensures
            height == self@.title_height,
    {
        self.title_height
    }

    /// The text of the caption, if there is one.
    pub fn caption_text(&self) -> (text: Option<&str>)
        ensures
            match text {
                Some(text) => self@.caption is Some && text@ == self@.caption->0.text,
                None => self@.caption is None,
            },
    {
        match &self.title_content {
            Some((text, _, _)) => Some(text.as_str()),
            None => None,
        }
    }

    /// The four margins.
    pub fn margins(&self) -> (margin: Sides)
        ensures
            margin == self@.margin,
    {
        self.margin
    }

    /// The sizes of the four label areas.
    pub fn label_area_sizes(&self) -> (sizes: Sides)
        ensures
            sizes == self@.label_area_size,
    {
        self.label_area_size
    }

    /// Binds the layout to a surface that is `root_size.0` pixels wide and
    /// `root_size.1` high.
    ///
    /// The title band, where there is one, is the top of the surface, and
    /// the rest below it is the main area. The result holds a copy of the
    /// layout with the size of the main area, and what is to be drawn into
    /// the title band. A surface too small for the title band, the margins
    /// and the label areas is refused.
    pub fn bind(&self, root_size: (u32, u32)) -> (result: Result<
        (ChartLayoutBuilder<'a>, Option<TitleBand<'a>>),
        LayoutError,
    >)
        ensures
            match result {
                Ok((bound, title_band)) => {
                    &&& self@.fits(root_size)
                    &&& bound@ == self@.bound_to(root_size)
                    &&& bound@.wf()
                    &&& match title_band {
                        Some(band) => self@.title_band(root_size.0) == Some(band@),
                        None => self@.title_band(root_size.0) is None,
                    }
                },
                Err(error) => !self@.fits(root_size) && error == LayoutError::AreaTooSmall,
            },
    {
        proof {
            use_type_invariant(self);
        }
        let (additional_width, additional_height) = self.band_sizes();
        if (root_size.0 as u64) < additional_width || (root_size.1 as u64) < additional_height {
            return Err(LayoutError::AreaTooSmall);
        }
        let title_band = if self.title_height > 0 {
            match &self.title_content {
                Some((text, style, padding)) => Some(
                    TitleBand {
                        height: self.title_height,
                        text: text.clone(),
                        style: anchor_text_style(
                            style,
                            HorizontalAnchor::Center,
                            VerticalAnchor::Top,
                        ),
                        position: ((root_size.0 / 2) as i32, *padding as i32),
                    },
                ),
                None => None,
            }
        } else {
            None
        };
        let main_area = (root_size.0, root_size.1 - self.title_height);
        Ok((ChartLayoutBuilder { layout: self.clone(), main_area }, title_band))
    }
}

impl<'a> Clone for ChartLayout<'a> {
    fn clone(&self) -> (copy: Self)
        ensures
            copy@ == self@,
    {
        proof {
            use_type_invariant(self);
        }
        ChartLayout {
            title_height: self.title_height,
            title_content: match &self.title_content {
                Some((text, style, padding)) => Some(
                    (text.clone(), clone_text_style(style), *padding),
                ),
                None => None,
            },
            margin: self.margin,
            label_area_size: self.label_area_size,
        }
    }
}

impl<'a> Default for ChartLayout<'a> {
    fn default() -> (layout: Self)
        ensures
            layout@ == LayoutModel::empty(),
            layout@.wf(),
    {
        Self::new()
    }
}

/// What is to be drawn into the title band when a layout is bound.
pub struct TitleBand<'a> {
    /// The height of the band: the surface is split this far below its top.
    pub height: u32,
    /// The caption.
    pub text: String,
    /// The caption's style, anchored at the top centre of the text.
    pub style: TextStyle<'a>,
    /// Where in the band the anchor goes: half the band's width from the
    /// left, and the caption's padding from the top.
    pub position: (i32, i32),
}

/// What a [`TitleBand`] stands for.
pub struct TitleBandModel<'a> {
    pub height: nat,
    pub text: Seq<char>,
    pub style: TextStyle<'a>,
    pub position: (int, int),
}

impl<'a> View for TitleBand<'a> {
    type V = TitleBandModel<'a>;

    open spec fn view(&self) -> TitleBandModel<'a> {
        TitleBandModel {
            height: self.height as nat,
            text: self.text@,
            style: self.style,
            position: (self.position.0 as int, self.position.1 as int),
        }
    }
}

/// What a [`ChartLayoutBuilder`] stands for: a layout and the size of the
/// main area, the surface without the title band.
pub struct BoundModel<'a> {
    pub layout: LayoutModel<'a>,
    pub main_area: (u32, u32),
}

impl<'a> BoundModel<'a> {
    /// The main area holds the margins and label areas on both axes.
    pub open spec fn wf(self) -> bool {
        &&& self.layout.additional_width() <= self.main_area.0
        &&& self.layout.margin.vertical() + self.layout.label_area_size.vertical()
            <= self.main_area.1
    }

    /// The size of the plotting area: the main area without the margins and
    /// label areas.
    pub open spec fn plot_area_size(self) -> (int, int) {
        (
            self.main_area.0 - self.layout.additional_width(),
            self.main_area.1 - (self.layout.margin.vertical()
                + self.layout.label_area_size.vertical()),
        )
    }

    /// The settings of the coordinate system that spans `x_spec` and `y_spec`:
    /// the layout's margins and label areas, and the plotting area that they
    /// leave of the main area.
    pub open spec fn cartesian_2d<X, Y>(self, x_spec: X, y_spec: Y) -> Cartesian2dLayout<
        X,
        Y,
    > {
        Cartesian2dLayout {
            margin: self.layout.margin,
            label_area_size: self.layout.label_area_size,
            plotting_area_size: (
                self.plot_area_size().0 as u32,
                self.plot_area_size().1 as u32,
            ),
            x_spec,
            y_spec,
        }
    }
}

/// A layout bound to a surface.
pub struct ChartLayoutBuilder<'a> {
    layout: ChartLayout<'a>,
    main_area: (u32, u32),
}

impl<'a> View for ChartLayoutBuilder<'a> {
    type V = BoundModel<'a>;

    closed spec fn view(&self) -> BoundModel<'a> {
        BoundModel { layout: self.layout@, main_area: self.main_area }
    }
}

/// The settings of a two-dimensional Cartesian coordinate system on the main
/// area of a bound layout.
pub struct Cartesian2dLayout<X, Y> {
    /// The margins around the chart.
    pub margin: Sides,
    /// The label areas between the margins and the plotting area.
    pub label_area_size: Sides,
    /// The size of the plotting area that these leave of the main area.
    pub plotting_area_size: (u32, u32),
    /// What the horizontal axis spans.
    pub x_spec: X,
    /// What the vertical axis spans.
    pub y_spec: Y,
}

impl<'a> ChartLayoutBuilder<'a> {
    #[verifier::type_invariant]
    spec fn well_formed(&self) -> bool {
        self@.wf()
    }

    /// The size of the main area in pixels.
    pub fn main_area_size(&self) -> (size: (u32, u32))
        ensures
            size == self@.main_area,
    {
        self.main_area
    }

    /// The layout as it was when it was bound.
    pub fn layout(&self) -> (layout: &ChartLayout<'a>)
        ensures
            layout@ == self@.layout,
    {
        &self.layout
    }

    /// The size of the plotting area in pixels: the main area without the
    /// margins and label areas.
    pub fn estimate_plot_area_size(&self) -> (size: (u32, u32))
        ensures
            size.0 == self@.plot_area_size().0,
            size.1 == self@.plot_area_size().1,
    {
        proof {
            use_type_invariant(self);
        }
        let margin = self.layout.margins();
        let label = self.layout.label_area_sizes();
        let plot_width = self.main_area.0 - (margin.left + margin.right + label.left
            + label.right);
        let plot_height = self.main_area.1 - (margin.top + margin.bottom + label.top
            + label.bottom);
        (plot_width, plot_height)
    }

    /// The settings of the coordinate system that spans `x_spec` on the
    /// horizontal and `y_spec` on the vertical axis: the margins and label
    /// areas of the layout, and the plotting area that they leave, which is
    /// the one that [`Self::estimate_plot_area_size`] gives.
    pub fn build_cartesian_2d<X, Y>(&self, x_spec: X, y_spec: Y) -> (chart: Cartesian2dLayout<
        X,
        Y,
    >)
        ensures
            chart == self@.cartesian_2d(x_spec, y_spec),
            chart.plotting_area_size.0 == self@.plot_area_size().0,
            chart.plotting_area_size.1 == self@.plot_area_size().1,
    {
        proof {
            use_type_invariant(self);
        }
        Cartesian2dLayout {
            margin: self.layout.margins(),
            label_area_size: self.layout.label_area_sizes(),
            plotting_area_size: self.estimate_plot_area_size(),
            x_spec,
            y_spec,
        }
    }
}

/// Clearing the caption twice leaves the layout as clearing it once does.
pub proof fn lemma_no_caption_is_idempotent(layout: LayoutModel)
    ensures
        layout.without_caption().without_caption() == layout.without_caption(),
        layout.without_caption().wf(),
{
}

/// Replacing the text of a caption that is not there changes nothing: no
/// caption comes out of it.
pub proof fn lemma_replace_caption_without_caption(layout: LayoutModel, text: Seq<char>)
    requires
        layout.caption is None,
    ensures
        layout.with_caption_text(text) == layout,
{
}

/// Replacing the text of a caption leaves every size of the layout as it
/// was.
pub proof fn lemma_replace_caption_keeps_sizes(
    layout: LayoutModel,
    text: Seq<char>,
    plot_size: (int, int),
)
    ensures
        layout.with_caption_text(text).image_size(plot_size) == layout.image_size(plot_size),
        layout.wf() ==> layout.with_caption_text(text).wf(),
{
}

/// A surface of the size that the layout asks for a plotting area of
/// `plot_size` holds the layout, and the plotting area of the layout bound to
/// it has exactly the size `plot_size`.
pub proof fn lemma_bound_plot_area_is_plot_size(layout: LayoutModel, plot_size: (u32, u32))
    requires
        layout.image_size((plot_size.0 as int, plot_size.1 as int)).0 <= u32::MAX,
        layout.image_size((plot_size.0 as int, plot_size.1 as int)).1 <= u32::MAX,
    ensures
        ({
            let image_size = layout.image_size((plot_size.0 as int, plot_size.1 as int));
            let root_size = (image_size.0 as u32, image_size.1 as u32);
            &&& layout.fits(root_size)
            &&& layout.bound_to(root_size).wf()
            &&& layout.bound_to(root_size).plot_area_size() == (
                plot_size.0 as int,
                plot_size.1 as int,
            )
        }),
{
}

/// On a surface of the size that the layout asks for a plotting area of
/// `plot_size`, the coordinate system of the bound layout has a plotting area
/// of exactly the size `plot_size`, whatever its axes span.
pub proof fn lemma_cartesian_plotting_area_is_plot_size<X, Y>(
    layout: LayoutModel,
    plot_size: (u32, u32),
    x_spec: X,
    y_spec: Y,
)
    requires
        layout.image_size((plot_size.0 as int, plot_size.1 as int)).0 <= u32::MAX,
        layout.image_size((plot_size.0 as int, plot_size.1 as int)).1 <= u32::MAX,
    ensures
        ({
            let image_size = layout.image_size((plot_size.0 as int, plot_size.1 as int));
            let root_size = (image_size.0 as u32, image_size.1 as u32);
            layout.bound_to(root_size).cartesian_2d(x_spec, y_spec).plotting_area_size
                == plot_size
        }),
{
}

} // verus!
