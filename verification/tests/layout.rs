use plotters::style::{FontDesc, TextStyle};
use plotters_layout::chart::LayoutError;
use plotters_layout::text::text_size_of_box;
use plotters_layout::{ChartLayout, Sides};

fn sides(top: u32, bottom: u32, left: u32, right: u32) -> Sides {
    Sides { top, bottom, left, right }
}

fn style<'a>() -> TextStyle<'a> {
    TextStyle::from(FontDesc::from(("serif", 12)))
}

/// The title band of a text that is `text_height` pixels tall.
fn band_of(text_height: u32) -> u32 {
    let mut layout = ChartLayout::new();
    layout.caption_with_height("t".to_string(), style(), text_height).unwrap();
    layout.title_height()
}

#[test]
fn new_layout_is_empty() {
    let layout = ChartLayout::new();
    assert_eq!(layout.title_height(), 0);
    assert_eq!(layout.caption_text(), None);
    assert_eq!(layout.margins(), sides(0, 0, 0, 0));
    assert_eq!(layout.label_area_sizes(), sides(0, 0, 0, 0));
    assert_eq!(layout.additional_sizes(), Some((0, 0)));
    assert_eq!(layout.desired_image_size((3, 4)), (3, 4));
    let layout = ChartLayout::default();
    assert_eq!(layout.additional_sizes(), Some((0, 0)));
    assert_eq!(layout.caption_text(), None);
}

#[test]
fn each_margin_setter_writes_its_own_side() {
    let mut layout = ChartLayout::new();
    layout.set_all_margin(1, 2, 3, 4);
    assert_eq!(layout.margins(), sides(1, 2, 3, 4));
    layout.margin_top(10);
    assert_eq!(layout.margins(), sides(10, 2, 3, 4));
    layout.margin_bottom(20);
    assert_eq!(layout.margins(), sides(10, 20, 3, 4));
    layout.margin_left(30);
    assert_eq!(layout.margins(), sides(10, 20, 30, 4));
    layout.margin_right(40);
    assert_eq!(layout.margins(), sides(10, 20, 30, 40));
    layout.margin(7);
    assert_eq!(layout.margins(), sides(7, 7, 7, 7));
    assert_eq!(layout.label_area_sizes(), sides(0, 0, 0, 0));
}

#[test]
fn each_label_area_setter_writes_its_own_side() {
    let mut layout = ChartLayout::new();
    layout.set_all_label_area_size(1, 2, 3, 4);
    assert_eq!(layout.label_area_sizes(), sides(1, 2, 3, 4));
    layout.x_label_area_size(20);
    assert_eq!(layout.label_area_sizes(), sides(1, 20, 3, 4));
    layout.y_label_area_size(30);
    assert_eq!(layout.label_area_sizes(), sides(1, 20, 30, 4));
    layout.top_x_label_area_size(10);
    assert_eq!(layout.label_area_sizes(), sides(10, 20, 30, 4));
    layout.right_y_label_area_size(40);
    assert_eq!(layout.label_area_sizes(), sides(10, 20, 30, 40));
    assert_eq!(layout.margins(), sides(0, 0, 0, 0));
}

#[test]
fn setters_chain() {
    let mut layout = ChartLayout::new();
    layout.margin(4).x_label_area_size(40).y_label_area_size(40);
    assert_eq!(layout.margins(), sides(4, 4, 4, 4));
    assert_eq!(layout.label_area_sizes(), sides(0, 40, 40, 0));
    assert_eq!(layout.desired_image_size((200, 160)), (200 + 8 + 40, 160 + 8 + 40));
}

#[test]
fn additional_sizes_sum_the_bands_of_each_axis() {
    let mut layout = ChartLayout::new();
    layout.set_all_margin(1, 2, 4, 8).set_all_label_area_size(16, 32, 64, 128);
    assert_eq!(layout.additional_sizes(), Some((4 + 8 + 64 + 128, 1 + 2 + 16 + 32)));
    layout.caption_with_height("t".to_string(), style(), 100).unwrap();
    assert_eq!(layout.additional_sizes(), Some((204, 110 + 51)));
    assert_eq!(layout.desired_image_size((1000, 2000)), (1204, 2161));
}

#[test]
fn additional_sizes_that_do_not_fit_are_none() {
    let mut layout = ChartLayout::new();
    layout.margin_top(u32::MAX);
    assert_eq!(layout.additional_sizes(), Some((0, u32::MAX)));
    layout.margin_bottom(1);
    assert_eq!(layout.additional_sizes(), None);
    layout.margin_bottom(0).margin_left(u32::MAX - 1).right_y_label_area_size(2);
    assert_eq!(layout.additional_sizes(), None);
    layout.right_y_label_area_size(1);
    assert_eq!(layout.additional_sizes(), Some((u32::MAX, u32::MAX)));
    assert_eq!(layout.desired_image_size((0, 0)), (u32::MAX, u32::MAX));
}

#[test]
fn title_band_is_the_text_with_its_padding() {
    assert_eq!(band_of(0), 0);
    assert_eq!(band_of(1), 1);
    assert_eq!(band_of(2), 4);
    assert_eq!(band_of(3), 5);
    assert_eq!(band_of(9), 17);
    assert_eq!(band_of(10), 20);
    assert_eq!(band_of(11), 21);
    assert_eq!(band_of(32), 42);
    assert_eq!(band_of(u32::MAX - 10), u32::MAX);
}

#[test]
fn caption_too_tall_is_refused() {
    let mut layout = ChartLayout::new();
    layout.margin(2).caption_with_height("old".to_string(), style(), 20).unwrap();
    let result = layout.caption_with_height("new".to_string(), style(), u32::MAX - 9);
    assert_eq!(result.err(), Some(LayoutError::TextTooTall));
    assert_eq!(layout.caption_text(), Some("old"));
    assert_eq!(layout.title_height(), 30);
    let result = layout.caption_with_height("new".to_string(), style(), u32::MAX);
    assert_eq!(result.err(), Some(LayoutError::TextTooTall));
    assert_eq!(
        LayoutError::TextTooTall.message(),
        "the caption is too tall for a title band"
    );
    assert_eq!(LayoutError::Font("no such font".to_string()).message(), "no such font");
}

#[test]
fn caption_replaces_an_earlier_caption() {
    let mut layout = ChartLayout::new();
    layout.caption_with_height("first".to_string(), style(), 40).unwrap();
    assert_eq!(layout.title_height(), 50);
    layout.caption_with_height("second".to_string(), style(), 6).unwrap();
    assert_eq!(layout.title_height(), 12);
    assert_eq!(layout.caption_text(), Some("second"));
}

#[test]
fn caption_measures_the_text_with_the_font() {
    let font = FontDesc::from(("sans-serif", 40));
    let corners = font.layout_box("Graph Title").unwrap();
    let text_height = (corners.1 .1 - corners.0 .1) as u32;
    let padding = (text_height / 2).min(5);
    let title_height = padding * 2 + text_height;

    let mut layout = ChartLayout::new();
    layout
        .caption("Graph Title".to_string(), ("sans-serif", 40).into())
        .unwrap()
        .margin(4)
        .x_label_area_size(40)
        .y_label_area_size(40);
    assert_eq!(layout.title_height(), title_height);
    assert_eq!(layout.caption_text(), Some("Graph Title"));
    assert_eq!(
        layout.desired_image_size((200, 160)),
        (200 + 8 + 40, 160 + 8 + 40 + title_height)
    );
    assert!(title_height > text_height);
}

#[test]
fn no_caption_is_idempotent() {
    let mut once = ChartLayout::new();
    once.margin(3).caption_with_height("t".to_string(), style(), 20).unwrap();
    let mut twice = once.clone();
    once.no_caption();
    twice.no_caption().no_caption();
    assert_eq!(once.title_height(), 0);
    assert_eq!(once.caption_text(), None);
    assert_eq!(twice.title_height(), once.title_height());
    assert_eq!(twice.caption_text(), once.caption_text());
    assert_eq!(twice.margins(), once.margins());
    assert_eq!(twice.label_area_sizes(), once.label_area_sizes());
    assert_eq!(twice.additional_sizes(), Some((6, 6)));
}

#[test]
fn replace_caption_without_caption_changes_nothing() {
    let mut layout = ChartLayout::new();
    layout.margin(3);
    layout.replace_caption("text".to_string());
    assert_eq!(layout.caption_text(), None);
    assert_eq!(layout.title_height(), 0);
    assert_eq!(layout.additional_sizes(), Some((6, 6)));
    assert!(layout.bind((10, 10)).unwrap().1.is_none());
}

#[test]
fn replace_caption_keeps_the_title_band() {
    let mut layout = ChartLayout::new();
    layout.caption_with_height("short".to_string(), style(), 20).unwrap();
    layout.replace_caption("a much longer caption than before".to_string()).margin_top(1);
    assert_eq!(layout.caption_text(), Some("a much longer caption than before"));
    assert_eq!(layout.title_height(), 30);
    assert_eq!(layout.additional_sizes(), Some((0, 31)));
    let band = layout.bind((100, 100)).unwrap().1.unwrap();
    assert_eq!(band.text, "a much longer caption than before");
    assert_eq!(band.position, (50, 5));
}

#[test]
fn clone_is_the_same_layout() {
    let mut layout = ChartLayout::new();
    layout.set_all_margin(1, 2, 3, 4).set_all_label_area_size(5, 6, 7, 8);
    layout.caption_with_height("caption".to_string(), style(), 7).unwrap();
    let copy = layout.clone();
    assert_eq!(copy.margins(), layout.margins());
    assert_eq!(copy.label_area_sizes(), layout.label_area_sizes());
    assert_eq!(copy.title_height(), 13);
    assert_eq!(copy.caption_text(), Some("caption"));
    let band = copy.bind((100, 100)).unwrap().1.unwrap();
    assert_eq!(band.style.font.get_size(), 12.0);
    assert_eq!(band.position, (50, 3));
}

#[test]
fn image_height_follows_the_width_and_the_aspect_ratio() {
    let mut layout = ChartLayout::new();
    layout.margin(4).x_label_area_size(40).y_label_area_size(40);
    layout.caption_with_height("t".to_string(), style(), 32).unwrap();
    // the bands take 48 pixels of the width and 90 of the height
    assert_eq!(layout.desired_image_height_from_width(1000, (9, 16)), 952 * 9 / 16 + 90);
    assert_eq!(layout.desired_image_height_from_width(1000, (9, 16)), 625);
    assert_eq!(layout.desired_image_height_from_width(1000, (1, 1)), 952 + 90);
    assert_eq!(layout.desired_image_height_from_width(1000, (0, 5)), 90);
    assert_eq!(layout.desired_image_height_from_width(51, (2, 3)), 2 + 90);
    assert_eq!(layout.desired_image_height_from_width(48, (7, 1)), 90);
}

#[test]
fn image_narrower_than_the_bands_has_their_height() {
    let mut layout = ChartLayout::new();
    layout.margin(4).x_label_area_size(40).y_label_area_size(40);
    assert_eq!(layout.desired_image_height_from_width(47, (9, 16)), 48);
    assert_eq!(layout.desired_image_height_from_width(0, (1000, 1)), 48);
    layout.margin_left(u32::MAX);
    assert_eq!(layout.additional_sizes(), None);
    assert_eq!(layout.desired_image_height_from_width(u32::MAX, (1, 1)), 48);
}

#[test]
fn image_height_uses_wide_arithmetic() {
    let layout = ChartLayout::new();
    assert_eq!(
        layout.desired_image_height_from_width(u32::MAX, (u32::MAX, u32::MAX)),
        u32::MAX
    );
    assert_eq!(layout.desired_image_height_from_width(u32::MAX, (3, 7)), 1840700269);
}

#[test]
fn text_size_is_the_extent_of_the_box() {
    assert_eq!(text_size_of_box(((0, -26), (200, 6))), (200, 32));
    assert_eq!(text_size_of_box(((-5, -5), (-5, -5))), (0, 0));
    assert_eq!(text_size_of_box(((i32::MIN, 0), (i32::MAX, 1))), (u32::MAX, 1));
    // ends the wrong way round wrap modulo 2^32
    assert_eq!(text_size_of_box(((1, 10), (0, 7))), (u32::MAX, u32::MAX - 2));
    assert_eq!(text_size_of_box(((i32::MAX, 0), (i32::MIN, 0))), (1, 0));
}
