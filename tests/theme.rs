use moodboard::events::{bundle_for, AddItemEvent};
use moodboard::font::{FontFamily, FontSizeMap};
use moodboard::item::ItemBundle;
use moodboard::layout::{fit_image_size, textbox_half_extents};
use moodboard::swatch::{random_color, random_colors, swatch_color_list};
use moodboard::theme::colors::{parse_hex_color, ColorTheme, ColorTones, Rgb, TailwindColor};
use moodboard::theme::{create_theme, ThemeMode};

fn rgb(r: u8, g: u8, b: u8) -> Rgb {
    Rgb { r, g, b }
}

#[test]
fn hex_colors_parse() {
    assert_eq!(parse_hex_color("f8fafc"), Some(rgb(248, 250, 252)));
    assert_eq!(parse_hex_color("0A0B0c"), Some(rgb(10, 11, 12)));
    assert_eq!(parse_hex_color("f8fafg"), None);
    assert_eq!(parse_hex_color("fff"), None);
    assert_eq!(parse_hex_color("#f8fafc"), None);
}

#[test]
fn palette_tones() {
    let theme = ColorTheme::new();
    assert_eq!(theme.slate.get_name(), "slate");
    assert_eq!(theme.slate.get_50(), Some(rgb(0xf8, 0xfa, 0xfc)));
    assert_eq!(theme.slate.get_500(), Some(rgb(0x64, 0x74, 0x8b)));
    assert_eq!(theme.rose.get_950(), Some(rgb(0x4c, 0x05, 0x19)));
    assert_eq!(theme.sky.get_950(), theme.cyan.get_950());
    assert_eq!(theme.violet.name, "violet");
    assert_eq!(theme.gray.tones.color700, "374151");
}

#[test]
fn tones_from_text() {
    let tones = ColorTones::from_str("a", "b", "c", "d", "e", "f", "g", "h", "i", "j", "k");
    assert_eq!(tones.color50, "a");
    assert_eq!(tones.color950, "k");
    let c = TailwindColor::new("custom", tones);
    assert_eq!(c.get_name(), "custom");
    assert_eq!(c.get_50(), None);
}

#[test]
fn themes() {
    let light = create_theme(ThemeMode::Light);
    let dark = create_theme(ThemeMode::Dark);
    assert_eq!(light.window_bg_color.color, rgb(0xf1, 0xf5, 0xf9));
    assert_eq!(light.post_it_stroke_color.alpha, 70);
    assert_eq!(light.default_bg_color.color, rgb(255, 255, 255));
    assert_eq!(dark.window_bg_color.color, rgb(0x0f, 0x17, 0x2a));
    assert_eq!(dark.post_it_shadow_color.alpha, 90);
    assert_eq!(dark.default_bg_color.color, rgb(0x47, 0x55, 0x69));
    assert_eq!(dark.debug_text_color.color, rgb(255, 255, 255));
}

#[test]
fn font_faces_fall_back_to_regular() {
    let f = FontFamily { regular: String::from("r.ttf"), bold: Some(String::from("b.ttf")), italic: None };
    assert_eq!(f.regular(), "r.ttf");
    assert_eq!(f.bold(), "b.ttf");
    assert_eq!(f.italic(), "r.ttf");
    let sizes = FontSizeMap::default();
    assert_eq!(sizes.medium, 48);
    assert_eq!(sizes.xxlarge, 128);
}

#[test]
fn image_fitting() {
    assert_eq!(fit_image_size(1600, 1068), (800, 534));
    assert_eq!(fit_image_size(2000, 1000), (800, 400));
    assert_eq!(fit_image_size(400, 1068), (200, 534));
    assert_eq!(fit_image_size(800, 534), (800, 534));
    assert_eq!(fit_image_size(3, 1), (800, 266));
}

#[test]
fn textbox_extents() {
    assert_eq!(textbox_half_extents(0, 0), None);
    let h = textbox_half_extents(100, 41).unwrap();
    assert_eq!((h.x, h.y), (60, 31));
}

#[test]
fn swatches_come_from_the_palette() {
    let palette = swatch_color_list();
    assert_eq!(palette.len(), 22);
    assert_eq!(palette[0], rgb(0x64, 0x74, 0x8b));
    assert_eq!(palette[21], rgb(0xf4, 0x3f, 0x5e));
    assert!(palette.contains(&random_color()));
    let four = random_colors(4);
    assert_eq!(four.len(), 4);
    for (i, c) in four.iter().enumerate() {
        assert!(palette.contains(c));
        assert!(!four[i + 1..].contains(c));
    }
    assert_eq!(random_colors(30).len(), 22);
}

#[test]
fn add_events_map_to_items() {
    assert_eq!(bundle_for(&AddItemEvent::PostIt(String::from("x"))), Some(ItemBundle::post_it()));
    assert_eq!(bundle_for(&AddItemEvent::Swatch(String::from("x"))), Some(ItemBundle::color_swatch()));
    assert_eq!(bundle_for(&AddItemEvent::Text(String::from("x"))), Some(ItemBundle::text()));
    assert_eq!(bundle_for(&AddItemEvent::Image(String::from("x"))), None);
    assert_eq!(ItemBundle::image().half_extents.x, 400);
}
