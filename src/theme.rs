//! Light and dark themes.
use vstd::prelude::*;

pub mod colors;

use colors::Rgb;

verus! {

#[derive(Clone, Copy, Debug, PartialEq, Eq, Structural)]
pub enum ThemeMode {
    Dark,
    Light,
}

/// A color with its opacity, in percent.
#[derive(Clone, Copy, Debug, PartialEq, Eq, Structural)]
pub struct ThemeColor {
    pub color: Rgb,
    pub alpha: u8,
}

/// The colors the canvas is drawn in.
#[derive(Clone, Copy, Debug, PartialEq, Eq, Structural)]
pub struct Theme {
    pub window_bg_color: ThemeColor,
    pub post_it_stroke_color: ThemeColor,
    pub post_it_shadow_color: ThemeColor,
    pub default_text_color: ThemeColor,
    pub debug_text_color: ThemeColor,
    pub color_swatch_text_color: ThemeColor,
    pub default_bg_color: ThemeColor,
}

/// Slate and gray on white.
pub open spec fn light_theme() -> Theme {
    Theme {
        window_bg_color: ThemeColor { color: Rgb { r: 241, g: 245, b: 249 }, alpha: 100 },
        post_it_stroke_color: ThemeColor { color: Rgb { r: 0, g: 0, b: 0 }, alpha: 70 },
        post_it_shadow_color: ThemeColor { color: Rgb { r: 75, g: 85, b: 99 }, alpha: 60 },
        default_text_color: ThemeColor { color: Rgb { r: 55, g: 65, b: 81 }, alpha: 80 },
        debug_text_color: ThemeColor { color: Rgb { r: 0, g: 0, b: 0 }, alpha: 100 },
        color_swatch_text_color: ThemeColor { color: Rgb { r: 55, g: 65, b: 81 }, alpha: 80 },
        default_bg_color: ThemeColor { color: Rgb { r: 255, g: 255, b: 255 }, alpha: 100 },
    }
}

/// Light gray on dark slate.
pub open spec fn dark_theme() -> Theme {
    Theme {
        window_bg_color: ThemeColor { color: Rgb { r: 15, g: 23, b: 42 }, alpha: 100 },
        post_it_stroke_color: ThemeColor { color: Rgb { r: 0, g: 0, b: 0 }, alpha: 70 },
        post_it_shadow_color: ThemeColor { color: Rgb { r: 75, g: 85, b: 99 }, alpha: 90 },
        default_text_color: ThemeColor { color: Rgb { r: 229, g: 231, b: 235 }, alpha: 80 },
        debug_text_color: ThemeColor { color: Rgb { r: 255, g: 255, b: 255 }, alpha: 100 },
        color_swatch_text_color: ThemeColor { color: Rgb { r: 229, g: 231, b: 235 }, alpha: 80 },
        default_bg_color: ThemeColor { color: Rgb { r: 71, g: 85, b: 105 }, alpha: 100 },
    }
}

/// The theme for `mode`.
pub fn create_theme(mode: ThemeMode) -> (r: Theme)
    ensures
        r == (match mode {
            ThemeMode::Light => light_theme(),
            ThemeMode::Dark => dark_theme(),
        }),
{
    match mode {
        ThemeMode::Light => Theme {
            window_bg_color: ThemeColor { color: Rgb { r: 241, g: 245, b: 249 }, alpha: 100 },
            post_it_stroke_color: ThemeColor { color: Rgb { r: 0, g: 0, b: 0 }, alpha: 70 },
            post_it_shadow_color: ThemeColor { color: Rgb { r: 75, g: 85, b: 99 }, alpha: 60 },
            default_text_color: ThemeColor { color: Rgb { r: 55, g: 65, b: 81 }, alpha: 80 },
            debug_text_color: ThemeColor { color: Rgb { r: 0, g: 0, b: 0 }, alpha: 100 },
            color_swatch_text_color: ThemeColor { color: Rgb { r: 55, g: 65, b: 81 }, alpha: 80 },
            default_bg_color: ThemeColor { color: Rgb { r: 255, g: 255, b: 255 }, alpha: 100 },
        },
        ThemeMode::Dark => Theme {
            window_bg_color: ThemeColor { color: Rgb { r: 15, g: 23, b: 42 }, alpha: 100 },
            post_it_stroke_color: ThemeColor { color: Rgb { r: 0, g: 0, b: 0 }, alpha: 70 },
            post_it_shadow_color: ThemeColor { color: Rgb { r: 75, g: 85, b: 99 }, alpha: 90 },
            default_text_color: ThemeColor { color: Rgb { r: 229, g: 231, b: 235 }, alpha: 80 },
            debug_text_color: ThemeColor { color: Rgb { r: 255, g: 255, b: 255 }, alpha: 100 },
            color_swatch_text_color: ThemeColor { color: Rgb { r: 229, g: 231, b: 235 }, alpha: 80 },
            default_bg_color: ThemeColor { color: Rgb { r: 71, g: 85, b: 105 }, alpha: 100 },
        },
    }
}

} // verus!
