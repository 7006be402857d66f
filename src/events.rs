//! The commands the surrounding page sends the canvas, and what it sends back.
use crate::item::ItemBundle;
use crate::theme::ThemeMode;
use vstd::prelude::*;

verus! {

/// Switch to a theme.
#[derive(Clone, Copy, Debug, PartialEq, Eq, Structural)]
pub struct ThemeEvent {
    pub theme: ThemeMode,
}

/// The canvas's window was resized, in pixels.
#[derive(Clone, Copy, Debug, PartialEq, Eq, Structural)]
pub struct ResizeEvent {
    pub width: u32,
    pub height: u32,
}

/// Place a new item; each carries the text or color it was asked with.
#[derive(Clone, Debug)]
pub enum AddItemEvent {
    Text(String),
    Image(String),
    Swatch(String),
    PostIt(String),
}

/// Something the canvas reports to the page.
#[derive(Clone, Copy, Debug, PartialEq, Eq, Structural)]
pub enum OutputEvent {
    Click,
}

/// Any command from the page.
#[derive(Clone, Debug)]
pub enum InputEvent {
    Theme(ThemeEvent),
    Resize(ResizeEvent),
    AddItem(AddItemEvent),
}

/// The item an add command places: a note, a swatch or a text box. Images
/// are placed only by the canvas itself, so that command places nothing.
pub open spec fn spec_bundle_for(event: AddItemEvent) -> Option<ItemBundle> {
    match event {
        AddItemEvent::PostIt(_) => Some(ItemBundle::spec_post_it()),
        AddItemEvent::Swatch(_) => Some(ItemBundle::spec_color_swatch()),
        AddItemEvent::Text(_) => Some(ItemBundle::spec_text()),
        AddItemEvent::Image(_) => None,
    }
}

pub fn bundle_for(event: &AddItemEvent) -> (r: Option<ItemBundle>)
    ensures
        r == spec_bundle_for(*event),
{
    match event {
        AddItemEvent::PostIt(_) => Some(ItemBundle::post_it()),
        AddItemEvent::Swatch(_) => Some(ItemBundle::color_swatch()),
        AddItemEvent::Text(_) => Some(ItemBundle::text()),
        AddItemEvent::Image(_) => None,
    }
}

} // verus!
