//! Items on the canvas and the counter that orders them front to back.
use crate::geometry::{Rect, Vec2, box_fits};
use crate::select::Selected;
use vstd::prelude::*;

verus! {

/// What an item shows; the board treats every kind alike.
#[derive(Clone, Copy, Debug, PartialEq, Eq, Structural)]
pub enum ItemKind {
    PostIt,
    ColorSwatch,
    CanvasText,
    ImageItem,
}

/// A note, swatch, text box or image placed on the canvas.
#[derive(Clone, Copy, Debug, PartialEq, Eq, Structural)]
pub struct Item {
    /// Stable identity, never reused on a board.
    pub id: u64,
    pub kind: ItemKind,
    /// The center of the item.
    pub position: Vec2,
    /// Half the width and half the height of its bounding box.
    pub half_extents: Vec2,
    /// Depth: higher is drawn above and wins a click.
    pub z: u64,
    /// Present while the item is selected.
    pub selected: Option<Selected>,
}

impl Item {
    /// The item's bounding box where it is now.
    pub open spec fn bounds(self) -> Rect {
        Rect::around(self.position, self.half_extents)
    }

    /// The bounding box where the selected item rested when the press began.
    pub open spec fn rest_bounds(self) -> Rect {
        Rect::around(self.selected.unwrap().start_position, self.half_extents)
    }

    /// Its extents are not negative and its boxes lie on the canvas.
    pub open spec fn wf(self) -> bool {
        &&& box_fits(self.position, self.half_extents)
        &&& self.selected is Some ==> box_fits(
            self.selected.unwrap().start_position,
            self.half_extents,
        )
    }

    pub fn rect(&self) -> (r: Rect)
        requires
            self.wf(),
        ensures
            r == self.bounds(),
            r.in_canvas(),
    {
        Rect::from_center_half_size(self.position, self.half_extents)
    }
}

/// Counts up each time an item is placed or brought to the front; the
/// count is the depth given to that item.
#[derive(Clone, Copy, Debug, PartialEq, Eq, Structural)]
pub struct ItemCounter {
    count: u64,
}

/// The next count: one more, held at the top of the range once it is reached.
pub open spec fn next_count(c: u64) -> u64 {
    if c < u64::MAX {
        (c + 1) as u64
    } else {
        c
    }
}

impl View for ItemCounter {
    type V = u64;

    closed spec fn view(&self) -> u64 {
        self.count
    }
}

impl ItemCounter {
    pub fn new() -> (r: ItemCounter)
        ensures
            r@ == 0,
    {
        ItemCounter { count: 0 }
    }

    pub fn count(&self) -> (r: u64)
        ensures
            r == self@,
    {
        self.count
    }

    pub fn increment(&mut self)
        ensures
            final(self)@ == next_count(old(self)@),
    {
        if self.count < u64::MAX {
            self.count = self.count + 1;
        }
    }
}

/// What a new item is made of: its kind and the half extents of its box.
#[derive(Clone, Copy, Debug, PartialEq, Eq, Structural)]
pub struct ItemBundle {
    pub kind: ItemKind,
    pub half_extents: Vec2,
}

/// A note is 400 by 420.
pub const POST_IT_HALF_WIDTH: i64 = 200;
pub const POST_IT_HALF_HEIGHT: i64 = 210;
/// A swatch is 220 by 250.
pub const SWATCH_HALF_WIDTH: i64 = 110;
pub const SWATCH_HALF_HEIGHT: i64 = 125;
/// An image frame is 800 by 534.
pub const IMAGE_HALF_WIDTH: i64 = 400;
pub const IMAGE_HALF_HEIGHT: i64 = 267;

impl ItemBundle {
    pub open spec fn spec_post_it() -> ItemBundle {
        ItemBundle {
            kind: ItemKind::PostIt,
            half_extents: Vec2 { x: POST_IT_HALF_WIDTH, y: POST_IT_HALF_HEIGHT },
        }
    }

    pub open spec fn spec_color_swatch() -> ItemBundle {
        ItemBundle {
            kind: ItemKind::ColorSwatch,
            half_extents: Vec2 { x: SWATCH_HALF_WIDTH, y: SWATCH_HALF_HEIGHT },
        }
    }

    pub open spec fn spec_image() -> ItemBundle {
        ItemBundle {
            kind: ItemKind::ImageItem,
            half_extents: Vec2 { x: IMAGE_HALF_WIDTH, y: IMAGE_HALF_HEIGHT },
        }
    }

    pub open spec fn spec_text() -> ItemBundle {
        ItemBundle { kind: ItemKind::CanvasText, half_extents: Vec2 { x: 0, y: 0 } }
    }

    pub fn post_it() -> (r: ItemBundle)
        ensures
            r == Self::spec_post_it(),
    {
        ItemBundle {
            kind: ItemKind::PostIt,
            half_extents: Vec2::new(POST_IT_HALF_WIDTH, POST_IT_HALF_HEIGHT),
        }
    }

    pub fn color_swatch() -> (r: ItemBundle)
        ensures
            r == Self::spec_color_swatch(),
    {
        ItemBundle {
            kind: ItemKind::ColorSwatch,
            half_extents: Vec2::new(SWATCH_HALF_WIDTH, SWATCH_HALF_HEIGHT),
        }
    }

    pub fn image() -> (r: ItemBundle)
        ensures
            r == Self::spec_image(),
    {
        ItemBundle {
            kind: ItemKind::ImageItem,
            half_extents: Vec2::new(IMAGE_HALF_WIDTH, IMAGE_HALF_HEIGHT),
        }
    }

    /// A text box has no extent until its text is laid out.
    pub fn text() -> (r: ItemBundle)
        ensures
            r == Self::spec_text(),
    {
        ItemBundle { kind: ItemKind::CanvasText, half_extents: Vec2::zero() }
    }
}

} // verus!
