//! The pieces of a selection: the rubber-band box, the marker a selected item
//! carries, and the bounding rectangle drawn around the whole selection.
use crate::geometry::{Rect, Vec2, in_range, max_of, min_of};
use vstd::prelude::*;

verus! {

/// The rubber-band rectangle, spanned by the press position and the pointer.
#[derive(Clone, Copy, Debug, PartialEq, Eq, Structural)]
pub struct SelectionBox {
    pub start_position: Vec2,
    pub end_position: Vec2,
}

impl SelectionBox {
    /// The rectangle between the two corners, whichever way round they lie.
    pub open spec fn spec_rect(self) -> Rect {
        Rect {
            min: Vec2 {
                x: min_of(self.start_position.x, self.end_position.x),
                y: min_of(self.start_position.y, self.end_position.y),
            },
            max: Vec2 {
                x: max_of(self.start_position.x, self.end_position.x),
                y: max_of(self.start_position.y, self.end_position.y),
            },
        }
    }

    /// Moves the free corner to `position`; the press corner stays.
    pub fn update(&mut self, position: Vec2)
        ensures
            final(self).start_position == old(self).start_position,
            final(self).end_position == position,
    {
        self.end_position = position;
    }

    pub fn rect(&self) -> (r: Rect)
        ensures
            r == self.spec_rect(),
            r.wf(),
    {
        Rect::from_corners(self.start_position, self.end_position)
    }
}

/// The rectangle around the selected items: `rect` follows a drag as it
/// happens, `initial_rect` is where the selection rested when the drag began.
#[derive(Clone, Copy, Debug, PartialEq, Eq, Structural)]
pub struct SelectedRect {
    pub rect: Rect,
    pub initial_rect: Rect,
}

impl SelectedRect {
    pub fn new(rect: Rect) -> (r: SelectedRect)
        ensures
            r.rect == rect,
            r.initial_rect == rect,
    {
        SelectedRect { rect, initial_rect: rect }
    }

    /// Moves the live rectangle, keeping its size, so that its center
    /// (rounded down) comes to `position`.
    pub fn move_to(&mut self, position: Vec2)
        requires
            old(self).rect.in_canvas(),
            position.in_canvas(),
            in_range(position.x + (old(self).rect.max.x - old(self).rect.min.x)),
            in_range(position.y + (old(self).rect.max.y - old(self).rect.min.y)),
        ensures
            final(self).rect == old(self).rect.spec_translate(
                position.spec_minus(old(self).rect.spec_center()),
            ),
            final(self).rect.spec_center() == position,
            final(self).rect.max.x - final(self).rect.min.x == old(self).rect.max.x
                - old(self).rect.min.x,
            final(self).rect.max.y - final(self).rect.min.y == old(self).rect.max.y
                - old(self).rect.min.y,
            final(self).initial_rect == old(self).initial_rect,
    {
        let center = self.rect.center();
        let d = position.minus(center);
        self.rect = self.rect.translate(d);
    }

    /// Replaces the live rectangle.
    pub fn update(&mut self, rect: Rect)
        ensures
            final(self).rect == rect,
            final(self).initial_rect == old(self).initial_rect,
    {
        self.rect = rect;
    }

    /// Takes the live rectangle as the new resting one.
    pub fn commit(&mut self)
        ensures
            final(self).rect == old(self).rect,
            final(self).initial_rect == old(self).rect,
    {
        self.initial_rect = self.rect;
    }

    pub fn contains(&self, position: Vec2) -> (r: bool)
        ensures
            r == self.rect.spec_contains(position),
    {
        self.rect.contains(position)
    }

    pub fn initial_rect(&self) -> (r: Rect)
        ensures
            r == self.initial_rect,
    {
        self.initial_rect
    }

    /// The center of the resting rectangle.
    pub fn initial_point(&self) -> (r: Vec2)
        requires
            self.initial_rect.in_canvas(),
        ensures
            r == self.initial_rect.spec_center(),
    {
        self.initial_rect.center()
    }
}

/// Marks a selected item; holds where the item rested when the current
/// press began, which a drag moves it away from.
#[derive(Clone, Copy, Debug, PartialEq, Eq, Structural)]
pub struct Selected {
    pub start_position: Vec2,
}

impl Selected {
    pub fn new(start_position: Vec2) -> (r: Selected)
        ensures
            r.start_position == start_position,
    {
        Selected { start_position }
    }
}

/// Where a shape is anchored relative to its position.
#[derive(Clone, Copy, Debug, PartialEq, Eq, Structural)]
pub enum RectangleOrigin {
    Center,
    BottomLeft,
    BottomRight,
    TopLeft,
    TopRight,
}

/// The corner from which the rubber-band shape grows, given the pointer's
/// displacement from the press: the shape lies on the side of the
/// displacement, so it is anchored at the opposite corner. On an axis
/// the displacement is zero it has no area, and is anchored at its center.
pub fn get_anchor(position: Vec2) -> (r: RectangleOrigin)
    ensures
        r == (if position.x > 0 && position.y > 0 {
            RectangleOrigin::BottomLeft
        } else if position.x < 0 && position.y > 0 {
            RectangleOrigin::BottomRight
        } else if position.x > 0 && position.y < 0 {
            RectangleOrigin::TopLeft
        } else if position.x < 0 && position.y < 0 {
            RectangleOrigin::TopRight
        } else {
            RectangleOrigin::Center
        }),
{
    if position.x > 0 && position.y > 0 {
        RectangleOrigin::BottomLeft
    } else if position.x < 0 && position.y > 0 {
        RectangleOrigin::BottomRight
    } else if position.x > 0 && position.y < 0 {
        RectangleOrigin::TopLeft
    } else if position.x < 0 && position.y < 0 {
        RectangleOrigin::TopRight
    } else {
        RectangleOrigin::Center
    }
}

} // verus!
