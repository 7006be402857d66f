//! The pointer as the canvas sees it.
use crate::geometry::Vec2;
use vstd::prelude::*;

verus! {

/// Where the pointer is, in canvas coordinates, and where the primary
/// button went down if it is being held.
#[derive(Clone, Copy, Debug, PartialEq, Eq, Structural)]
pub struct CursorCoords {
    pub current: Vec2,
    pub hold_start: Option<Vec2>,
}

impl CursorCoords {
    /// Both positions lie on the canvas.
    pub open spec fn wf(self) -> bool {
        &&& self.current.in_canvas()
        &&& self.hold_start is Some ==> self.hold_start.unwrap().in_canvas()
    }

    /// How far the pointer has moved since the press; zero when not pressing.
    pub open spec fn spec_hold_distance(self) -> Vec2 {
        match self.hold_start {
            Some(start) => self.current.spec_minus(start),
            None => Vec2 { x: 0, y: 0 },
        }
    }

    /// The pointer at the origin, with no button held.
    pub fn new() -> (r: CursorCoords)
        ensures
            r.current == (Vec2 { x: 0, y: 0 }),
            r.hold_start is None,
            r.wf(),
    {
        CursorCoords { current: Vec2::zero(), hold_start: None }
    }

    pub fn is_holding(&self) -> (r: bool)
        ensures
            r == self.hold_start is Some,
    {
        self.hold_start.is_some()
    }

    pub fn hold_distance(&self) -> (r: Vec2)
        requires
            self.wf(),
        ensures
            r == self.spec_hold_distance(),
    {
        match self.hold_start {
            Some(start) => self.current.minus(start),
            None => Vec2::zero(),
        }
    }
}

} // verus!
