//! Input events. A batch is the ordered list of events of exactly one frame.

use crate::geometry::Point;
use vstd::prelude::*;

verus! {

/// One input event.
#[derive(Clone, Debug, PartialEq, Eq)]
pub enum Event {
    KeyDown { key: String },
    KeyUp { key: String },
    PointerMove { at: Point },
    PointerDown { at: Point },
    PointerUp { at: Point },
}

impl Event {
    /// Where the pointer was when the event happened; key events have no
    /// position.
    pub open spec fn position(self) -> Option<Point> {
        match self {
            Event::PointerMove { at } => Some(at),
            Event::PointerDown { at } => Some(at),
            Event::PointerUp { at } => Some(at),
            _ => None,
        }
    }
}

} // verus!
