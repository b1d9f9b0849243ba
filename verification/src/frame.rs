//! What a frame hands back: the operations that the caller performs on its
//! surface, in this order and none left out.

use crate::color::Color;
use crate::draw2d::{shapes, DrawCommand, Shape};
use crate::text::{lines, Line, TextRun};
use vstd::prelude::*;

verus! {

/// One operation on the surface.
#[derive(Debug, PartialEq, Eq)]
pub enum SurfaceOp {
    /// Fill the whole surface with one colour.
    Clear { color: Color },
    /// Issue a flushed batch of draw commands, first to last. An empty
    /// batch submits nothing.
    Geometry { batch: Vec<DrawCommand> },
    /// Issue a flushed batch of text draws, first to last.
    Text { batch: Vec<TextRun> },
    /// Show what was drawn.
    Present,
}

/// What an operation does, with its batch as a sequence.
pub enum Step {
    Clear { color: Color },
    Geometry { shapes: Seq<Shape> },
    Text { lines: Seq<Line> },
    Present,
}

impl View for SurfaceOp {
    type V = Step;

    open spec fn view(&self) -> Step {
        match *self {
            SurfaceOp::Clear { color } => Step::Clear { color },
            SurfaceOp::Geometry { batch } => Step::Geometry { shapes: shapes(batch@) },
            SurfaceOp::Text { batch } => Step::Text { lines: lines(batch@) },
            SurfaceOp::Present => Step::Present,
        }
    }
}

/// What a list of operations does, in order.
pub open spec fn steps(ops: Seq<SurfaceOp>) -> Seq<Step> {
    ops.map_values(|op: SurfaceOp| op@)
}

} // verus!
