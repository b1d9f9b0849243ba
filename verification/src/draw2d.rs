//! The deferred queue of 2D draw commands.
//!
//! Drawing calls only append to the queue. Nothing reaches the surface until
//! `render_queued` hands the whole queue out, in the order in which the
//! commands were enqueued, and leaves the queue empty. Later commands paint
//! over earlier ones; there is no depth.

use crate::color::Color;
use crate::geometry::Point;
use vstd::prelude::*;

verus! {

/// The handle of a texture that the caller has uploaded.
pub type TextureId = u32;

/// One queued draw command.
#[derive(Clone, Debug, PartialEq, Eq)]
pub enum DrawCommand {
    FilledPolygon { points: Vec<Point>, color: Color },
    LineStrip { points: Vec<Point>, color: Color, width: u32 },
    Image { texture: TextureId, position: Point, scale: u32 },
}

/// What a draw command paints: the command with its points as a sequence.
pub enum Shape {
    FilledPolygon { points: Seq<Point>, color: Color },
    LineStrip { points: Seq<Point>, color: Color, width: u32 },
    Image { texture: TextureId, position: Point, scale: u32 },
}

impl View for DrawCommand {
    type V = Shape;

    open spec fn view(&self) -> Shape {
        match *self {
            DrawCommand::FilledPolygon { points, color } => Shape::FilledPolygon {
                points: points@,
                color,
            },
            DrawCommand::LineStrip { points, color, width } => Shape::LineStrip {
                points: points@,
                color,
                width,
            },
            DrawCommand::Image { texture, position, scale } => Shape::Image {
                texture,
                position,
                scale,
            },
        }
    }
}

/// What a list of commands paints, in order.
pub open spec fn shapes(commands: Seq<DrawCommand>) -> Seq<Shape> {
    commands.map_values(|c: DrawCommand| c@)
}

/// The queue of pending draw commands. Its view is what the pending
/// commands paint, oldest first.
pub struct Draw2d {
    queue: Vec<DrawCommand>,
}

impl View for Draw2d {
    type V = Seq<Shape>;

    closed spec fn view(&self) -> Seq<Shape> {
        shapes(self.queue@)
    }
}

fn copy_points(points: &[Point]) -> (own: Vec<Point>)
    ensures
        own@ == points@,
{
    let mut own: Vec<Point> = Vec::new();
    let mut i: usize = 0;
    while i < points.len()
        invariant
            i <= points.len(),
            own@ == points@.take(i as int),
        decreases points.len() - i,
    {
        own.push(points[i]);
        assert(points@.take(i + 1) == points@.take(i as int).push(points@[i as int]));
        i = i + 1;
    }
    assert(points@.take(points@.len() as int) == points@);
    own
}

impl Draw2d {
    /// A queue with nothing pending.
    pub fn new() -> (d: Draw2d)
        ensures
            d@ == Seq::<Shape>::empty(),
    {
        Draw2d { queue: Vec::new() }
    }

    /// How many commands are pending.
    pub fn pending(&self) -> (n: usize)
        ensures
            n == self@.len(),
    {
        self.queue.len()
    }

    fn enqueue(&mut self, command: DrawCommand)
        ensures
            final(self)@ == old(self)@.push(command@),
    {
        self.queue.push(command);
        assert(shapes(old(self).queue@.push(command)) == shapes(old(self).queue@).push(command@));
    }

    /// Enqueues a polygon filled with one colour.
    pub fn fill_poly(&mut self, points: &[Point], color: Color)
        ensures
            final(self)@ == old(self)@.push(Shape::FilledPolygon { points: points@, color }),
    {
        let own = copy_points(points);
        self.enqueue(DrawCommand::FilledPolygon { points: own, color });
    }

    /// Enqueues an open line through the points, `width` pixels wide.
    pub fn draw_line_strip(&mut self, points: &[Point], color: Color, width: u32)
        ensures
            final(self)@ == old(self)@.push(Shape::LineStrip { points: points@, color, width }),
    {
        let own = copy_points(points);
        self.enqueue(DrawCommand::LineStrip { points: own, color, width });
    }

    /// Enqueues a texture, its top-left corner at `position`, magnified
    /// `scale` times.
    pub fn draw_image(&mut self, texture: TextureId, position: Point, scale: u32)
        ensures
            final(self)@ == old(self)@.push(Shape::Image { texture, position, scale }),
    {
        self.enqueue(DrawCommand::Image { texture, position, scale });
    }

    /// Flushes the queue: hands out every pending command, oldest first, for
    /// the caller to issue against its surface, and leaves the queue empty.
    /// On an empty queue the batch is empty and nothing is to be issued.
    pub fn render_queued(&mut self) -> (batch: Vec<DrawCommand>)
        ensures
            shapes(batch@) == old(self)@,
            batch@.len() == old(self)@.len(),
            final(self)@ == Seq::<Shape>::empty(),
    {
        let mut batch: Vec<DrawCommand> = Vec::new();
        core::mem::swap(&mut batch, &mut self.queue);
        assert(shapes(self.queue@) == Seq::<Shape>::empty());
        batch
    }
}

} // verus!
