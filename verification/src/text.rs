//! The deferred queue of text draws. It is apart from the queue of 2D
//! geometry because text goes through another pipeline of the surface;
//! both queues are flushed once per frame.

use crate::color::Color;
use crate::geometry::Point;
use vstd::prelude::*;

verus! {

/// What layout has to know of a fixed-pitch font: how far one character
/// advances the pen, and how tall a line is, in pixels.
#[derive(Clone, Copy, Debug, PartialEq, Eq, Structural)]
pub struct FontMetrics {
    pub advance: u16,
    pub line_height: u16,
}

/// One queued text draw: a line of text with its top-left corner.
#[derive(Clone, Debug, PartialEq, Eq)]
pub struct TextRun {
    pub text: String,
    pub position: Point,
    pub color: Color,
}

/// What a text draw shows: the run with its text as a sequence of characters.
pub struct Line {
    pub text: Seq<char>,
    pub position: Point,
    pub color: Color,
}

impl View for TextRun {
    type V = Line;

    open spec fn view(&self) -> Line {
        Line { text: self.text@, position: self.position, color: self.color }
    }
}

/// What a list of text draws shows, in order.
pub open spec fn lines(runs: Seq<TextRun>) -> Seq<Line> {
    runs.map_values(|r: TextRun| r@)
}

/// The queue of pending text draws. Its view is what the pending draws
/// show, oldest first.
pub struct TextRenderer {
    queue: Vec<TextRun>,
}

impl View for TextRenderer {
    type V = Seq<Line>;

    closed spec fn view(&self) -> Seq<Line> {
        lines(self.queue@)
    }
}

impl TextRenderer {
    /// A renderer with nothing pending.
    pub fn new() -> (t: TextRenderer)
        ensures
            t@ == Seq::<Line>::empty(),
    {
        TextRenderer { queue: Vec::new() }
    }

    /// How many text draws are pending.
    pub fn pending(&self) -> (n: usize)
        ensures
            n == self@.len(),
    {
        self.queue.len()
    }

    /// Enqueues a line of text.
    pub fn draw_text(&mut self, text: String, position: Point, color: Color)
        ensures
            final(self)@ == old(self)@.push(Line { text: text@, position, color }),
    {
        let run = TextRun { text, position, color };
        self.queue.push(run);
        assert(lines(old(self).queue@.push(run)) == lines(old(self).queue@).push(run@));
    }

    /// Flushes the queue: hands out every pending text draw, oldest first,
    /// for the caller to issue against its surface, and leaves the queue
    /// empty.
    pub fn render_queued(&mut self) -> (batch: Vec<TextRun>)
        ensures
            lines(batch@) == old(self)@,
            batch@.len() == old(self)@.len(),
            final(self)@ == Seq::<Line>::empty(),
    {
        let mut batch: Vec<TextRun> = Vec::new();
        core::mem::swap(&mut batch, &mut self.queue);
        assert(lines(self.queue@) == Seq::<Line>::empty());
        batch
    }
}

} // verus!
