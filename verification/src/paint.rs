//! What the placed widgets paint: the look of each, the shapes and the text
//! that it enqueues, and the hit region that it leaves behind.
//!
//! The look of a button follows the pointer as the frame's input gives it:
//! without a cursor position every button has its normal look, away from the
//! cursor too; under the cursor a button is selected, and active while it is
//! held.

use crate::color::Color;
use crate::draw2d::{Draw2d, Shape};
use crate::geometry::{Point, Rect};
use crate::interaction::{state_in, InteractionState, InteractionStateStore, WidgetId};
use crate::layout::{within_limit, Placed, PlacedWidget};
use crate::text::{Line, TextRenderer};
use crate::theme::Theme;
use vstd::prelude::*;

verus! {

/// The visual variant of a button.
#[derive(Clone, Copy, Debug, PartialEq, Eq, Structural)]
pub enum Look {
    Normal,
    Selected,
    Active,
}

/// The look of a button in `state` that stands at `area`.
pub open spec fn look_of(state: InteractionState, area: Rect, cursor: Option<Point>) -> Look {
    match cursor {
        None => Look::Normal,
        Some(p) => if !area.covers(p) {
            Look::Normal
        } else if state.active {
            Look::Active
        } else {
            Look::Selected
        },
    }
}

/// The fill that the theme gives a button of that look.
pub open spec fn fill_of(theme: Theme, look: Look) -> Color {
    match look {
        Look::Normal => theme.button_fill_color,
        Look::Selected => theme.button_selected_fill_color,
        Look::Active => theme.button_active_fill_color,
    }
}

/// The four corners of a rectangle, clockwise from the top-left one.
pub open spec fn corners(area: Rect) -> Seq<Point> {
    seq![
        Point { x: area.x, y: area.y },
        Point { x: (area.x + area.width) as i32, y: area.y },
        Point { x: (area.x + area.width) as i32, y: (area.y + area.height) as i32 },
        Point { x: area.x, y: (area.y + area.height) as i32 },
    ]
}

/// The closed line around a rectangle: its corners, and the first again.
pub open spec fn outline(area: Rect) -> Seq<Point> {
    corners(area).push(Point { x: area.x, y: area.y })
}

/// The shapes of one placed leaf. A button is a filled rectangle with a
/// border one pixel wide; a label has no shape.
pub open spec fn item_shapes(
    item: Placed,
    theme: Theme,
    states: Map<WidgetId, InteractionState>,
    cursor: Option<Point>,
) -> Seq<Shape> {
    match item {
        Placed::Button { id, area, .. } => seq![
            Shape::FilledPolygon {
                points: corners(area),
                color: fill_of(theme, look_of(state_in(states, id), area, cursor)),
            },
            Shape::LineStrip { points: outline(area), color: theme.button_border_color, width: 1 },
        ],
        Placed::Label { .. } => Seq::empty(),
    }
}

/// The text of one placed leaf: a button's caption stands inside its
/// padding, a label's text at the label's place.
pub open spec fn item_line(item: Placed, theme: Theme) -> Line {
    match item {
        Placed::Button { area, text, .. } => Line {
            text,
            position: Point {
                x: (area.x + theme.padding) as i32,
                y: (area.y + theme.padding) as i32,
            },
            color: theme.button_text_color,
        },
        Placed::Label { at, text } => Line { text, position: at, color: theme.label_color },
    }
}

/// The shapes of the first `n` placed leaves, in order.
pub open spec fn painted_shapes(
    items: Seq<Placed>,
    theme: Theme,
    states: Map<WidgetId, InteractionState>,
    cursor: Option<Point>,
    n: nat,
) -> Seq<Shape>
    decreases n,
{
    if n == 0 || n > items.len() {
        Seq::empty()
    } else {
        painted_shapes(items, theme, states, cursor, (n - 1) as nat) + item_shapes(
            items[n - 1],
            theme,
            states,
            cursor,
        )
    }
}

/// The text of the first `n` placed leaves, in order.
pub open spec fn painted_lines(items: Seq<Placed>, theme: Theme, n: nat) -> Seq<Line>
    decreases n,
{
    if n == 0 || n > items.len() {
        Seq::empty()
    } else {
        painted_lines(items, theme, (n - 1) as nat).push(item_line(items[n - 1], theme))
    }
}

/// The hit regions after the first `n` placed leaves were drawn: each
/// button's region is where it stands now, every other region is as before.
pub open spec fn recorded_regions(regions: Map<WidgetId, Rect>, items: Seq<Placed>, n: nat) -> Map<
    WidgetId,
    Rect,
>
    decreases n,
{
    if n == 0 || n > items.len() {
        regions
    } else {
        let earlier = recorded_regions(regions, items, (n - 1) as nat);
        match items[n - 1] {
            Placed::Button { id, area, .. } => earlier.insert(id, area),
            Placed::Label { .. } => earlier,
        }
    }
}

/// Picks the look of a button. Without a cursor position the look is
/// normal: nothing is hovered and nothing is active.
pub fn choose_look(state: InteractionState, area: Rect, cursor: Option<Point>) -> (look: Look)
    ensures
        look == look_of(state, area, cursor),
        cursor is None ==> look == Look::Normal,
{
    match cursor {
        None => Look::Normal,
        Some(p) => {
            if !area.contains(p) {
                Look::Normal
            } else if state.active {
                Look::Active
            } else {
                Look::Selected
            }
        },
    }
}

/// The fill that the theme gives a button of that look.
pub fn fill_color(theme: &Theme, look: Look) -> (color: Color)
    ensures
        color == fill_of(*theme, look),
{
    match look {
        Look::Normal => theme.button_fill_color,
        Look::Selected => theme.button_selected_fill_color,
        Look::Active => theme.button_active_fill_color,
    }
}

/// Enqueues what one placed leaf paints. Nothing is flushed.
pub fn paint_item(
    item: &PlacedWidget,
    theme: &Theme,
    store: &InteractionStateStore,
    cursor: Option<Point>,
    draw_2d: &mut Draw2d,
    text: &mut TextRenderer,
)
    requires
        within_limit(item@),
    ensures
        final(draw_2d)@ == old(draw_2d)@ + item_shapes(item@, *theme, store@, cursor),
        final(text)@ == old(text)@.push(item_line(item@, *theme)),
{
    match item {
        PlacedWidget::Button { id, area, text: caption } => {
            let look = choose_look(store.get(*id), *area, cursor);
            let right: i32 = area.x + area.width as i32;
            let bottom: i32 = area.y + area.height as i32;
            let mut points: Vec<Point> = Vec::new();
            points.push(Point { x: area.x, y: area.y });
            points.push(Point { x: right, y: area.y });
            points.push(Point { x: right, y: bottom });
            points.push(Point { x: area.x, y: bottom });
            assert(points@ == corners(*area));
            draw_2d.fill_poly(points.as_slice(), fill_color(theme, look));
            points.push(Point { x: area.x, y: area.y });
            assert(points@ == outline(*area));
            draw_2d.draw_line_strip(points.as_slice(), theme.button_border_color, 1);
            let inside = Point {
                x: area.x + theme.padding as i32,
                y: area.y + theme.padding as i32,
            };
            text.draw_text(caption.clone(), inside, theme.button_text_color);
            assert(draw_2d@ == old(draw_2d)@ + item_shapes(item@, *theme, store@, cursor));
        },
        PlacedWidget::Label { at, text: content } => {
            text.draw_text(content.clone(), *at, theme.label_color);
            assert(draw_2d@ == old(draw_2d)@ + item_shapes(item@, *theme, store@, cursor));
        },
    }
}

/// Without a cursor position every button has the theme's normal fill,
/// whatever its state: nothing counts as hovered or active then.
pub proof fn law_absent_cursor(
    id: WidgetId,
    area: Rect,
    text: Seq<char>,
    theme: Theme,
    states: Map<WidgetId, InteractionState>,
)
    ensures
        look_of(state_in(states, id), area, None) == Look::Normal,
        item_shapes(Placed::Button { id, area, text }, theme, states, None)[0] == (
        Shape::FilledPolygon { points: corners(area), color: theme.button_fill_color }),
{
}

/// A button that the cursor is not over has the theme's normal fill,
/// whatever its state.
pub proof fn law_normal_fill_away_from_cursor(
    id: WidgetId,
    area: Rect,
    text: Seq<char>,
    theme: Theme,
    states: Map<WidgetId, InteractionState>,
    cursor: Option<Point>,
)
    requires
        cursor matches Some(p) ==> !area.covers(p),
    ensures
        look_of(state_in(states, id), area, cursor) == Look::Normal,
        item_shapes(Placed::Button { id, area, text }, theme, states, cursor)[0] == (
        Shape::FilledPolygon { points: corners(area), color: theme.button_fill_color }),
{
}

} // verus!
