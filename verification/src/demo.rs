//! The session: a mark that the arrow keys move, a button that counts its
//! presses, and the frame callback that ties input, state and drawing
//! together.
//!
//! All of the session's state is in `Demo`, and only the frame callback and
//! the three steps that it is made of change it.

use crate::color::Color;
use crate::decimal::{decimal, lemma_decimal_length, write_decimal};
use crate::draw2d::{Draw2d, Shape, TextureId};
use crate::event::Event;
use crate::frame::{steps, Step, SurfaceOp};
use crate::geometry::{Point, Rect};
use crate::gui::{region_in, routed_states, Gui};
use crate::interaction::{
    law_single_press, law_untouched_widget, presses, state_in, touches, InteractionState, WidgetId,
};
use crate::keys::{held, in_range, move_by_keys, moved, FrameInput};
use crate::layout::{arrangement, fits, natural_height, natural_width, stacked, text_width, widest};
use crate::paint::{painted_lines, painted_shapes, recorded_regions};
use crate::text::{FontMetrics, Line, TextRenderer};
use crate::theme::Theme;
use crate::widgets::{identities, identities_of_first, Button, Col, IdSource, Node, Widget};
use fnv::FnvHashSet;
use vstd::prelude::*;
use vstd::string::StringExecFns;

verus! {

/// The look of the session's widgets, in the given font.
pub open spec fn demo_theme(font: FontMetrics) -> Theme {
    Theme {
        font,
        label_color: Color::black(),
        button_text_color: Color::black(),
        button_fill_color: Color::shade(51),
        button_border_color: Color::gray(51),
        button_selected_fill_color: Color::shade(153),
        button_active_fill_color: Color::shade(128),
        padding: 10,
    }
}

/// The text of the label that shows the count of presses.
pub open spec fn counter_text(count: nat) -> Seq<char> {
    "The button has been pressed "@ + decimal(count) + " times"@
}

/// The widget tree of a frame: the button at its natural width, and below
/// it the label with the count.
pub open spec fn demo_tree(id: WidgetId, caption: Seq<char>, count: nat) -> Node {
    Node::Col {
        children: seq![
            Node::NoFill { child: Box::new(Node::Button { id, text: caption }) },
            Node::Label { text: counter_text(count) },
        ],
    }
}

/// The geometry that a frame draws outside the widget tree: a blue
/// triangle, a red line, a black diamond around the mark, and the image.
pub open spec fn free_form(mark: Point, image: TextureId) -> Seq<Shape> {
    seq![
        Shape::FilledPolygon {
            points: seq![
                Point { x: 50, y: 50 },
                Point { x: 100, y: 50 },
                Point { x: 100, y: 100 },
            ],
            color: Color::blue(),
        },
        Shape::LineStrip {
            points: seq![
                Point { x: 50, y: 100 },
                Point { x: 100, y: 100 },
                Point { x: 50, y: 150 },
            ],
            color: Color::red(),
            width: 1,
        },
        Shape::FilledPolygon {
            points: seq![
                Point { x: mark.x, y: (mark.y + 5) as i32 },
                Point { x: (mark.x + 5) as i32, y: mark.y },
                Point { x: mark.x, y: (mark.y - 5) as i32 },
                Point { x: (mark.x - 5) as i32, y: mark.y },
            ],
            color: Color::black(),
        },
        Shape::Image { texture: image, position: Point { x: 300, y: 0 }, scale: 1 },
    ]
}

/// The surface operations of one drawing pass, in order: clear to white,
/// then the geometry (what was pending, the free-form shapes, the shapes of
/// the widget tree), then the text.
pub open spec fn drawn_steps(
    pending_shapes: Seq<Shape>,
    pending_lines: Seq<Line>,
    mark: Point,
    image: TextureId,
    tree: Node,
    theme: Theme,
    states: Map<WidgetId, InteractionState>,
    cursor: Option<Point>,
) -> Seq<Step> {
    let placed = arrangement(tree, theme);
    seq![
        Step::Clear { color: Color::white() },
        Step::Geometry {
            shapes: pending_shapes + free_form(mark, image) + painted_shapes(
                placed,
                theme,
                states,
                cursor,
                placed.len(),
            ),
        },
        Step::Text { lines: pending_lines + painted_lines(placed, theme, placed.len()) },
    ]
}

/// The session's tree has one identity, and layout can hold it in every
/// font.
pub proof fn lemma_demo_tree(id: WidgetId, font: FontMetrics, count: nat)
    requires
        count <= i32::MAX,
    ensures
        identities(demo_tree(id, "Click me"@, count)) == seq![id],
        identities(demo_tree(id, "Click me"@, count)).no_duplicates(),
        fits(demo_tree(id, "Click me"@, count), demo_theme(font)),
{
    let theme = demo_theme(font);
    let tree = demo_tree(id, "Click me"@, count);
    let children = tree->Col_children;
    reveal_with_fuel(identities_of_first, 3);
    reveal_with_fuel(identities, 3);
    reveal_with_fuel(widest, 3);
    reveal_with_fuel(stacked, 3);
    reveal_with_fuel(natural_width, 3);
    reveal_with_fuel(natural_height, 3);
    reveal_strlit("Click me");
    reveal_strlit("The button has been pressed ");
    reveal_strlit(" times");
    lemma_decimal_length(count);
    let label = counter_text(count);
    assert(children.len() == 2);
    assert(identities_of_first(children, 0) =~= Seq::<WidgetId>::empty());
    assert(identities(children[0]) =~= seq![id]);
    assert(identities_of_first(children, 1) =~= seq![id]);
    assert(identities(children[1]) =~= Seq::<WidgetId>::empty());
    assert(identities_of_first(children, 2) =~= seq![id]);
    assert(identities(tree) =~= seq![id]);
    assert(natural_width(children[0], theme) == text_width("Click me"@, font) + 20);
    assert(natural_width(children[1], theme) == text_width(label, font));
    assert(widest(children, theme, 0) == 0);
    assert(widest(children, theme, 1) == natural_width(children[0], theme));
    assert(natural_height(children[0], theme) == font.line_height + 20);
    assert(natural_height(children[1], theme) == font.line_height);
    assert(stacked(children, theme, 0) == 0);
    assert(stacked(children, theme, 1) == font.line_height + 20);
    assert(stacked(children, theme, 2) == 2 * font.line_height + 20);
    assert(label.len() <= 44);
    assert(text_width(label, font) <= 44 * 65_535) by (nonlinear_arith)
        requires
            text_width(label, font) == label.len() * font.advance,
            label.len() <= 44,
            font.advance <= 65_535,
    ;
    assert(text_width("Click me"@, font) <= 8 * 65_535) by (nonlinear_arith)
        requires
            text_width("Click me"@, font) == "Click me"@.len() * font.advance,
            "Click me"@.len() == 8,
            font.advance <= 65_535,
    ;
}

/// What a frame's widget tree is built from: the mark, the button, the
/// count of its presses, and the theme. The mark stays in the range in
/// which points move, and the count is never negative.
struct Scene {
    pos: Point,
    theme: Theme,
    button: Button,
    button_presses: i32,
}

impl Scene {
    #[verifier::type_invariant]
    spec fn well_formed(self) -> bool {
        &&& in_range(self.pos)
        &&& self.button_presses >= 0
        &&& self.theme == demo_theme(self.theme.font)
        &&& self.button.text@ == "Click me"@
    }

    /// The tree that the scene gives.
    spec fn tree(&self) -> Node {
        demo_tree(self.button.id, "Click me"@, self.button_presses as nat)
    }

    /// Composes the widget tree of a frame.
    fn compose(&self) -> (tree: Widget)
        ensures
            tree@ == self.tree(),
    {
        proof {
            use_type_invariant(self);
        }
        let mut label = String::from_str("The button has been pressed ");
        write_decimal(self.button_presses as u32, &mut label);
        label.append(" times");
        let tree = Col::new().child(Widget::no_fill(self.button.widget())).child(
            Widget::label(label),
        ).widget();
        assert(tree@->Col_children =~= self.tree()->Col_children);
        tree
    }
}

/// The session.
pub struct Demo {
    scene: Scene,
    gui: Gui,
    draw_2d: Draw2d,
    font: TextRenderer,
    image: TextureId,
}

impl Demo {
    /// Where the mark is.
    pub closed spec fn spec_position(&self) -> Point {
        self.scene.pos
    }

    /// How many presses of the button were counted.
    pub closed spec fn spec_button_presses(&self) -> i32 {
        self.scene.button_presses
    }

    /// The identity of the button.
    pub closed spec fn spec_button_id(&self) -> WidgetId {
        self.scene.button.id
    }

    /// The theme of the session.
    pub closed spec fn spec_theme(&self) -> Theme {
        self.scene.theme
    }

    /// The texture that every frame draws.
    pub closed spec fn image(&self) -> TextureId {
        self.image
    }

    /// The interaction states on record.
    pub closed spec fn states(&self) -> Map<WidgetId, InteractionState> {
        self.gui.states()
    }

    /// The hit regions on record.
    pub closed spec fn regions(&self) -> Map<WidgetId, Rect> {
        self.gui.regions()
    }

    /// What the queue of draw commands holds.
    pub closed spec fn pending_shapes(&self) -> Seq<Shape> {
        self.draw_2d@
    }

    /// What the queue of text draws holds.
    pub closed spec fn pending_lines(&self) -> Seq<Line> {
        self.font@
    }

    /// The widget tree that the session's state gives.
    pub open spec fn tree(&self) -> Node {
        demo_tree(self.spec_button_id(), "Click me"@, self.spec_button_presses() as nat)
    }

    /// Composes the widget tree of the next frame. This builds a
    /// description and draws nothing.
    pub fn compose(&self) -> (tree: Widget)
        ensures
            tree@ == self.tree(),
    {
        self.scene.compose()
    }

    /// How many presses a batch of events completes on the button, routed
    /// against the button's last-known hit region.
    pub open spec fn pending_presses(&self, events: Seq<Event>) -> nat {
        presses(
            state_in(self.states(), self.spec_button_id()),
            region_in(self.regions(), self.spec_button_id()),
            events,
        )
    }

    /// A session at its start: the mark at (150, 100), no press counted,
    /// no widget seen, nothing pending.
    pub fn new(font: FontMetrics, image: TextureId) -> (demo: Demo)
        ensures
            demo.position() == (Point { x: 150, y: 100 }),
            demo.button_presses() == 0,
            demo.theme() == demo_theme(font),
            demo.image() == image,
            demo.states() == Map::<WidgetId, InteractionState>::empty(),
            demo.regions() == Map::<WidgetId, Rect>::empty(),
            demo.pending_shapes() == Seq::<Shape>::empty(),
            demo.pending_lines() == Seq::<Line>::empty(),
    {
        let theme = Theme {
            font,
            label_color: Color::black(),
            button_text_color: Color::black(),
            button_fill_color: Color::shade(51),
            button_border_color: Color::gray(51),
            button_selected_fill_color: Color::shade(153),
            button_active_fill_color: Color::shade(128),
            padding: 10,
        };
        let mut ids = IdSource::new();
        let id = ids.fresh().unwrap();
        let scene = Scene {
            pos: Point { x: 150, y: 100 },
            theme,
            button: Button::new(id, "Click me"),
            button_presses: 0,
        };
        Demo { scene, gui: Gui::new(), draw_2d: Draw2d::new(), font: TextRenderer::new(), image }
    }

    /// Where the mark is.
    #[verifier::when_used_as_spec(spec_position)]
    pub fn position(&self) -> (p: Point)
        ensures
            p == self.position(),
            in_range(p),
    {
        proof {
            use_type_invariant(&self.scene);
        }
        self.scene.pos
    }

    /// How many presses of the button were counted.
    #[verifier::when_used_as_spec(spec_button_presses)]
    pub fn button_presses(&self) -> (n: i32)
        ensures
            n == self.button_presses(),
            n >= 0,
    {
        proof {
            use_type_invariant(&self.scene);
        }
        self.scene.button_presses
    }

    /// The identity of the button.
    #[verifier::when_used_as_spec(spec_button_id)]
    pub fn button_id(&self) -> (id: WidgetId)
        ensures
            id == self.button_id(),
    {
        self.scene.button.id
    }

    /// The theme of the session.
    #[verifier::when_used_as_spec(spec_theme)]
    pub fn theme(&self) -> (theme: Theme)
        ensures
            theme == self.theme(),
    {
        self.scene.theme
    }

    /// Where the button stood when it was last drawn.
    pub fn button_region(&self) -> (region: Option<Rect>)
        ensures
            region == region_in(self.regions(), self.button_id()),
    {
        self.gui.region(self.scene.button.id)
    }

    /// The first step of a frame: moves the mark by the arrow keys that are
    /// held, one pixel for each.
    pub fn handle_pressed_keys(&mut self, pressed_keys: &FnvHashSet<String>)
        ensures
            final(self).position() == moved(old(self).position(), held(*pressed_keys)),
            final(self).button_presses() == old(self).button_presses(),
            final(self).button_id() == old(self).button_id(),
            final(self).theme() == old(self).theme(),
            final(self).image() == old(self).image(),
            final(self).states() == old(self).states(),
            final(self).regions() == old(self).regions(),
            final(self).pending_shapes() == old(self).pending_shapes(),
            final(self).pending_lines() == old(self).pending_lines(),
    {
        proof {
            use_type_invariant(&self.scene);
        }
        self.scene.pos = move_by_keys(self.scene.pos, pressed_keys);
    }

    /// The second step of a frame: routes the batch of events to the
    /// button, and counts each press that it completes once.
    pub fn handle_events(&mut self, events: Vec<Event>)
        requires
            old(self).button_presses() + old(self).pending_presses(events@) <= i32::MAX,
        ensures
            final(self).button_presses() == old(self).button_presses() + old(
                self,
            ).pending_presses(events@),
            final(self).states() == routed_states(
                old(self).states(),
                old(self).regions(),
                events@,
                seq![old(self).button_id()],
            ),
            final(self).position() == old(self).position(),
            final(self).button_id() == old(self).button_id(),
            final(self).theme() == old(self).theme(),
            final(self).image() == old(self).image(),
            final(self).regions() == old(self).regions(),
            final(self).pending_shapes() == old(self).pending_shapes(),
            final(self).pending_lines() == old(self).pending_lines(),
    {
        proof {
            use_type_invariant(&self.scene);
        }
        let mut ids: Vec<WidgetId> = Vec::new();
        let id = self.scene.button.id;
        ids.push(id);
        assert(ids@ == seq![id]);
        let results = self.gui.handle_events(&events, ids.as_slice());
        let completed = results.presses(id);
        assert(ids@.contains(id)) by {
            assert(ids@[0] == id);
        }
        self.scene.button_presses = self.scene.button_presses + completed as i32;
    }

    /// The third step of a frame: clears the surface, enqueues the
    /// free-form geometry and then the widget tree, and flushes the queue
    /// of draw commands and then the queue of text. Both queues are empty
    /// afterwards.
    pub fn draw(&mut self, cursor_pos: Option<Point>) -> (ops: Vec<SurfaceOp>)
        ensures
            steps(ops@) == drawn_steps(
                old(self).pending_shapes(),
                old(self).pending_lines(),
                old(self).position(),
                old(self).image(),
                old(self).tree(),
                old(self).theme(),
                old(self).states(),
                cursor_pos,
            ),
            final(self).pending_shapes() == Seq::<Shape>::empty(),
            final(self).pending_lines() == Seq::<Line>::empty(),
            final(self).regions() == recorded_regions(
                old(self).regions(),
                arrangement(old(self).tree(), old(self).theme()),
                arrangement(old(self).tree(), old(self).theme()).len(),
            ),
            final(self).states() == old(self).states(),
            final(self).position() == old(self).position(),
            final(self).button_presses() == old(self).button_presses(),
            final(self).button_id() == old(self).button_id(),
            final(self).theme() == old(self).theme(),
            final(self).image() == old(self).image(),
    {
        proof {
            use_type_invariant(&self.scene);
        }
        let mut ops: Vec<SurfaceOp> = Vec::new();
        ops.push(SurfaceOp::Clear { color: Color::white() });

        let mut triangle: Vec<Point> = Vec::new();
        triangle.push(Point { x: 50, y: 50 });
        triangle.push(Point { x: 100, y: 50 });
        triangle.push(Point { x: 100, y: 100 });
        assert(triangle@ =~= free_form(self.scene.pos, self.image)[0]->FilledPolygon_points);
        self.draw_2d.fill_poly(triangle.as_slice(), Color::blue());
        let mut strip: Vec<Point> = Vec::new();
        strip.push(Point { x: 50, y: 100 });
        strip.push(Point { x: 100, y: 100 });
        strip.push(Point { x: 50, y: 150 });
        assert(strip@ =~= free_form(self.scene.pos, self.image)[1]->LineStrip_points);
        self.draw_2d.draw_line_strip(strip.as_slice(), Color::red(), 1);
        let mark = self.scene.pos;
        let mut diamond: Vec<Point> = Vec::new();
        diamond.push(Point { x: mark.x, y: mark.y + 5 });
        diamond.push(Point { x: mark.x + 5, y: mark.y });
        diamond.push(Point { x: mark.x, y: mark.y - 5 });
        diamond.push(Point { x: mark.x - 5, y: mark.y });
        assert(diamond@ =~= free_form(mark, self.image)[2]->FilledPolygon_points);
        self.draw_2d.fill_poly(diamond.as_slice(), Color::black());
        self.draw_2d.draw_image(self.image, Point { x: 300, y: 0 }, 1);
        assert(self.draw_2d@ =~= old(self).draw_2d@ + free_form(mark, self.image));

        let tree = self.scene.compose();
        proof {
            lemma_demo_tree(
                self.scene.button.id,
                self.scene.theme.font,
                self.scene.button_presses as nat,
            );
        }
        let drawn = self.gui.draw(
            &self.scene.theme,
            &mut self.draw_2d,
            &mut self.font,
            cursor_pos,
            tree,
        );
        assert(drawn is Ok);

        let geometry = self.draw_2d.render_queued();
        ops.push(SurfaceOp::Geometry { batch: geometry });
        let text = self.font.render_queued();
        ops.push(SurfaceOp::Text { batch: text });
        assert(steps(ops@) =~= drawn_steps(
            old(self).pending_shapes(),
            old(self).pending_lines(),
            old(self).position(),
            old(self).image(),
            old(self).tree(),
            old(self).theme(),
            old(self).states(),
            cursor_pos,
        ));
        ops
    }

    /// The frame callback, the one entry point of every display refresh. In
    /// this order: the held keys move the mark; the events are routed and
    /// the presses counted; the surface is cleared; the free-form geometry
    /// and the widget tree are enqueued; the queue of draw commands and
    /// then the queue of text are flushed; the frame is presented. What is
    /// drawn shows the state after this frame's input.
    pub fn render_frame(&mut self, events: Vec<Event>, input: &FrameInput) -> (ops: Vec<SurfaceOp>)
        requires
            old(self).button_presses() + old(self).pending_presses(events@) <= i32::MAX,
        ensures
            final(self).position() == moved(old(self).position(), held(input.pressed_keys)),
            final(self).button_presses() == old(self).button_presses() + old(
                self,
            ).pending_presses(events@),
            final(self).states() == routed_states(
                old(self).states(),
                old(self).regions(),
                events@,
                seq![old(self).button_id()],
            ),
            final(self).regions() == recorded_regions(
                old(self).regions(),
                arrangement(final(self).tree(), old(self).theme()),
                arrangement(final(self).tree(), old(self).theme()).len(),
            ),
            steps(ops@) == drawn_steps(
                old(self).pending_shapes(),
                old(self).pending_lines(),
                final(self).position(),
                old(self).image(),
                final(self).tree(),
                old(self).theme(),
                final(self).states(),
                input.cursor_position,
            ).push(Step::Present),
            final(self).pending_shapes() == Seq::<Shape>::empty(),
            final(self).pending_lines() == Seq::<Line>::empty(),
            final(self).button_id() == old(self).button_id(),
            final(self).theme() == old(self).theme(),
            final(self).image() == old(self).image(),
    {
        self.handle_pressed_keys(&input.pressed_keys);
        self.handle_events(events);
        let mut ops = self.draw(input.cursor_position);
        ops.push(SurfaceOp::Present);
        assert(steps(ops@) =~= steps(ops@.drop_last()).push(Step::Present));
        ops
    }
}

/// A batch with exactly one pointer-down and, after it, exactly one
/// pointer-up, both over the place where the button was last drawn, makes
/// the frame count exactly one press.
pub proof fn law_click_counts_once(demo: Demo, events: Seq<Event>, down: int, up: int)
    requires
        0 <= down < up < events.len(),
        events[down] is PointerDown,
        events[up] is PointerUp,
        touches(events[down], region_in(demo.regions(), demo.button_id())),
        touches(events[up], region_in(demo.regions(), demo.button_id())),
        forall|k: int| 0 <= k < events.len() && events[k] is PointerDown ==> k == down,
        forall|k: int| 0 <= k < events.len() && events[k] is PointerUp ==> k == up,
    ensures
        demo.pending_presses(events) == 1,
{
    law_single_press(
        state_in(demo.states(), demo.button_id()),
        region_in(demo.regions(), demo.button_id()),
        events,
        down,
        up,
    );
}

/// A batch in which no event touches the button makes the frame count
/// nothing.
pub proof fn law_quiet_frame_counts_nothing(demo: Demo, events: Seq<Event>)
    requires
        forall|k: int|
            0 <= k < events.len() ==> !touches(
                #[trigger] events[k],
                region_in(demo.regions(), demo.button_id()),
            ),
    ensures
        demo.pending_presses(events) == 0,
{
    law_untouched_widget(
        state_in(demo.states(), demo.button_id()),
        region_in(demo.regions(), demo.button_id()),
        events,
    );
}

} // verus!
