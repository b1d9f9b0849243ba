use fnv::FnvHashSet;
use frame_cycle::color::Color;
use frame_cycle::demo::Demo;
use frame_cycle::draw2d::DrawCommand;
use frame_cycle::event::Event;
use frame_cycle::frame::SurfaceOp;
use frame_cycle::geometry::{Point, Rect, COORD_LIMIT};
use frame_cycle::keys::{move_by_keys, FrameInput};
use frame_cycle::text::{FontMetrics, TextRun};
use frame_cycle::widgets::{Col, Widget};

fn font() -> FontMetrics {
    FontMetrics { advance: 10, line_height: 16 }
}

fn keys(names: &[&str]) -> FnvHashSet<String> {
    let mut set = FnvHashSet::default();
    for name in names {
        set.insert(name.to_string());
    }
    set
}

fn input(names: &[&str], cursor: Option<Point>) -> FrameInput {
    FrameInput { pressed_keys: keys(names), cursor_position: cursor }
}

fn p(x: i32, y: i32) -> Point {
    Point { x, y }
}

#[test]
fn session_starts_at_rest() {
    let demo = Demo::new(font(), 4);
    assert_eq!(demo.position(), p(150, 100));
    assert_eq!(demo.button_presses(), 0);
    assert_eq!(demo.button_region(), None);
    assert_eq!(demo.theme().padding, 10);
    assert_eq!(demo.theme().font, font());
    assert_eq!(demo.theme().button_fill_color, Color { r: 0, g: 0, b: 0, a: 51 });
    assert_eq!(demo.theme().button_selected_fill_color, Color { r: 0, g: 0, b: 0, a: 153 });
    assert_eq!(demo.theme().button_active_fill_color, Color { r: 0, g: 0, b: 0, a: 128 });
    assert_eq!(demo.theme().button_border_color, Color { r: 51, g: 51, b: 51, a: 255 });
}

#[test]
fn click_on_the_button_counts_once() {
    let mut demo = Demo::new(font(), 4);
    demo.render_frame(vec![], &input(&[], None));
    assert_eq!(demo.button_region(), Some(Rect { x: 0, y: 0, width: 100, height: 36 }));
    assert_eq!(demo.button_presses(), 0);
    let events = vec![Event::PointerDown { at: p(20, 20) }, Event::PointerUp { at: p(20, 20) }];
    demo.render_frame(events, &input(&[], Some(p(20, 20))));
    assert_eq!(demo.button_presses(), 1);
    demo.render_frame(vec![], &input(&[], Some(p(20, 20))));
    assert_eq!(demo.button_presses(), 1);
}

#[test]
fn click_beside_the_button_counts_nothing() {
    let mut demo = Demo::new(font(), 4);
    demo.render_frame(vec![], &input(&[], None));
    let events = vec![Event::PointerDown { at: p(120, 20) }, Event::PointerUp { at: p(120, 20) }];
    demo.render_frame(events, &input(&[], Some(p(120, 20))));
    assert_eq!(demo.button_presses(), 0);
}

#[test]
fn click_before_the_first_frame_hits_nothing() {
    let mut demo = Demo::new(font(), 4);
    let events = vec![Event::PointerDown { at: p(20, 20) }, Event::PointerUp { at: p(20, 20) }];
    demo.render_frame(events, &input(&[], Some(p(20, 20))));
    assert_eq!(demo.button_presses(), 0);
}

#[test]
fn arrow_right_moves_the_mark_one_pixel() {
    let mut demo = Demo::new(font(), 4);
    demo.render_frame(vec![], &input(&["ArrowRight"], None));
    assert_eq!(demo.position(), p(151, 100));
    demo.render_frame(vec![], &input(&["ArrowRight"], None));
    assert_eq!(demo.position(), p(152, 100));
}

#[test]
fn each_arrow_moves_its_own_way() {
    let at = p(150, 100);
    assert_eq!(move_by_keys(at, &keys(&[])), at);
    assert_eq!(move_by_keys(at, &keys(&["ArrowLeft"])), p(149, 100));
    assert_eq!(move_by_keys(at, &keys(&["ArrowRight"])), p(151, 100));
    assert_eq!(move_by_keys(at, &keys(&["ArrowUp"])), p(150, 99));
    assert_eq!(move_by_keys(at, &keys(&["ArrowDown"])), p(150, 101));
    assert_eq!(move_by_keys(at, &keys(&["ArrowLeft", "ArrowRight"])), at);
    assert_eq!(move_by_keys(at, &keys(&["ArrowDown", "ArrowRight"])), p(151, 101));
    assert_eq!(move_by_keys(at, &keys(&["a", "Enter", "arrowright"])), at);
}

#[test]
fn the_mark_stops_at_the_end_of_its_range() {
    let limit = COORD_LIMIT as i32;
    assert_eq!(
        move_by_keys(p(limit, -limit), &keys(&["ArrowRight", "ArrowUp"])),
        p(limit, -limit)
    );
    assert_eq!(
        move_by_keys(p(limit, -limit), &keys(&["ArrowLeft", "ArrowDown"])),
        p(limit - 1, 1 - limit)
    );
    assert_eq!(
        move_by_keys(p(-limit, limit), &keys(&["ArrowLeft", "ArrowRight", "ArrowUp", "ArrowDown"])),
        p(1 - limit, limit)
    );
}

#[test]
fn handle_pressed_keys_moves_only_the_mark() {
    let mut demo = Demo::new(font(), 4);
    demo.handle_pressed_keys(&keys(&["ArrowUp", "ArrowLeft"]));
    assert_eq!(demo.position(), p(149, 99));
    assert_eq!(demo.button_presses(), 0);
    assert_eq!(demo.button_region(), None);
}

#[test]
fn handle_events_counts_every_completed_press() {
    let mut demo = Demo::new(font(), 4);
    demo.draw(None);
    let click = || vec![Event::PointerDown { at: p(5, 5) }, Event::PointerUp { at: p(5, 5) }];
    demo.handle_events(click());
    assert_eq!(demo.button_presses(), 1);
    let mut twice = click();
    twice.extend(click());
    demo.handle_events(twice);
    assert_eq!(demo.button_presses(), 3);
    demo.handle_events(vec![Event::PointerDown { at: p(5, 5) }]);
    assert_eq!(demo.button_presses(), 3);
    demo.handle_events(vec![Event::PointerUp { at: p(5, 5) }]);
    assert_eq!(demo.button_presses(), 4);
}

fn expected_geometry(mark: Point, fill: Color) -> Vec<DrawCommand> {
    vec![
        DrawCommand::FilledPolygon {
            points: vec![p(50, 50), p(100, 50), p(100, 100)],
            color: Color { r: 0, g: 0, b: 255, a: 255 },
        },
        DrawCommand::LineStrip {
            points: vec![p(50, 100), p(100, 100), p(50, 150)],
            color: Color { r: 255, g: 0, b: 0, a: 255 },
            width: 1,
        },
        DrawCommand::FilledPolygon {
            points: vec![
                p(mark.x, mark.y + 5),
                p(mark.x + 5, mark.y),
                p(mark.x, mark.y - 5),
                p(mark.x - 5, mark.y),
            ],
            color: Color { r: 0, g: 0, b: 0, a: 255 },
        },
        DrawCommand::Image { texture: 4, position: p(300, 0), scale: 1 },
        DrawCommand::FilledPolygon {
            points: vec![p(0, 0), p(100, 0), p(100, 36), p(0, 36)],
            color: fill,
        },
        DrawCommand::LineStrip {
            points: vec![p(0, 0), p(100, 0), p(100, 36), p(0, 36), p(0, 0)],
            color: Color { r: 51, g: 51, b: 51, a: 255 },
            width: 1,
        },
    ]
}

fn expected_text(count: &str) -> Vec<TextRun> {
    let black = Color { r: 0, g: 0, b: 0, a: 255 };
    vec![
        TextRun { text: "Click me".to_string(), position: p(10, 10), color: black },
        TextRun {
            text: format!("The button has been pressed {} times", count),
            position: p(0, 36),
            color: black,
        },
    ]
}

#[test]
fn a_frame_is_clear_geometry_text_present() {
    let mut demo = Demo::new(font(), 4);
    let ops = demo.render_frame(vec![], &input(&["ArrowDown"], None));
    assert_eq!(
        ops,
        vec![
            SurfaceOp::Clear { color: Color { r: 255, g: 255, b: 255, a: 255 } },
            SurfaceOp::Geometry {
                batch: expected_geometry(p(150, 101), Color { r: 0, g: 0, b: 0, a: 51 })
            },
            SurfaceOp::Text { batch: expected_text("0") },
            SurfaceOp::Present,
        ]
    );
}

#[test]
fn a_frame_draws_the_state_after_its_input() {
    let mut demo = Demo::new(font(), 4);
    demo.render_frame(vec![], &input(&[], None));
    let events = vec![Event::PointerDown { at: p(20, 20) }, Event::PointerUp { at: p(20, 20) }];
    let ops = demo.render_frame(events, &input(&["ArrowLeft"], Some(p(20, 20))));
    assert_eq!(
        ops,
        vec![
            SurfaceOp::Clear { color: Color::white() },
            SurfaceOp::Geometry {
                batch: expected_geometry(p(149, 100), Color { r: 0, g: 0, b: 0, a: 153 })
            },
            SurfaceOp::Text { batch: expected_text("1") },
            SurfaceOp::Present,
        ]
    );
}

#[test]
fn a_held_button_is_drawn_active() {
    let mut demo = Demo::new(font(), 4);
    demo.render_frame(vec![], &input(&[], None));
    let ops =
        demo.render_frame(vec![Event::PointerDown { at: p(20, 20) }], &input(&[], Some(p(20, 20))));
    assert_eq!(
        ops[1],
        SurfaceOp::Geometry {
            batch: expected_geometry(p(150, 100), Color { r: 0, g: 0, b: 0, a: 128 })
        }
    );
    let ops = demo.render_frame(vec![], &input(&[], None));
    assert_eq!(
        ops[1],
        SurfaceOp::Geometry {
            batch: expected_geometry(p(150, 100), Color { r: 0, g: 0, b: 0, a: 51 })
        }
    );
}

#[test]
fn draw_clears_and_flushes_but_does_not_present() {
    let mut demo = Demo::new(font(), 4);
    let ops = demo.draw(None);
    assert_eq!(ops.len(), 3);
    assert_eq!(ops[0], SurfaceOp::Clear { color: Color::white() });
    assert_eq!(ops[2], SurfaceOp::Text { batch: expected_text("0") });
    let again = demo.draw(None);
    assert_eq!(again, ops);
}

#[test]
fn compose_describes_the_button_and_the_count() {
    let mut demo = Demo::new(font(), 4);
    let id = demo.button_id();
    let tree = |count: &str| {
        Col::new()
            .child(Widget::no_fill(Widget::button(id, "Click me")))
            .child(Widget::label(format!("The button has been pressed {} times", count)))
            .widget()
    };
    assert_eq!(demo.compose(), tree("0"));
    demo.draw(None);
    demo.handle_events(vec![Event::PointerDown { at: p(1, 1) }, Event::PointerUp { at: p(1, 1) }]);
    assert_eq!(demo.compose(), tree("1"));
    assert_eq!(demo.button_id(), id);
}

#[test]
fn the_largest_font_still_fits() {
    let mut demo = Demo::new(FontMetrics { advance: u16::MAX, line_height: u16::MAX }, 4);
    let ops = demo.render_frame(vec![], &input(&[], None));
    assert_eq!(ops.len(), 4);
    assert_eq!(
        demo.button_region(),
        Some(Rect { x: 0, y: 0, width: 8 * 65_535 + 20, height: 65_535 + 20 })
    );
    match &ops[2] {
        SurfaceOp::Text { batch } => {
            assert_eq!(batch[1].position, p(0, 65_535 + 20));
        }
        other => panic!("unexpected operation {:?}", other),
    }
}
