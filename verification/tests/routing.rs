use frame_cycle::event::Event;
use frame_cycle::geometry::{Point, Rect};
use frame_cycle::gui::Gui;
use frame_cycle::interaction::{
    apply_event, route, InteractionState, InteractionStateStore, Outcome,
};

fn region() -> Option<Rect> {
    Some(Rect { x: 10, y: 20, width: 100, height: 36 })
}

fn inside() -> Point {
    Point { x: 15, y: 25 }
}

fn outside() -> Point {
    Point { x: 500, y: 500 }
}

fn idle() -> InteractionState {
    InteractionState { pressed: false, hovered: false, active: false }
}

#[test]
fn press_then_release_completes_exactly_one_press() {
    let events = vec![Event::PointerDown { at: inside() }, Event::PointerUp { at: inside() }];
    let out = route(idle(), region(), &events);
    assert_eq!(out.presses, 1);
    assert_eq!(out.state, InteractionState { pressed: true, hovered: true, active: false });
}

#[test]
fn one_press_among_other_events_counts_once() {
    let events = vec![
        Event::KeyDown { key: "a".to_string() },
        Event::PointerMove { at: outside() },
        Event::PointerDown { at: inside() },
        Event::PointerMove { at: outside() },
        Event::KeyUp { key: "a".to_string() },
        Event::PointerMove { at: inside() },
        Event::PointerUp { at: inside() },
        Event::PointerMove { at: outside() },
    ];
    let held_before = InteractionState { pressed: true, hovered: true, active: true };
    for start in [idle(), held_before] {
        let out = route(start, region(), &events);
        assert_eq!(out.presses, 1);
        assert!(out.state.pressed);
        assert!(!out.state.active);
        assert!(!out.state.hovered);
    }
}

#[test]
fn two_presses_in_one_batch_count_twice() {
    let events = vec![
        Event::PointerDown { at: inside() },
        Event::PointerUp { at: inside() },
        Event::PointerDown { at: inside() },
        Event::PointerUp { at: inside() },
    ];
    let out = route(idle(), region(), &events);
    assert_eq!(out.presses, 2);
    assert!(out.state.pressed);
}

#[test]
fn release_without_press_completes_nothing() {
    let events = vec![Event::PointerUp { at: inside() }];
    let out = route(idle(), region(), &events);
    assert_eq!(out.presses, 0);
    assert_eq!(out.state, InteractionState { pressed: false, hovered: true, active: false });
}

#[test]
fn release_outside_cancels_the_press() {
    let events = vec![Event::PointerDown { at: inside() }, Event::PointerUp { at: outside() }];
    let out = route(idle(), region(), &events);
    assert_eq!(out, Outcome { state: idle(), presses: 0 });
}

#[test]
fn press_outside_does_not_arm_the_widget() {
    let events = vec![Event::PointerDown { at: outside() }, Event::PointerUp { at: inside() }];
    let out = route(idle(), region(), &events);
    assert_eq!(out.presses, 0);
    assert!(!out.state.pressed);
}

#[test]
fn press_spanning_two_batches_completes_in_the_second() {
    let first = route(idle(), region(), &vec![Event::PointerDown { at: inside() }]);
    assert_eq!(first.presses, 0);
    assert_eq!(first.state, InteractionState { pressed: false, hovered: true, active: true });
    let second = route(first.state, region(), &vec![Event::PointerUp { at: inside() }]);
    assert_eq!(second.presses, 1);
    assert!(second.state.pressed);
    let third = route(second.state, region(), &vec![]);
    assert_eq!(third.presses, 0);
    assert!(!third.state.pressed);
}

#[test]
fn batch_that_does_not_touch_an_idle_widget_leaves_it_idle() {
    let events = vec![
        Event::PointerMove { at: outside() },
        Event::PointerDown { at: outside() },
        Event::PointerUp { at: outside() },
        Event::KeyDown { key: "ArrowRight".to_string() },
    ];
    let out = route(idle(), region(), &events);
    assert_eq!(out, Outcome { state: idle(), presses: 0 });
}

#[test]
fn keys_only_batch_keeps_hover_and_hold() {
    let start = InteractionState { pressed: false, hovered: true, active: true };
    let events =
        vec![Event::KeyDown { key: "x".to_string() }, Event::KeyUp { key: "x".to_string() }];
    assert_eq!(route(start, region(), &events), Outcome { state: start, presses: 0 });
    assert_eq!(route(start, region(), &vec![]), Outcome { state: start, presses: 0 });
}

#[test]
fn pressed_edge_is_cleared_by_the_next_batch() {
    let start = InteractionState { pressed: true, hovered: false, active: false };
    let out = route(start, region(), &vec![]);
    assert_eq!(out, Outcome { state: idle(), presses: 0 });
}

#[test]
fn widget_without_region_is_hit_by_nothing() {
    let events = vec![Event::PointerDown { at: inside() }, Event::PointerUp { at: inside() }];
    let out = route(idle(), None, &events);
    assert_eq!(out, Outcome { state: idle(), presses: 0 });
}

#[test]
fn apply_event_follows_the_state_machine() {
    let held = InteractionState { pressed: false, hovered: true, active: true };
    assert_eq!(
        apply_event(idle(), region(), &Event::PointerMove { at: inside() }),
        (InteractionState { pressed: false, hovered: true, active: false }, false)
    );
    assert_eq!(apply_event(idle(), region(), &Event::PointerDown { at: inside() }), (held, false));
    assert_eq!(
        apply_event(held, region(), &Event::PointerUp { at: inside() }),
        (InteractionState { pressed: true, hovered: true, active: false }, true)
    );
    assert_eq!(
        apply_event(held, region(), &Event::PointerDown { at: outside() }),
        (idle(), false)
    );
    assert_eq!(
        apply_event(held, region(), &Event::KeyDown { key: "k".to_string() }),
        (held, false)
    );
}

#[test]
fn hit_region_edges() {
    let r = Rect { x: 10, y: 20, width: 100, height: 36 };
    assert!(r.contains(Point { x: 10, y: 20 }));
    assert!(r.contains(Point { x: 109, y: 55 }));
    assert!(!r.contains(Point { x: 110, y: 20 }));
    assert!(!r.contains(Point { x: 10, y: 56 }));
    assert!(!r.contains(Point { x: 9, y: 20 }));
    let far = Rect { x: i32::MAX, y: i32::MAX, width: u32::MAX, height: u32::MAX };
    assert!(far.contains(Point { x: i32::MAX, y: i32::MAX }));
    let empty = Rect { x: 0, y: 0, width: 0, height: 0 };
    assert!(!empty.contains(Point { x: 0, y: 0 }));
}

#[test]
fn store_starts_empty_and_unknown_ids_are_idle() {
    let store = InteractionStateStore::new();
    assert!(!store.knows(3));
    assert_eq!(store.get(3), idle());
}

#[test]
fn unknown_ids_are_initialised_not_rejected() {
    let mut gui = Gui::new();
    let results = gui.handle_events(&vec![Event::PointerDown { at: inside() }], &[4, 9]);
    assert_eq!(results.outcome(4), Some(Outcome { state: idle(), presses: 0 }));
    assert_eq!(results.outcome(9), Some(Outcome { state: idle(), presses: 0 }));
    assert_eq!(results.outcome(5), None);
    assert!(!results.pressed(4));
    assert!(!results.hovered(4));
    assert!(!results.active(4));
    assert_eq!(results.presses(5), 0);
    assert_eq!(gui.state(4), idle());
    assert_eq!(gui.region(4), None);
}

#[test]
fn routing_in_two_parts_counts_as_routing_the_whole() {
    let events = vec![
        Event::PointerMove { at: inside() },
        Event::PointerDown { at: inside() },
        Event::PointerUp { at: inside() },
        Event::PointerDown { at: inside() },
        Event::PointerMove { at: outside() },
        Event::PointerUp { at: inside() },
        Event::KeyDown { key: "q".to_string() },
        Event::PointerDown { at: inside() },
    ];
    let whole = route(idle(), region(), &events);
    assert_eq!(whole.presses, 2);
    for cut in 0..=events.len() {
        let first = route(idle(), region(), &events[..cut].to_vec());
        let second = route(first.state, region(), &events[cut..].to_vec());
        assert_eq!(first.presses + second.presses, whole.presses);
        assert_eq!(second.state.hovered, whole.state.hovered);
        assert_eq!(second.state.active, whole.state.active);
    }
}

#[test]
fn entries_of_other_widgets_stay_as_they_are() {
    let mut gui = Gui::new();
    gui.handle_events(&vec![], &[1, 2]);
    let before = gui.state(1);
    gui.handle_events(&vec![Event::PointerMove { at: inside() }], &[2]);
    assert_eq!(gui.state(1), before);
    assert_eq!(gui.state(7), idle());
}
