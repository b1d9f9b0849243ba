use frame_cycle::color::Color;
use frame_cycle::decimal::write_decimal;
use frame_cycle::geometry::{Point, Rect, Size, COORD_LIMIT};
use frame_cycle::layout::{measure_text, natural_size, place, PlacedWidget};
use frame_cycle::text::FontMetrics;
use frame_cycle::theme::Theme;
use frame_cycle::widgets::{collect_identities, find_repeated, Button, Col, IdSource, Widget};

fn theme(advance: u16, line_height: u16, padding: u16) -> Theme {
    Theme {
        font: FontMetrics { advance, line_height },
        label_color: Color::black(),
        button_text_color: Color::black(),
        button_fill_color: Color::shade(51),
        button_border_color: Color::gray(51),
        button_selected_fill_color: Color::shade(153),
        button_active_fill_color: Color::shade(128),
        padding,
    }
}

#[test]
fn text_is_measured_in_characters() {
    let font = FontMetrics { advance: 7, line_height: 12 };
    assert_eq!(measure_text(&"".to_string(), font), Some(0));
    assert_eq!(measure_text(&"abc".to_string(), font), Some(21));
    assert_eq!(measure_text(&"h\u{e9}llo".to_string(), font), Some(35));
}

#[test]
fn text_beyond_the_limit_has_no_width() {
    let font = FontMetrics { advance: 65_535, line_height: 12 };
    assert_eq!(measure_text(&"x".repeat(256), font), Some(16_776_960));
    assert_eq!(measure_text(&"x".repeat(257), font), None);
    let one = FontMetrics { advance: 1, line_height: 12 };
    assert_eq!(measure_text(&"x".repeat(COORD_LIMIT as usize), one), Some(COORD_LIMIT));
    assert_eq!(measure_text(&"x".repeat(COORD_LIMIT as usize + 1), one), None);
    let none = FontMetrics { advance: 0, line_height: 12 };
    assert_eq!(measure_text(&"x".repeat(COORD_LIMIT as usize + 1), none), Some(0));
}

#[test]
fn natural_sizes_of_leaves() {
    let t = theme(10, 16, 4);
    assert_eq!(
        natural_size(&Widget::label("hello".to_string()), &t),
        Some(Size { width: 50, height: 16 })
    );
    assert_eq!(natural_size(&Widget::button(1, "ok"), &t), Some(Size { width: 28, height: 24 }));
    assert_eq!(
        natural_size(&Widget::no_fill(Widget::button(1, "ok")), &t),
        Some(Size { width: 28, height: 24 })
    );
}

#[test]
fn container_is_as_wide_as_its_widest_child_and_as_tall_as_all() {
    let t = theme(10, 16, 4);
    let tree = Col::new()
        .child(Widget::button(1, "ok"))
        .child(Widget::label("a long line".to_string()))
        .child(Col::new().child(Widget::label("x".to_string())).widget())
        .widget();
    assert_eq!(natural_size(&tree, &t), Some(Size { width: 110, height: 56 }));
    assert_eq!(natural_size(&Col::new().widget(), &t), Some(Size { width: 0, height: 0 }));
}

#[test]
fn size_beyond_the_limit_is_none() {
    let t = theme(65_535, 65_535, 0);
    let mut col = Col::new();
    for _ in 0..256 {
        col = col.child(Widget::label("".to_string()));
    }
    assert_eq!(
        natural_size(&Col::new().child(col.widget()).widget(), &t),
        Some(Size { width: 0, height: 16_776_960 })
    );
    let mut col = Col::new();
    for _ in 0..257 {
        col = col.child(Widget::label("".to_string()));
    }
    assert_eq!(natural_size(&col.widget(), &t), None);
    let padded = theme(1, 1, 65_535);
    assert_eq!(natural_size(&Widget::button(1, &"x".repeat(16_646_146)), &padded), Some(Size {
        width: COORD_LIMIT,
        height: 131_071
    }));
    assert_eq!(natural_size(&Widget::button(1, &"x".repeat(16_646_147)), &padded), None);
}

#[test]
fn children_are_stacked_and_stretched_unless_wrapped() {
    let t = theme(10, 16, 4);
    let tree = Col::new()
        .child(Widget::no_fill(Widget::button(1, "ok")))
        .child(Widget::label("a long line".to_string()))
        .child(Widget::button(2, "go"))
        .widget();
    let size = natural_size(&tree, &t).unwrap();
    assert_eq!(size, Size { width: 110, height: 64 });
    let mut out = Vec::new();
    let height = place(&tree, &t, 0, 0, size.width, &mut out);
    assert_eq!(height, 64);
    assert_eq!(
        out,
        vec![
            PlacedWidget::Button {
                id: 1,
                area: Rect { x: 0, y: 0, width: 28, height: 24 },
                text: "ok".to_string()
            },
            PlacedWidget::Label { at: Point { x: 0, y: 24 }, text: "a long line".to_string() },
            PlacedWidget::Button {
                id: 2,
                area: Rect { x: 0, y: 40, width: 110, height: 24 },
                text: "go".to_string()
            },
        ]
    );
}

#[test]
fn place_appends_behind_what_is_there() {
    let t = theme(10, 16, 4);
    let mut out = vec![PlacedWidget::Label { at: Point { x: 1, y: 1 }, text: "old".to_string() }];
    let height = place(&Widget::label("new".to_string()), &t, 3, 5, 30, &mut out);
    assert_eq!(height, 16);
    assert_eq!(
        out,
        vec![
            PlacedWidget::Label { at: Point { x: 1, y: 1 }, text: "old".to_string() },
            PlacedWidget::Label { at: Point { x: 3, y: 5 }, text: "new".to_string() },
        ]
    );
}

#[test]
fn identities_are_collected_in_drawing_order() {
    let tree = Col::new()
        .child(Widget::button(9, "a"))
        .child(Widget::label("l".to_string()))
        .child(Col::new().child(Widget::no_fill(Widget::button(3, "b"))).widget())
        .child(Widget::button(9, "c"))
        .widget();
    let ids = collect_identities(&tree);
    assert_eq!(ids, vec![9, 3, 9]);
    assert_eq!(find_repeated(&ids), Some(9));
    assert_eq!(find_repeated(&vec![1, 2, 3]), None);
    assert_eq!(find_repeated(&vec![]), None);
    assert_eq!(find_repeated(&vec![1, 2, 3, 3, 1]), Some(3));
}

#[test]
fn id_source_never_repeats() {
    let mut source = IdSource::new();
    let a = source.fresh().unwrap();
    let b = source.fresh().unwrap();
    let c = source.fresh().unwrap();
    assert!(a != b && b != c && a != c);
}

#[test]
fn button_keeps_its_identity() {
    let button = Button::new(12, "Click me");
    assert_eq!(button.id(), 12);
    assert_eq!(button.widget(), Widget::button(12, "Click me"));
    assert_eq!(button.widget(), button.widget());
}

#[test]
fn numbers_are_written_in_decimal() {
    for (n, expected) in [
        (0u32, "0"),
        (7, "7"),
        (10, "10"),
        (305, "305"),
        (2_147_483_647, "2147483647"),
        (u32::MAX, "4294967295"),
    ] {
        let mut out = String::from("n=");
        write_decimal(n, &mut out);
        assert_eq!(out, format!("n={}", expected));
    }
}
