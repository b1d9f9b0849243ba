use cgmath::{point2, Point2};
use fnv::FnvHashSet;
use frame_cycle::demo::Demo;
use frame_cycle::draw2d::DrawCommand;
use frame_cycle::frame::SurfaceOp;
use frame_cycle::geometry::{Point, COORD_LIMIT};
use frame_cycle::keys::{move_by_keys, FrameInput};
use frame_cycle::text::FontMetrics;

/// A surface that records what is issued against it, in floating point as a
/// renderer takes it.
struct Recorder {
    calls: Vec<String>,
    vertices: Vec<Point2<f32>>,
}

fn to_point2(at: Point) -> Point2<f32> {
    point2(at.x as f32, at.y as f32)
}

impl Recorder {
    fn perform(&mut self, op: SurfaceOp) {
        match op {
            SurfaceOp::Clear { .. } => self.calls.push("clear".to_string()),
            SurfaceOp::Geometry { batch } => {
                for command in batch {
                    match command {
                        DrawCommand::FilledPolygon { points, .. } => {
                            self.vertices.extend(points.iter().map(|at| to_point2(*at)));
                            self.calls.push(format!("polygon {}", points.len()));
                        }
                        DrawCommand::LineStrip { points, width, .. } => {
                            self.vertices.extend(points.iter().map(|at| to_point2(*at)));
                            self.calls.push(format!("strip {} {}", points.len(), width));
                        }
                        DrawCommand::Image { texture, position, scale } => {
                            self.vertices.push(to_point2(position));
                            self.calls.push(format!("image {} {}", texture, scale));
                        }
                    }
                }
            }
            SurfaceOp::Text { batch } => {
                for run in batch {
                    self.vertices.push(to_point2(run.position));
                    self.calls.push(format!("text {}", run.text));
                }
            }
            SurfaceOp::Present => self.calls.push("present".to_string()),
        }
    }
}

#[test]
fn a_frame_performed_on_a_surface() {
    let mut demo = Demo::new(FontMetrics { advance: 10, line_height: 16 }, 9);
    let input = FrameInput { pressed_keys: FnvHashSet::default(), cursor_position: None };
    let mut surface = Recorder { calls: vec![], vertices: vec![] };
    for op in demo.render_frame(vec![], &input) {
        surface.perform(op);
    }
    assert_eq!(
        surface.calls,
        vec![
            "clear",
            "polygon 3",
            "strip 3 1",
            "polygon 4",
            "image 9 1",
            "polygon 4",
            "strip 5 1",
            "text Click me",
            "text The button has been pressed 0 times",
            "present",
        ]
    );
    assert_eq!(surface.vertices[6], point2(150.0, 105.0));
    assert_eq!(surface.vertices[10], point2(300.0, 0.0));
    assert_eq!(surface.vertices[13], point2(100.0, 36.0));
}

#[test]
fn coordinates_in_range_are_exact_in_single_precision() {
    let limit = COORD_LIMIT as i32;
    for v in [0, 1, -1, 150, limit - 1, limit, -limit, 1 - limit] {
        assert_eq!((v as f32) as i32, v);
        assert_eq!(to_point2(Point { x: v, y: -v }), point2(v as f32, -v as f32));
    }
    assert_eq!((limit as f32 + 1.0) as i32, limit);
    assert_eq!((-limit as f32 - 1.0) as i32, -limit);
}

#[test]
fn stepping_matches_single_precision_at_the_ends() {
    let limit = COORD_LIMIT as i32;
    let mut right = FnvHashSet::default();
    right.insert("ArrowRight".to_string());
    let mut left = FnvHashSet::default();
    left.insert("ArrowLeft".to_string());
    for x in [limit - 2, limit - 1, limit] {
        let moved = move_by_keys(Point { x, y: 0 }, &right);
        assert_eq!(moved.x as f32, x as f32 + 1.0);
    }
    for x in [2 - limit, 1 - limit, -limit] {
        let moved = move_by_keys(Point { x, y: 0 }, &left);
        assert_eq!(moved.x as f32, x as f32 - 1.0);
    }
}
