//! The input that a frame brings besides its events: the keys that are held
//! down, which the host keeps from key-down to key-up, and the cursor. Also
//! the movement that the arrow keys drive.

use crate::geometry::{Point, COORD_LIMIT};
use fnv::FnvHashSet;
use vstd::prelude::*;

verus! {

/// `fnv::FnvHasher`, the hasher of the set of held keys. Nothing is claimed
/// of it.
#[verifier::external_type_specification]
#[verifier::external_body]
pub struct ExFnvHasher(fnv::FnvHasher);

/// `core::hash::BuildHasherDefault`, which makes the hashers of that set.
/// Nothing is claimed of it.
#[verifier::external_type_specification]
#[verifier::external_body]
#[verifier::reject_recursive_types(H)]
pub struct ExBuildHasherDefault<H>(core::hash::BuildHasherDefault<H>);

/// The names of the keys in a set of held keys.
pub uninterp spec fn held(keys: FnvHashSet<String>) -> Set<Seq<char>>;

/// `HashSet::contains` on a set of key names, hashed with `fnv::FnvHasher`:
/// whether `name` is the name of one of the keys in the set.
#[verifier::external_body]
fn is_held(keys: &FnvHashSet<String>, name: &str) -> (down: bool)
    ensures
        down == held(*keys).contains(name@),
{
    keys.contains(name)
}

/// What a frame knows of the keyboard and the pointer.
pub struct FrameInput {
    /// The keys that are held down.
    pub pressed_keys: FnvHashSet<String>,
    /// Where the cursor is, if it is over the surface.
    pub cursor_position: Option<Point>,
}

/// One coordinate after a step of `delta`. A coordinate never leaves the
/// range from `-COORD_LIMIT` to `COORD_LIMIT`: at the end of the range a
/// step outwards leaves it where it is.
pub open spec fn stepped(v: int, delta: int) -> int {
    if v + delta > COORD_LIMIT {
        COORD_LIMIT as int
    } else if v + delta < -COORD_LIMIT {
        -COORD_LIMIT
    } else {
        v + delta
    }
}

/// Where a point is after one frame with `keys` held. Each arrow key that
/// is held moves the point one pixel: left, then right, then up, then down.
/// The step does not depend on how much time has passed.
pub open spec fn moved(p: Point, keys: Set<Seq<char>>) -> Point {
    let x1 = if keys.contains("ArrowLeft"@) {
        stepped(p.x as int, -1)
    } else {
        p.x as int
    };
    let x2 = if keys.contains("ArrowRight"@) {
        stepped(x1, 1)
    } else {
        x1
    };
    let y1 = if keys.contains("ArrowUp"@) {
        stepped(p.y as int, -1)
    } else {
        p.y as int
    };
    let y2 = if keys.contains("ArrowDown"@) {
        stepped(y1, 1)
    } else {
        y1
    };
    Point { x: x2 as i32, y: y2 as i32 }
}

/// Whether both coordinates of a point are in the range in which points
/// move.
pub open spec fn in_range(p: Point) -> bool {
    &&& -COORD_LIMIT <= p.x <= COORD_LIMIT
    &&& -COORD_LIMIT <= p.y <= COORD_LIMIT
}

fn step(v: i32, delta: i32) -> (out: i32)
    requires
        -1 <= delta <= 1,
    ensures
        out == stepped(v as int, delta as int),
        -COORD_LIMIT <= out <= COORD_LIMIT,
{
    let limit: i64 = COORD_LIMIT as i64;
    let sum: i64 = v as i64 + delta as i64;
    if sum > limit {
        limit as i32
    } else if sum < -limit {
        (-limit) as i32
    } else {
        sum as i32
    }
}

/// Moves a point by the arrow keys that are held.
pub fn move_by_keys(p: Point, keys: &FnvHashSet<String>) -> (q: Point)
    ensures
        q == moved(p, held(*keys)),
        in_range(p) ==> in_range(q),
{
    let mut x: i32 = p.x;
    let mut y: i32 = p.y;
    if is_held(keys, "ArrowLeft") {
        x = step(x, -1);
    }
    if is_held(keys, "ArrowRight") {
        x = step(x, 1);
    }
    if is_held(keys, "ArrowUp") {
        y = step(y, -1);
    }
    if is_held(keys, "ArrowDown") {
        y = step(y, 1);
    }
    Point { x, y }
}

/// A point in range stays in range. Along each axis it stays where it is
/// when neither arrow of the axis is held, and it moves exactly one pixel
/// when one of the two is held, unless it is at that end of the range.
pub proof fn law_unit_step(p: Point, keys: Set<Seq<char>>)
    requires
        in_range(p),
    ensures
        !keys.contains("ArrowLeft"@) && !keys.contains("ArrowRight"@) ==> moved(p, keys).x == p.x,
        !keys.contains("ArrowUp"@) && !keys.contains("ArrowDown"@) ==> moved(p, keys).y == p.y,
        !keys.contains("ArrowLeft"@) && keys.contains("ArrowRight"@) && p.x < COORD_LIMIT ==> moved(
            p,
            keys,
        ).x == p.x + 1,
        keys.contains("ArrowLeft"@) && !keys.contains("ArrowRight"@) && p.x > -COORD_LIMIT
            ==> moved(p, keys).x == p.x - 1,
        !keys.contains("ArrowUp"@) && keys.contains("ArrowDown"@) && p.y < COORD_LIMIT ==> moved(
            p,
            keys,
        ).y == p.y + 1,
        keys.contains("ArrowUp"@) && !keys.contains("ArrowDown"@) && p.y > -COORD_LIMIT ==> moved(
            p,
            keys,
        ).y == p.y - 1,
        in_range(moved(p, keys)),
{
}

} // verus!
