//! Layout: the natural size of a widget tree and where each of its widgets
//! comes to stand.
//!
//! Text is measured in a fixed-pitch font. A label is as large as its text;
//! a button is its caption with padding on all four sides. A vertical
//! container is as wide as its widest child and as tall as all children
//! together; it places them from top to bottom and gives each its own
//! width. `NoFill` keeps its child at the child's natural width.

use crate::geometry::{Point, Rect, Size, COORD_LIMIT};
use crate::interaction::WidgetId;
use crate::text::FontMetrics;
use crate::theme::Theme;
use crate::widgets::{node_of, Node, Widget};
use vstd::prelude::*;
use vstd::string::StrSliceExecFns;

verus! {

/// How wide a line of text is.
pub open spec fn text_width(text: Seq<char>, font: FontMetrics) -> int {
    text.len() * font.advance
}

/// The larger of two numbers.
pub open spec fn larger(a: int, b: int) -> int {
    if a >= b {
        a
    } else {
        b
    }
}

/// The width that a widget takes when nothing stretches it.
pub open spec fn natural_width(node: Node, theme: Theme) -> int
    decreases node,
{
    match node {
        Node::Col { children } => widest(children, theme, children.len()),
        Node::NoFill { child } => natural_width(*child, theme),
        Node::Button { text, .. } => text_width(text, theme.font) + 2 * theme.padding,
        Node::Label { text } => text_width(text, theme.font),
    }
}

/// The largest natural width among the first `n` of `children`.
pub open spec fn widest(children: Seq<Node>, theme: Theme, n: nat) -> int
    decreases children, n,
{
    if n == 0 || n > children.len() {
        0
    } else {
        larger(
            widest(children, theme, (n - 1) as nat),
            natural_width(children[n - 1], theme),
        )
    }
}

/// The height of a widget.
pub open spec fn natural_height(node: Node, theme: Theme) -> int
    decreases node,
{
    match node {
        Node::Col { children } => stacked(children, theme, children.len()),
        Node::NoFill { child } => natural_height(*child, theme),
        Node::Button { .. } => theme.font.line_height + 2 * theme.padding,
        Node::Label { .. } => theme.font.line_height as int,
    }
}

/// The height of the first `n` of `children` together.
pub open spec fn stacked(children: Seq<Node>, theme: Theme, n: nat) -> int
    decreases children, n,
{
    if n == 0 || n > children.len() {
        0
    } else {
        stacked(children, theme, (n - 1) as nat) + natural_height(children[n - 1], theme)
    }
}

/// Whether layout can hold the tree: neither its natural width nor its
/// height is beyond `COORD_LIMIT`.
pub open spec fn fits(node: Node, theme: Theme) -> bool {
    &&& natural_width(node, theme) <= COORD_LIMIT
    &&& natural_height(node, theme) <= COORD_LIMIT
}

/// A leaf of the tree with the place that layout gave it.
pub enum Placed {
    Button { id: WidgetId, area: Rect, text: Seq<char> },
    Label { at: Point, text: Seq<char> },
}

/// Whether a placed leaf lies within the range of coordinates that layout
/// hands out.
pub open spec fn within_limit(item: Placed) -> bool {
    match item {
        Placed::Button { area, .. } => {
            &&& 0 <= area.x <= COORD_LIMIT
            &&& 0 <= area.y <= COORD_LIMIT
            &&& area.width <= COORD_LIMIT
            &&& area.height <= COORD_LIMIT
        },
        Placed::Label { at, .. } => 0 <= at.x <= COORD_LIMIT && 0 <= at.y <= COORD_LIMIT,
    }
}

/// Whether all of the placed leaves lie within that range.
pub open spec fn all_within_limit(items: Seq<Placed>) -> bool {
    forall|k: int| 0 <= k < items.len() ==> within_limit(#[trigger] items[k])
}

/// The leaves of a tree in the order in which they are drawn, each with its
/// place, when the tree's top-left corner is at (`x`, `y`) and the tree is
/// given `width`.
pub open spec fn placement(node: Node, theme: Theme, x: int, y: int, width: int) -> Seq<Placed>
    decreases node,
{
    match node {
        Node::Col { children } => placement_of_first(
            children,
            theme,
            x,
            y,
            width,
            children.len(),
        ),
        Node::NoFill { child } => placement(*child, theme, x, y, natural_width(*child, theme)),
        Node::Button { id, text } => seq![
            Placed::Button {
                id,
                area: Rect {
                    x: x as i32,
                    y: y as i32,
                    width: width as u32,
                    height: natural_height(node, theme) as u32,
                },
                text,
            },
        ],
        Node::Label { text } => seq![Placed::Label { at: Point { x: x as i32, y: y as i32 }, text }],
    }
}

/// The placed leaves of the first `n` of a container's children: each child
/// stands below the children before it.
pub open spec fn placement_of_first(
    children: Seq<Node>,
    theme: Theme,
    x: int,
    y: int,
    width: int,
    n: nat,
) -> Seq<Placed>
    decreases children, n,
{
    if n == 0 || n > children.len() {
        Seq::empty()
    } else {
        placement_of_first(children, theme, x, y, width, (n - 1) as nat) + placement(
            children[n - 1],
            theme,
            x,
            y + stacked(children, theme, (n - 1) as nat),
            width,
        )
    }
}

/// Where the leaves of a whole tree stand: the tree's top-left corner is the
/// origin, and the tree has its natural width.
pub open spec fn arrangement(node: Node, theme: Theme) -> Seq<Placed> {
    placement(node, theme, 0, 0, natural_width(node, theme))
}

/// No widget has a negative size.
pub proof fn lemma_sizes_not_negative(node: Node, theme: Theme)
    ensures
        natural_width(node, theme) >= 0,
        natural_height(node, theme) >= 0,
    decreases node,
{
    match node {
        Node::Col { children } => {
            lemma_children_sizes(children, theme, children.len());
        },
        Node::NoFill { child } => {
            lemma_sizes_not_negative(*child, theme);
        },
        _ => {},
    }
}

/// A container is at least as wide as each child and at least as tall as any
/// run of its first children.
pub proof fn lemma_children_sizes(children: Seq<Node>, theme: Theme, n: nat)
    requires
        n <= children.len(),
    ensures
        widest(children, theme, n) >= 0,
        stacked(children, theme, n) >= 0,
        forall|i: int|
            0 <= i < n ==> natural_width(#[trigger] children[i], theme) <= widest(
                children,
                theme,
                n,
            ),
        forall|m: nat|
            m <= n ==> #[trigger] stacked(children, theme, m) <= stacked(children, theme, n),
    decreases children, n,
{
    if n > 0 {
        lemma_children_sizes(children, theme, (n - 1) as nat);
        lemma_sizes_not_negative(children[n - 1], theme);
    }
}

/// A leaf of a widget tree with the place that layout gave it.
#[derive(Debug, PartialEq, Eq)]
pub enum PlacedWidget {
    Button { id: WidgetId, area: Rect, text: String },
    Label { at: Point, text: String },
}

impl View for PlacedWidget {
    type V = Placed;

    open spec fn view(&self) -> Placed {
        match *self {
            PlacedWidget::Button { id, area, text } => Placed::Button { id, area, text: text@ },
            PlacedWidget::Label { at, text } => Placed::Label { at, text: text@ },
        }
    }
}

/// The views of a list of placed leaves, in order.
pub open spec fn placed_views(items: Seq<PlacedWidget>) -> Seq<Placed> {
    items.map_values(|p: PlacedWidget| p@)
}

/// Measures a line of text; `None` when it is wider than `COORD_LIMIT`.
pub fn measure_text(text: &String, font: FontMetrics) -> (width: Option<u32>)
    ensures
        width is Some <==> text_width(text@, font) <= COORD_LIMIT,
        width matches Some(w) ==> w == text_width(text@, font),
{
    let count: usize = text.as_str().unicode_len();
    if font.advance == 0 {
        assert(text_width(text@, font) == 0) by (nonlinear_arith)
            requires
                text_width(text@, font) == text@.len() * font.advance,
                font.advance == 0,
        ;
        return Some(0);
    }
    if count > COORD_LIMIT as usize {
        assert(text_width(text@, font) > COORD_LIMIT) by (nonlinear_arith)
            requires
                text_width(text@, font) == text@.len() * font.advance,
                text@.len() > COORD_LIMIT,
                font.advance >= 1,
        ;
        return None;
    }
    assert(count * font.advance <= 16_777_216 * 65_535) by (nonlinear_arith)
        requires
            0 <= count <= 16_777_216,
            0 <= font.advance <= 65_535,
    ;
    let wide: u64 = count as u64 * font.advance as u64;
    if wide > COORD_LIMIT as u64 {
        None
    } else {
        Some(wide as u32)
    }
}

/// The natural size of a tree; `None` when layout cannot hold the tree.
pub fn natural_size(w: &Widget, theme: &Theme) -> (size: Option<Size>)
    ensures
        size is Some <==> fits(w@, *theme),
        size matches Some(s) ==> s.width == natural_width(w@, *theme) && s.height
            == natural_height(w@, *theme),
    decreases w,
{
    match w {
        Widget::Col { children } => {
            let ghost nodes = w@->Col_children;
            let mut width: u32 = 0;
            let mut height: u32 = 0;
            let mut i: usize = 0;
            while i < children.len()
                invariant
                    i <= children.len(),
                    w is Col,
                    w->Col_children == *children,
                    w@ == (Node::Col { children: nodes }),
                    nodes.len() == children.len(),
                    forall|k: int| 0 <= k < nodes.len() ==> nodes[k] == node_of(children@[k]),
                    width == widest(nodes, *theme, i as nat),
                    height == stacked(nodes, *theme, i as nat),
                    width <= COORD_LIMIT,
                    height <= COORD_LIMIT,
                decreases children.len() - i,
            {
                proof {
                    lemma_children_sizes(nodes, *theme, nodes.len());
                    lemma_children_sizes(nodes, *theme, (i + 1) as nat);
                    assert(stacked(nodes, *theme, (i + 1) as nat) <= stacked(
                        nodes,
                        *theme,
                        nodes.len(),
                    ));
                    assert(natural_width(nodes[i as int], *theme) <= widest(
                        nodes,
                        *theme,
                        nodes.len(),
                    ));
                }
                match natural_size(&children[i], theme) {
                    None => {
                        return None;
                    },
                    Some(s) => {
                        if s.height > COORD_LIMIT - height {
                            return None;
                        }
                        if s.width > width {
                            width = s.width;
                        }
                        height = height + s.height;
                    },
                }
                i = i + 1;
            }
            Some(Size { width, height })
        },
        Widget::NoFill { child } => natural_size(child, theme),
        Widget::Button { text, .. } => {
            let height: u32 = theme.font.line_height as u32 + 2 * (theme.padding as u32);
            match measure_text(text, theme.font) {
                None => None,
                Some(tw) => {
                    let padded: u32 = tw + 2 * (theme.padding as u32);
                    if padded > COORD_LIMIT {
                        None
                    } else {
                        Some(Size { width: padded, height })
                    }
                },
            }
        },
        Widget::Label { text } => {
            match measure_text(text, theme.font) {
                None => None,
                Some(tw) => Some(Size { width: tw, height: theme.font.line_height as u32 }),
            }
        },
    }
}

/// Places a tree that layout can hold: appends its leaves to `out`, each
/// with its place, and returns the tree's height.
pub fn place(
    w: &Widget,
    theme: &Theme,
    x: u32,
    y: u32,
    width: u32,
    out: &mut Vec<PlacedWidget>,
) -> (height: u32)
    requires
        fits(w@, *theme),
        x <= COORD_LIMIT,
        width <= COORD_LIMIT,
        y + natural_height(w@, *theme) <= COORD_LIMIT,
    ensures
        height == natural_height(w@, *theme),
        placed_views(final(out)@) == placed_views(old(out)@) + placement(
            w@,
            *theme,
            x as int,
            y as int,
            width as int,
        ),
        all_within_limit(placement(w@, *theme, x as int, y as int, width as int)),
    decreases w,
{
    match w {
        Widget::Col { children } => {
            let ghost nodes = w@->Col_children;
            let ghost before = placed_views(out@);
            let mut below: u32 = y;
            let mut i: usize = 0;
            while i < children.len()
                invariant
                    i <= children.len(),
                    w is Col,
                    w->Col_children == *children,
                    w@ == (Node::Col { children: nodes }),
                    nodes.len() == children.len(),
                    forall|k: int| 0 <= k < nodes.len() ==> nodes[k] == node_of(children@[k]),
                    fits(w@, *theme),
                    x <= COORD_LIMIT,
                    width <= COORD_LIMIT,
                    y + stacked(nodes, *theme, nodes.len()) <= COORD_LIMIT,
                    below == y + stacked(nodes, *theme, i as nat),
                    placed_views(out@) == before + placement_of_first(
                        nodes,
                        *theme,
                        x as int,
                        y as int,
                        width as int,
                        i as nat,
                    ),
                    all_within_limit(
                        placement_of_first(nodes, *theme, x as int, y as int, width as int, i as nat),
                    ),
                decreases children.len() - i,
            {
                proof {
                    lemma_children_sizes(nodes, *theme, nodes.len());
                    lemma_children_sizes(nodes, *theme, (i + 1) as nat);
                    lemma_sizes_not_negative(nodes[i as int], *theme);
                    assert(stacked(nodes, *theme, (i + 1) as nat) <= stacked(
                        nodes,
                        *theme,
                        nodes.len(),
                    ));
                    assert(stacked(nodes, *theme, i as nat) <= stacked(
                        nodes,
                        *theme,
                        (i + 1) as nat,
                    ));
                    assert(natural_width(nodes[i as int], *theme) <= widest(
                        nodes,
                        *theme,
                        nodes.len(),
                    ));
                }
                let tall = place(&children[i], theme, x, below, width, out);
                assert(placed_views(out@) == before + placement_of_first(
                    nodes,
                    *theme,
                    x as int,
                    y as int,
                    width as int,
                    (i + 1) as nat,
                ));
                below = below + tall;
                i = i + 1;
            }
            proof {
                lemma_children_sizes(nodes, *theme, nodes.len());
            }
            below - y
        },
        Widget::NoFill { child } => {
            let size = natural_size(child, theme).unwrap();
            place(child, theme, x, y, size.width, out)
        },
        Widget::Button { id, text } => {
            let height: u32 = theme.font.line_height as u32 + 2 * (theme.padding as u32);
            let item = PlacedWidget::Button {
                id: *id,
                area: Rect { x: x as i32, y: y as i32, width, height },
                text: text.clone(),
            };
            out.push(item);
            assert(placed_views(out@) == placed_views(old(out)@).push(item@));
            height
        },
        Widget::Label { text } => {
            let item = PlacedWidget::Label { at: Point { x: x as i32, y: y as i32 }, text: text.clone() };
            out.push(item);
            assert(placed_views(out@) == placed_views(old(out)@).push(item@));
            theme.font.line_height as u32
        },
    }
}

} // verus!
