//! The widget tree: a description of what is on screen, built anew for every
//! frame from the state of the application. It holds structure and content
//! only. Building it draws nothing, and the interaction state of a widget is
//! kept outside the tree, under the widget's identity.

use crate::interaction::WidgetId;
use std::collections::HashSet;
use vstd::prelude::*;
use vstd::string::StringExecFns;

verus! {

/// A widget with what it holds.
#[derive(Debug, PartialEq, Eq)]
pub enum Widget {
    /// A vertical container: its children from top to bottom, each as wide
    /// as the container.
    Col { children: Vec<Widget> },
    /// A wrapper that keeps its child at the child's natural width.
    NoFill { child: Box<Widget> },
    /// A button with its identity and its caption.
    Button { id: WidgetId, text: String },
    /// A line of text.
    Label { text: String },
}

/// The mathematical tree that a widget stands for.
pub enum Node {
    Col { children: Seq<Node> },
    NoFill { child: Box<Node> },
    Button { id: WidgetId, text: Seq<char> },
    Label { text: Seq<char> },
}

/// The tree that a widget stands for.
pub open spec fn node_of(w: Widget) -> Node
    decreases w,
{
    match w {
        Widget::Col { children } => Node::Col {
            children: Seq::new(
                children@.len(),
                |i: int|
                    if 0 <= i < children@.len() {
                        node_of(children@[i])
                    } else {
                        Node::Label { text: Seq::empty() }
                    },
            ),
        },
        Widget::NoFill { child } => Node::NoFill { child: Box::new(node_of(*child)) },
        Widget::Button { id, text } => Node::Button { id, text: text@ },
        Widget::Label { text } => Node::Label { text: text@ },
    }
}

impl View for Widget {
    type V = Node;

    open spec fn view(&self) -> Node {
        node_of(*self)
    }
}

/// The identities in a tree, in the order in which its widgets are drawn.
pub open spec fn identities(node: Node) -> Seq<WidgetId>
    decreases node,
{
    match node {
        Node::Col { children } => identities_of_first(children, children.len()),
        Node::NoFill { child } => identities(*child),
        Node::Button { id, .. } => seq![id],
        Node::Label { .. } => Seq::empty(),
    }
}

/// The identities in the first `n` of `children`.
pub open spec fn identities_of_first(children: Seq<Node>, n: nat) -> Seq<WidgetId>
    decreases children, n,
{
    if n == 0 || n > children.len() {
        Seq::empty()
    } else {
        identities_of_first(children, (n - 1) as nat) + identities(children[n - 1])
    }
}

/// Whether the identity at position `j` occurred before position `j`.
pub open spec fn repeats_at(ids: Seq<WidgetId>, j: int) -> bool {
    exists|i: int| 0 <= i < j && ids[i] == ids[j]
}

/// The first identity that occurs a second time, if there is one.
pub open spec fn first_repeat(ids: Seq<WidgetId>, found: Option<WidgetId>) -> bool {
    match found {
        None => ids.no_duplicates(),
        Some(id) => exists|j: int|
            {
                &&& 0 <= j < ids.len()
                &&& ids[j] == id
                &&& #[trigger] repeats_at(ids, j)
                &&& forall|k: int| 0 <= k < j ==> !repeats_at(ids, k)
            },
    }
}

/// Collects the identities in a tree, in drawing order.
pub fn collect_identities(w: &Widget) -> (ids: Vec<WidgetId>)
    ensures
        ids@ == identities(w@),
    decreases w,
{
    match w {
        Widget::Col { children } => {
            let ghost nodes = w@->Col_children;
            let mut ids: Vec<WidgetId> = Vec::new();
            let mut i: usize = 0;
            while i < children.len()
                invariant
                    i <= children.len(),
                    w is Col,
                    w->Col_children == *children,
                    w@ == (Node::Col { children: nodes }),
                    nodes.len() == children.len(),
                    forall|k: int| 0 <= k < nodes.len() ==> nodes[k] == node_of(children@[k]),
                    ids@ == identities_of_first(nodes, i as nat),
                decreases children.len() - i,
            {
                let mut part = collect_identities(&children[i]);
                ids.append(&mut part);
                i = i + 1;
            }
            ids
        },
        Widget::NoFill { child } => collect_identities(child),
        Widget::Button { id, .. } => {
            let mut ids: Vec<WidgetId> = Vec::new();
            ids.push(*id);
            ids
        },
        Widget::Label { .. } => Vec::new(),
    }
}

/// Looks for an identity that occurs twice: the first that repeats an
/// earlier one, or `None` when all are distinct.
pub fn find_repeated(ids: &Vec<WidgetId>) -> (found: Option<WidgetId>)
    ensures
        first_repeat(ids@, found),
        found is None <==> ids@.no_duplicates(),
{
    let mut seen: HashSet<WidgetId> = HashSet::new();
    let mut j: usize = 0;
    while j < ids.len()
        invariant
            j <= ids.len(),
            forall|x: WidgetId|
                seen@.contains(x) <==> exists|i: int| 0 <= i < j && ids@[i] == x,
            forall|k: int| 0 <= k < j ==> !repeats_at(ids@, k),
        decreases ids.len() - j,
    {
        let id = ids[j];
        if seen.contains(&id) {
            assert(repeats_at(ids@, j as int));
            assert(!ids@.no_duplicates());
            return Some(id);
        }
        seen.insert(id);
        assert forall|x: WidgetId|
            seen@.contains(x) <==> exists|i: int| 0 <= i < j + 1 && ids@[i] == x by {
            if seen@.contains(x) {
                if x == id {
                    assert(ids@[j as int] == x);
                } else {
                    let i = choose|i: int| 0 <= i < j && ids@[i] == x;
                    assert(0 <= i < j + 1 && ids@[i] == x);
                }
            }
        }
        j = j + 1;
    }
    assert forall|a: int, b: int| 0 <= a < ids@.len() && 0 <= b < ids@.len() && a != b implies ids@[a]
        != ids@[b] by {
        if ids@[a] == ids@[b] {
            if a < b {
                assert(repeats_at(ids@, b));
            } else {
                assert(repeats_at(ids@, a));
            }
        }
    }
    None
}

/// The trees that a list of widgets stands for.
pub open spec fn nodes_of(widgets: Seq<Widget>) -> Seq<Node> {
    Seq::new(widgets.len(), |i: int| node_of(widgets[i]))
}

/// A source of identities that hands out each identity once.
pub struct IdSource {
    next: u64,
}

impl IdSource {
    /// The identities handed out so far.
    pub closed spec fn issued(&self) -> Set<WidgetId> {
        Set::new(|id: WidgetId| id < self.next)
    }

    /// How many identities are left.
    pub closed spec fn remaining(&self) -> nat {
        (u64::MAX - self.next) as nat
    }

    /// A source that has handed out nothing.
    pub fn new() -> (source: IdSource)
        ensures
            source.issued() == Set::<WidgetId>::empty(),
            source.remaining() == u64::MAX,
    {
        let source = IdSource { next: 0 };
        assert(source.issued() =~= Set::<WidgetId>::empty());
        source
    }

    /// Hands out an identity that was not handed out before; `None` when
    /// none is left.
    pub fn fresh(&mut self) -> (id: Option<WidgetId>)
        ensures
            id is Some <==> old(self).remaining() > 0,
            match id {
                Some(v) => {
                    &&& !old(self).issued().contains(v)
                    &&& final(self).issued() == old(self).issued().insert(v)
                    &&& final(self).remaining() == old(self).remaining() - 1
                },
                None => *final(self) == *old(self),
            },
    {
        if self.next == u64::MAX {
            None
        } else {
            let id = self.next;
            self.next = self.next + 1;
            assert(self.issued() =~= old(self).issued().insert(id));
            Some(id)
        }
    }
}

/// A button as the application keeps it from frame to frame: its identity
/// and its caption.
#[derive(Debug, PartialEq, Eq)]
pub struct Button {
    pub id: WidgetId,
    pub text: String,
}

impl Button {
    /// A button with the given identity and caption.
    pub fn new(id: WidgetId, text: &str) -> (button: Button)
        ensures
            button.id == id,
            button.text@ == text@,
    {
        Button { id, text: String::from_str(text) }
    }

    /// The button's identity.
    pub fn id(&self) -> (id: WidgetId)
        ensures
            id == self.id,
    {
        self.id
    }

    /// The button as a widget of this frame's tree.
    pub fn widget(&self) -> (w: Widget)
        ensures
            w@ == (Node::Button { id: self.id, text: self.text@ }),
    {
        Widget::Button { id: self.id, text: self.text.clone() }
    }
}

/// A vertical container in the making.
#[derive(Debug, PartialEq, Eq)]
pub struct Col {
    children: Vec<Widget>,
}

impl View for Col {
    type V = Seq<Node>;

    closed spec fn view(&self) -> Seq<Node> {
        nodes_of(self.children@)
    }
}

impl Col {
    /// A container without children.
    pub fn new() -> (col: Col)
        ensures
            col@ == Seq::<Node>::empty(),
    {
        let col = Col { children: Vec::new() };
        assert(col@ =~= Seq::<Node>::empty());
        col
    }

    /// The container with `widget` below the children that it has.
    pub fn child(self, widget: Widget) -> (col: Col)
        ensures
            col@ == self@.push(widget@),
    {
        let mut children = self.children;
        children.push(widget);
        let col = Col { children };
        assert(col@ =~= self@.push(widget@));
        col
    }

    /// The container as a widget.
    pub fn widget(self) -> (w: Widget)
        ensures
            w@ == (Node::Col { children: self@ }),
    {
        let w = Widget::Col { children: self.children };
        assert(w@->Col_children =~= self@);
        w
    }
}

impl Widget {
    /// A wrapper that keeps `child` at its natural width.
    pub fn no_fill(child: Widget) -> (w: Widget)
        ensures
            w@ == (Node::NoFill { child: Box::new(child@) }),
    {
        Widget::NoFill { child: Box::new(child) }
    }

    /// A button with the given identity and caption.
    pub fn button(id: WidgetId, text: &str) -> (w: Widget)
        ensures
            w@ == (Node::Button { id, text: text@ }),
    {
        Widget::Button { id, text: String::from_str(text) }
    }

    /// A label that shows `text`.
    pub fn label(text: String) -> (w: Widget)
        ensures
            w@ == (Node::Label { text: text@ }),
    {
        Widget::Label { text }
    }
}

} // verus!
