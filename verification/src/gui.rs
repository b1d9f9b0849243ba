//! The GUI of a session: the table of interaction states, the hit region
//! that each widget had when it was last drawn, the routing of events to
//! widgets, and the walk that lays a widget tree out and enqueues what it
//! paints.
//!
//! Events are routed against the hit regions of the frame before: the tree
//! of the current frame is not built yet when its events arrive. The walk
//! reads the interaction states and never writes them; routing is the only
//! writer.

use crate::draw2d::Draw2d;
use crate::event::Event;
use crate::geometry::{Point, Rect};
use crate::interaction::{
    law_untouched_widget, outcome, route, routed, state_in, touches, InteractionState,
    InteractionStateStore, Outcome, WidgetId,
};
use crate::layout::{
    all_within_limit, arrangement, fits, natural_size, place, placed_views, PlacedWidget,
};
use crate::paint::{paint_item, painted_lines, painted_shapes, recorded_regions};
use crate::text::TextRenderer;
use crate::theme::Theme;
use crate::widgets::{collect_identities, find_repeated, first_repeat, identities, Widget};
use std::collections::HashMap;
use vstd::prelude::*;

verus! {

/// Why a widget tree was not drawn.
#[derive(Clone, Copy, Debug, PartialEq, Eq, Structural)]
pub enum GuiError {
    /// Two widgets of the tree have the same identity.
    DuplicateIdentity { id: WidgetId },
    /// The tree is wider or taller than layout can hold.
    TooLarge,
}

/// The hit region on record for `id`, if the widget was ever drawn.
pub open spec fn region_in(regions: Map<WidgetId, Rect>, id: WidgetId) -> Option<Rect> {
    if regions.contains_key(id) {
        Some(regions[id])
    } else {
        None
    }
}

/// The table of states after a batch was routed to the widgets `ids`: each
/// of them has the state that the batch leaves it in, starting from idle if
/// it was never seen; every other entry is as before.
pub open spec fn routed_states(
    states: Map<WidgetId, InteractionState>,
    regions: Map<WidgetId, Rect>,
    events: Seq<Event>,
    ids: Seq<WidgetId>,
) -> Map<WidgetId, InteractionState> {
    Map::new(
        |id: WidgetId| states.contains_key(id) || ids.contains(id),
        |id: WidgetId|
            if ids.contains(id) {
                routed(state_in(states, id), region_in(regions, id), events)
            } else {
                states[id]
            },
    )
}

/// What a batch did to each of the widgets `ids`.
pub open spec fn outcomes(
    states: Map<WidgetId, InteractionState>,
    regions: Map<WidgetId, Rect>,
    events: Seq<Event>,
    ids: Seq<WidgetId>,
) -> Map<WidgetId, Outcome> {
    Map::new(
        |id: WidgetId| ids.contains(id),
        |id: WidgetId| outcome(state_in(states, id), region_in(regions, id), events),
    )
}

/// The results of routing one batch: what it did to each widget that it was
/// routed to.
pub struct GuiEvents {
    results: HashMap<WidgetId, Outcome>,
}

impl View for GuiEvents {
    type V = Map<WidgetId, Outcome>;

    closed spec fn view(&self) -> Map<WidgetId, Outcome> {
        self.results@
    }
}

impl GuiEvents {
    /// What the batch did to `id`; `None` if it was not routed to `id`.
    pub fn outcome(&self, id: WidgetId) -> (out: Option<Outcome>)
        ensures
            out == (if self@.contains_key(id) {
                Some(self@[id])
            } else {
                None
            }),
    {
        match self.results.get(&id) {
            Some(o) => Some(*o),
            None => None,
        }
    }

    /// Whether a press completed on `id` during the batch.
    pub fn pressed(&self, id: WidgetId) -> (b: bool)
        ensures
            b == (self@.contains_key(id) && self@[id].state.pressed),
    {
        match self.results.get(&id) {
            Some(o) => o.state.pressed,
            None => false,
        }
    }

    /// How many presses completed on `id` during the batch.
    pub fn presses(&self, id: WidgetId) -> (n: usize)
        ensures
            n == (if self@.contains_key(id) {
                self@[id].presses
            } else {
                0
            }),
    {
        match self.results.get(&id) {
            Some(o) => o.presses,
            None => 0,
        }
    }

    /// Whether the pointer was last seen over `id`.
    pub fn hovered(&self, id: WidgetId) -> (b: bool)
        ensures
            b == (self@.contains_key(id) && self@[id].state.hovered),
    {
        match self.results.get(&id) {
            Some(o) => o.state.hovered,
            None => false,
        }
    }

    /// Whether `id` is held.
    pub fn active(&self, id: WidgetId) -> (b: bool)
        ensures
            b == (self@.contains_key(id) && self@[id].state.active),
    {
        match self.results.get(&id) {
            Some(o) => o.state.active,
            None => false,
        }
    }
}

/// The interaction states and the last-known hit regions of a session.
pub struct Gui {
    store: InteractionStateStore,
    regions: HashMap<WidgetId, Rect>,
}

impl Gui {
    /// The interaction states on record.
    pub closed spec fn states(&self) -> Map<WidgetId, InteractionState> {
        self.store@
    }

    /// The hit regions on record: where each widget stood when it was last
    /// drawn.
    pub closed spec fn regions(&self) -> Map<WidgetId, Rect> {
        self.regions@
    }

    /// A GUI that has seen no widget yet.
    pub fn new() -> (gui: Gui)
        ensures
            gui.states() == Map::<WidgetId, InteractionState>::empty(),
            gui.regions() == Map::<WidgetId, Rect>::empty(),
    {
        Gui { store: InteractionStateStore::new(), regions: HashMap::new() }
    }

    /// The state on record for `id`; idle if `id` was never seen.
    pub fn state(&self, id: WidgetId) -> (state: InteractionState)
        ensures
            state == state_in(self.states(), id),
    {
        self.store.get(id)
    }

    /// Where `id` stood when it was last drawn.
    pub fn region(&self, id: WidgetId) -> (region: Option<Rect>)
        ensures
            region == region_in(self.regions(), id),
    {
        match self.regions.get(&id) {
            Some(r) => Some(*r),
            None => None,
        }
    }

    /// Routes one frame's batch of events, in order, to the widgets `ids`,
    /// and records the state that it leaves each of them in. An identity
    /// that was never seen starts idle. An identity that is listed twice is
    /// routed to once. Entries of other widgets stay as they are.
    pub fn handle_events(&mut self, events: &Vec<Event>, ids: &[WidgetId]) -> (results: GuiEvents)
        ensures
            final(self).states() == routed_states(
                old(self).states(),
                old(self).regions(),
                events@,
                ids@,
            ),
            final(self).regions() == old(self).regions(),
            results@ == outcomes(old(self).states(), old(self).regions(), events@, ids@),
    {
        let mut results: HashMap<WidgetId, Outcome> = HashMap::new();
        let mut i: usize = 0;
        while i < ids.len()
            invariant
                i <= ids.len(),
                self.regions@ == old(self).regions@,
                self.store@ == routed_states(
                    old(self).store@,
                    old(self).regions@,
                    events@,
                    ids@.take(i as int),
                ),
                results@ == outcomes(
                    old(self).store@,
                    old(self).regions@,
                    events@,
                    ids@.take(i as int),
                ),
            decreases ids.len() - i,
        {
            let id = ids[i];
            assert(ids@.take(i + 1) == ids@.take(i as int).push(id));
            assert forall|x: WidgetId|
                ids@.take(i + 1).contains(x) <==> ids@.take(i as int).contains(x) || x == id by {
                if ids@.take(i as int).contains(x) {
                    let k = choose|k: int|
                        0 <= k < ids@.take(i as int).len() && ids@.take(i as int)[k] == x;
                    assert(ids@.take(i + 1)[k] == x);
                }
                if x == id {
                    assert(ids@.take(i + 1)[i as int] == x);
                }
            }
            if !results.contains_key(&id) {
                let before = self.store.get(id);
                let region = self.region(id);
                let out = route(before, region, events);
                self.store.record(id, out.state);
                results.insert(id, out);
            }
            assert(self.store@ =~= routed_states(
                old(self).store@,
                old(self).regions@,
                events@,
                ids@.take(i + 1),
            ));
            assert(results@ =~= outcomes(
                old(self).store@,
                old(self).regions@,
                events@,
                ids@.take(i + 1),
            ));
            i = i + 1;
        }
        assert(ids@.take(ids@.len() as int) == ids@);
        GuiEvents { results }
    }

    /// Lays the tree out with its top-left corner at the origin, and
    /// enqueues what it paints: the shapes into `draw_2d`, the text into
    /// `text`, both behind what is pending there. It flushes neither queue.
    /// Each button's hit region becomes the place where it stands now. The
    /// interaction states are read, not written.
    ///
    /// A tree in which an identity occurs twice is rejected with the first
    /// identity that repeats, and a tree that layout cannot hold is
    /// rejected too; then nothing is enqueued and no region changes.
    pub fn draw(
        &mut self,
        theme: &Theme,
        draw_2d: &mut Draw2d,
        text: &mut TextRenderer,
        cursor_pos: Option<Point>,
        tree: Widget,
    ) -> (result: Result<(), GuiError>)
        ensures
            final(self).states() == old(self).states(),
            match result {
                Ok(()) => {
                    &&& identities(tree@).no_duplicates()
                    &&& fits(tree@, *theme)
                    &&& final(draw_2d)@ == old(draw_2d)@ + painted_shapes(
                        arrangement(tree@, *theme),
                        *theme,
                        old(self).states(),
                        cursor_pos,
                        arrangement(tree@, *theme).len(),
                    )
                    &&& final(text)@ == old(text)@ + painted_lines(
                        arrangement(tree@, *theme),
                        *theme,
                        arrangement(tree@, *theme).len(),
                    )
                    &&& final(self).regions() == recorded_regions(
                        old(self).regions(),
                        arrangement(tree@, *theme),
                        arrangement(tree@, *theme).len(),
                    )
                },
                Err(e) => {
                    &&& final(draw_2d)@ == old(draw_2d)@
                    &&& final(text)@ == old(text)@
                    &&& final(self).regions() == old(self).regions()
                    &&& match e {
                        GuiError::DuplicateIdentity { id } => first_repeat(
                            identities(tree@),
                            Some(id),
                        ),
                        GuiError::TooLarge => identities(tree@).no_duplicates() && !fits(
                            tree@,
                            *theme,
                        ),
                    }
                },
            },
    {
        let ids = collect_identities(&tree);
        match find_repeated(&ids) {
            Some(id) => {
                return Err(GuiError::DuplicateIdentity { id });
            },
            None => {},
        }
        let size = match natural_size(&tree, theme) {
            Some(size) => size,
            None => {
                return Err(GuiError::TooLarge);
            },
        };
        let mut items: Vec<PlacedWidget> = Vec::new();
        place(&tree, theme, 0, 0, size.width, &mut items);
        let ghost placed = arrangement(tree@, *theme);
        assert(placed_views(items@) == placed);
        let mut k: usize = 0;
        while k < items.len()
            invariant
                k <= items.len(),
                placed_views(items@) == placed,
                all_within_limit(placed),
                self.store@ == old(self).store@,
                draw_2d@ == old(draw_2d)@ + painted_shapes(
                    placed,
                    *theme,
                    old(self).store@,
                    cursor_pos,
                    k as nat,
                ),
                text@ == old(text)@ + painted_lines(placed, *theme, k as nat),
                self.regions@ == recorded_regions(old(self).regions@, placed, k as nat),
            decreases items.len() - k,
        {
            assert(placed[k as int] == items@[k as int]@);
            paint_item(&items[k], theme, &self.store, cursor_pos, draw_2d, text);
            match &items[k] {
                PlacedWidget::Button { id, area, .. } => {
                    self.regions.insert(*id, *area);
                },
                PlacedWidget::Label { .. } => {},
            }
            k = k + 1;
        }
        Ok(())
    }
}

/// Routing a batch leaves the entry of every widget that it was not routed
/// to as it was, and the state of an idle widget that none of its events
/// touches idle, whether the batch was routed to it or not.
pub proof fn law_untouched_entry(
    states: Map<WidgetId, InteractionState>,
    regions: Map<WidgetId, Rect>,
    events: Seq<Event>,
    ids: Seq<WidgetId>,
    id: WidgetId,
)
    ensures
        !ids.contains(id) ==> state_in(routed_states(states, regions, events, ids), id)
            == state_in(states, id),
        !ids.contains(id) ==> (routed_states(states, regions, events, ids).contains_key(id)
            <==> states.contains_key(id)),
        state_in(states, id) == InteractionState::idle() && (forall|k: int|
            0 <= k < events.len() ==> !touches(#[trigger] events[k], region_in(regions, id)))
            ==> state_in(routed_states(states, regions, events, ids), id)
            == InteractionState::idle(),
{
    if state_in(states, id) == InteractionState::idle() && (forall|k: int|
        0 <= k < events.len() ==> !touches(#[trigger] events[k], region_in(regions, id))) {
        law_untouched_widget(state_in(states, id), region_in(regions, id), events);
    }
}

} // verus!
