//! The interaction state of one widget, and how a batch of events changes it.
//!
//! The state machine, per widget:
//! - `hovered` follows the pointer: every pointer event sets it to whether
//!   the pointer is over the widget's hit region.
//! - `active` means held: a pointer-down over the region sets it, a
//!   pointer-down elsewhere and every pointer-up clear it.
//! - A press completes when the pointer is released over the region of a
//!   widget that is held. `pressed` says whether a press completed during
//!   the latest batch; it is an edge, cleared at the start of every batch.
//! - Key events change nothing.
//!
//! A widget whose hit region is not known yet is hit by no event.

use crate::event::Event;
use crate::geometry::{Point, Rect};
use std::collections::HashMap;
use vstd::prelude::*;

verus! {

/// The token by which a logical widget is found again from frame to frame.
pub type WidgetId = u64;

/// The interaction flags of one widget.
#[derive(Clone, Copy, Debug, PartialEq, Eq, Structural)]
pub struct InteractionState {
    pub pressed: bool,
    pub hovered: bool,
    pub active: bool,
}

/// What one batch of events did to one widget.
#[derive(Clone, Copy, Debug, PartialEq, Eq, Structural)]
pub struct Outcome {
    /// The widget's state after the batch.
    pub state: InteractionState,
    /// How many presses completed on the widget during the batch.
    pub presses: usize,
}

impl InteractionState {
    /// The state of a widget that nothing has touched.
    pub open spec fn spec_idle() -> InteractionState {
        InteractionState { pressed: false, hovered: false, active: false }
    }

    /// The state of a widget that nothing has touched.
    #[verifier::when_used_as_spec(spec_idle)]
    pub fn idle() -> (s: InteractionState)
        ensures
            s == InteractionState::spec_idle(),
    {
        InteractionState { pressed: false, hovered: false, active: false }
    }
}

/// Whether a point lies in a hit region; an unknown region is never hit.
pub open spec fn hits(region: Option<Rect>, at: Point) -> bool {
    region matches Some(r) && r.covers(at)
}

/// Whether `event` is a pointer event over the region.
pub open spec fn touches(event: Event, region: Option<Rect>) -> bool {
    event.position() matches Some(at) && hits(region, at)
}

/// The state that `event` leaves a widget in.
pub open spec fn after_event(s: InteractionState, region: Option<Rect>, event: Event)
    -> InteractionState {
    match event {
        Event::PointerMove { at } => InteractionState {
            pressed: s.pressed,
            hovered: hits(region, at),
            active: s.active,
        },
        Event::PointerDown { at } => InteractionState {
            pressed: s.pressed,
            hovered: hits(region, at),
            active: hits(region, at),
        },
        Event::PointerUp { at } => InteractionState {
            pressed: s.pressed || (s.active && hits(region, at)),
            hovered: hits(region, at),
            active: false,
        },
        _ => s,
    }
}

/// Whether `event` completes a press on a widget in state `s`.
pub open spec fn completes(s: InteractionState, region: Option<Rect>, event: Event) -> bool {
    event matches Event::PointerUp { at } && s.active && hits(region, at)
}

/// The state of a widget after the first `n` events of a batch. The batch
/// starts from the widget's earlier state with the `pressed` edge cleared.
pub open spec fn routed_prefix(
    start: InteractionState,
    region: Option<Rect>,
    events: Seq<Event>,
    n: nat,
) -> InteractionState
    decreases n,
{
    if n == 0 {
        InteractionState { pressed: false, hovered: start.hovered, active: start.active }
    } else {
        after_event(routed_prefix(start, region, events, (n - 1) as nat), region, events[n - 1])
    }
}

/// How many presses the first `n` events of a batch complete.
pub open spec fn presses_prefix(
    start: InteractionState,
    region: Option<Rect>,
    events: Seq<Event>,
    n: nat,
) -> nat
    decreases n,
{
    if n == 0 {
        0
    } else {
        let before = routed_prefix(start, region, events, (n - 1) as nat);
        let earlier = presses_prefix(start, region, events, (n - 1) as nat);
        if completes(before, region, events[n - 1]) {
            earlier + 1
        } else {
            earlier
        }
    }
}

/// The state of a widget after a whole batch.
pub open spec fn routed(start: InteractionState, region: Option<Rect>, events: Seq<Event>)
    -> InteractionState {
    routed_prefix(start, region, events, events.len())
}

/// How many presses a whole batch completes on a widget.
pub open spec fn presses(start: InteractionState, region: Option<Rect>, events: Seq<Event>)
    -> nat {
    presses_prefix(start, region, events, events.len())
}

/// What a whole batch does to a widget.
pub open spec fn outcome(start: InteractionState, region: Option<Rect>, events: Seq<Event>)
    -> Outcome {
    Outcome {
        state: routed(start, region, events),
        presses: presses(start, region, events) as usize,
    }
}

/// A batch completes no more presses than it has events, and the `pressed`
/// flag is set exactly when at least one press completed.
pub proof fn lemma_presses_bounded(
    start: InteractionState,
    region: Option<Rect>,
    events: Seq<Event>,
    n: nat,
)
    ensures
        presses_prefix(start, region, events, n) <= n,
        routed_prefix(start, region, events, n).pressed <==> presses_prefix(
            start,
            region,
            events,
            n,
        ) > 0,
    decreases n,
{
    if n > 0 {
        lemma_presses_bounded(start, region, events, (n - 1) as nat);
    }
}

proof fn lemma_single_press_prefix(
    start: InteractionState,
    region: Option<Rect>,
    events: Seq<Event>,
    down: int,
    up: int,
    n: nat,
)
    requires
        0 <= down < up < events.len(),
        n <= events.len(),
        events[down] is PointerDown,
        events[up] is PointerUp,
        touches(events[down], region),
        touches(events[up], region),
        forall|k: int| 0 <= k < events.len() && events[k] is PointerDown ==> k == down,
        forall|k: int| 0 <= k < events.len() && events[k] is PointerUp ==> k == up,
    ensures
        n <= up ==> presses_prefix(start, region, events, n) == 0,
        down < n <= up ==> routed_prefix(start, region, events, n).active,
        up < n ==> presses_prefix(start, region, events, n) == 1,
        up < n ==> !routed_prefix(start, region, events, n).active,
    decreases n,
{
    if n > 0 {
        lemma_single_press_prefix(start, region, events, down, up, (n - 1) as nat);
    }
}

/// A batch with exactly one pointer-down and, after it, exactly one
/// pointer-up, both over the widget's hit region, completes exactly one
/// press on the widget, whatever else the batch holds and whatever state the
/// widget was in.
pub proof fn law_single_press(
    start: InteractionState,
    region: Option<Rect>,
    events: Seq<Event>,
    down: int,
    up: int,
)
    requires
        0 <= down < up < events.len(),
        events[down] is PointerDown,
        events[up] is PointerUp,
        touches(events[down], region),
        touches(events[up], region),
        forall|k: int| 0 <= k < events.len() && events[k] is PointerDown ==> k == down,
        forall|k: int| 0 <= k < events.len() && events[k] is PointerUp ==> k == up,
    ensures
        presses(start, region, events) == 1,
        routed(start, region, events).pressed,
        !routed(start, region, events).active,
        outcome(start, region, events).presses == 1,
{
    lemma_single_press_prefix(start, region, events, down, up, events.len());
    lemma_presses_bounded(start, region, events, events.len());
}

proof fn lemma_untouched_prefix(
    start: InteractionState,
    region: Option<Rect>,
    events: Seq<Event>,
    n: nat,
)
    requires
        n <= events.len(),
        forall|k: int| 0 <= k < events.len() ==> !touches(#[trigger] events[k], region),
    ensures
        presses_prefix(start, region, events, n) == 0,
        !routed_prefix(start, region, events, n).pressed,
        routed_prefix(start, region, events, n).hovered ==> start.hovered,
        routed_prefix(start, region, events, n).active ==> start.active,
    decreases n,
{
    if n > 0 {
        lemma_untouched_prefix(start, region, events, (n - 1) as nat);
        assert(!touches(events[n - 1], region));
    }
}

/// A batch in which no event touches a widget completes no press on it and
/// sets none of its flags: `pressed` is clear after it, and `hovered` and
/// `active` are set only if they were set before. A widget that was idle
/// is left exactly as it was.
pub proof fn law_untouched_widget(
    start: InteractionState,
    region: Option<Rect>,
    events: Seq<Event>,
)
    requires
        forall|k: int| 0 <= k < events.len() ==> !touches(#[trigger] events[k], region),
    ensures
        presses(start, region, events) == 0,
        !routed(start, region, events).pressed,
        routed(start, region, events).hovered ==> start.hovered,
        routed(start, region, events).active ==> start.active,
        start == InteractionState::idle() ==> routed(start, region, events) == start,
{
    lemma_untouched_prefix(start, region, events, events.len());
}

proof fn lemma_pointerless_prefix(
    start: InteractionState,
    region: Option<Rect>,
    events: Seq<Event>,
    n: nat,
)
    requires
        n <= events.len(),
        forall|k: int| 0 <= k < events.len() ==> (#[trigger] events[k]).position() is None,
    ensures
        routed_prefix(start, region, events, n) == routed_prefix(start, region, events, 0),
    decreases n,
{
    if n > 0 {
        lemma_pointerless_prefix(start, region, events, (n - 1) as nat);
        assert(events[n - 1].position() is None);
    }
}

/// A batch without pointer events, the empty batch among them, leaves
/// `hovered` and `active` as they were and clears the `pressed` edge: a
/// widget without a pending edge is left exactly as it was.
pub proof fn law_pointerless_batch(
    start: InteractionState,
    region: Option<Rect>,
    events: Seq<Event>,
)
    requires
        forall|k: int| 0 <= k < events.len() ==> (#[trigger] events[k]).position() is None,
    ensures
        routed(start, region, events) == (InteractionState {
            pressed: false,
            hovered: start.hovered,
            active: start.active,
        }),
        !start.pressed ==> routed(start, region, events) == start,
{
    lemma_pointerless_prefix(start, region, events, events.len());
}

proof fn lemma_split_prefix(
    start: InteractionState,
    region: Option<Rect>,
    first: Seq<Event>,
    second: Seq<Event>,
    n: nat,
)
    requires
        n <= second.len(),
    ensures
        routed_prefix(start, region, first + second, first.len() + n).hovered == routed_prefix(
            routed(start, region, first),
            region,
            second,
            n,
        ).hovered,
        routed_prefix(start, region, first + second, first.len() + n).active == routed_prefix(
            routed(start, region, first),
            region,
            second,
            n,
        ).active,
        presses_prefix(start, region, first + second, first.len() + n) == presses(
            start,
            region,
            first,
        ) + presses_prefix(routed(start, region, first), region, second, n),
    decreases n,
{
    let whole = first + second;
    if n == 0 {
        lemma_same_prefix(start, region, whole, first, first.len());
    } else {
        lemma_split_prefix(start, region, first, second, (n - 1) as nat);
        assert(whole[first.len() + n - 1] == second[n - 1]);
    }
}

proof fn lemma_same_prefix(
    start: InteractionState,
    region: Option<Rect>,
    a: Seq<Event>,
    b: Seq<Event>,
    n: nat,
)
    requires
        n <= a.len(),
        n <= b.len(),
        forall|k: int| 0 <= k < n ==> a[k] == b[k],
    ensures
        routed_prefix(start, region, a, n) == routed_prefix(start, region, b, n),
        presses_prefix(start, region, a, n) == presses_prefix(start, region, b, n),
    decreases n,
{
    if n > 0 {
        lemma_same_prefix(start, region, a, b, (n - 1) as nat);
    }
}

/// Routing a batch in two parts, one after the other, holds and hovers the
/// widget as routing the whole batch does, and completes as many presses:
/// a press that begins in one frame and ends in the next is counted once,
/// in the frame in which it ends.
pub proof fn law_split_batch(
    start: InteractionState,
    region: Option<Rect>,
    first: Seq<Event>,
    second: Seq<Event>,
)
    ensures
        routed(start, region, first + second).hovered == routed(
            routed(start, region, first),
            region,
            second,
        ).hovered,
        routed(start, region, first + second).active == routed(
            routed(start, region, first),
            region,
            second,
        ).active,
        presses(start, region, first + second) == presses(start, region, first) + presses(
            routed(start, region, first),
            region,
            second,
        ),
{
    lemma_split_prefix(start, region, first, second, second.len());
}

fn hit_test(region: Option<Rect>, at: Point) -> (inside: bool)
    ensures
        inside == hits(region, at),
{
    match region {
        Some(r) => r.contains(at),
        None => false,
    }
}

/// Applies one event to a widget's state and says whether it completed a
/// press.
pub fn apply_event(s: InteractionState, region: Option<Rect>, event: &Event) -> (out: (
    InteractionState,
    bool,
))
    ensures
        out.0 == after_event(s, region, *event),
        out.1 == completes(s, region, *event),
{
    match event {
        Event::PointerMove { at } => {
            let inside = hit_test(region, *at);
            (InteractionState { pressed: s.pressed, hovered: inside, active: s.active }, false)
        },
        Event::PointerDown { at } => {
            let inside = hit_test(region, *at);
            (InteractionState { pressed: s.pressed, hovered: inside, active: inside }, false)
        },
        Event::PointerUp { at } => {
            let inside = hit_test(region, *at);
            let done = s.active && inside;
            (InteractionState { pressed: s.pressed || done, hovered: inside, active: false }, done)
        },
        _ => (s, false),
    }
}

/// Routes one batch of events, in order, to one widget.
pub fn route(start: InteractionState, region: Option<Rect>, events: &Vec<Event>) -> (out: Outcome)
    ensures
        out.state == routed(start, region, events@),
        out.presses == presses(start, region, events@),
        out == outcome(start, region, events@),
        out.state.pressed <==> out.presses > 0,
{
    let mut state = InteractionState {
        pressed: false,
        hovered: start.hovered,
        active: start.active,
    };
    let mut count: usize = 0;
    let mut i: usize = 0;
    while i < events.len()
        invariant
            i <= events.len(),
            state == routed_prefix(start, region, events@, i as nat),
            count == presses_prefix(start, region, events@, i as nat),
        decreases events.len() - i,
    {
        proof {
            lemma_presses_bounded(start, region, events@, i as nat);
        }
        let (next, done) = apply_event(state, region, &events[i]);
        state = next;
        if done {
            count = count + 1;
        }
        i = i + 1;
    }
    proof {
        lemma_presses_bounded(start, region, events@, events@.len());
    }
    Outcome { state, presses: count }
}

/// The state on record for `id`: a widget that was never seen is idle.
pub open spec fn state_in(states: Map<WidgetId, InteractionState>, id: WidgetId)
    -> InteractionState {
    if states.contains_key(id) {
        states[id]
    } else {
        InteractionState::idle()
    }
}

/// The table of interaction states, by widget identity. It outlives the
/// widget tree of any single frame. Its view is the map from the identities
/// seen so far to their states. Only the routing of events writes to it.
pub struct InteractionStateStore {
    table: HashMap<WidgetId, InteractionState>,
}

impl View for InteractionStateStore {
    type V = Map<WidgetId, InteractionState>;

    closed spec fn view(&self) -> Map<WidgetId, InteractionState> {
        self.table@
    }
}

impl InteractionStateStore {
    /// A table without entries.
    pub fn new() -> (store: InteractionStateStore)
        ensures
            store@ == Map::<WidgetId, InteractionState>::empty(),
    {
        InteractionStateStore { table: HashMap::new() }
    }

    /// Whether `id` has an entry.
    pub fn knows(&self, id: WidgetId) -> (known: bool)
        ensures
            known == self@.contains_key(id),
    {
        self.table.contains_key(&id)
    }

    /// The state on record for `id`; idle if `id` was never seen.
    pub fn get(&self, id: WidgetId) -> (state: InteractionState)
        ensures
            state == state_in(self@, id),
    {
        match self.table.get(&id) {
            Some(s) => *s,
            None => InteractionState::idle(),
        }
    }

    pub(crate) fn record(&mut self, id: WidgetId, state: InteractionState)
        ensures
            final(self)@ == old(self)@.insert(id, state),
    {
        self.table.insert(id, state);
    }
}

} // verus!
