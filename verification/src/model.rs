//! The graph model: states, events, edges, transition records, and the
//! engine's error type, together with the spec-level machinery for resolving
//! string ids against a universe of objects (linear search, first match wins).

use vstd::prelude::*;

verus! {

/// A named node of the automaton.  Identity is the string id: lookups
/// resolve by id equality, never by address.
#[derive(Debug, Clone, PartialEq, Eq, Hash)]
pub struct State {
    pub id: String,
}

/// A named, payload-carrying stimulus presented to the machine.
#[derive(Debug, Clone)]
pub struct Event<EventPayload> {
    pub id: String,
    pub payload: EventPayload,
}

/// A directed, named, metadata-carrying potential transition between two
/// states.  The endpoints are held by id, which must resolve to states of
/// the configured state set.
#[derive(Debug, Clone)]
pub struct Edge<EdgeInfo> {
    pub id: String,
    pub from_state_id: String,
    pub to_state_id: String,
    pub info: EdgeInfo,
}

/// An immutable log entry for one executed transition.  It owns the
/// triggering event, and holds the context value as it was immediately
/// before the transition.
#[derive(Debug, Clone)]
pub struct TransitionRecord<EventPayload, Context> {
    pub from_state_id: String,
    pub to_state_id: String,
    pub event: Event<EventPayload>,
    pub edge_id: String,
    pub context: Context,
}

/// A fatal caller/configuration defect.  None of these is an expected
/// runtime condition: each signals that the supplied graph or object
/// universe is internally inconsistent and must be fixed by the caller.
#[derive(Debug, Clone)]
pub enum FsmError {
    /// An id lookup (state, edge, or event) failed during construction or
    /// hydration; carries the id that did not resolve.
    ReferentialIntegrity { missing_id: String },
    /// Two or more outgoing edges matched the same event/state/context
    /// combination.
    AmbiguousTransition,
    /// The machine was given a current state absent from the adjacency
    /// index; carries the unresolved state id.
    MissingStateIndex { state_id: String },
}

/// Whether some state of `states` carries the id `id`.
pub open spec fn has_state(states: Seq<State>, id: Seq<char>) -> bool {
    exists|i: int| 0 <= i < states.len() && #[trigger] states[i].id@ == id
}

/// Whether `i` is the position of the first state of `states` with id `id`.
pub open spec fn is_first_state(states: Seq<State>, id: Seq<char>, i: int) -> bool {
    &&& 0 <= i < states.len()
    &&& states[i].id@ == id
    &&& forall|j: int| 0 <= j < i ==> #[trigger] states[j].id@ != id
}

/// The position of the first state of `states` with id `id`, when one exists.
pub open spec fn first_state_index(states: Seq<State>, id: Seq<char>) -> int {
    choose|i: int| is_first_state(states, id, i)
}

/// At most one position can be the first match, so `first_state_index`
/// returns exactly the position any search found.
pub proof fn lemma_first_state_index(states: Seq<State>, id: Seq<char>, i: int)
    requires
        is_first_state(states, id, i),
    ensures
        first_state_index(states, id) == i,
{
    let w = first_state_index(states, id);
    assert(is_first_state(states, id, w));
    if w < i {
        assert(states[w].id@ != id);
    } else if i < w {
        assert(states[i].id@ != id);
    }
}

/// Whether some edge of `edges` carries the id `id`.
pub open spec fn has_edge<EdgeInfo>(edges: Seq<Edge<EdgeInfo>>, id: Seq<char>) -> bool {
    exists|i: int| 0 <= i < edges.len() && #[trigger] edges[i].id@ == id
}

/// Whether `i` is the position of the first edge of `edges` with id `id`.
pub open spec fn is_first_edge<EdgeInfo>(edges: Seq<Edge<EdgeInfo>>, id: Seq<char>, i: int) -> bool {
    &&& 0 <= i < edges.len()
    &&& edges[i].id@ == id
    &&& forall|j: int| 0 <= j < i ==> #[trigger] edges[j].id@ != id
}

/// Whether some event of `events` carries the id `id`.
pub open spec fn has_event<EventPayload>(events: Seq<Event<EventPayload>>, id: Seq<char>) -> bool {
    exists|i: int| 0 <= i < events.len() && #[trigger] events[i].id@ == id
}

/// Whether `i` is the position of the first event of `events` with id `id`.
pub open spec fn is_first_event<EventPayload>(
    events: Seq<Event<EventPayload>>,
    id: Seq<char>,
    i: int,
) -> bool {
    &&& 0 <= i < events.len()
    &&& events[i].id@ == id
    &&& forall|j: int| 0 <= j < i ==> #[trigger] events[j].id@ != id
}

/// The position of the first event of `events` with id `id`, when one exists.
pub open spec fn first_event_index<EventPayload>(
    events: Seq<Event<EventPayload>>,
    id: Seq<char>,
) -> int {
    choose|i: int| is_first_event(events, id, i)
}

/// At most one position can be the first matching event, so
/// `first_event_index` returns exactly the position any search found.
pub proof fn lemma_first_event_index<EventPayload>(
    events: Seq<Event<EventPayload>>,
    id: Seq<char>,
    i: int,
)
    requires
        is_first_event(events, id, i),
    ensures
        first_event_index(events, id) == i,
{
    let w = first_event_index(events, id);
    assert(is_first_event(events, id, w));
    if w < i {
        assert(events[w].id@ != id);
    } else if i < w {
        assert(events[i].id@ != id);
    }
}

/// Finds the first state with the given id by linear search.
pub fn find_state_index(states: &Vec<State>, id: &String) -> (r: Option<usize>)
    ensures
        match r {
            Some(i) => is_first_state(states@, id@, i as int),
            None => !has_state(states@, id@),
        },
{
    let mut i: usize = 0;
    while i < states.len()
        invariant
            i <= states.len(),
            forall|j: int| 0 <= j < i ==> #[trigger] states@[j].id@ != id@,
        decreases states.len() - i,
    {
        if states[i].id == *id {
            return Some(i);
        }
        i += 1;
    }
    None
}

/// Finds the first edge with the given id by linear search.
pub fn find_edge_index<EdgeInfo>(edges: &Vec<Edge<EdgeInfo>>, id: &String) -> (r: Option<usize>)
    ensures
        match r {
            Some(i) => is_first_edge(edges@, id@, i as int),
            None => !has_edge(edges@, id@),
        },
{
    let mut i: usize = 0;
    while i < edges.len()
        invariant
            i <= edges.len(),
            forall|j: int| 0 <= j < i ==> #[trigger] edges@[j].id@ != id@,
        decreases edges.len() - i,
    {
        if edges[i].id == *id {
            return Some(i);
        }
        i += 1;
    }
    None
}

/// Finds the first event with the given id by linear search.
pub fn find_event_index<EventPayload>(
    events: &Vec<Event<EventPayload>>,
    id: &String,
) -> (r: Option<usize>)
    ensures
        match r {
            Some(i) => is_first_event(events@, id@, i as int),
            None => !has_event(events@, id@),
        },
{
    let mut i: usize = 0;
    while i < events.len()
        invariant
            i <= events.len(),
            forall|j: int| 0 <= j < i ==> #[trigger] events@[j].id@ != id@,
        decreases events.len() - i,
    {
        if events[i].id == *id {
            return Some(i);
        }
        i += 1;
    }
    None
}

} // verus!
