//! The hydration/dehydration codec.
//!
//! The live graph is connected through id references that a general
//! interchange format can carry directly, but a transition record also owns
//! its triggering event, which such a format cannot reconstruct alone.
//! Dehydration projects an `Edge` or `TransitionRecord` into a flat,
//! id-addressed form; hydration is the inverse: given a flat form plus the
//! full candidate universe of live states, edges and events, it resolves
//! each id by linear search (first match wins) and rebuilds the object.
//! An id absent from the supplied universe is fatal: it signals that the
//! caller passed an incomplete or mismatched universe.

use vstd::prelude::*;

use crate::model::Edge;
use crate::model::Event;
use crate::model::FsmError;
use crate::model::State;
use crate::model::TransitionRecord;
use crate::model::find_edge_index;
use crate::model::find_event_index;
use crate::model::find_state_index;
use crate::model::first_event_index;
use crate::model::has_edge;
use crate::model::has_event;
use crate::model::has_state;
use crate::model::lemma_first_event_index;

verus! {

/// The flat, id-addressed projection of an `Edge`.
#[derive(Debug, Clone)]
pub struct DeserializableEdge<EdgeInfo> {
    pub id: String,
    pub from_state_id: String,
    pub to_state_id: String,
    pub info: EdgeInfo,
}

/// The flat, id-addressed projection of a `TransitionRecord`.  The event
/// is carried by id alone; hydration recovers its payload from the event
/// universe.
#[derive(Debug, Clone)]
pub struct DeserializableTransitionRecord<Context> {
    pub from_state_id: String,
    pub to_state_id: String,
    pub event_id: String,
    pub edge_id: String,
    pub context: Context,
}

/// What dehydrating an edge yields: every field carried over, with the
/// state links already being ids.
pub open spec fn dehydrated_edge<EdgeInfo>(edge: Edge<EdgeInfo>) -> DeserializableEdge<
    EdgeInfo,
> {
    DeserializableEdge {
        id: edge.id,
        from_state_id: edge.from_state_id,
        to_state_id: edge.to_state_id,
        info: edge.info,
    }
}

/// What dehydrating a transition record yields: the event is projected to
/// its id, every other field is carried over.
pub open spec fn dehydrated_record<EventPayload, Context>(
    record: TransitionRecord<EventPayload, Context>,
) -> DeserializableTransitionRecord<Context> {
    DeserializableTransitionRecord {
        from_state_id: record.from_state_id,
        to_state_id: record.to_state_id,
        event_id: record.event.id,
        edge_id: record.edge_id,
        context: record.context,
    }
}

impl<EdgeInfo> From<Edge<EdgeInfo>> for DeserializableEdge<EdgeInfo> {
    /// Dehydrates an edge into its flat projection.
    fn from(edge: Edge<EdgeInfo>) -> (r: Self) {
        DeserializableEdge {
            id: edge.id,
            from_state_id: edge.from_state_id,
            to_state_id: edge.to_state_id,
            info: edge.info,
        }
    }
}

impl<EdgeInfo> vstd::std_specs::convert::FromSpecImpl<Edge<EdgeInfo>> for DeserializableEdge<EdgeInfo> {
    open spec fn obeys_from_spec() -> bool {
        true
    }

    open spec fn from_spec(edge: Edge<EdgeInfo>) -> Self {
        dehydrated_edge(edge)
    }
}

impl<EventPayload, Context> From<TransitionRecord<EventPayload, Context>> for DeserializableTransitionRecord<Context> {
    /// Dehydrates a transition record into its flat projection.
    fn from(record: TransitionRecord<EventPayload, Context>) -> (r: Self) {
        DeserializableTransitionRecord {
            from_state_id: record.from_state_id,
            to_state_id: record.to_state_id,
            event_id: record.event.id,
            edge_id: record.edge_id,
            context: record.context,
        }
    }
}

impl<EventPayload, Context> vstd::std_specs::convert::FromSpecImpl<TransitionRecord<EventPayload, Context>> for DeserializableTransitionRecord<Context> {
    open spec fn obeys_from_spec() -> bool {
        true
    }

    open spec fn from_spec(record: TransitionRecord<EventPayload, Context>) -> Self {
        dehydrated_record(record)
    }
}

/// What hydrating a flat edge yields: the edge rebuilt from the flat
/// fields when both endpoint ids resolve in `states`, else the first id,
/// in from-then-to order, that did not resolve.
pub open spec fn hydrate_edge_spec<EdgeInfo>(
    flat: DeserializableEdge<EdgeInfo>,
    states: Seq<State>,
) -> Result<Edge<EdgeInfo>, FsmError> {
    if !has_state(states, flat.from_state_id@) {
        Err(FsmError::ReferentialIntegrity { missing_id: flat.from_state_id })
    } else if !has_state(states, flat.to_state_id@) {
        Err(FsmError::ReferentialIntegrity { missing_id: flat.to_state_id })
    } else {
        Ok(
            Edge {
                id: flat.id,
                from_state_id: flat.from_state_id,
                to_state_id: flat.to_state_id,
                info: flat.info,
            },
        )
    }
}

/// What hydrating a flat transition record yields: the record rebuilt from
/// the flat fields, its event being the first event of the universe with
/// the recorded id, when every id resolves; else the first id, in
/// from-state, to-state, event, edge order, that did not resolve.
pub open spec fn hydrate_record_spec<EventPayload, EdgeInfo, Context>(
    flat: DeserializableTransitionRecord<Context>,
    states: Seq<State>,
    edges: Seq<Edge<EdgeInfo>>,
    events: Seq<Event<EventPayload>>,
) -> Result<TransitionRecord<EventPayload, Context>, FsmError> {
    if !has_state(states, flat.from_state_id@) {
        Err(FsmError::ReferentialIntegrity { missing_id: flat.from_state_id })
    } else if !has_state(states, flat.to_state_id@) {
        Err(FsmError::ReferentialIntegrity { missing_id: flat.to_state_id })
    } else if !has_event(events, flat.event_id@) {
        Err(FsmError::ReferentialIntegrity { missing_id: flat.event_id })
    } else if !has_edge(edges, flat.edge_id@) {
        Err(FsmError::ReferentialIntegrity { missing_id: flat.edge_id })
    } else {
        Ok(
            TransitionRecord {
                from_state_id: flat.from_state_id,
                to_state_id: flat.to_state_id,
                event: events[first_event_index(events, flat.event_id@)],
                edge_id: flat.edge_id,
                context: flat.context,
            },
        )
    }
}

impl<EdgeInfo> Edge<EdgeInfo> {
    /// Rebuilds an edge from its flat projection, checking that both
    /// endpoint ids resolve to states of the supplied universe.
    pub fn hydrate(flat: DeserializableEdge<EdgeInfo>, states: &Vec<State>) -> (r: Result<
        Edge<EdgeInfo>,
        FsmError,
    >)
        ensures
            r == hydrate_edge_spec(flat, states@),
    {
        if find_state_index(states, &flat.from_state_id).is_none() {
            return Err(FsmError::ReferentialIntegrity { missing_id: flat.from_state_id });
        }
        if find_state_index(states, &flat.to_state_id).is_none() {
            return Err(FsmError::ReferentialIntegrity { missing_id: flat.to_state_id });
        }
        let DeserializableEdge { id, from_state_id, to_state_id, info } = flat;
        Ok(Edge { id, from_state_id, to_state_id, info })
    }
}

impl<EventPayload, Context> TransitionRecord<EventPayload, Context> {
    /// Rebuilds a transition record from its flat projection.  The state,
    /// event and edge ids must all resolve in the supplied universe; the
    /// first event carrying the recorded event id is moved out of the
    /// event universe into the rebuilt record.
    pub fn hydrate<EdgeInfo>(
        flat: DeserializableTransitionRecord<Context>,
        states: &Vec<State>,
        edges: &Vec<Edge<EdgeInfo>>,
        events: Vec<Event<EventPayload>>,
    ) -> (r: Result<TransitionRecord<EventPayload, Context>, FsmError>)
        ensures
            r == hydrate_record_spec(flat, states@, edges@, events@),
    {
        if find_state_index(states, &flat.from_state_id).is_none() {
            return Err(FsmError::ReferentialIntegrity { missing_id: flat.from_state_id });
        }
        if find_state_index(states, &flat.to_state_id).is_none() {
            return Err(FsmError::ReferentialIntegrity { missing_id: flat.to_state_id });
        }
        let event_pos = match find_event_index(&events, &flat.event_id) {
            Some(i) => i,
            None => {
                return Err(FsmError::ReferentialIntegrity { missing_id: flat.event_id });
            },
        };
        if find_edge_index(edges, &flat.edge_id).is_none() {
            return Err(FsmError::ReferentialIntegrity { missing_id: flat.edge_id });
        }
        proof {
            lemma_first_event_index(events@, flat.event_id@, event_pos as int);
        }
        let mut events = events;
        let event = events.remove(event_pos);
        let DeserializableTransitionRecord { from_state_id, to_state_id, event_id, edge_id, context }
            = flat;
        Ok(TransitionRecord { from_state_id, to_state_id, event, edge_id, context })
    }
}

/// Hydration inverts dehydration for edges: rebuilding a dehydrated edge
/// against any universe that resolves both of its endpoint ids yields the
/// original edge.
pub proof fn lemma_edge_round_trip<EdgeInfo>(edge: Edge<EdgeInfo>, states: Seq<State>)
    requires
        has_state(states, edge.from_state_id@),
        has_state(states, edge.to_state_id@),
    ensures
        hydrate_edge_spec(dehydrated_edge(edge), states) == Ok::<Edge<EdgeInfo>, FsmError>(edge),
{
}

/// Hydration inverts dehydration for transition records: rebuilding a
/// dehydrated record against a universe that resolves its state and edge
/// ids, and whose first event carrying the record's event id is the
/// record's own event, yields the original record.  `i` names that first
/// event's position.
pub proof fn lemma_record_round_trip<EventPayload, EdgeInfo, Context>(
    record: TransitionRecord<EventPayload, Context>,
    states: Seq<State>,
    edges: Seq<Edge<EdgeInfo>>,
    events: Seq<Event<EventPayload>>,
    i: int,
)
    requires
        has_state(states, record.from_state_id@),
        has_state(states, record.to_state_id@),
        has_edge(edges, record.edge_id@),
        crate::model::is_first_event(events, record.event.id@, i),
        events[i] == record.event,
    ensures
        hydrate_record_spec(dehydrated_record(record), states, edges, events) == Ok::<
            TransitionRecord<EventPayload, Context>,
            FsmError,
        >(record),
{
    assert(has_event(events, record.event.id@));
    lemma_first_event_index(events, record.event.id@, i);
}

} // verus!
