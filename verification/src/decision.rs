//! The decision function: the single caller-supplied rule that says, for
//! an event evaluated against one outgoing edge under the current context,
//! whether that edge fires and with which replacement context.

use vstd::prelude::*;

use crate::model::Edge;
use crate::model::Event;

verus! {

/// A pure decision function mapping (event, edge, context) to "fires with
/// this new context" or "does not fire".  `fires` names the decision as a
/// mathematical function; `decide` must return exactly that, so the
/// machine's dispatch contract can speak of which edges match.
pub trait Decision<EventPayload, EdgeInfo, Context>: Sized {
    /// The decision as a mathematical function.
    spec fn fires(&self, event: Event<EventPayload>, edge: Edge<EdgeInfo>, context: Context) -> Option<Context>;

    /// Evaluates the decision on one outgoing edge.
    fn decide(
        &self,
        event: &Event<EventPayload>,
        edge: &Edge<EdgeInfo>,
        context: &Context,
    ) -> (r: Option<Context>)
        ensures
            r == self.fires(*event, *edge, *context),
    ;
}

/// The decision that fires for every edge and every event, with the unit
/// context.
pub struct AlwaysFire;

impl<EventPayload, EdgeInfo> Decision<EventPayload, EdgeInfo, ()> for AlwaysFire {
    open spec fn fires(&self, event: Event<EventPayload>, edge: Edge<EdgeInfo>, context: ()) -> Option<()> {
        Some(())
    }

    fn decide(
        &self,
        _event: &Event<EventPayload>,
        _edge: &Edge<EdgeInfo>,
        _context: &(),
    ) -> (r: Option<()>) {
        Some(())
    }
}

/// The decision that fires, for every edge, exactly when the event's id
/// equals the configured trigger id, with the unit context.
pub struct FireOnEventId {
    pub trigger: String,
}

impl<EventPayload, EdgeInfo> Decision<EventPayload, EdgeInfo, ()> for FireOnEventId {
    open spec fn fires(&self, event: Event<EventPayload>, edge: Edge<EdgeInfo>, context: ()) -> Option<()> {
        if event.id@ == self.trigger@ {
            Some(())
        } else {
            None
        }
    }

    fn decide(
        &self,
        event: &Event<EventPayload>,
        _edge: &Edge<EdgeInfo>,
        _context: &(),
    ) -> (r: Option<()>) {
        if event.id == self.trigger {
            Some(())
        } else {
            None
        }
    }
}

/// The decision that fires, for every edge, exactly when the event's id
/// equals the configured trigger id, replacing a counter context with its
/// wrapping successor.
pub struct CountOnEventId {
    pub trigger: String,
}

impl<EventPayload, EdgeInfo> Decision<EventPayload, EdgeInfo, u64> for CountOnEventId {
    open spec fn fires(&self, event: Event<EventPayload>, edge: Edge<EdgeInfo>, context: u64) -> Option<u64> {
        if event.id@ == self.trigger@ {
            Some(if context == u64::MAX { 0u64 } else { (context + 1) as u64 })
        } else {
            None
        }
    }

    fn decide(
        &self,
        event: &Event<EventPayload>,
        _edge: &Edge<EdgeInfo>,
        context: &u64,
    ) -> (r: Option<u64>) {
        if event.id == self.trigger {
            if *context == u64::MAX {
                Some(0)
            } else {
                Some(*context + 1)
            }
        } else {
            None
        }
    }
}

} // verus!
