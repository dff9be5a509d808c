//! The hook pipeline: five observer points around dispatch and transition.
//!
//! A hooks object implements [`Hooks`].  Each callback may mutate the
//! hooks object's own state (counters, logs) but cannot veto a transition
//! or substitute a context.  The engine guarantees exact invocation count
//! and relative ordering; that guarantee is stated through an abstract
//! hook state: each implementor names its state type, says how each
//! callback advances it, and the machine's `dispatch` contract pins the
//! exact chain of advances for every outcome.

use vstd::prelude::*;

use crate::model::Edge;
use crate::model::Event;
use crate::model::State;

verus! {

/// The observer interface around dispatch and transition.  An implementor
/// that wants one of the five points to do nothing gives it an identity
/// state transformer and an empty body.
pub trait Hooks<EventPayload, EdgeInfo, Context>: Sized {
    /// The abstract state that the callbacks advance.
    type St;

    /// The abstract state this hooks object currently holds.
    spec fn st(&self) -> Self::St;

    /// How the start-of-dispatch callback advances the abstract state.
    spec fn st_after_dispatch_start(
        st: Self::St,
        event: Event<EventPayload>,
        state: State,
        context: Context,
        states: Seq<State>,
        edges: Seq<Edge<EdgeInfo>>,
    ) -> Self::St;

    /// How the edge-traversal callback advances the abstract state.
    spec fn st_after_edge_traversal(
        st: Self::St,
        event: Event<EventPayload>,
        edge: Edge<EdgeInfo>,
        context: Context,
        states: Seq<State>,
        edges: Seq<Edge<EdgeInfo>>,
    ) -> Self::St;

    /// How the state-exit callback advances the abstract state.
    spec fn st_after_state_exit(
        st: Self::St,
        event: Event<EventPayload>,
        state: State,
        edge: Edge<EdgeInfo>,
        context: Context,
        states: Seq<State>,
        edges: Seq<Edge<EdgeInfo>>,
    ) -> Self::St;

    /// How the state-entry callback advances the abstract state.
    spec fn st_after_state_entry(
        st: Self::St,
        event: Event<EventPayload>,
        state: State,
        edge: Edge<EdgeInfo>,
        context: Context,
        states: Seq<State>,
        edges: Seq<Edge<EdgeInfo>>,
    ) -> Self::St;

    /// How the end-of-dispatch callback advances the abstract state.
    spec fn st_after_dispatch_end(
        st: Self::St,
        event: Event<EventPayload>,
        state: State,
        context: Context,
        states: Seq<State>,
        edges: Seq<Edge<EdgeInfo>>,
    ) -> Self::St;

    /// Observes the start of a dispatch: the event together with the
    /// committed state and context, and the full state and edge sets.
    fn on_dispatch_start(
        &mut self,
        event: &Event<EventPayload>,
        state: &State,
        context: &Context,
        states: &Vec<State>,
        edges: &Vec<Edge<EdgeInfo>>,
    )
        ensures
            final(self).st() == Self::st_after_dispatch_start(
                old(self).st(),
                *event,
                *state,
                *context,
                states@,
                edges@,
            ),
    ;

    /// Observes the traversal of the matched edge, with the context about
    /// to be installed.
    fn on_edge_traversal(
        &mut self,
        event: &Event<EventPayload>,
        edge: &Edge<EdgeInfo>,
        context: &Context,
        states: &Vec<State>,
        edges: &Vec<Edge<EdgeInfo>>,
    )
        ensures
            final(self).st() == Self::st_after_edge_traversal(
                old(self).st(),
                *event,
                *edge,
                *context,
                states@,
                edges@,
            ),
    ;

    /// Observes the state about to be left, with the outgoing context.
    fn on_state_exit(
        &mut self,
        event: &Event<EventPayload>,
        state: &State,
        edge: &Edge<EdgeInfo>,
        context: &Context,
        states: &Vec<State>,
        edges: &Vec<Edge<EdgeInfo>>,
    )
        ensures
            final(self).st() == Self::st_after_state_exit(
                old(self).st(),
                *event,
                *state,
                *edge,
                *context,
                states@,
                edges@,
            ),
    ;

    /// Observes the state just entered, with the installed context.
    fn on_state_entry(
        &mut self,
        event: &Event<EventPayload>,
        state: &State,
        edge: &Edge<EdgeInfo>,
        context: &Context,
        states: &Vec<State>,
        edges: &Vec<Edge<EdgeInfo>>,
    )
        ensures
            final(self).st() == Self::st_after_state_entry(
                old(self).st(),
                *event,
                *state,
                *edge,
                *context,
                states@,
                edges@,
            ),
    ;

    /// Observes the end of a dispatch, with the possibly updated state and
    /// context.
    fn on_dispatch_end(
        &mut self,
        event: &Event<EventPayload>,
        state: &State,
        context: &Context,
        states: &Vec<State>,
        edges: &Vec<Edge<EdgeInfo>>,
    )
        ensures
            final(self).st() == Self::st_after_dispatch_end(
                old(self).st(),
                *event,
                *state,
                *context,
                states@,
                edges@,
            ),
    ;
}

/// A label for one hook invocation, as recorded by [`RecordingHooks`].
#[derive(Debug, Clone, Copy, PartialEq, Eq, Structural)]
pub enum HookKind {
    DispatchStart,
    EdgeTraversal,
    StateExit,
    StateEntry,
    DispatchEnd,
}

/// The hooks object that observes nothing: every callback leaves its
/// abstract state, the unit value, unchanged.
pub struct NoHooks;

impl<EventPayload, EdgeInfo, Context> Hooks<EventPayload, EdgeInfo, Context> for NoHooks {
    type St = ();

    open spec fn st(&self) -> () {
        ()
    }

    open spec fn st_after_dispatch_start(
        st: (),
        event: Event<EventPayload>,
        state: State,
        context: Context,
        states: Seq<State>,
        edges: Seq<Edge<EdgeInfo>>,
    ) -> () {
        ()
    }

    open spec fn st_after_edge_traversal(
        st: (),
        event: Event<EventPayload>,
        edge: Edge<EdgeInfo>,
        context: Context,
        states: Seq<State>,
        edges: Seq<Edge<EdgeInfo>>,
    ) -> () {
        ()
    }

    open spec fn st_after_state_exit(
        st: (),
        event: Event<EventPayload>,
        state: State,
        edge: Edge<EdgeInfo>,
        context: Context,
        states: Seq<State>,
        edges: Seq<Edge<EdgeInfo>>,
    ) -> () {
        ()
    }

    open spec fn st_after_state_entry(
        st: (),
        event: Event<EventPayload>,
        state: State,
        edge: Edge<EdgeInfo>,
        context: Context,
        states: Seq<State>,
        edges: Seq<Edge<EdgeInfo>>,
    ) -> () {
        ()
    }

    open spec fn st_after_dispatch_end(
        st: (),
        event: Event<EventPayload>,
        state: State,
        context: Context,
        states: Seq<State>,
        edges: Seq<Edge<EdgeInfo>>,
    ) -> () {
        ()
    }

    fn on_dispatch_start(
        &mut self,
        _event: &Event<EventPayload>,
        _state: &State,
        _context: &Context,
        _states: &Vec<State>,
        _edges: &Vec<Edge<EdgeInfo>>,
    ) {
    }

    fn on_edge_traversal(
        &mut self,
        _event: &Event<EventPayload>,
        _edge: &Edge<EdgeInfo>,
        _context: &Context,
        _states: &Vec<State>,
        _edges: &Vec<Edge<EdgeInfo>>,
    ) {
    }

    fn on_state_exit(
        &mut self,
        _event: &Event<EventPayload>,
        _state: &State,
        _edge: &Edge<EdgeInfo>,
        _context: &Context,
        _states: &Vec<State>,
        _edges: &Vec<Edge<EdgeInfo>>,
    ) {
    }

    fn on_state_entry(
        &mut self,
        _event: &Event<EventPayload>,
        _state: &State,
        _edge: &Edge<EdgeInfo>,
        _context: &Context,
        _states: &Vec<State>,
        _edges: &Vec<Edge<EdgeInfo>>,
    ) {
    }

    fn on_dispatch_end(
        &mut self,
        _event: &Event<EventPayload>,
        _state: &State,
        _context: &Context,
        _states: &Vec<State>,
        _edges: &Vec<Edge<EdgeInfo>>,
    ) {
    }
}

/// A hooks object that appends a label for every invocation to a log: its
/// abstract state is the log's sequence of labels, so the log shows the
/// exact order in which the engine ran the callbacks.
pub struct RecordingHooks {
    pub calls: Vec<HookKind>,
}

impl RecordingHooks {
    /// A recorder with an empty log.
    pub fn new() -> (r: RecordingHooks)
        ensures
            r.calls@ == Seq::<HookKind>::empty(),
    {
        RecordingHooks { calls: Vec::new() }
    }
}

impl<EventPayload, EdgeInfo, Context> Hooks<EventPayload, EdgeInfo, Context> for RecordingHooks {
    type St = Seq<HookKind>;

    open spec fn st(&self) -> Seq<HookKind> {
        self.calls@
    }

    open spec fn st_after_dispatch_start(
        st: Seq<HookKind>,
        event: Event<EventPayload>,
        state: State,
        context: Context,
        states: Seq<State>,
        edges: Seq<Edge<EdgeInfo>>,
    ) -> Seq<HookKind> {
        st.push(HookKind::DispatchStart)
    }

    open spec fn st_after_edge_traversal(
        st: Seq<HookKind>,
        event: Event<EventPayload>,
        edge: Edge<EdgeInfo>,
        context: Context,
        states: Seq<State>,
        edges: Seq<Edge<EdgeInfo>>,
    ) -> Seq<HookKind> {
        st.push(HookKind::EdgeTraversal)
    }

    open spec fn st_after_state_exit(
        st: Seq<HookKind>,
        event: Event<EventPayload>,
        state: State,
        edge: Edge<EdgeInfo>,
        context: Context,
        states: Seq<State>,
        edges: Seq<Edge<EdgeInfo>>,
    ) -> Seq<HookKind> {
        st.push(HookKind::StateExit)
    }

    open spec fn st_after_state_entry(
        st: Seq<HookKind>,
        event: Event<EventPayload>,
        state: State,
        edge: Edge<EdgeInfo>,
        context: Context,
        states: Seq<State>,
        edges: Seq<Edge<EdgeInfo>>,
    ) -> Seq<HookKind> {
        st.push(HookKind::StateEntry)
    }

    open spec fn st_after_dispatch_end(
        st: Seq<HookKind>,
        event: Event<EventPayload>,
        state: State,
        context: Context,
        states: Seq<State>,
        edges: Seq<Edge<EdgeInfo>>,
    ) -> Seq<HookKind> {
        st.push(HookKind::DispatchEnd)
    }

    fn on_dispatch_start(
        &mut self,
        _event: &Event<EventPayload>,
        _state: &State,
        _context: &Context,
        _states: &Vec<State>,
        _edges: &Vec<Edge<EdgeInfo>>,
    ) {
        self.calls.push(HookKind::DispatchStart);
    }

    fn on_edge_traversal(
        &mut self,
        _event: &Event<EventPayload>,
        _edge: &Edge<EdgeInfo>,
        _context: &Context,
        _states: &Vec<State>,
        _edges: &Vec<Edge<EdgeInfo>>,
    ) {
        self.calls.push(HookKind::EdgeTraversal);
    }

    fn on_state_exit(
        &mut self,
        _event: &Event<EventPayload>,
        _state: &State,
        _edge: &Edge<EdgeInfo>,
        _context: &Context,
        _states: &Vec<State>,
        _edges: &Vec<Edge<EdgeInfo>>,
    ) {
        self.calls.push(HookKind::StateExit);
    }

    fn on_state_entry(
        &mut self,
        _event: &Event<EventPayload>,
        _state: &State,
        _edge: &Edge<EdgeInfo>,
        _context: &Context,
        _states: &Vec<State>,
        _edges: &Vec<Edge<EdgeInfo>>,
    ) {
        self.calls.push(HookKind::StateEntry);
    }

    fn on_dispatch_end(
        &mut self,
        _event: &Event<EventPayload>,
        _state: &State,
        _context: &Context,
        _states: &Vec<State>,
        _edges: &Vec<Edge<EdgeInfo>>,
    ) {
        self.calls.push(HookKind::DispatchEnd);
    }
}

} // verus!
