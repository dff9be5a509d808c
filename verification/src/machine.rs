//! The dispatch engine: a machine instance owning the current state, the
//! current context and the transition history, built once from an initial
//! state, a context, the full state and edge universe, a decision function
//! and a hooks object, then driven by a sequence of dispatch calls.

use vstd::prelude::*;

use crate::decision::Decision;
use crate::hooks::Hooks;
use crate::model::Edge;
use crate::model::Event;
use crate::model::FsmError;
use crate::model::State;
use crate::model::TransitionRecord;
use crate::model::find_state_index;
use crate::model::first_state_index;
use crate::model::has_state;
use crate::model::is_first_state;
use crate::model::lemma_first_state_index;

verus! {

/// The explicit result of one dispatch call: either no outgoing edge
/// matched and nothing changed, or exactly one matched and the machine
/// transitioned over it.
#[derive(Debug, Clone)]
pub enum DispatchOutcome {
    NoMatch,
    Transitioned { from_state_id: String, to_state_id: String, edge_id: String },
}

/// Whether `row` lists exactly the positions of the edges of `edges`
/// outgoing from a state with id `id`, in input order: every listed edge
/// leaves that state, the positions strictly increase, and no outgoing
/// edge is missing.
pub open spec fn row_wf<EdgeInfo>(row: Seq<usize>, edges: Seq<Edge<EdgeInfo>>, id: Seq<char>) -> bool {
    &&& forall|j: int|
        0 <= j < row.len() ==> (#[trigger] row[j]) < edges.len() && edges[row[j] as int].from_state_id@
            == id
    &&& forall|j1: int, j2: int| 0 <= j1 < j2 < row.len() ==> row[j1] < row[j2]
    &&& forall|k: int|
        0 <= k < edges.len() && (#[trigger] edges[k]).from_state_id@ == id ==> exists|j: int|
            0 <= j < row.len() && (#[trigger] row[j]) as int == k
}

/// Whether every edge's from-state and to-state id resolves to a state of
/// `states`.
pub open spec fn edges_resolve<EdgeInfo>(states: Seq<State>, edges: Seq<Edge<EdgeInfo>>) -> bool {
    forall|k: int|
        0 <= k < edges.len() ==> has_state(states, (#[trigger] edges[k]).from_state_id@)
            && has_state(states, edges[k].to_state_id@)
}

/// A running machine instance.  It owns the full state and edge universe,
/// the adjacency index built once at construction, the current state, the
/// current context, the append-only transition history, the decision
/// function and the hooks object.
pub struct StateMachine<EventPayload, EdgeInfo, Context, D, H> where
    D: Decision<EventPayload, EdgeInfo, Context>,
    H: Hooks<EventPayload, EdgeInfo, Context>,
 {
    pub transition_history: Vec<TransitionRecord<EventPayload, Context>>,
    pub current_context: Context,
    pub states: Vec<State>,
    pub edges: Vec<Edge<EdgeInfo>>,
    pub current: usize,
    pub adjacency: Vec<Vec<usize>>,
    pub edge_to: Vec<usize>,
    pub decision: D,
    pub hooks: H,
}

impl<EventPayload, EdgeInfo, Context, D, H> StateMachine<EventPayload, EdgeInfo, Context, D, H> where
    D: Decision<EventPayload, EdgeInfo, Context>,
    H: Hooks<EventPayload, EdgeInfo, Context>,
 {
    /// The current state.
    pub open spec fn spec_current_state(&self) -> State {
        self.states@[self.current as int]
    }

    /// The current state's id.
    pub open spec fn current_state_id(&self) -> Seq<char> {
        self.spec_current_state().id@
    }

    /// The decision function this machine was built with.
    pub open spec fn spec_decision(&self) -> D {
        self.decision
    }

    /// The hooks object this machine was built with.
    pub open spec fn spec_hooks(&self) -> H {
        self.hooks
    }

    /// The abstract state of the hooks object.
    pub open spec fn hooks_st(&self) -> H::St {
        self.spec_hooks().st()
    }

    /// The machine's internal invariant: the current state is a position
    /// of the state set, the adjacency index has one exact row per state,
    /// and every edge's endpoints resolve, with the cached to-state
    /// position being the first state carrying the edge's to-state id.
    pub open spec fn wf(&self) -> bool {
        &&& self.current < self.states@.len()
        &&& self.adjacency@.len() == self.states@.len()
        &&& self.edge_to@.len() == self.edges@.len()
        &&& forall|k: int|
            0 <= k < self.edges@.len() ==> has_state(
                self.states@,
                (#[trigger] self.edges@[k]).from_state_id@,
            )
        &&& forall|k: int|
            0 <= k < self.edges@.len() ==> is_first_state(
                self.states@,
                (#[trigger] self.edges@[k]).to_state_id@,
                self.edge_to@[k] as int,
            )
        &&& forall|s: int|
            0 <= s < self.states@.len() ==> row_wf(
                (#[trigger] self.adjacency@[s])@,
                self.edges@,
                self.states@[s].id@,
            )
    }

    /// Whether the edge at position `k` leaves the current state.
    pub open spec fn edge_from_current(&self, k: int) -> bool {
        &&& 0 <= k < self.edges@.len()
        &&& self.edges@[k].from_state_id@ == self.current_state_id()
    }

    /// Whether the edge at position `k` leaves the current state and the
    /// decision function fires for it on `event` under the current
    /// context.
    pub open spec fn edge_fires(&self, event: Event<EventPayload>, k: int) -> bool {
        &&& self.edge_from_current(k)
        &&& self.spec_decision().fires(event, self.edges@[k], self.current_context) is Some
    }

    /// The replacement context the decision function produces for the edge
    /// at position `k` on `event`.
    pub open spec fn new_context_of(&self, event: Event<EventPayload>, k: int) -> Context {
        self.spec_decision().fires(event, self.edges@[k], self.current_context)->Some_0
    }

    /// The history record a transition over the edge at position `k` on
    /// `event` appends: the state pair, the triggering event, the edge's
    /// id, and the context as it was immediately before the transition.
    pub open spec fn record_of(&self, event: Event<EventPayload>, k: int) -> TransitionRecord<
        EventPayload,
        Context,
    > {
        TransitionRecord {
            from_state_id: self.spec_current_state().id,
            to_state_id: self.edges@[k].to_state_id,
            event: event,
            edge_id: self.edges@[k].id,
            context: self.current_context,
        }
    }

    /// The hook chain of a dispatch that found no matching edge: the
    /// start-of-dispatch and end-of-dispatch callbacks, each exactly once,
    /// in that order, both observing the unchanged state and context.
    pub open spec fn hooks_after_observed(&self, event: Event<EventPayload>) -> H::St {
        let st1 = H::st_after_dispatch_start(
            self.hooks_st(),
            event,
            self.spec_current_state(),
            self.current_context,
            self.states@,
            self.edges@,
        );
        H::st_after_dispatch_end(
            st1,
            event,
            self.spec_current_state(),
            self.current_context,
            self.states@,
            self.edges@,
        )
    }

    /// The hook chain of a dispatch that failed on an ambiguous
    /// transition: only the start-of-dispatch callback ran.
    pub open spec fn hooks_after_start_only(&self, event: Event<EventPayload>) -> H::St {
        H::st_after_dispatch_start(
            self.hooks_st(),
            event,
            self.spec_current_state(),
            self.current_context,
            self.states@,
            self.edges@,
        )
    }

    /// The hook chain of a transitioning dispatch over the edge at
    /// position `k` with replacement context `c`: start-of-dispatch,
    /// edge-traversal, state-exit, state-entry and end-of-dispatch, each
    /// exactly once, in that order; the exit callback observes the
    /// outgoing state and context, the entry and end callbacks the state
    /// and context just installed.
    pub open spec fn hooks_after_transition(
        &self,
        event: Event<EventPayload>,
        k: int,
        c: Context,
    ) -> H::St {
        let edge = self.edges@[k];
        let old_state = self.spec_current_state();
        let new_state = self.states@[first_state_index(self.states@, edge.to_state_id@)];
        let st1 = H::st_after_dispatch_start(
            self.hooks_st(),
            event,
            old_state,
            self.current_context,
            self.states@,
            self.edges@,
        );
        let st2 = H::st_after_edge_traversal(st1, event, edge, c, self.states@, self.edges@);
        let st3 = H::st_after_state_exit(
            st2,
            event,
            old_state,
            edge,
            self.current_context,
            self.states@,
            self.edges@,
        );
        let st4 = H::st_after_state_entry(st3, event, new_state, edge, c, self.states@, self.edges@);
        H::st_after_dispatch_end(st4, event, new_state, c, self.states@, self.edges@)
    }

    /// Builds a machine from an initial state, an initial context, the
    /// full state and edge universe, a decision function and a hooks
    /// object.  The adjacency index is built here, once, by partitioning
    /// the edge set by from-state id, preserving input order.  An edge
    /// endpoint id that resolves to no state is a fatal referential
    /// integrity defect, reported for the first unresolvable endpoint in
    /// edge order, from-state before to-state; an initial state absent
    /// from the state set leaves the machine without a usable index row
    /// and is reported as a missing state index.
    #[verifier::loop_isolation(false)]
    pub fn new(
        initial_state: &State,
        initial_context: Context,
        states: Vec<State>,
        edges: Vec<Edge<EdgeInfo>>,
        decision: D,
        hooks: H,
    ) -> (r: Result<StateMachine<EventPayload, EdgeInfo, Context, D, H>, FsmError>)
        ensures
            match r {
                Ok(m) => {
                    &&& edges_resolve(states@, edges@)
                    &&& has_state(states@, initial_state.id@)
                    &&& m.wf()
                    &&& m.states@ == states@
                    &&& m.edges@ == edges@
                    &&& m.spec_current_state() == states@[first_state_index(
                        states@,
                        initial_state.id@,
                    )]
                    &&& m.current_state_id() == initial_state.id@
                    &&& m.current_context == initial_context
                    &&& m.transition_history@ == Seq::<
                        TransitionRecord<EventPayload, Context>,
                    >::empty()
                    &&& m.spec_decision() == decision
                    &&& m.spec_hooks() == hooks
                },
                Err(FsmError::ReferentialIntegrity { missing_id }) => exists|k: int|
                    {
                        &&& 0 <= k < edges@.len()
                        &&& forall|k2: int|
                            0 <= k2 < k ==> has_state(
                                states@,
                                (#[trigger] edges@[k2]).from_state_id@,
                            ) && has_state(states@, edges@[k2].to_state_id@)
                        &&& if !has_state(states@, (#[trigger] edges@[k]).from_state_id@) {
                            missing_id == edges@[k].from_state_id
                        } else {
                            &&& !has_state(states@, edges@[k].to_state_id@)
                            &&& missing_id == edges@[k].to_state_id
                        }
                    },
                Err(FsmError::MissingStateIndex { state_id }) => {
                    &&& edges_resolve(states@, edges@)
                    &&& !has_state(states@, initial_state.id@)
                    &&& state_id == initial_state.id
                },
                Err(FsmError::AmbiguousTransition) => false,
            },
    {
        let mut edge_to: Vec<usize> = Vec::new();
        let mut k: usize = 0;
        while k < edges.len()
            invariant
                k <= edges.len(),
                edge_to@.len() == k,
                forall|k2: int|
                    0 <= k2 < k ==> has_state(states@, (#[trigger] edges@[k2]).from_state_id@),
                forall|k2: int|
                    0 <= k2 < k ==> is_first_state(
                        states@,
                        (#[trigger] edges@[k2]).to_state_id@,
                        edge_to@[k2] as int,
                    ),
            decreases edges.len() - k,
        {
            if find_state_index(&states, &edges[k].from_state_id).is_none() {
                return Err(
                    FsmError::ReferentialIntegrity { missing_id: edges[k].from_state_id.clone() },
                );
            }
            match find_state_index(&states, &edges[k].to_state_id) {
                None => {
                    return Err(
                        FsmError::ReferentialIntegrity { missing_id: edges[k].to_state_id.clone() },
                    );
                },
                Some(t) => {
                    edge_to.push(t);
                },
            }
            k += 1;
        }
        let current = match find_state_index(&states, &initial_state.id) {
            None => {
                proof {
                    assert forall|k2: int| 0 <= k2 < edges@.len() implies has_state(
                        states@,
                        (#[trigger] edges@[k2]).from_state_id@,
                    ) && has_state(states@, edges@[k2].to_state_id@) by {
                        assert(is_first_state(states@, edges@[k2].to_state_id@, edge_to@[k2] as int));
                    }
                }
                return Err(FsmError::MissingStateIndex { state_id: initial_state.id.clone() });
            },
            Some(i) => i,
        };
        let mut adjacency: Vec<Vec<usize>> = Vec::new();
        let mut s: usize = 0;
        while s < states.len()
            invariant
                s <= states.len(),
                adjacency@.len() == s,
                forall|s2: int|
                    0 <= s2 < s ==> row_wf(
                        (#[trigger] adjacency@[s2])@,
                        edges@,
                        states@[s2].id@,
                    ),
            decreases states.len() - s,
        {
            let mut row: Vec<usize> = Vec::new();
            let mut k2: usize = 0;
            while k2 < edges.len()
                invariant
                    k2 <= edges.len(),
                    s < states.len(),
                    forall|j: int|
                        0 <= j < row@.len() ==> (#[trigger] row@[j]) < k2 && edges@[row@[j] as int].from_state_id@
                            == states@[s as int].id@,
                    forall|j1: int, j2: int| 0 <= j1 < j2 < row@.len() ==> row@[j1] < row@[j2],
                    forall|k3: int|
                        0 <= k3 < k2 && (#[trigger] edges@[k3]).from_state_id@ == states@[s as int].id@
                            ==> exists|j: int| 0 <= j < row@.len() && (#[trigger] row@[j]) as int == k3,
                decreases edges.len() - k2,
            {
                if edges[k2].from_state_id == states[s].id {
                    let ghost row0 = row@;
                    row.push(k2);
                    proof {
                        assert forall|k3: int|
                            0 <= k3 < k2 + 1 && (#[trigger] edges@[k3]).from_state_id@
                                == states@[s as int].id@ implies exists|j: int|
                            0 <= j < row@.len() && (#[trigger] row@[j]) as int == k3 by {
                            if k3 == k2 as int {
                                assert(row@[row@.len() - 1] as int == k3);
                            } else {
                                let j0 = choose|j: int|
                                    0 <= j < row0.len() && (#[trigger] row0[j]) as int == k3;
                                assert(row@[j0] as int == k3);
                            }
                        }
                    }
                }
                k2 += 1;
            }
            adjacency.push(row);
            s += 1;
        }
        let machine = StateMachine {
            transition_history: Vec::new(),
            current_context: initial_context,
            states,
            edges,
            current,
            adjacency,
            edge_to,
            decision,
            hooks,
        };
        proof {
            lemma_first_state_index(machine.states@, initial_state.id@, current as int);
            assert forall|k2: int| 0 <= k2 < machine.edges@.len() implies has_state(
                machine.states@,
                (#[trigger] machine.edges@[k2]).from_state_id@,
            ) && has_state(machine.states@, machine.edges@[k2].to_state_id@) by {
                assert(is_first_state(
                    machine.states@,
                    machine.edges@[k2].to_state_id@,
                    machine.edge_to@[k2] as int,
                ));
            }
        }
        Ok(machine)
    }

    /// The state the machine currently stands in.
    pub fn current_state(&self) -> (s: &State)
        requires
            self.wf(),
        ensures
            *s == self.spec_current_state(),
    {
        &self.states[self.current]
    }

    /// Performs the transition over the matched edge at position `k` with
    /// replacement context `new_context`: runs the edge-traversal and
    /// state-exit hooks, appends the history record, installs the edge's
    /// to-state and the new context, and runs the state-entry hook.
    fn transition(
        &mut self,
        event: Event<EventPayload>,
        k: usize,
        new_context: Context,
    ) -> (outcome: DispatchOutcome)
        requires
            old(self).wf(),
            (k as int) < old(self).edges@.len(),
            old(self).edges@[k as int].from_state_id@ == old(self).current_state_id(),
        ensures
            final(self).wf(),
            final(self).states@ == old(self).states@,
            final(self).edges@ == old(self).edges@,
            final(self).adjacency@ == old(self).adjacency@,
            final(self).edge_to@ == old(self).edge_to@,
            final(self).spec_decision() == old(self).spec_decision(),
            final(self).spec_current_state() == old(self).states@[first_state_index(
                old(self).states@,
                old(self).edges@[k as int].to_state_id@,
            )],
            final(self).current_state_id() == old(self).edges@[k as int].to_state_id@,
            final(self).current_context == new_context,
            final(self).transition_history@ == old(self).transition_history@.push(
                old(self).record_of(event, k as int),
            ),
            final(self).hooks_st() == H::st_after_state_entry(
                H::st_after_state_exit(
                    H::st_after_edge_traversal(
                        old(self).hooks_st(),
                        event,
                        old(self).edges@[k as int],
                        new_context,
                        old(self).states@,
                        old(self).edges@,
                    ),
                    event,
                    old(self).spec_current_state(),
                    old(self).edges@[k as int],
                    old(self).current_context,
                    old(self).states@,
                    old(self).edges@,
                ),
                event,
                final(self).spec_current_state(),
                old(self).edges@[k as int],
                new_context,
                old(self).states@,
                old(self).edges@,
            ),
            outcome matches DispatchOutcome::Transitioned { from_state_id, to_state_id, edge_id }
                && from_state_id == old(self).spec_current_state().id && to_state_id == old(
                self,
            ).edges@[k as int].to_state_id && edge_id == old(self).edges@[k as int].id,
    {
        self.hooks.on_edge_traversal(
            &event,
            &self.edges[k],
            &new_context,
            &self.states,
            &self.edges,
        );
        let cur: usize = self.current;
        self.hooks.on_state_exit(
            &event,
            &self.states[cur],
            &self.edges[k],
            &self.current_context,
            &self.states,
            &self.edges,
        );
        let from_id = self.states[cur].id.clone();
        let to_id = self.edges[k].to_state_id.clone();
        let edge_id = self.edges[k].id.clone();
        let outcome = DispatchOutcome::Transitioned {
            from_state_id: from_id.clone(),
            to_state_id: to_id.clone(),
            edge_id: edge_id.clone(),
        };
        let mut prev_context = new_context;
        core::mem::swap(&mut prev_context, &mut self.current_context);
        self.transition_history.push(
            TransitionRecord { from_state_id: from_id, to_state_id: to_id, event, edge_id, context: prev_context },
        );
        let t: usize = self.edge_to[k];
        self.current = t;
        proof {
            lemma_first_state_index(self.states@, self.edges@[k as int].to_state_id@, t as int);
        }
        let hist_len = self.transition_history.len();
        self.hooks.on_state_entry(
            &self.transition_history[hist_len - 1].event,
            &self.states[t],
            &self.edges[k],
            &self.current_context,
            &self.states,
            &self.edges,
        );
        outcome
    }

    /// Dispatches one event: runs the start-of-dispatch hook, evaluates
    /// the decision function on every outgoing edge of the current state
    /// in index order, exhaustively, and then acts on the match count.
    /// Zero matches change nothing; exactly one performs the transition;
    /// two or more are a fatal ambiguity, reported before any change to
    /// state, context or history, with no end-of-dispatch hook run.  The
    /// end-of-dispatch hook otherwise runs unconditionally, seeing the
    /// possibly updated state and context.
    #[verifier::loop_isolation(false)]
    pub fn dispatch(&mut self, event: Event<EventPayload>) -> (r: Result<
        DispatchOutcome,
        FsmError,
    >)
        requires
            old(self).wf(),
        ensures
            final(self).wf(),
            final(self).states@ == old(self).states@,
            final(self).edges@ == old(self).edges@,
            final(self).spec_decision() == old(self).spec_decision(),
            match r {
                Ok(DispatchOutcome::NoMatch) => {
                    &&& forall|k: int| !(#[trigger] old(self).edge_fires(event, k))
                    &&& final(self).spec_current_state() == old(self).spec_current_state()
                    &&& final(self).current_context == old(self).current_context
                    &&& final(self).transition_history@ == old(self).transition_history@
                    &&& final(self).hooks_st() == old(self).hooks_after_observed(event)
                },
                Ok(
                    DispatchOutcome::Transitioned { from_state_id, to_state_id, edge_id },
                ) => exists|k: int|
                    {
                        &&& #[trigger] old(self).edge_fires(event, k)
                        &&& forall|k2: int|
                            #[trigger] old(self).edge_fires(event, k2) ==> k2 == k
                        &&& final(self).current_context == old(self).new_context_of(event, k)
                        &&& final(self).spec_current_state() == old(self).states@[
                            first_state_index(old(self).states@, old(self).edges@[k].to_state_id@)
                        ]
                        &&& final(self).current_state_id() == old(self).edges@[k].to_state_id@
                        &&& final(self).transition_history@ == old(self).transition_history@.push(
                            old(self).record_of(event, k),
                        )
                        &&& from_state_id == old(self).spec_current_state().id
                        &&& to_state_id == old(self).edges@[k].to_state_id
                        &&& edge_id == old(self).edges@[k].id
                        &&& final(self).hooks_st() == old(self).hooks_after_transition(
                            event,
                            k,
                            old(self).new_context_of(event, k),
                        )
                    },
                Err(e) => {
                    &&& e is AmbiguousTransition
                    &&& exists|k1: int, k2: int|
                        k1 != k2 && #[trigger] old(self).edge_fires(event, k1) && #[trigger] old(
                            self,
                        ).edge_fires(event, k2)
                    &&& final(self).spec_current_state() == old(self).spec_current_state()
                    &&& final(self).current_context == old(self).current_context
                    &&& final(self).transition_history@ == old(self).transition_history@
                    &&& final(self).hooks_st() == old(self).hooks_after_start_only(event)
                },
            },
    {
        let cur: usize = self.current;
        self.hooks.on_dispatch_start(
            &event,
            &self.states[cur],
            &self.current_context,
            &self.states,
            &self.edges,
        );
        let ghost row = self.adjacency@[cur as int]@;
        proof {
            assert(row_wf(row, self.edges@, self.states@[cur as int].id@));
        }
        let row_len = self.adjacency[cur].len();
        let mut j: usize = 0;
        let mut found: Option<(usize, Context)> = None;
        let mut ambiguous: bool = false;
        while j < row_len
            invariant
                j <= row_len,
                row_len == row.len(),
                found matches Option::None ==> forall|jj: int|
                    0 <= jj < j ==> !old(self).edge_fires(event, (#[trigger] row[jj]) as int),
                found matches Option::Some(kc) ==> {
                    &&& old(self).edge_fires(event, kc.0 as int)
                    &&& old(self).spec_decision().fires(
                        event,
                        old(self).edges@[kc.0 as int],
                        old(self).current_context,
                    ) == Option::Some(kc.1)
                    &&& exists|jj: int| 0 <= jj < j && (#[trigger] row[jj]) == kc.0
                },
                !ambiguous ==> (found matches Option::Some(kc) ==> forall|jj: int|
                    0 <= jj < j && (#[trigger] row[jj]) != kc.0 ==> !old(self).edge_fires(
                        event,
                        row[jj] as int,
                    )),
                ambiguous ==> exists|k1: int, k2: int|
                    k1 != k2 && #[trigger] old(self).edge_fires(event, k1) && #[trigger] old(
                        self,
                    ).edge_fires(event, k2),
            decreases row_len - j,
        {
            let k: usize = self.adjacency[cur][j];
            proof {
                assert(row[j as int] == k);
                assert((k as int) < self.edges@.len());
                assert(self.edges@[k as int].from_state_id@ == old(self).current_state_id());
            }
            let verdict = self.decision.decide(&event, &self.edges[k], &self.current_context);
            match verdict {
                Option::Some(c) => {
                    proof {
                        assert(old(self).edge_fires(event, k as int));
                    }
                    if found.is_some() {
                        proof {
                            let kc = found->Some_0;
                            let jj = choose|jj: int| 0 <= jj < j && (#[trigger] row[jj]) == kc.0;
                            assert(row[jj] < row[j as int]);
                            assert(old(self).edge_fires(event, kc.0 as int));
                            assert(kc.0 as int != k as int);
                        }
                        ambiguous = true;
                    } else {
                        found = Some((k, c));
                    }
                },
                Option::None => {},
            }
            j += 1;
        }
        if ambiguous {
            return Err(FsmError::AmbiguousTransition);
        }
        match found {
            None => {
                proof {
                    assert forall|k2: int| !(#[trigger] old(self).edge_fires(event, k2)) by {
                        if old(self).edge_fires(event, k2) {
                            assert(old(self).edges@[k2].from_state_id@ == old(
                                self,
                            ).states@[cur as int].id@);
                            let jj = choose|jj2: int|
                                0 <= jj2 < row.len() && (#[trigger] row[jj2]) as int == k2;
                            assert(!old(self).edge_fires(event, row[jj] as int));
                        }
                    }
                }
                self.hooks.on_dispatch_end(
                    &event,
                    &self.states[cur],
                    &self.current_context,
                    &self.states,
                    &self.edges,
                );
                Ok(DispatchOutcome::NoMatch)
            },
            Some((k, c)) => {
                proof {
                    assert(old(self).edge_fires(event, k as int));
                    assert forall|k2: int| #[trigger] old(self).edge_fires(event, k2) implies k2
                        == k as int by {
                        assert(old(self).edges@[k2].from_state_id@ == old(
                            self,
                        ).states@[cur as int].id@);
                        let jj = choose|jj2: int|
                            0 <= jj2 < row.len() && (#[trigger] row[jj2]) as int == k2;
                        if row[jj] != k {
                            assert(!old(self).edge_fires(event, row[jj] as int));
                        }
                    }
                }
                let outcome = self.transition(event, k, c);
                let t: usize = self.current;
                let hist_len = self.transition_history.len();
                self.hooks.on_dispatch_end(
                    &self.transition_history[hist_len - 1].event,
                    &self.states[t],
                    &self.current_context,
                    &self.states,
                    &self.edges,
                );
                Ok(outcome)
            },
        }
    }
}

} // verus!
