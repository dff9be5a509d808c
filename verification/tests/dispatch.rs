use fsm_engine::AlwaysFire;
use fsm_engine::CountOnEventId;
use fsm_engine::DispatchOutcome;
use fsm_engine::Edge;
use fsm_engine::Event;
use fsm_engine::FireOnEventId;
use fsm_engine::FsmError;
use fsm_engine::NoHooks;
use fsm_engine::State;
use fsm_engine::StateMachine;

fn ab_universe() -> (State, Vec<State>, Vec<Edge<String>>) {
    let state_a = State { id: "A".to_string() };
    let state_b = State { id: "B".to_string() };
    let states = vec![state_a.clone(), state_b];
    let edge1 = Edge {
        id: "e1".to_string(),
        from_state_id: "A".to_string(),
        to_state_id: "B".to_string(),
        info: "go".to_string(),
    };
    (state_a, states, vec![edge1])
}

#[test]
fn scenario_a_stay_leaves_machine_unchanged() {
    let (state_a, states, edges) = ab_universe();
    let decision = FireOnEventId { trigger: "go-event".to_string() };
    let mut machine: StateMachine<(), String, (), FireOnEventId, NoHooks> =
        StateMachine::new(&state_a, (), states, edges, decision, NoHooks).unwrap();

    let r = machine.dispatch(Event { id: "stay".to_string(), payload: () });
    assert!(matches!(r, Ok(DispatchOutcome::NoMatch)));
    assert_eq!(machine.current_state().id, "A");
    assert!(machine.transition_history.is_empty());
}

#[test]
fn scenario_a_go_event_transitions_to_b() {
    let (state_a, states, edges) = ab_universe();
    let decision = FireOnEventId { trigger: "go-event".to_string() };
    let mut machine: StateMachine<(), String, (), FireOnEventId, NoHooks> =
        StateMachine::new(&state_a, (), states, edges, decision, NoHooks).unwrap();

    let r = machine.dispatch(Event { id: "go-event".to_string(), payload: () });
    match r {
        Ok(DispatchOutcome::Transitioned { from_state_id, to_state_id, edge_id }) => {
            assert_eq!(from_state_id, "A");
            assert_eq!(to_state_id, "B");
            assert_eq!(edge_id, "e1");
        },
        other => panic!("expected a transition, got {:?}", other),
    }
    assert_eq!(machine.current_state().id, "B");
    assert_eq!(machine.transition_history.len(), 1);
    let record = &machine.transition_history[0];
    assert_eq!(record.from_state_id, "A");
    assert_eq!(record.to_state_id, "B");
    assert_eq!(record.edge_id, "e1");
    assert_eq!(record.event.id, "go-event");
}

#[test]
fn scenario_b_two_matching_edges_fail_fatally() {
    let state_a = State { id: "A".to_string() };
    let state_b = State { id: "B".to_string() };
    let state_c = State { id: "C".to_string() };
    let states = vec![state_a.clone(), state_b, state_c];
    let edges = vec![
        Edge {
            id: "a to b".to_string(),
            from_state_id: "A".to_string(),
            to_state_id: "B".to_string(),
            info: (),
        },
        Edge {
            id: "a to c".to_string(),
            from_state_id: "A".to_string(),
            to_state_id: "C".to_string(),
            info: (),
        },
    ];

    let mut machine: StateMachine<(), (), (), AlwaysFire, NoHooks> =
        StateMachine::new(&state_a, (), states, edges, AlwaysFire, NoHooks).unwrap();

    let r = machine.dispatch(Event { id: "go".to_string(), payload: () });
    assert!(matches!(r, Err(FsmError::AmbiguousTransition)));
    assert_eq!(machine.current_state().id, "A");
    assert!(machine.transition_history.is_empty());
}

#[test]
fn context_is_replaced_and_history_keeps_the_old_one() {
    let state_a = State { id: "A".to_string() };
    let states = vec![state_a.clone()];
    let edges = vec![Edge {
        id: "self loop".to_string(),
        from_state_id: "A".to_string(),
        to_state_id: "A".to_string(),
        info: (),
    }];
    let decision = CountOnEventId { trigger: "tick".to_string() };
    let mut machine: StateMachine<(), (), u64, CountOnEventId, NoHooks> =
        StateMachine::new(&state_a, 0, states, edges, decision, NoHooks).unwrap();

    machine.dispatch(Event { id: "tick".to_string(), payload: () }).unwrap();
    assert_eq!(machine.current_context, 1);
    machine.dispatch(Event { id: "noise".to_string(), payload: () }).unwrap();
    assert_eq!(machine.current_context, 1);
    machine.dispatch(Event { id: "tick".to_string(), payload: () }).unwrap();
    assert_eq!(machine.current_context, 2);

    assert_eq!(machine.transition_history.len(), 2);
    assert_eq!(machine.transition_history[0].context, 0);
    assert_eq!(machine.transition_history[1].context, 1);
}

#[test]
fn counter_context_wraps_at_the_largest_value() {
    let state_a = State { id: "A".to_string() };
    let states = vec![state_a.clone()];
    let edges = vec![Edge {
        id: "self loop".to_string(),
        from_state_id: "A".to_string(),
        to_state_id: "A".to_string(),
        info: (),
    }];
    let decision = CountOnEventId { trigger: "tick".to_string() };
    let mut machine: StateMachine<(), (), u64, CountOnEventId, NoHooks> =
        StateMachine::new(&state_a, u64::MAX, states, edges, decision, NoHooks).unwrap();

    machine.dispatch(Event { id: "tick".to_string(), payload: () }).unwrap();
    assert_eq!(machine.current_context, 0);
    assert_eq!(machine.transition_history[0].context, u64::MAX);
}

#[test]
fn sink_state_absorbs_events() {
    let (state_a, states, edges) = ab_universe();
    let decision = FireOnEventId { trigger: "go-event".to_string() };
    let mut machine: StateMachine<(), String, (), FireOnEventId, NoHooks> =
        StateMachine::new(&state_a, (), states, edges, decision, NoHooks).unwrap();

    machine.dispatch(Event { id: "go-event".to_string(), payload: () }).unwrap();
    assert_eq!(machine.current_state().id, "B");

    let r = machine.dispatch(Event { id: "go-event".to_string(), payload: () });
    assert!(matches!(r, Ok(DispatchOutcome::NoMatch)));
    assert_eq!(machine.current_state().id, "B");
    assert_eq!(machine.transition_history.len(), 1);
}

#[test]
fn new_rejects_unresolvable_edge_endpoint() {
    let state_a = State { id: "A".to_string() };
    let states = vec![state_a.clone()];
    let edges = vec![Edge {
        id: "dangling".to_string(),
        from_state_id: "A".to_string(),
        to_state_id: "nowhere".to_string(),
        info: (),
    }];
    let r: Result<StateMachine<(), (), (), AlwaysFire, NoHooks>, FsmError> =
        StateMachine::new(&state_a, (), states, edges, AlwaysFire, NoHooks);
    match r {
        Err(FsmError::ReferentialIntegrity { missing_id }) => {
            assert_eq!(missing_id, "nowhere");
        },
        _ => panic!("expected a referential integrity failure"),
    }
}

#[test]
fn new_reports_first_unresolvable_endpoint() {
    let state_a = State { id: "A".to_string() };
    let states = vec![state_a.clone()];
    let edges = vec![
        Edge {
            id: "lost source".to_string(),
            from_state_id: "ghost".to_string(),
            to_state_id: "A".to_string(),
            info: (),
        },
        Edge {
            id: "lost target".to_string(),
            from_state_id: "A".to_string(),
            to_state_id: "nowhere".to_string(),
            info: (),
        },
    ];
    let r: Result<StateMachine<(), (), (), AlwaysFire, NoHooks>, FsmError> =
        StateMachine::new(&state_a, (), states, edges, AlwaysFire, NoHooks);
    match r {
        Err(FsmError::ReferentialIntegrity { missing_id }) => {
            assert_eq!(missing_id, "ghost");
        },
        _ => panic!("expected a referential integrity failure"),
    }
}

#[test]
fn new_rejects_initial_state_outside_the_state_set() {
    let state_a = State { id: "A".to_string() };
    let states = vec![state_a];
    let stranger = State { id: "elsewhere".to_string() };
    let edges: Vec<Edge<()>> = Vec::new();
    let r: Result<StateMachine<(), (), (), AlwaysFire, NoHooks>, FsmError> =
        StateMachine::new(&stranger, (), states, edges, AlwaysFire, NoHooks);
    match r {
        Err(FsmError::MissingStateIndex { state_id }) => {
            assert_eq!(state_id, "elsewhere");
        },
        _ => panic!("expected a missing state index failure"),
    }
}

#[test]
fn adjacency_groups_by_id_not_address() {
    // Two distinct State values with equal ids: edges attached to the id
    // are reachable from the machine whichever value the caller passes as
    // the initial state.
    let state_a1 = State { id: "A".to_string() };
    let state_a2 = State { id: "A".to_string() };
    let state_b = State { id: "B".to_string() };
    let states = vec![state_a1, state_b];
    let edges = vec![Edge {
        id: "e1".to_string(),
        from_state_id: "A".to_string(),
        to_state_id: "B".to_string(),
        info: (),
    }];
    let mut machine: StateMachine<(), (), (), AlwaysFire, NoHooks> =
        StateMachine::new(&state_a2, (), states, edges, AlwaysFire, NoHooks).unwrap();
    machine.dispatch(Event { id: "go".to_string(), payload: () }).unwrap();
    assert_eq!(machine.current_state().id, "B");
}
