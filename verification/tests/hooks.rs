use fsm_engine::AlwaysFire;
use fsm_engine::Edge;
use fsm_engine::Event;
use fsm_engine::FsmError;
use fsm_engine::HookKind;
use fsm_engine::NoHooks;
use fsm_engine::RecordingHooks;
use fsm_engine::State;
use fsm_engine::StateMachine;

fn two_state_universe() -> (State, Vec<State>, Vec<Edge<String>>) {
    let state1 = State { id: "first_state".to_string() };
    let state2 = State { id: "second_state".to_string() };
    let states = vec![state1.clone(), state2];
    let edge1 = Edge {
        id: "from first to second".to_string(),
        from_state_id: "first_state".to_string(),
        to_state_id: "second_state".to_string(),
        info: "do it".to_string(),
    };
    let edges = vec![edge1];
    (state1, states, edges)
}

#[test]
fn it_calls_hooks() {
    let (state1, states, edges) = two_state_universe();

    let mut state_machine: StateMachine<(), String, (), AlwaysFire, RecordingHooks> =
        StateMachine::new(&state1, (), states, edges, AlwaysFire, RecordingHooks::new()).unwrap();

    let event1 = Event { id: "first event".to_string(), payload: () };
    state_machine.dispatch(event1).unwrap();

    let start_dispatch_hook_called =
        state_machine.hooks.calls.contains(&HookKind::DispatchStart);
    println!("start_dispatch_hook_called: {}", &start_dispatch_hook_called);
    assert_eq!(start_dispatch_hook_called, true);
}

#[test]
fn hook_order_on_transition() {
    let (state1, states, edges) = two_state_universe();

    let mut machine: StateMachine<(), String, (), AlwaysFire, RecordingHooks> =
        StateMachine::new(&state1, (), states, edges, AlwaysFire, RecordingHooks::new()).unwrap();

    machine.dispatch(Event { id: "first event".to_string(), payload: () }).unwrap();

    assert_eq!(
        machine.hooks.calls,
        vec![
            HookKind::DispatchStart,
            HookKind::EdgeTraversal,
            HookKind::StateExit,
            HookKind::StateEntry,
            HookKind::DispatchEnd,
        ],
    );
}

#[test]
fn hook_order_without_transition() {
    let state1 = State { id: "first_state".to_string() };
    let states = vec![state1.clone()];
    let edges: Vec<Edge<String>> = Vec::new();

    let mut machine: StateMachine<(), String, (), AlwaysFire, RecordingHooks> =
        StateMachine::new(&state1, (), states, edges, AlwaysFire, RecordingHooks::new()).unwrap();

    machine.dispatch(Event { id: "anything".to_string(), payload: () }).unwrap();

    assert_eq!(machine.hooks.calls, vec![HookKind::DispatchStart, HookKind::DispatchEnd]);
}

#[test]
fn hook_order_on_ambiguity() {
    let state_a = State { id: "A".to_string() };
    let state_b = State { id: "B".to_string() };
    let state_c = State { id: "C".to_string() };
    let states = vec![state_a.clone(), state_b, state_c];
    let edges = vec![
        Edge {
            id: "a to b".to_string(),
            from_state_id: "A".to_string(),
            to_state_id: "B".to_string(),
            info: (),
        },
        Edge {
            id: "a to c".to_string(),
            from_state_id: "A".to_string(),
            to_state_id: "C".to_string(),
            info: (),
        },
    ];

    let mut machine: StateMachine<(), (), (), AlwaysFire, RecordingHooks> =
        StateMachine::new(&state_a, (), states, edges, AlwaysFire, RecordingHooks::new()).unwrap();

    let r = machine.dispatch(Event { id: "go".to_string(), payload: () });
    assert!(matches!(r, Err(FsmError::AmbiguousTransition)));
    assert_eq!(machine.hooks.calls, vec![HookKind::DispatchStart]);
}

#[test]
fn no_hooks_machine_transitions() {
    let (state1, states, edges) = two_state_universe();

    let mut machine: StateMachine<(), String, (), AlwaysFire, NoHooks> =
        StateMachine::new(&state1, (), states, edges, AlwaysFire, NoHooks).unwrap();

    machine.dispatch(Event { id: "first event".to_string(), payload: () }).unwrap();
    assert_eq!(machine.current_state().id, "second_state");
}
