//! A finite-state-machine execution engine.
//!
//! Callers define named states, named payload-carrying events, and named
//! directed edges between states, then dispatch events against a running
//! machine instance.  For each dispatched event the engine evaluates every
//! outgoing edge of the current state with a caller-supplied decision
//! function, enforces that at most one edge fires, performs the resulting
//! transition, records history, and invokes lifecycle hooks around the
//! decision.  A reversible id-addressed projection of edges and history
//! records supports serialization by an external codec.

pub mod codec;
pub mod decision;
pub mod hooks;
pub mod machine;
pub mod model;

pub use codec::DeserializableEdge;
pub use codec::DeserializableTransitionRecord;
pub use decision::AlwaysFire;
pub use decision::CountOnEventId;
pub use decision::Decision;
pub use decision::FireOnEventId;
pub use hooks::HookKind;
pub use machine::DispatchOutcome;
pub use machine::StateMachine;
pub use hooks::Hooks;
pub use hooks::NoHooks;
pub use hooks::RecordingHooks;
pub use model::Edge;
pub use model::Event;
pub use model::FsmError;
pub use model::State;
pub use model::TransitionRecord;
