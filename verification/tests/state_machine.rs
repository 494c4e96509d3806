use kedai_server::agents::state_machine::{transitions, AgentState, StateMachine};
use std::collections::HashSet;

#[test]
fn test_valid_transitions() {
    let mut sm = StateMachine::new("s1");
    sm.transition(AgentState::Planning, "s1").unwrap();
    assert_eq!(sm.current(), AgentState::Planning);
    sm.transition(AgentState::Executing, "s1").unwrap();
    assert_eq!(sm.current(), AgentState::Executing);
    sm.transition(AgentState::Reflecting, "s1").unwrap();
    assert_eq!(sm.current(), AgentState::Reflecting);
    sm.transition(AgentState::Finished, "s1").unwrap();
    assert_eq!(sm.current(), AgentState::Finished);
}

#[test]
fn test_idempotent() {
    let mut sm = StateMachine::new("s1");
    sm.transition(AgentState::Planning, "s1").unwrap();
    sm.transition(AgentState::Planning, "s1").unwrap();
    assert_eq!(sm.current(), AgentState::Planning);
}

#[test]
fn test_invalid_transition() {
    let mut sm = StateMachine::new("s1");
    assert!(sm.transition(AgentState::Reflecting, "s1").is_err());
    assert_eq!(sm.current(), AgentState::Idle);
}

#[test]
fn test_idle_directly_to_tool_call_is_valid() {
    let mut sm = StateMachine::new("s1");
    sm.transition(AgentState::ToolCall, "s1").unwrap();
    assert_eq!(sm.current(), AgentState::ToolCall);
    sm.transition(AgentState::Executing, "s1").unwrap();
    assert_eq!(sm.current(), AgentState::Executing);
}

#[test]
fn test_finished_to_executing() {
    let mut sm = StateMachine::new("s1");
    sm.restore(AgentState::Finished);
    sm.transition(AgentState::Executing, "s1").unwrap();
}

#[test]
fn test_best_effort_valid_transition_returns_true_and_changes_state() {
    let mut sm = StateMachine::new("s1");
    assert!(sm.transition_best_effort(AgentState::Planning, "s1"));
    assert_eq!(sm.current(), AgentState::Planning);
}

#[test]
fn test_best_effort_invalid_transition_returns_false_and_keeps_state() {
    let mut sm = StateMachine::new("s1");
    assert!(!sm.transition_best_effort(AgentState::Reflecting, "s1"));
    assert_eq!(sm.current(), AgentState::Idle);
}

#[test]
fn refused_transition_message_names_both_states() {
    let mut sm = StateMachine::new("s1");
    let err = sm.transition(AgentState::Reflecting, "s1").unwrap_err();
    assert_eq!(err, "非法状态迁移:idle → reflecting");
}

#[test]
fn state_names_are_wire_names() {
    assert_eq!(AgentState::ToolCall.as_str(), "tool_call");
    assert_eq!(AgentState::Interrupted.as_str(), "interrupted");
    assert_eq!(AgentState::Error.as_str(), "error");
}

#[test]
fn error_state_only_moves_to_finished() {
    assert_eq!(transitions(AgentState::Error), vec![AgentState::Finished]);
    let mut sm = StateMachine::new("s1");
    sm.restore(AgentState::Error);
    assert!(sm.transition(AgentState::Executing, "s1").is_err());
    assert_eq!(sm.current(), AgentState::Error);
    assert!(sm.transition_best_effort(AgentState::Finished, "s1"));
    assert_eq!(sm.current(), AgentState::Finished);
}

#[test]
fn documented_run_is_allowed() {
    let mut sm = StateMachine::new("s1");
    for s in [
        AgentState::Planning,
        AgentState::Executing,
        AgentState::ToolCall,
        AgentState::Executing,
        AgentState::Reflecting,
        AgentState::Finished,
        AgentState::Idle,
    ] {
        sm.transition(s, "s1").unwrap();
    }
    assert_eq!(sm.current(), AgentState::Idle);
}

#[test]
fn state_names_are_distinct() {
    let all = [
        AgentState::Idle,
        AgentState::Planning,
        AgentState::Executing,
        AgentState::ToolCall,
        AgentState::Reflecting,
        AgentState::Finished,
        AgentState::Interrupted,
        AgentState::Error,
    ];
    let names: HashSet<&str> = all.iter().map(|s| s.as_str()).collect();
    assert_eq!(names.len(), all.len());
    assert_eq!(AgentState::ToolCall.as_str(), "tool_call");
}
