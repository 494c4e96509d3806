//! Agent state machine: the states an agent run passes through, the table of
//! allowed moves between them, and a machine that only ever follows that table
//! (except for an explicit restore from persisted state).
use vstd::prelude::*;

verus! {

/// The states of an agent run.
#[derive(Debug, Clone, Copy, PartialEq, Eq, Structural)]
pub enum AgentState {
    Idle,
    Planning,
    Executing,
    ToolCall,
    Reflecting,
    Finished,
    Interrupted,
    Error,
}

/// The wire name of a state.
pub open spec fn state_name(s: AgentState) -> Seq<char> {
    match s {
        AgentState::Idle => "idle"@,
        AgentState::Planning => "planning"@,
        AgentState::Executing => "executing"@,
        AgentState::ToolCall => "tool_call"@,
        AgentState::Reflecting => "reflecting"@,
        AgentState::Finished => "finished"@,
        AgentState::Interrupted => "interrupted"@,
        AgentState::Error => "error"@,
    }
}

/// The targets that the table allows from `from`, in table order.
pub open spec fn allowed_targets(from: AgentState) -> Seq<AgentState> {
    match from {
        AgentState::Idle => seq![
            AgentState::Planning,
            AgentState::Executing,
            AgentState::ToolCall,
            AgentState::Finished,
        ],
        AgentState::Planning => seq![
            AgentState::Executing,
            AgentState::Finished,
            AgentState::Interrupted,
            AgentState::Error,
        ],
        AgentState::Executing => seq![
            AgentState::ToolCall,
            AgentState::Reflecting,
            AgentState::Finished,
            AgentState::Interrupted,
            AgentState::Error,
        ],
        AgentState::ToolCall => seq![
            AgentState::Executing,
            AgentState::Interrupted,
            AgentState::Error,
        ],
        AgentState::Reflecting => seq![
            AgentState::Executing,
            AgentState::Finished,
            AgentState::Interrupted,
            AgentState::Error,
        ],
        AgentState::Finished => seq![AgentState::Idle, AgentState::Executing],
        AgentState::Interrupted => seq![AgentState::Executing, AgentState::Finished],
        AgentState::Error => seq![AgentState::Finished],
    }
}

/// Whether the table allows the move `from -> to`.
pub open spec fn allowed(from: AgentState, to: AgentState) -> bool {
    allowed_targets(from).contains(to)
}

/// Whether a `transition` call from `from` to `to` succeeds: staying put always
/// succeeds, any other move must be in the table.
pub open spec fn transition_ok(from: AgentState, to: AgentState) -> bool {
    from == to || allowed(from, to)
}

/// The message of a refused transition.
pub open spec fn refusal_message(from: AgentState, to: AgentState) -> Seq<char> {
    "非法状态迁移:"@ + state_name(from) + " → "@ + state_name(to)
}

impl AgentState {
    /// The wire name of the state.
    pub fn as_str(&self) -> (r: &'static str)
        ensures
            r@ == state_name(*self),
    {
        match self {
            AgentState::Idle => "idle",
            AgentState::Planning => "planning",
            AgentState::Executing => "executing",
            AgentState::ToolCall => "tool_call",
            AgentState::Reflecting => "reflecting",
            AgentState::Finished => "finished",
            AgentState::Interrupted => "interrupted",
            AgentState::Error => "error",
        }
    }
}

/// A session together with the state its machine is in.
#[derive(Debug, Clone)]
pub struct TransitionCtx {
    pub session_id: String,
    pub current: AgentState,
}

/// The table of allowed moves out of `from`.
pub fn transitions(from: AgentState) -> (r: Vec<AgentState>)
    ensures
        r@ == allowed_targets(from),
{
    match from {
        AgentState::Idle => vec![
            AgentState::Planning,
            AgentState::Executing,
            AgentState::ToolCall,
            AgentState::Finished,
        ],
        AgentState::Planning => vec![
            AgentState::Executing,
            AgentState::Finished,
            AgentState::Interrupted,
            AgentState::Error,
        ],
        AgentState::Executing => vec![
            AgentState::ToolCall,
            AgentState::Reflecting,
            AgentState::Finished,
            AgentState::Interrupted,
            AgentState::Error,
        ],
        AgentState::ToolCall => vec![
            AgentState::Executing,
            AgentState::Interrupted,
            AgentState::Error,
        ],
        AgentState::Reflecting => vec![
            AgentState::Executing,
            AgentState::Finished,
            AgentState::Interrupted,
            AgentState::Error,
        ],
        AgentState::Finished => vec![AgentState::Idle, AgentState::Executing],
        AgentState::Interrupted => vec![AgentState::Executing, AgentState::Finished],
        AgentState::Error => vec![AgentState::Finished],
    }
}

/// Whether `to` occurs in `targets`.
fn contains_state(targets: &Vec<AgentState>, to: AgentState) -> (r: bool)
    ensures
        r == targets@.contains(to),
{
    let mut i: usize = 0;
    while i < targets.len()
        invariant
            i <= targets.len(),
            forall|j: int| 0 <= j < i ==> targets@[j] != to,
        decreases targets.len() - i,
    {
        if targets[i] == to {
            return true;
        }
        i = i + 1;
    }
    false
}

/// The state machine of one agent run.
pub struct StateMachine {
    state: AgentState,
}

impl View for StateMachine {
    type V = AgentState;

    closed spec fn view(&self) -> AgentState {
        self.state
    }
}

impl StateMachine {
    /// A fresh machine, idle.
    pub fn new(_session_id: &str) -> (r: Self)
        ensures
            r@ == AgentState::Idle,
    {
        StateMachine { state: AgentState::Idle }
    }

    /// The current state.
    pub fn current(&self) -> (r: AgentState)
        ensures
            r == self@,
    {
        self.state
    }

    /// Moves to `to`. Staying put succeeds and changes nothing; a move that the
    /// table does not allow is refused with a message and leaves the state as it was.
    pub fn transition(&mut self, to: AgentState, _session_id: &str) -> (r: Result<(), String>)
        ensures
            r is Ok <==> transition_ok(old(self)@, to),
            r is Ok ==> final(self)@ == to,
            r is Err ==> final(self)@ == old(self)@,
            r matches Err(msg) ==> msg@ == refusal_message(old(self)@, to),
    {
        let from = self.state;
        if from == to {
            return Ok(());
        }
        let targets = transitions(from);
        if !contains_state(&targets, to) {
            let mut msg = String::from_str("非法状态迁移:");
            msg.append(from.as_str());
            msg.append(" → ");
            msg.append(to.as_str());
            return Err(msg);
        }
        self.state = to;
        Ok(())
    }

    /// Moves to `to` where the table allows it and reports whether it did; a
    /// refused move leaves the state unchanged.
    pub fn transition_best_effort(&mut self, to: AgentState, session_id: &str) -> (r: bool)
        ensures
            r == transition_ok(old(self)@, to),
            final(self)@ == if r { to } else { old(self)@ },
    {
        match self.transition(to, session_id) {
            Ok(()) => true,
            Err(_) => false,
        }
    }

    /// Sets the state without consulting the table (restoring persisted state).
    pub fn restore(&mut self, state: AgentState)
        ensures
            final(self)@ == state,
    {
        self.state = state;
    }
}

/// Different states have different wire names, so a name read back names
/// the state it was written from.
pub proof fn law_state_names_distinct(a: AgentState, b: AgentState)
    ensures
        state_name(a) == state_name(b) ==> a == b,
{
    reveal_strlit("idle");
    reveal_strlit("planning");
    reveal_strlit("executing");
    reveal_strlit("tool_call");
    reveal_strlit("reflecting");
    reveal_strlit("finished");
    reveal_strlit("interrupted");
    reveal_strlit("error");
    if state_name(a) == state_name(b) {
        assert(state_name(a).len() == state_name(b).len());
        assert(state_name(a)[0] == state_name(b)[0]);
    }
}

/// Whether a state is one of a run in progress: planning, executing, a tool
/// call or reflection.
pub open spec fn active(s: AgentState) -> bool {
    s == AgentState::Planning || s == AgentState::Executing || s == AgentState::ToolCall || s
        == AgentState::Reflecting
}

/// A run in progress can always be interrupted and can always fail: every
/// active state may move to `interrupted` and to `error`, and no other state
/// may move to either.
pub proof fn law_active_runs_interruptible(s: AgentState)
    ensures
        active(s) ==> transition_ok(s, AgentState::Interrupted) && transition_ok(s, AgentState::Error),
        allowed(s, AgentState::Interrupted) <==> active(s),
        allowed(s, AgentState::Error) <==> active(s),
{
    match s {
        AgentState::Idle => {
            assert(allowed_targets(s)[0] != AgentState::Interrupted);
        },
        _ => {},
    }
    assert(allowed_targets(s).contains(AgentState::Interrupted) <==> active(s)) by {
        match s {
            AgentState::Planning => assert(allowed_targets(s)[2] == AgentState::Interrupted),
            AgentState::Executing => assert(allowed_targets(s)[3] == AgentState::Interrupted),
            AgentState::ToolCall => assert(allowed_targets(s)[1] == AgentState::Interrupted),
            AgentState::Reflecting => assert(allowed_targets(s)[2] == AgentState::Interrupted),
            _ => {},
        }
    }
    assert(allowed_targets(s).contains(AgentState::Error) <==> active(s)) by {
        match s {
            AgentState::Planning => assert(allowed_targets(s)[3] == AgentState::Error),
            AgentState::Executing => assert(allowed_targets(s)[4] == AgentState::Error),
            AgentState::ToolCall => assert(allowed_targets(s)[2] == AgentState::Error),
            AgentState::Reflecting => assert(allowed_targets(s)[3] == AgentState::Error),
            _ => {},
        }
    }
}

/// The whole table of moves: from idle a run starts (planning, executing, a
/// tool call) or finishes; planning goes on to execution or ends; execution
/// calls a tool, reflects or ends; a tool call returns to execution or
/// ends abnormally; reflection executes again or ends; a finished run can go
/// idle or execute again; an interrupted run resumes or finishes; an error
/// only finishes.
pub proof fn law_transition_table(a: AgentState, b: AgentState)
    ensures
        allowed(a, b) <==> match a {
            AgentState::Idle => b == AgentState::Planning || b == AgentState::Executing || b == AgentState::ToolCall
                || b == AgentState::Finished,
            AgentState::Planning => b == AgentState::Executing || b == AgentState::Finished || b
                == AgentState::Interrupted || b == AgentState::Error,
            AgentState::Executing => b == AgentState::ToolCall || b == AgentState::Reflecting || b
                == AgentState::Finished || b == AgentState::Interrupted || b == AgentState::Error,
            AgentState::ToolCall => b == AgentState::Executing || b == AgentState::Interrupted || b
                == AgentState::Error,
            AgentState::Reflecting => b == AgentState::Executing || b == AgentState::Finished || b
                == AgentState::Interrupted || b == AgentState::Error,
            AgentState::Finished => b == AgentState::Idle || b == AgentState::Executing,
            AgentState::Interrupted => b == AgentState::Executing || b == AgentState::Finished,
            AgentState::Error => b == AgentState::Finished,
        },
{
    let t = allowed_targets(a);
    if allowed(a, b) {
        let k = choose|k: int| 0 <= k < t.len() && t[k] == b;
        assert(t[k] == b);
    } else {
        assert forall|k: int| 0 <= k < t.len() implies t[k] != b by {
            assert(!t.contains(b));
        }
    }
    assert(allowed(a, b) == (exists|k: int| 0 <= k < t.len() && t[k] == b));
    match a {
        AgentState::Idle => {
            assert(t[0] == AgentState::Planning && t[1] == AgentState::Executing && t[2] == AgentState::ToolCall && t[3] == AgentState::Finished);
        },
        AgentState::Planning => {
            assert(t[0] == AgentState::Executing && t[1] == AgentState::Finished && t[2] == AgentState::Interrupted && t[3] == AgentState::Error);
        },
        AgentState::Executing => {
            assert(t[0] == AgentState::ToolCall && t[1] == AgentState::Reflecting && t[2] == AgentState::Finished && t[3] == AgentState::Interrupted && t[4] == AgentState::Error);
        },
        AgentState::ToolCall => {
            assert(t[0] == AgentState::Executing && t[1] == AgentState::Interrupted && t[2] == AgentState::Error);
        },
        AgentState::Reflecting => {
            assert(t[0] == AgentState::Executing && t[1] == AgentState::Finished && t[2] == AgentState::Interrupted && t[3] == AgentState::Error);
        },
        AgentState::Finished => {
            assert(t[0] == AgentState::Idle && t[1] == AgentState::Executing);
        },
        AgentState::Interrupted => {
            assert(t[0] == AgentState::Executing && t[1] == AgentState::Finished);
        },
        AgentState::Error => {
            assert(t[0] == AgentState::Finished);
        },
    }
}

/// Asking for the state the machine is already in always succeeds.
pub proof fn law_stay_put(s: AgentState)
    ensures
        transition_ok(s, s),
{
}

/// The run the engine documents, planning, executing, a tool call, executing
/// again, reflecting and finishing, is accepted step by step from a fresh machine.
pub proof fn law_documented_run()
    ensures
        transition_ok(AgentState::Idle, AgentState::Planning),
        transition_ok(AgentState::Planning, AgentState::Executing),
        transition_ok(AgentState::Executing, AgentState::ToolCall),
        transition_ok(AgentState::ToolCall, AgentState::Executing),
        transition_ok(AgentState::Executing, AgentState::Reflecting),
        transition_ok(AgentState::Reflecting, AgentState::Finished),
{
    assert(allowed_targets(AgentState::Idle)[0] == AgentState::Planning);
    assert(allowed_targets(AgentState::Planning)[0] == AgentState::Executing);
    assert(allowed_targets(AgentState::Executing)[0] == AgentState::ToolCall);
    assert(allowed_targets(AgentState::ToolCall)[0] == AgentState::Executing);
    assert(allowed_targets(AgentState::Executing)[1] == AgentState::Reflecting);
    assert(allowed_targets(AgentState::Reflecting)[1] == AgentState::Finished);
}

/// Reflection is only ever entered from execution.
pub proof fn law_reflect_after_execute(from: AgentState)
    ensures
        allowed(from, AgentState::Reflecting) <==> from == AgentState::Executing,
{
    assert(allowed_targets(AgentState::Executing)[1] == AgentState::Reflecting);
}

/// From an error the only way on is to finish.
pub proof fn law_error_only_finishes(to: AgentState)
    ensures
        allowed(AgentState::Error, to) <==> to == AgentState::Finished,
{
    assert(allowed_targets(AgentState::Error)[0] == AgentState::Finished);
}

/// Every state can reach `finished` in at most two accepted moves.
pub proof fn law_finish_reachable(s: AgentState)
    ensures
        transition_ok(s, AgentState::Finished) || (transition_ok(s, AgentState::Executing)
            && transition_ok(AgentState::Executing, AgentState::Finished)),
{
    assert(allowed_targets(AgentState::Executing)[2] == AgentState::Finished);
    match s {
        AgentState::Idle => assert(allowed_targets(s)[3] == AgentState::Finished),
        AgentState::Planning => assert(allowed_targets(s)[1] == AgentState::Finished),
        AgentState::Executing => {},
        AgentState::ToolCall => assert(allowed_targets(s)[0] == AgentState::Executing),
        AgentState::Reflecting => assert(allowed_targets(s)[1] == AgentState::Finished),
        AgentState::Finished => {},
        AgentState::Interrupted => assert(allowed_targets(s)[1] == AgentState::Finished),
        AgentState::Error => assert(allowed_targets(s)[0] == AgentState::Finished),
    }
}

} // verus!
