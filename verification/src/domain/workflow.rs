//! The durable workflow domain: instance status, records as the store holds
//! them, transition results, and the behavior contract that callers implement
//! to drive a workflow.

use vstd::prelude::*;
use crate::text::str_eq;

verus! {

/// Lifecycle status of a durable workflow instance.
///
/// The store keeps the status as text; the four variants correspond exactly
/// to the texts `RUNNING`, `PAUSED`, `FAILED` and `COMPLETED`.
#[derive(Debug, Clone, Copy, PartialEq, Eq, Structural)]
pub enum WorkflowStatus {
    Running,
    Paused,
    Failed,
    Completed,
}

impl WorkflowStatus {
    /// The exact text under which this status is persisted.
    pub open spec fn text(self) -> Seq<char> {
        match self {
            WorkflowStatus::Running => "RUNNING"@,
            WorkflowStatus::Paused => "PAUSED"@,
            WorkflowStatus::Failed => "FAILED"@,
            WorkflowStatus::Completed => "COMPLETED"@,
        }
    }

    /// The status a stored text names. The four texts are matched exactly,
    /// character for character: any other value — other casings included —
    /// is outside the known set and must be treated as a fatal read error.
    pub open spec fn parse_spec(s: Seq<char>) -> Option<WorkflowStatus> {
        if s == "RUNNING"@ {
            Some(WorkflowStatus::Running)
        } else if s == "PAUSED"@ {
            Some(WorkflowStatus::Paused)
        } else if s == "FAILED"@ {
            Some(WorkflowStatus::Failed)
        } else if s == "COMPLETED"@ {
            Some(WorkflowStatus::Completed)
        } else {
            None
        }
    }

    pub fn as_str(&self) -> (r: &'static str)
        ensures
            r@ == self.text(),
    {
        match self {
            WorkflowStatus::Running => "RUNNING",
            WorkflowStatus::Paused => "PAUSED",
            WorkflowStatus::Failed => "FAILED",
            WorkflowStatus::Completed => "COMPLETED",
        }
    }

    pub fn from_str(value: &str) -> (r: Option<WorkflowStatus>)
        ensures
            r == Self::parse_spec(value@),
    {
        if str_eq(value, "RUNNING") {
            Some(WorkflowStatus::Running)
        } else if str_eq(value, "PAUSED") {
            Some(WorkflowStatus::Paused)
        } else if str_eq(value, "FAILED") {
            Some(WorkflowStatus::Failed)
        } else if str_eq(value, "COMPLETED") {
            Some(WorkflowStatus::Completed)
        } else {
            None
        }
    }
}

impl Default for WorkflowStatus {
    /// A freshly created instance runs until told otherwise.
    fn default() -> (r: Self)
        ensures
            r == WorkflowStatus::Running,
    {
        WorkflowStatus::Running
    }
}

/// One row of the workflow-instance table, as this crate models it: the
/// serialized state is opaque text, timestamps are seconds.
#[derive(Debug, Clone)]
pub struct WorkflowRecord {
    pub id: String,
    pub account_id: String,
    pub flow_definition_id: String,
    pub state: String,
    pub status: WorkflowStatus,
    pub created_at: i64,
    pub updated_at: i64,
}

/// Mathematical image of a stored row.
pub struct RecordModel {
    pub id: Seq<char>,
    pub account_id: Seq<char>,
    pub flow_definition_id: Seq<char>,
    pub state: Seq<char>,
    pub status: WorkflowStatus,
    pub created_at: int,
    pub updated_at: int,
}

impl View for WorkflowRecord {
    type V = RecordModel;

    open spec fn view(&self) -> RecordModel {
        RecordModel {
            id: self.id@,
            account_id: self.account_id@,
            flow_definition_id: self.flow_definition_id@,
            state: self.state@,
            status: self.status,
            created_at: self.created_at as int,
            updated_at: self.updated_at as int,
        }
    }
}

/// An opaque instruction emitted by a transition. The checkpointer hands
/// actions back to its caller and never executes them itself.
#[derive(Debug, Clone)]
pub struct Action {
    pub kind: String,
    pub payload: String,
}

/// Mathematical image of an action.
pub struct ActionModel {
    pub kind: Seq<char>,
    pub payload: Seq<char>,
}

impl View for Action {
    type V = ActionModel;

    open spec fn view(&self) -> ActionModel {
        ActionModel { kind: self.kind@, payload: self.payload@ }
    }
}

/// The sequence of action images a vector of actions stands for.
pub open spec fn actions_view(v: Vec<Action>) -> Seq<ActionModel> {
    v@.map_values(|a: Action| a@)
}

/// The result of applying one event to a workflow state: the state to
/// persist, the status to pair with it, and the actions for the caller.
#[derive(Debug, Clone)]
pub struct Transition<S> {
    pub next_state: S,
    pub status: WorkflowStatus,
    pub actions: Vec<Action>,
}

/// Mathematical image of a transition; the state itself is already a plain
/// value and stays as it is.
pub struct TransitionModel<S> {
    pub next_state: S,
    pub status: WorkflowStatus,
    pub actions: Seq<ActionModel>,
}

impl<S> View for Transition<S> {
    type V = TransitionModel<S>;

    open spec fn view(&self) -> TransitionModel<S> {
        TransitionModel {
            next_state: self.next_state,
            status: self.status,
            actions: actions_view(self.actions),
        }
    }
}

/// The contract a workflow definition fulfils so that the checkpointer can
/// drive it: a pure, deterministic transition function, and a state codec
/// whose encoding always reads back to the encoded state.
///
/// `transition_spec`, `encode_spec` and `decode_spec` are the mathematical
/// descriptions an implementation chooses; the executable methods are bound
/// to them, so identical (state, event) pairs always produce identical
/// transitions, and replaying a persisted state is loss-free.
pub trait WorkflowBehavior {
    type State;

    type Event;

    /// What applying `event` to `current` yields.
    spec fn transition_spec(current: Self::State, event: Self::Event) -> TransitionModel<
        Self::State,
    >;

    /// The text under which a state is persisted.
    spec fn encode_spec(state: Self::State) -> Seq<char>;

    /// The state a persisted text stands for, if it is well formed.
    spec fn decode_spec(text: Seq<char>) -> Option<Self::State>;

    /// Computes the transition; pure by contract, so the checkpointer may
    /// replay it safely.
    fn compute_next(current: &Self::State, event: &Self::Event) -> (t: Transition<Self::State>)
        ensures
            t@ == Self::transition_spec(*current, *event);

    /// Serializes a state for the store.
    fn encode_state(state: &Self::State) -> (r: String)
        ensures
            r@ == Self::encode_spec(*state);

    /// Reads a state back from its stored text.
    fn decode_state(text: &str) -> (r: Option<Self::State>)
        ensures
            r == Self::decode_spec(text@);

    /// The codec law: whatever was encoded decodes back unchanged.
    proof fn lemma_codec_round_trip(state: Self::State)
        ensures
            Self::decode_spec(Self::encode_spec(state)) == Some(state);
}

/// Writing a status and reading it back yields the same status: the text of
/// every status parses to exactly that status.
pub proof fn lemma_status_text_round_trip(status: WorkflowStatus)
    ensures
        WorkflowStatus::parse_spec(status.text()) == Some(status),
{
    reveal_strlit("RUNNING");
    reveal_strlit("PAUSED");
    reveal_strlit("FAILED");
    reveal_strlit("COMPLETED");
    assert("RUNNING"@.len() == 7);
    assert("PAUSED"@.len() == 6);
    assert("FAILED"@.len() == 6);
    assert("COMPLETED"@.len() == 9);
    assert("PAUSED"@ != "RUNNING"@);
    assert("FAILED"@ != "RUNNING"@);
    assert("FAILED"@[0] != "PAUSED"@[0]);
    assert("FAILED"@ != "PAUSED"@);
    assert("COMPLETED"@ != "RUNNING"@);
    assert("COMPLETED"@ != "PAUSED"@);
    assert("COMPLETED"@ != "FAILED"@);
}

} // verus!
