//! A small workflow definition shipped with the crate: a counter that
//! advances by one per event, stays `Running`, and emits one log action per
//! step. It shows how a behavior discharges the transition and codec
//! contracts, and the tests drive the checkpointer with it.

use vstd::prelude::*;
use vstd::string::StringExecFns;
use crate::domain::workflow::{
    Action, ActionModel, Transition, TransitionModel, WorkflowBehavior, WorkflowStatus,
};
use crate::text::{dec_digits, lemma_dec_round_trip, parse_dec, parse_dec_u64, u64_to_dec};

verus! {

/// The counter's whole state: how many steps it has taken.
#[derive(Debug, Clone, Copy, PartialEq, Eq, Structural)]
pub struct CounterState {
    pub step: u64,
}

/// The one event the counter understands: advance by one step.
#[derive(Debug, Clone, Copy, PartialEq, Eq, Structural)]
pub struct AdvanceEvent;

/// The behavior tying state, event, transition and codec together.
#[derive(Debug, Clone)]
pub struct CounterWorkflow;

/// The step counter after one advance; it pins at `u64::MAX` rather than
/// wrap.
pub open spec fn advanced(step: u64) -> u64 {
    if step < u64::MAX {
        (step + 1) as u64
    } else {
        u64::MAX
    }
}

impl WorkflowBehavior for CounterWorkflow {
    type State = CounterState;

    type Event = AdvanceEvent;

    open spec fn transition_spec(current: CounterState, event: AdvanceEvent) -> TransitionModel<
        CounterState,
    > {
        TransitionModel {
            next_state: CounterState { step: advanced(current.step) },
            status: WorkflowStatus::Running,
            actions: seq![
                ActionModel { kind: "log"@, payload: dec_digits(advanced(current.step) as nat) },
            ],
        }
    }

    open spec fn encode_spec(state: CounterState) -> Seq<char> {
        dec_digits(state.step as nat)
    }

    open spec fn decode_spec(text: Seq<char>) -> Option<CounterState> {
        match parse_dec_u64(text) {
            Option::Some(n) => Some(CounterState { step: n }),
            Option::None => None,
        }
    }

    fn compute_next(current: &CounterState, event: &AdvanceEvent) -> (t: Transition<CounterState>)
        ensures
            t@ == Self::transition_spec(*current, *event),
    {
        let next = if current.step < u64::MAX {
            current.step + 1
        } else {
            u64::MAX
        };
        let payload = u64_to_dec(next);
        let action = Action { kind: String::from_str("log"), payload };
        let t = Transition {
            next_state: CounterState { step: next },
            status: WorkflowStatus::Running,
            actions: vec![action],
        };
        proof {
            assert(t@.actions =~= Self::transition_spec(*current, *event).actions);
        }
        t
    }

    fn encode_state(state: &CounterState) -> (r: String)
        ensures
            r@ == Self::encode_spec(*state),
    {
        u64_to_dec(state.step)
    }

    fn decode_state(text: &str) -> (r: Option<CounterState>)
        ensures
            r == Self::decode_spec(text@),
    {
        match parse_dec(text) {
            Some(n) => Some(CounterState { step: n }),
            None => None,
        }
    }

    proof fn lemma_codec_round_trip(state: CounterState)
        ensures
            Self::decode_spec(Self::encode_spec(state)) == Some(state),
    {
        lemma_dec_round_trip(state.step);
    }
}

} // verus!
