//! The checkpointer: the transactional bridge between a pure workflow
//! behavior and the durable store, with a write-through cache.
//!
//! The store itself lives behind a transactional database driven by the
//! surrounding runtime; this module holds everything that can be decided
//! and checked about one operation. `plan_event` resolves the current state
//! (cache first, then the row read inside the open transaction), applies
//! the behavior's transition, and says exactly what must be written;
//! `commit_event` is called only after the transaction committed and moves
//! the cache to the committed state — a failed transaction therefore leaves
//! both store and cache untouched. The store-level meaning of each
//! operation is the spec model below, and the laws about it (idempotent
//! bootstrap, no row from an unknown identifier, loss-free reload, no lost
//! updates) are proved here.

use vstd::prelude::*;
use vstd::hash_map::StringHashMap;
use crate::domain::workflow::{
    Action, RecordModel, WorkflowBehavior, WorkflowRecord, WorkflowStatus, actions_view,
};

verus! {

/// Why a checkpointer operation failed.
#[derive(Debug)]
pub enum CheckpointerError {
    /// The workflow identifier is unknown; events need a bootstrap first.
    NotFound(String),
    /// The transaction or connection failed; carries the driver's message.
    Database(String),
    /// A stored state could not be decoded; carries the offending text.
    Serialization(String),
    /// A stored status is outside the known set; carries the stored text.
    InvalidStatus(String),
}

/// What a new workflow instance is bootstrapped with.
#[derive(Debug, Clone)]
pub struct NewWorkflowInstance<S> {
    pub id: String,
    pub account_id: String,
    pub flow_definition_id: String,
    pub state: S,
    pub status: WorkflowStatus,
}

/// Mathematical image of a bootstrap request.
pub struct NewInstanceModel<S> {
    pub id: Seq<char>,
    pub account_id: Seq<char>,
    pub flow_definition_id: Seq<char>,
    pub state: S,
    pub status: WorkflowStatus,
}

impl<S> View for NewWorkflowInstance<S> {
    type V = NewInstanceModel<S>;

    open spec fn view(&self) -> NewInstanceModel<S> {
        NewInstanceModel {
            id: self.id@,
            account_id: self.account_id@,
            flow_definition_id: self.flow_definition_id@,
            state: self.state,
            status: self.status,
        }
    }
}

/// One raw row as the store returns it, before validation.
#[derive(Debug, Clone)]
pub struct WorkflowRow {
    pub id: String,
    pub account_id: String,
    pub flow_definition_id: String,
    pub state: String,
    pub status: String,
    pub created_at: i64,
    pub updated_at: i64,
}

/// Everything one committed event writes: the serialized next state and
/// its paired status for the row, the next state for the cache, and the
/// actions owed to the caller.
pub struct EventPlan<S> {
    pub next_state: S,
    pub state_text: String,
    pub status: WorkflowStatus,
    pub actions: Vec<Action>,
}

/// The row a bootstrap creates.
pub open spec fn new_instance_row<B: WorkflowBehavior>(
    p: NewInstanceModel<B::State>,
    now: int,
) -> RecordModel {
    RecordModel {
        id: p.id,
        account_id: p.account_id,
        flow_definition_id: p.flow_definition_id,
        state: B::encode_spec(p.state),
        status: p.status,
        created_at: now,
        updated_at: now,
    }
}

/// What a bootstrap does to the store: it inserts the new row only if the
/// identifier does not exist yet; a duplicate request is a no-op.
pub open spec fn bootstrap_model<B: WorkflowBehavior>(
    store: Map<Seq<char>, RecordModel>,
    p: NewInstanceModel<B::State>,
    now: int,
) -> Map<Seq<char>, RecordModel> {
    if store.contains_key(p.id) {
        store
    } else {
        store.insert(p.id, new_instance_row::<B>(p, now))
    }
}

/// Whether an event for `id` can be processed at all: the row must exist,
/// and the current state must be resolvable — from the cache, or else by
/// decoding the stored text.
pub open spec fn event_accepted<B: WorkflowBehavior>(
    store: Map<Seq<char>, RecordModel>,
    cache: Map<Seq<char>, B::State>,
    id: Seq<char>,
) -> bool {
    &&& store.contains_key(id)
    &&& (cache.contains_key(id) || B::decode_spec(store[id].state) is Some)
}

/// The state an event is applied to: the cache entry when there is one,
/// otherwise the decoded stored text.
pub open spec fn current_state<B: WorkflowBehavior>(
    store: Map<Seq<char>, RecordModel>,
    cache: Map<Seq<char>, B::State>,
    id: Seq<char>,
) -> B::State
    recommends
        event_accepted::<B>(store, cache, id),
{
    if cache.contains_key(id) {
        cache[id]
    } else {
        B::decode_spec(store[id].state).unwrap()
    }
}

/// What one committed event does to the store: state and status of the one
/// row move together to the transition's result; an unaccepted event moves
/// nothing.
pub open spec fn event_store_model<B: WorkflowBehavior>(
    store: Map<Seq<char>, RecordModel>,
    cache: Map<Seq<char>, B::State>,
    id: Seq<char>,
    event: B::Event,
    now: int,
) -> Map<Seq<char>, RecordModel> {
    if event_accepted::<B>(store, cache, id) {
        let t = B::transition_spec(current_state::<B>(store, cache, id), event);
        store.insert(
            id,
            RecordModel {
                state: B::encode_spec(t.next_state),
                status: t.status,
                updated_at: now,
                ..store[id]
            },
        )
    } else {
        store
    }
}

/// What one committed event does to the cache: the committed state, and
/// nothing on a failed event.
pub open spec fn event_cache_model<B: WorkflowBehavior>(
    store: Map<Seq<char>, RecordModel>,
    cache: Map<Seq<char>, B::State>,
    id: Seq<char>,
    event: B::Event,
) -> Map<Seq<char>, B::State> {
    if event_accepted::<B>(store, cache, id) {
        cache.insert(id, B::transition_spec(current_state::<B>(store, cache, id), event).next_state)
    } else {
        cache
    }
}

/// The state the cache or, failing that, the stored text resolves to.
pub open spec fn resolved_state<B: WorkflowBehavior>(
    cache: Map<Seq<char>, B::State>,
    id: Seq<char>,
    state_text: Seq<char>,
) -> Option<B::State> {
    if cache.contains_key(id) {
        Some(cache[id])
    } else {
        B::decode_spec(state_text)
    }
}

/// Bootstrap is idempotent: a second request for the same identifier
/// changes nothing, and the row keeps the state and status set by the
/// first call.
pub proof fn lemma_bootstrap_idempotent<B: WorkflowBehavior>(
    store: Map<Seq<char>, RecordModel>,
    p: NewInstanceModel<B::State>,
    t1: int,
    t2: int,
)
    ensures
        bootstrap_model::<B>(bootstrap_model::<B>(store, p, t1), p, t2) == bootstrap_model::<B>(
            store,
            p,
            t1,
        ),
        !store.contains_key(p.id) ==> bootstrap_model::<B>(store, p, t1)[p.id]
            == new_instance_row::<B>(p, t1),
{
}

/// An event for an identifier that was never bootstrapped is rejected and
/// creates no row; store and cache stay exactly as they were.
pub proof fn lemma_event_unknown_leaves_store<B: WorkflowBehavior>(
    store: Map<Seq<char>, RecordModel>,
    cache: Map<Seq<char>, B::State>,
    id: Seq<char>,
    event: B::Event,
    now: int,
)
    requires
        !store.contains_key(id),
    ensures
        !event_accepted::<B>(store, cache, id),
        event_store_model::<B>(store, cache, id, event, now) == store,
        event_cache_model::<B>(store, cache, id, event) == cache,
{
}

/// Round trip: after a committed event, the persisted text decodes to
/// exactly the committed state, so dropping every in-memory structure and
/// reloading from the store resolves that same state; and the cache holds
/// it too — cache and store never diverge across a successful commit.
pub proof fn lemma_commit_round_trip<B: WorkflowBehavior>(
    store: Map<Seq<char>, RecordModel>,
    cache: Map<Seq<char>, B::State>,
    id: Seq<char>,
    event: B::Event,
    now: int,
)
    requires
        event_accepted::<B>(store, cache, id),
    ensures
        ({
            let next = B::transition_spec(current_state::<B>(store, cache, id), event).next_state;
            let store1 = event_store_model::<B>(store, cache, id, event, now);
            &&& B::decode_spec(store1[id].state) == Some(next)
            &&& event_accepted::<B>(store1, Map::<Seq<char>, B::State>::empty(), id)
            &&& current_state::<B>(store1, Map::<Seq<char>, B::State>::empty(), id) == next
            &&& event_cache_model::<B>(store, cache, id, event)[id] == next
        }),
{
    let next = B::transition_spec(current_state::<B>(store, cache, id), event).next_state;
    B::lemma_codec_round_trip(next);
}

/// No lost update: when two events are committed one after the other for
/// the same identifier — in whatever order the transaction mechanism
/// serialized them — the stored state is the composition of both
/// transitions; neither overwrites the other's effect.
pub proof fn lemma_no_lost_update<B: WorkflowBehavior>(
    store: Map<Seq<char>, RecordModel>,
    cache: Map<Seq<char>, B::State>,
    id: Seq<char>,
    e1: B::Event,
    e2: B::Event,
    t1: int,
    t2: int,
)
    requires
        event_accepted::<B>(store, cache, id),
    ensures
        ({
            let s0 = current_state::<B>(store, cache, id);
            let s1 = B::transition_spec(s0, e1).next_state;
            let s2 = B::transition_spec(s1, e2).next_state;
            let store1 = event_store_model::<B>(store, cache, id, e1, t1);
            let cache1 = event_cache_model::<B>(store, cache, id, e1);
            &&& event_accepted::<B>(store1, cache1, id)
            &&& current_state::<B>(store1, cache1, id) == s1
            &&& event_store_model::<B>(store1, cache1, id, e2, t2)[id].state == B::encode_spec(s2)
            &&& event_cache_model::<B>(store1, cache1, id, e2)[id] == s2
        }),
{
}

/// The checkpointer for one behavior: the verified cache and the decision
/// logic around the runtime's transactions.
pub struct Checkpointer<B: WorkflowBehavior> {
    /// The write-through cache, as a verified map standing in for a bounded
    /// TTL cache: expiry is optional for correctness — every entry is
    /// reconstructable from the store — while the coherence the contracts
    /// promise is what matters, so the cache lives here where it is proved.
    cache: StringHashMap<B::State>,
}

impl<B: WorkflowBehavior> Checkpointer<B> {
    /// The cache as a map from identifier to typed state.
    pub closed spec fn cache_model(self) -> Map<Seq<char>, B::State> {
        self.cache@
    }

    /// A fresh checkpointer starts with an empty cache; every state it
    /// serves later is rooted in the durable store.
    pub fn new() -> (c: Self)
        ensures
            c.cache_model() == Map::<Seq<char>, B::State>::empty(),
    {
        Checkpointer { cache: StringHashMap::new() }
    }

    /// The serialized form of a bootstrap request's initial state, for the
    /// insert the runtime executes.
    pub fn encode_initial_state(params: &NewWorkflowInstance<B::State>) -> (r: String)
        ensures
            r@ == B::encode_spec(params.state),
    {
        B::encode_state(&params.state)
    }

    /// Records the outcome of a bootstrap insert. Only a bootstrap that
    /// actually created the row seeds the cache with the initial state; a
    /// duplicate bootstrap is a no-op and leaves both the row and the
    /// cache as the first call set them.
    pub fn bootstrap_instance(&mut self, params: NewWorkflowInstance<B::State>, inserted: bool)
        ensures
            inserted ==> final(self).cache_model() == old(self).cache_model().insert(
                params.id@,
                params.state,
            ),
            !inserted ==> final(self).cache_model() == old(self).cache_model(),
    {
        if inserted {
            let NewWorkflowInstance { id, state, .. } = params;
            self.cache.insert(id, state);
        }
    }

    /// Decides one event, given the row that the open transaction read for
    /// `instance_id` (`None` if there is no such row). On success the plan
    /// holds exactly what the transaction must write — serialized next
    /// state and paired status — and the actions owed to the caller; the
    /// cache is repopulated with the current state on a miss, and is moved
    /// to the next state only by `commit_event`. An event for a missing
    /// row fails with `NotFound`, an undecodable stored state with
    /// `Serialization`; both leave the cache unchanged.
    pub fn plan_event(
        &mut self,
        instance_id: &String,
        row: Option<&WorkflowRecord>,
        event: &B::Event,
    ) -> (r: Result<EventPlan<B::State>, CheckpointerError>)
        ensures
            match r {
                Ok(plan) => {
                    &&& row matches Some(rec)
                    &&& resolved_state::<B>(old(self).cache_model(), instance_id@, rec.state@)
                        matches Some(current)
                    &&& plan.next_state == B::transition_spec(current, *event).next_state
                    &&& plan.status == B::transition_spec(current, *event).status
                    &&& actions_view(plan.actions) == B::transition_spec(current, *event).actions
                    &&& plan.state_text@ == B::encode_spec(
                        B::transition_spec(current, *event).next_state,
                    )
                    &&& final(self).cache_model() == if old(self).cache_model().contains_key(
                        instance_id@,
                    ) {
                        old(self).cache_model()
                    } else {
                        old(self).cache_model().insert(instance_id@, current)
                    }
                },
                Err(e) => {
                    &&& final(self).cache_model() == old(self).cache_model()
                    &&& match e {
                        CheckpointerError::NotFound(eid) => row is None && eid@ == instance_id@,
                        CheckpointerError::Serialization(text) => row matches Some(rec) && (
                        resolved_state::<B>(old(self).cache_model(), instance_id@, rec.state@)
                            is None) && text@ == rec.state@,
                        _ => false,
                    }
                },
            },
    {
        let rec = match row {
            Some(r) => r,
            None => {
                return Err(CheckpointerError::NotFound(instance_id.clone()));
            },
        };
        let cache_hit = self.cache.contains_key(instance_id.as_str());
        if cache_hit {
            let current = self.cache.get(instance_id.as_str()).unwrap();
            let t = B::compute_next(current, event);
            let state_text = B::encode_state(&t.next_state);
            Ok(
                EventPlan {
                    next_state: t.next_state,
                    state_text,
                    status: t.status,
                    actions: t.actions,
                },
            )
        } else {
            match B::decode_state(rec.state.as_str()) {
                Some(current) => {
                    let t = B::compute_next(&current, event);
                    let state_text = B::encode_state(&t.next_state);
                    self.cache.insert(instance_id.clone(), current);
                    Ok(
                        EventPlan {
                            next_state: t.next_state,
                            state_text,
                            status: t.status,
                            actions: t.actions,
                        },
                    )
                },
                None => Err(CheckpointerError::Serialization(rec.state.clone())),
            }
        }
    }

    /// Moves the cache to the state a just-committed transaction wrote and
    /// releases the actions. This runs only after a successful commit:
    /// when the transaction fails, the plan is dropped instead and the
    /// cache still matches the store.
    pub fn commit_event(&mut self, instance_id: &String, plan: EventPlan<B::State>) -> (actions:
        Vec<Action>)
        ensures
            final(self).cache_model() == old(self).cache_model().insert(
                instance_id@,
                plan.next_state,
            ),
            actions == plan.actions,
    {
        let EventPlan { next_state, state_text: _, status: _, actions } = plan;
        self.cache.insert(instance_id.clone(), next_state);
        actions
    }

    /// Drops every cached state. A reload after this resolves states from
    /// the durable store alone.
    pub fn clear_cache(&mut self)
        ensures
            final(self).cache_model() == Map::<Seq<char>, B::State>::empty(),
    {
        self.cache.clear();
    }
}

/// Validates one raw row into a record: the status text must be exactly one
/// of the known four; any other value — other casings included — is a fatal
/// `InvalidStatus` failure carrying the stored text.
pub fn row_to_record(row: WorkflowRow) -> (r: Result<WorkflowRecord, CheckpointerError>)
    ensures
        match r {
            Ok(rec) => {
                &&& WorkflowStatus::parse_spec(row.status@) == Some(rec.status)
                &&& rec.id@ == row.id@
                &&& rec.account_id@ == row.account_id@
                &&& rec.flow_definition_id@ == row.flow_definition_id@
                &&& rec.state@ == row.state@
                &&& rec.created_at == row.created_at
                &&& rec.updated_at == row.updated_at
            },
            Err(e) => e matches CheckpointerError::InvalidStatus(text) && (
            WorkflowStatus::parse_spec(row.status@) is None) && text@ == row.status@,
        },
{
    let WorkflowRow { id, account_id, flow_definition_id, state, status, created_at, updated_at } =
        row;
    match WorkflowStatus::from_str(status.as_str()) {
        Some(parsed) => Ok(
            WorkflowRecord {
                id,
                account_id,
                flow_definition_id,
                state,
                status: parsed,
                created_at,
                updated_at,
            },
        ),
        None => Err(CheckpointerError::InvalidStatus(status)),
    }
}

} // verus!
