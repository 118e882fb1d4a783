//! The supervisor: the single authority over worker lifecycle. It keeps the
//! registry of live workers and a per-identifier generation counter, decides
//! how each command and each supervision notice changes them, and directs
//! the surrounding runtime (which performs the actual spawning and sending).
//!
//! Spawning is two-phased: handling `SpawnAccount` raises the generation and
//! directs the runtime to start a worker; once the runtime has started it,
//! `complete_spawn` records the live handle. A failure or termination notice
//! detaches the dead worker and directs one respawn under the same
//! identifier — both notices are treated identically, deliberately: this
//! supervisor always respawns, it has no permanently-stopped state.

use vstd::prelude::*;
use vstd::hash_map::{HashMapWithView, StringHashMap};
use crate::actors::messages::{AccountMessage, SupervisorMessage};

verus! {

/// Registry and generation bookkeeping of the supervisor.
///
/// `children` maps an identifier to the handle of its live worker;
/// `owners` is the inverse index, resolving a handle back to its
/// identifier when a supervision notice arrives; `generations` counts the
/// spawns of each identifier. `wf` couples the three.
pub struct SupervisorState {
    children: StringHashMap<u64>,
    owners: HashMapWithView<u64, String>,
    generations: StringHashMap<u64>,
}

/// Mathematical image of the supervisor state.
pub struct SupervisorModel {
    pub children: Map<Seq<char>, u64>,
    pub owners: Map<u64, Seq<char>>,
    pub generations: Map<Seq<char>, u64>,
}

/// The generation an identifier reaches on its next spawn: one for the
/// first spawn, one more than before on a respawn. The counter pins at
/// `u64::MAX` rather than wrap.
pub open spec fn bump(g: Option<u64>) -> u64 {
    match g {
        Option::None => 1u64,
        Option::Some(n) => if n < u64::MAX {
            (n + 1) as u64
        } else {
            u64::MAX
        },
    }
}

/// The generation counter of `id`, absent if `id` was never spawned.
pub open spec fn gen_of(m: SupervisorModel, id: Seq<char>) -> Option<u64> {
    if m.generations.contains_key(id) {
        Some(m.generations[id])
    } else {
        None
    }
}

/// The generation counter of `id` as a number, zero if absent.
pub open spec fn gen_int(m: SupervisorModel, id: Seq<char>) -> int {
    match gen_of(m, id) {
        Option::None => 0,
        Option::Some(n) => n as int,
    }
}

/// A handle may be recorded for `id` only if no other identifier owns it.
pub open spec fn reg_ok(m: SupervisorModel, id: Seq<char>, handle: u64) -> bool {
    &&& m.generations.contains_key(id)
    &&& (!m.owners.contains_key(handle) || m.owners[handle] == id)
}

/// One bookkeeping step of the supervisor lineage: raising a generation for
/// a spawn, recording a live handle, or reacting to a dead worker (detach
/// and raise the generation for the directed respawn).
pub enum SupervisorOp {
    Spawn { id: Seq<char> },
    Register { id: Seq<char>, handle: u64 },
    Down { handle: u64 },
}

/// How one step changes the model.
pub open spec fn step(m: SupervisorModel, op: SupervisorOp) -> SupervisorModel {
    match op {
        SupervisorOp::Spawn { id } => SupervisorModel {
            children: m.children,
            owners: m.owners,
            generations: m.generations.insert(id, bump(gen_of(m, id))),
        },
        SupervisorOp::Register { id, handle } => if reg_ok(m, id, handle) {
            SupervisorModel {
                children: m.children.insert(id, handle),
                owners: (if m.children.contains_key(id) {
                    m.owners.remove(m.children[id])
                } else {
                    m.owners
                }).insert(handle, id),
                generations: m.generations,
            }
        } else {
            m
        },
        SupervisorOp::Down { handle } => if m.owners.contains_key(handle) {
            SupervisorModel {
                children: m.children.remove(m.owners[handle]),
                owners: m.owners.remove(handle),
                generations: m.generations.insert(
                    m.owners[handle],
                    bump(gen_of(m, m.owners[handle])),
                ),
            }
        } else {
            m
        },
    }
}

/// The model after a whole sequence of steps.
pub open spec fn run(m: SupervisorModel, ops: Seq<SupervisorOp>) -> SupervisorModel
    decreases ops.len(),
{
    if ops.len() == 0 {
        m
    } else {
        run(step(m, ops[0]), ops.drop_first())
    }
}

/// Whether a step spawns (or respawns) `id`: either an explicit spawn, or a
/// down notice for the worker `id` currently owns.
pub open spec fn bumps(m: SupervisorModel, op: SupervisorOp, id: Seq<char>) -> bool {
    match op {
        SupervisorOp::Spawn { id: sid } => sid == id,
        SupervisorOp::Register { .. } => false,
        SupervisorOp::Down { handle } => m.owners.contains_key(handle) && m.owners[handle] == id,
    }
}

/// How many steps of `ops` spawn (or respawn) `id`, starting from `m`.
pub open spec fn spawns_of(m: SupervisorModel, ops: Seq<SupervisorOp>, id: Seq<char>) -> nat
    decreases ops.len(),
{
    if ops.len() == 0 {
        0
    } else {
        (if bumps(m, ops[0], id) {
            1nat
        } else {
            0nat
        }) + spawns_of(step(m, ops[0]), ops.drop_first(), id)
    }
}

/// Every owned worker's identifier has a generation entry.
pub open spec fn model_inv(m: SupervisorModel) -> bool {
    forall|h: u64| #[trigger] m.owners.contains_key(h) ==> m.generations.contains_key(m.owners[h])
}

/// The model of a supervisor that has never spawned anything.
pub open spec fn empty_model() -> SupervisorModel {
    SupervisorModel {
        children: Map::empty(),
        owners: Map::empty(),
        generations: Map::empty(),
    }
}

proof fn lemma_step_preserves_inv(m: SupervisorModel, op: SupervisorOp)
    requires
        model_inv(m),
    ensures
        model_inv(step(m, op)),
{
}

/// Generations count spawns: running any step sequence raises `id`'s
/// generation counter by exactly the number of steps that spawn `id`, as
/// long as the counter does not reach its pin. An identifier has a counter
/// afterwards exactly if it had one before or was spawned meanwhile.
pub proof fn lemma_generation_counts_spawns(
    m: SupervisorModel,
    ops: Seq<SupervisorOp>,
    id: Seq<char>,
)
    requires
        model_inv(m),
        gen_int(m, id) + spawns_of(m, ops, id) <= u64::MAX,
    ensures
        model_inv(run(m, ops)),
        gen_int(run(m, ops), id) == gen_int(m, id) + spawns_of(m, ops, id),
        run(m, ops).generations.contains_key(id) <==> (m.generations.contains_key(id)
            || spawns_of(m, ops, id) > 0),
    decreases ops.len(),
{
    if ops.len() > 0 {
        let m1 = step(m, ops[0]);
        lemma_step_preserves_inv(m, ops[0]);
        assert(gen_int(m1, id) == gen_int(m, id) + (if bumps(m, ops[0], id) {
            1int
        } else {
            0int
        }));
        lemma_generation_counts_spawns(m1, ops.drop_first(), id);
    }
}

/// For all identifiers never spawned, the generation query returns absent.
pub proof fn lemma_never_spawned_absent(ops: Seq<SupervisorOp>, id: Seq<char>)
    requires
        spawns_of(empty_model(), ops, id) == 0,
    ensures
        gen_of(run(empty_model(), ops), id) is None,
{
    lemma_generation_counts_spawns(empty_model(), ops, id);
}

/// After N spawns of the same identifier — one initial spawn plus respawns
/// triggered by failures — the generation query returns exactly N.
pub proof fn lemma_generation_equals_spawn_count(ops: Seq<SupervisorOp>, id: Seq<char>)
    requires
        0 < spawns_of(empty_model(), ops, id) <= u64::MAX,
    ensures
        gen_of(run(empty_model(), ops), id) == Some(
            spawns_of(empty_model(), ops, id) as u64,
        ),
{
    lemma_generation_counts_spawns(empty_model(), ops, id);
}

/// One failure of a live worker causes exactly one respawn: the fallen
/// identifier's generation rises by exactly one, it is detached until the
/// respawn registers, and no other identifier's bookkeeping moves.
pub proof fn lemma_fault_recovery(m: SupervisorModel, h: u64, id: Seq<char>)
    requires
        model_inv(m),
        m.owners.contains_key(h),
        m.owners[h] == id,
        gen_int(m, id) < u64::MAX,
    ensures
        gen_of(step(m, SupervisorOp::Down { handle: h }), id) == Some((gen_int(m, id) + 1) as u64),
        !step(m, SupervisorOp::Down { handle: h }).children.contains_key(id),
        forall|id2: Seq<char>| id2 != id ==> gen_of(step(m, SupervisorOp::Down { handle: h }), id2)
            == gen_of(m, id2),
        forall|id2: Seq<char>| id2 != id ==> step(m, SupervisorOp::Down { handle: h }).children.contains_key(
            id2,
        ) == m.children.contains_key(id2),
{
}

/// A coherent registry satisfies the invariant the generation laws
/// assume: every owned worker's identifier has been spawned.
pub proof fn lemma_wf_implies_model_inv(s: SupervisorState)
    requires
        s.wf(),
    ensures
        model_inv(s.model()),
{
    assert forall|h: u64| #[trigger] s.model().owners.contains_key(h)
        implies s.model().generations.contains_key(s.model().owners[h]) by {
        assert(s.owners@.contains_key(h));
        assert(s.children@.contains_key(s.owners@[h]@));
    };
}

/// No cross-talk: a coherent registry maps distinct identifiers to
/// distinct handles, so a message forwarded to one identifier's live
/// handle can never reach another identifier's worker.
pub proof fn lemma_registry_injective(s: SupervisorState, id1: Seq<char>, id2: Seq<char>)
    requires
        s.wf(),
        s.model().children.contains_key(id1),
        s.model().children.contains_key(id2),
        s.model().children[id1] == s.model().children[id2],
    ensures
        id1 == id2,
{
    assert(s.children@.contains_key(id1));
    assert(s.children@.contains_key(id2));
    assert(s.owners@[s.children@[id1]]@ == id1);
    assert(s.owners@[s.children@[id2]]@ == id2);
}

/// What the supervisor, having processed a command, asks of the runtime.
#[derive(Debug, Clone)]
pub enum SupervisorEffect {
    /// Start a worker for `id` at this generation, linked to the
    /// supervisor, then record its handle with `complete_spawn`.
    StartWorker { id: String, generation: u64 },
    /// Send the message to the live worker behind `handle`, fire and forget.
    Forward { handle: u64, message: AccountMessage },
    /// The dispatch target is not registered: drop the message and report
    /// the error event; nothing is propagated to the caller and no worker
    /// comes into being.
    DropDispatch { id: String },
    /// The answer to a generation query.
    Generation { value: Option<u64> },
}

/// A supervision notice from the runtime: the worker behind `handle` is
/// gone. Failure and graceful termination are deliberately treated the same
/// way here — both detach the worker and trigger a respawn.
#[derive(Debug, Clone)]
pub enum SupervisionNotice {
    ActorFailed { handle: u64 },
    ActorTerminated { handle: u64 },
}

impl SupervisionNotice {
    /// The handle the notice is about.
    pub open spec fn spec_handle(self) -> u64 {
        match self {
            SupervisionNotice::ActorFailed { handle } => handle,
            SupervisionNotice::ActorTerminated { handle } => handle,
        }
    }
}

impl SupervisorState {
    pub closed spec fn model(self) -> SupervisorModel {
        SupervisorModel {
            children: self.children@,
            owners: Map::new(
                |h: u64| self.owners@.contains_key(h),
                |h: u64| self.owners@[h]@,
            ),
            generations: self.generations@,
        }
    }

    /// Registry coherence: at most one live handle per identifier, handle
    /// and identifier resolve to each other, and every registered
    /// identifier has been spawned.
    pub closed spec fn wf(self) -> bool {
        &&& forall|id: Seq<char>| #[trigger] self.children@.contains_key(id)
            ==> self.owners@.contains_key(self.children@[id])
                && self.owners@[self.children@[id]]@ == id
        &&& forall|h: u64| #[trigger] self.owners@.contains_key(h)
            ==> self.children@.contains_key(self.owners@[h]@)
                && self.children@[self.owners@[h]@] == h
        &&& forall|id: Seq<char>| #[trigger] self.children@.contains_key(id)
            ==> self.generations@.contains_key(id)
    }

    pub fn new() -> (s: Self)
        ensures
            s.wf(),
            s.model() == empty_model(),
    {
        broadcast use vstd::std_specs::hash::group_hash_axioms;

        let s = SupervisorState {
            children: StringHashMap::new(),
            owners: HashMapWithView::new(),
            generations: StringHashMap::new(),
        };
        proof {
            assert(s.model().owners =~= Map::<u64, Seq<char>>::empty());
            assert(s.model() == empty_model());
        }
        s
    }

    /// The current generation of `id`, absent if it was never spawned.
    pub fn get_generation(&self, id: &str) -> (g: Option<u64>)
        ensures
            g == gen_of(self.model(), id@),
    {
        match self.generations.get(id) {
            Some(n) => Some(*n),
            None => None,
        }
    }

    /// The handle of the live worker for `id`, if one is registered.
    pub fn live_handle(&self, id: &str) -> (h: Option<u64>)
        ensures
            match h {
                Some(handle) => self.model().children.contains_key(id@)
                    && self.model().children[id@] == handle,
                None => !self.model().children.contains_key(id@),
            },
    {
        match self.children.get(id) {
            Some(h) => Some(*h),
            None => None,
        }
    }

    /// The identifier owning `handle`, if any.
    pub fn owner_of(&self, handle: u64) -> (r: Option<&String>)
        ensures
            match r {
                Some(id) => self.model().owners.contains_key(handle)
                    && self.model().owners[handle] == id@,
                None => !self.model().owners.contains_key(handle),
            },
    {
        self.owners.get(&handle)
    }

    /// Raises the generation counter of `id` for a spawn and returns the
    /// generation the new worker starts at. The registry itself does not
    /// move until the runtime reports the started worker to
    /// `complete_spawn`.
    pub fn next_generation(&mut self, id: &String) -> (g: u64)
        requires
            old(self).wf(),
        ensures
            final(self).wf(),
            final(self).model() == step(
                old(self).model(),
                SupervisorOp::Spawn { id: id@ },
            ),
            g == bump(gen_of(old(self).model(), id@)),
    {
        let g = match self.generations.get(id.as_str()) {
            Some(n) => if *n < u64::MAX {
                *n + 1
            } else {
                u64::MAX
            },
            None => 1,
        };
        self.generations.insert(id.clone(), g);
        g
    }

    /// Records the live handle of a worker the runtime has just started for
    /// `id`, replacing a previous registration of `id` in place.
    pub fn complete_spawn(&mut self, id: &String, handle: u64)
        requires
            old(self).wf(),
            old(self).model().generations.contains_key(id@),
            !old(self).model().owners.contains_key(handle) || old(self).model().owners[handle]
                == id@,
        ensures
            final(self).wf(),
            final(self).model() == step(
                old(self).model(),
                SupervisorOp::Register { id: id@, handle },
            ),
    {
        let ghost m0 = self.model();
        let old_handle = match self.children.get(id.as_str()) {
            Some(h) => Some(*h),
            None => None,
        };
        if let Some(h0) = old_handle {
            self.owners.remove(&h0);
        }
        self.owners.insert(handle, id.clone());
        self.children.insert(id.clone(), handle);
        proof {
            assert(self.model().owners =~= step(
                m0,
                SupervisorOp::Register { id: id@, handle },
            ).owners);
            assert(self.model() == step(m0, SupervisorOp::Register { id: id@, handle }));
        }
    }

    /// Looks up which identifier owned the dead worker's handle and removes
    /// the registry entry, returning the identifier; the registry is
    /// untouched if the handle is unknown.
    pub fn detach_child(&mut self, handle: u64) -> (r: Option<String>)
        requires
            old(self).wf(),
        ensures
            final(self).wf(),
            match r {
                Some(id) => old(self).model().owners.contains_key(handle)
                    && id@ == old(self).model().owners[handle]
                    && final(self).model().children == old(self).model().children.remove(id@)
                    && final(self).model().owners == old(self).model().owners.remove(handle)
                    && final(self).model().generations == old(self).model().generations,
                None => !old(self).model().owners.contains_key(handle)
                    && final(self).model() == old(self).model(),
            },
    {
        match self.owners.remove(&handle) {
            Some(id) => {
                self.children.remove(id.as_str());
                proof {
                    assert(self.model().owners =~= old(self).model().owners.remove(handle));
                    assert forall|id2: Seq<char>| #[trigger] self.children@.contains_key(id2)
                        implies self.owners@.contains_key(self.children@[id2])
                            && self.owners@[self.children@[id2]]@ == id2 by {
                        assert(old(self).children@.contains_key(id2));
                        let h2 = old(self).children@[id2];
                        if h2 == handle {
                            assert(old(self).owners@[handle]@ == id2);
                            assert(old(self).owners@[handle] == id);
                        }
                    };
                    assert forall|h2: u64| #[trigger] self.owners@.contains_key(h2)
                        implies self.children@.contains_key(self.owners@[h2]@)
                            && self.children@[self.owners@[h2]@] == h2 by {
                        assert(old(self).owners@.contains_key(h2));
                        let id2 = old(self).owners@[h2]@;
                        if id2 == id@ {
                            assert(old(self).children@[id2] == h2);
                            assert(old(self).owners@.contains_key(handle));
                            assert(old(self).children@[old(self).owners@[handle]@] == handle);
                        }
                    };
                }
                Some(id)
            },
            None => {
                proof {
                    assert(self.model().owners =~= old(self).model().owners);
                }
                None
            },
        }
    }
}

/// The supervisor's decision logic, one command or notice at a time. The
/// runtime around it performs the effects and reports what it observes.
#[derive(Debug, Clone)]
pub struct SystemSupervisor;

impl SystemSupervisor {
    /// Processes one command.
    ///
    /// Spawning raises the generation and directs a worker start. A
    /// dispatch to a registered identifier forwards the message to exactly
    /// that identifier's worker; to an unregistered one it is dropped and
    /// reported, never thrown to the caller, and never creates a worker. A
    /// generation query answers from the counters and changes nothing.
    pub fn handle(state: &mut SupervisorState, message: SupervisorMessage) -> (effect:
        SupervisorEffect)
        requires
            old(state).wf(),
        ensures
            final(state).wf(),
            match message {
                SupervisorMessage::SpawnAccount { id } => final(state).model() == step(
                    old(state).model(),
                    SupervisorOp::Spawn { id: id@ },
                ) && effect == (SupervisorEffect::StartWorker {
                    id,
                    generation: bump(gen_of(old(state).model(), id@)),
                }),
                SupervisorMessage::Dispatch { id, message } => *final(state) == *old(state)
                    && if old(state).model().children.contains_key(id@) {
                    effect == (SupervisorEffect::Forward {
                        handle: old(state).model().children[id@],
                        message,
                    })
                } else {
                    effect == (SupervisorEffect::DropDispatch { id })
                },
                SupervisorMessage::GetGeneration { id } => *final(state) == *old(state) && effect
                    == (SupervisorEffect::Generation {
                    value: gen_of(old(state).model(), id@),
                }),
            },
    {
        match message {
            SupervisorMessage::SpawnAccount { id } => {
                let generation = state.next_generation(&id);
                SupervisorEffect::StartWorker { id, generation }
            },
            SupervisorMessage::Dispatch { id, message } => {
                match state.live_handle(id.as_str()) {
                    Some(handle) => SupervisorEffect::Forward { handle, message },
                    None => SupervisorEffect::DropDispatch { id },
                }
            },
            SupervisorMessage::GetGeneration { id } => {
                let value = state.get_generation(id.as_str());
                SupervisorEffect::Generation { value }
            },
        }
    }

    /// Processes one supervision notice. If the handle belongs to a
    /// registered worker, that worker — and only that worker — is detached
    /// and exactly one respawn is directed under the same identifier, at
    /// the next generation; an unknown handle changes nothing.
    pub fn handle_supervisor_evt(state: &mut SupervisorState, notice: SupervisionNotice) -> (r:
        Option<SupervisorEffect>)
        requires
            old(state).wf(),
        ensures
            final(state).wf(),
            final(state).model() == step(
                old(state).model(),
                SupervisorOp::Down { handle: notice.spec_handle() },
            ),
            match r {
                Some(effect) => old(state).model().owners.contains_key(notice.spec_handle())
                    && (effect matches SupervisorEffect::StartWorker { id, generation }
                    && id@ == old(state).model().owners[notice.spec_handle()]
                    && generation == bump(gen_of(old(state).model(), id@))),
                None => !old(state).model().owners.contains_key(notice.spec_handle())
                    && final(state).model() == old(state).model(),
            },
    {
        let handle = match notice {
            SupervisionNotice::ActorFailed { handle } => handle,
            SupervisionNotice::ActorTerminated { handle } => handle,
        };
        let ghost m0 = state.model();
        match state.detach_child(handle) {
            Some(id) => {
                let generation = state.next_generation(&id);
                proof {
                    assert(state.model().owners =~= step(
                        m0,
                        SupervisorOp::Down { handle },
                    ).owners);
                    assert(state.model().children =~= step(
                        m0,
                        SupervisorOp::Down { handle },
                    ).children);
                    assert(state.model().generations =~= step(
                        m0,
                        SupervisorOp::Down { handle },
                    ).generations);
                    assert(state.model() == step(m0, SupervisorOp::Down { handle }));
                }
                Some(SupervisorEffect::StartWorker { id, generation })
            },
            None => {
                proof {
                    assert(state.model() == step(m0, SupervisorOp::Down { handle }));
                }
                None
            },
        }
    }
}

} // verus!
