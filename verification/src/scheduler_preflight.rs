use vstd::prelude::*;
use crate::base::{HartRecord, RunnableQueueEntry, RunnableQueueRecord};
use crate::cross_scheduler::{active_runnable_queue_is, hart_is};
use crate::graph::SemanticGraph;
use crate::command::SemanticCommand;
use crate::search::{any_match, exists_match, find_first, first_match, lemma_first_match_facts};
use crate::types::{ActivationId, Generation, HartId, HartState, RunnableQueueId, RunnableQueueState};

verus! {

/// A hart with this id (of any generation).
pub open spec fn hart_id_is(id: HartId) -> spec_fn(HartRecord) -> bool {
    |h: HartRecord| h.id == id
}

/// A hart with this hardware id.
pub open spec fn hardware_hart_is(hardware_id: u64) -> spec_fn(HartRecord) -> bool {
    |h: HartRecord| h.hardware_id == hardware_id
}

/// The boot hart.
pub open spec fn boot_hart() -> spec_fn(HartRecord) -> bool {
    |h: HartRecord| h.boot
}

/// A hart of this id and generation that can take work (neither offline nor faulted).
pub open spec fn available_hart_is(id: HartId, generation: Generation) -> spec_fn(HartRecord) -> bool {
    |h: HartRecord| h.id == id && h.generation == generation && h.state != HartState::Offline
        && h.state != HartState::Faulted
}

/// A runnable queue with this id (of any generation or state).
pub open spec fn runnable_queue_with_id(id: RunnableQueueId) -> spec_fn(RunnableQueueRecord) -> bool {
    |q: RunnableQueueRecord| q.id == id
}

/// A queue entry for this activation (of any generation).
pub open spec fn entry_for_activation(activation: ActivationId) -> spec_fn(RunnableQueueEntry) -> bool {
    |e: RunnableQueueEntry| e.activation == activation
}

impl SemanticGraph {
    /// Whether a new hart may be registered: its id is nonzero and unused, it has a label,
    /// its hardware id is unused, and at most one hart is the boot hart.
    pub open spec fn register_hart_verdict(
        &self,
        hart: HartId,
        hardware_id: u64,
        label: Seq<char>,
        boot: bool,
    ) -> Result<(), &'static str> {
        if hart == 0 {
            Err("hart id=0 is invalid")
        } else if label.len() == 0 {
            Err("hart label is empty")
        } else if any_match(self.harts@, hart_id_is(hart)) {
            Err("hart already exists")
        } else if any_match(self.harts@, hardware_hart_is(hardware_id)) {
            Err("hardware hart already exists")
        } else if boot && any_match(self.harts@, boot_hart()) {
            Err("boot hart already exists")
        } else {
            Ok(())
        }
    }

    /// Whether the hart generation's current activation may be cleared: a reason is given
    /// and the hart's current activation is exactly the one named.
    pub open spec fn clear_hart_current_activation_verdict(
        &self,
        hart: HartId,
        hart_generation: Generation,
        activation: ActivationId,
        activation_generation: Generation,
        reason: Seq<char>,
    ) -> Result<(), &'static str> {
        if reason.len() == 0 {
            Err("clear hart current activation reason is empty")
        } else {
            match first_match(self.harts@, hart_is(hart, hart_generation)) {
                None => Err("hart generation is missing"),
                Some(i) => {
                    let h = self.harts@[i];
                    if h.current_activation == Some(activation)
                        && h.current_activation_generation == Some(activation_generation) {
                        Ok(())
                    } else {
                        Err("hart current activation generation mismatch")
                    }
                },
            }
        }
    }

    /// Whether an active runnable queue generation may be bound to a hart generation: it is not
    /// bound to that hart already, holds no entries, and the hart can take work.
    pub open spec fn bind_runnable_queue_owner_verdict(
        &self,
        queue: RunnableQueueId,
        queue_generation: Generation,
        hart: HartId,
        hart_generation: Generation,
    ) -> Result<(), &'static str> {
        match first_match(self.runnable_queues@, active_runnable_queue_is(queue, queue_generation)) {
            None => Err("runnable queue generation is missing or inactive"),
            Some(i) => {
                let q = self.runnable_queues@[i];
                if q.owner_hart == Some(hart) && q.owner_hart_generation == Some(hart_generation) {
                    Err("runnable queue owner is already bound")
                } else if q.entries@.len() > 0 {
                    Err("runnable queue owner cannot change while entries are live")
                } else if !any_match(self.harts@, available_hart_is(hart, hart_generation)) {
                    Err("runnable queue owner hart generation is missing or unavailable")
                } else {
                    Ok(())
                }
            },
        }
    }

    /// Whether an activation may be taken out of a runnable queue: the first queue with that
    /// id is active and holds an entry for the activation.
    pub open spec fn dequeue_runnable_verdict(&self, queue: RunnableQueueId, activation: ActivationId) -> Result<(), &'static str> {
        match first_match(self.runnable_queues@, runnable_queue_with_id(queue)) {
            None => Err("runnable queue is missing"),
            Some(i) => {
                let q = self.runnable_queues@[i];
                if q.state != RunnableQueueState::Active {
                    Err("runnable queue is not active")
                } else if !any_match(q.entries@, entry_for_activation(activation)) {
                    Err("activation is not queued")
                } else {
                    Ok(())
                }
            },
        }
    }

    pub(crate) fn check_register_hart(&self, hart: HartId, hardware_id: u64, label: &str, boot: bool) -> (r: Result<(), &'static str>)
        ensures
            r == self.register_hart_verdict(hart, hardware_id, label@, boot),
    {
        if hart == 0 {
            return Err("hart id=0 is invalid");
        }
        if label.unicode_len() == 0 {
            return Err("hart label is empty");
        }
        if exists_match(
            &self.harts,
            |x: &HartRecord| -> (b: bool)
                ensures b == hart_id_is(hart)(*x)
            { x.id == hart },
            Ghost(hart_id_is(hart)),
        ) {
            return Err("hart already exists");
        }
        if exists_match(
            &self.harts,
            |x: &HartRecord| -> (b: bool)
                ensures b == hardware_hart_is(hardware_id)(*x)
            { x.hardware_id == hardware_id },
            Ghost(hardware_hart_is(hardware_id)),
        ) {
            return Err("hardware hart already exists");
        }
        if boot && exists_match(
            &self.harts,
            |x: &HartRecord| -> (b: bool)
                ensures b == boot_hart()(*x)
            { x.boot },
            Ghost(boot_hart()),
        ) {
            return Err("boot hart already exists");
        }
        Ok(())
    }

    pub(crate) fn check_clear_hart_current_activation(
        &self,
        hart: HartId,
        hart_generation: Generation,
        activation: ActivationId,
        activation_generation: Generation,
        reason: &str,
    ) -> (r: Result<(), &'static str>)
        ensures
            r == self.clear_hart_current_activation_verdict(hart, hart_generation, activation,
                activation_generation, reason@),
    {
        if reason.unicode_len() == 0 {
            return Err("clear hart current activation reason is empty");
        }
        let Some(i) = self.find_hart(hart, hart_generation) else {
            return Err("hart generation is missing");
        };
        let h = &self.harts[i];
        if h.current_activation == Some(activation) && h.current_activation_generation == Some(activation_generation) {
            Ok(())
        } else {
            Err("hart current activation generation mismatch")
        }
    }

    pub(crate) fn check_bind_runnable_queue_owner(
        &self,
        queue: RunnableQueueId,
        queue_generation: Generation,
        hart: HartId,
        hart_generation: Generation,
    ) -> (r: Result<(), &'static str>)
        ensures
            r == self.bind_runnable_queue_owner_verdict(queue, queue_generation, hart, hart_generation),
    {
        let Some(i) = self.find_active_runnable_queue(queue, queue_generation) else {
            return Err("runnable queue generation is missing or inactive");
        };
        let q = &self.runnable_queues[i];
        if q.owner_hart == Some(hart) && q.owner_hart_generation == Some(hart_generation) {
            return Err("runnable queue owner is already bound");
        }
        if q.entries.len() > 0 {
            return Err("runnable queue owner cannot change while entries are live");
        }
        if !exists_match(
            &self.harts,
            |x: &HartRecord| -> (b: bool)
                ensures b == available_hart_is(hart, hart_generation)(*x)
            { x.id == hart && x.generation == hart_generation && x.state != HartState::Offline
                && x.state != HartState::Faulted },
            Ghost(available_hart_is(hart, hart_generation)),
        ) {
            return Err("runnable queue owner hart generation is missing or unavailable");
        }
        Ok(())
    }

    pub(crate) fn check_dequeue_runnable(&self, queue: RunnableQueueId, activation: ActivationId) -> (r: Result<(), &'static str>)
        ensures
            r == self.dequeue_runnable_verdict(queue, activation),
    {
        let Some(i) = find_first(
            &self.runnable_queues,
            |x: &RunnableQueueRecord| -> (b: bool)
                ensures b == runnable_queue_with_id(queue)(*x)
            { x.id == queue },
            Ghost(runnable_queue_with_id(queue)),
        ) else {
            return Err("runnable queue is missing");
        };
        let q = &self.runnable_queues[i];
        if q.state != RunnableQueueState::Active {
            return Err("runnable queue is not active");
        }
        if !exists_match(
            &q.entries,
            |e: &RunnableQueueEntry| -> (b: bool)
                ensures b == entry_for_activation(activation)(*e)
            { e.activation == activation },
            Ghost(entry_for_activation(activation)),
        ) {
            return Err("activation is not queued");
        }
        Ok(())
    }
}

/// When the preflight accepts binding runnable queue `queue` at `queue_generation` to hart
/// `hart` at `hart_generation`, that queue generation exists, is active, holds no entries and
/// is not already owned by that hart generation, and that hart generation exists and is
/// neither offline nor faulted.
pub proof fn lemma_bind_runnable_queue_owner_needs_available_hart(
    g: SemanticGraph,
    queue: RunnableQueueId,
    queue_generation: Generation,
    hart: HartId,
    hart_generation: Generation,
)
    requires
        g.command_verdict(SemanticCommand::BindRunnableQueueOwner { queue, queue_generation, hart, hart_generation })
            is Ok,
    ensures
        exists|i: int| 0 <= i < g.runnable_queues@.len() && {
            let q = #[trigger] g.runnable_queues@[i];
            &&& q.id == queue && q.generation == queue_generation
            &&& q.state == RunnableQueueState::Active
            &&& q.entries@.len() == 0
            &&& !(q.owner_hart == Some(hart) && q.owner_hart_generation == Some(hart_generation))
        },
        exists|j: int| 0 <= j < g.harts@.len() && {
            let h = #[trigger] g.harts@[j];
            &&& h.id == hart && h.generation == hart_generation
            &&& h.state != HartState::Offline
            &&& h.state != HartState::Faulted
        },
{
    lemma_first_match_facts(g.runnable_queues@, active_runnable_queue_is(queue, queue_generation));
    let i = first_match(g.runnable_queues@, active_runnable_queue_is(queue, queue_generation))->0;
    assert(active_runnable_queue_is(queue, queue_generation)(g.runnable_queues@[i]));
    let j = choose|j: int| 0 <= j < g.harts@.len() && available_hart_is(hart, hart_generation)(#[trigger] g.harts@[j]);
    assert(available_hart_is(hart, hart_generation)(g.harts@[j]));
}

/// When the preflight accepts registering hart `hart` with hardware id `hardware_id`, the id
/// is nonzero, the label is not empty, no hart has that id or that hardware id, and when the
/// new hart is the boot hart no other hart is.
pub proof fn lemma_register_hart_needs_fresh_ids(
    g: SemanticGraph,
    hart: HartId,
    hardware_id: u64,
    label: String,
    boot: bool,
)
    requires
        g.command_verdict(SemanticCommand::RegisterHart { hart, hardware_id, label, boot }) is Ok,
    ensures
        hart != 0,
        label@.len() > 0,
        forall|j: int| 0 <= j < g.harts@.len() ==> (#[trigger] g.harts@[j]).id != hart
            && g.harts@[j].hardware_id != hardware_id,
        boot ==> forall|j: int| 0 <= j < g.harts@.len() ==> !(#[trigger] g.harts@[j]).boot,
{
    assert forall|j: int| 0 <= j < g.harts@.len() implies (#[trigger] g.harts@[j]).id != hart
        && g.harts@[j].hardware_id != hardware_id by {
        if g.harts@[j].id == hart {
            assert(hart_id_is(hart)(g.harts@[j]));
        }
        if g.harts@[j].hardware_id == hardware_id {
            assert(hardware_hart_is(hardware_id)(g.harts@[j]));
        }
    }
    if boot {
        assert forall|j: int| 0 <= j < g.harts@.len() implies !(#[trigger] g.harts@[j]).boot by {
            if g.harts@[j].boot {
                assert(boot_hart()(g.harts@[j]));
            }
        }
    }
}

/// When the preflight accepts dequeuing `activation` from runnable queue `queue`, an active
/// queue with that id holds an entry for the activation.
pub proof fn lemma_dequeue_runnable_needs_queued_activation(g: SemanticGraph, queue: RunnableQueueId, activation: ActivationId)
    requires
        g.command_verdict(SemanticCommand::DequeueRunnable { queue, activation }) is Ok,
    ensures
        exists|i: int, k: int| #![trigger g.runnable_queues@[i].entries@[k]]
            0 <= i < g.runnable_queues@.len() && g.runnable_queues@[i].id == queue
            && g.runnable_queues@[i].state == RunnableQueueState::Active
            && 0 <= k < g.runnable_queues@[i].entries@.len() && g.runnable_queues@[i].entries@[k].activation == activation,
{
    lemma_first_match_facts(g.runnable_queues@, runnable_queue_with_id(queue));
    let i = first_match(g.runnable_queues@, runnable_queue_with_id(queue))->0;
    let q = g.runnable_queues@[i];
    assert(runnable_queue_with_id(queue)(q));
    let k = choose|k: int| 0 <= k < q.entries@.len() && entry_for_activation(activation)(#[trigger] q.entries@[k]);
    assert(entry_for_activation(activation)(q.entries@[k]));
    assert(g.runnable_queues@[i].entries@[k].activation == activation);
}

} // verus!
