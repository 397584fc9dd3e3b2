use vstd::prelude::*;
use crate::command::SemanticCommand;
use crate::graph::SemanticGraph;
use crate::types::{
    ActivationId, CapabilityId, Generation, HartId, StoreId, TaskId, TransactionId, TransactionState, WaitId,
    WaitState,
};

verus! {

/// Beginning a cleanup is accepted exactly when no transaction already has the cleanup id and
/// the graph holds the named store generation.
pub proof fn lemma_begin_cleanup_accepted_iff(
    g: SemanticGraph,
    cleanup: TransactionId,
    store: StoreId,
    generation: Generation,
    reason: String,
)
    ensures
        g.command_verdict(SemanticCommand::BeginCleanup { cleanup, store, generation, reason }) is Ok
            <==> (forall|i: int| 0 <= i < g.transactions@.len() ==> (#[trigger] g.transactions@[i]).id != cleanup)
                && (exists|j: int| 0 <= j < g.stores@.len()
                    && (#[trigger] g.stores@[j]).id == store && g.stores@[j].generation == generation),
{
}

/// A cleanup step, or the commit of a cleanup, is accepted exactly when the graph holds a
/// transaction with the cleanup id that is still begun.
pub proof fn lemma_cleanup_step_accepted_iff(
    g: SemanticGraph,
    cleanup: TransactionId,
    step: String,
    target: String,
    observed_generation: Generation,
)
    ensures
        g.command_verdict(SemanticCommand::ApplyCleanupStep { cleanup, step, target, observed_generation }) is Ok
            <==> (exists|i: int| 0 <= i < g.transactions@.len()
                && (#[trigger] g.transactions@[i]).id == cleanup
                && g.transactions@[i].state == TransactionState::Begun),
        g.command_verdict(SemanticCommand::CommitCleanup { cleanup }) is Ok
            <==> (exists|i: int| 0 <= i < g.transactions@.len()
                && (#[trigger] g.transactions@[i]).id == cleanup
                && g.transactions@[i].state == TransactionState::Begun),
{
}

/// Resolving or cancelling a wait is accepted exactly when a wait token with that id is pending.
pub proof fn lemma_wait_outcome_accepted_iff(g: SemanticGraph, wait: WaitId, command: SemanticCommand)
    requires
        (command is ResolveWait && command->ResolveWait_wait == wait)
            || (command is CancelWait && command->CancelWait_wait == wait),
    ensures
        g.command_verdict(command) is Ok
            <==> (exists|i: int| 0 <= i < g.waits@.len()
                && (#[trigger] g.waits@[i]).id == wait && g.waits@[i].state == WaitState::Pending),
{
}

/// Revoking a capability is accepted exactly when the ledger holds an entry with its id.
pub proof fn lemma_revoke_capability_accepted_iff(g: SemanticGraph, cap: CapabilityId)
    ensures
        g.command_verdict(SemanticCommand::RevokeCapability { cap }) is Ok
            <==> (exists|i: int| 0 <= i < g.capabilities@.len() && (#[trigger] g.capabilities@[i]).id == cap),
{
}

/// Granting a capability is accepted exactly when it names at least one operation and, where it
/// names an owner store, also names a generation of it that the graph holds.
pub proof fn lemma_grant_capability_accepted_iff(
    g: SemanticGraph,
    subject: String,
    object: String,
    operations: Vec<String>,
    object_ref: Option<crate::types::AuthorityObjectRef>,
    owner_store: Option<StoreId>,
    owner_store_generation: Option<Generation>,
)
    ensures
        g.command_verdict(SemanticCommand::GrantCapability { subject, object, operations, object_ref, owner_store,
            owner_store_generation }) is Ok
            <==> operations@.len() > 0 && (owner_store matches Some(s) ==> owner_store_generation matches Some(sg)
                && exists|j: int| 0 <= j < g.stores@.len()
                    && (#[trigger] g.stores@[j]).id == s && g.stores@[j].generation == sg),
{
}

/// Creating a wait is accepted exactly when it has an owner (a task or a store), something to
/// wait for (a blocker or a deadline), a task of the owner task's id exists, and an owner store
/// comes with a generation of it that the graph holds.
pub proof fn lemma_create_wait_accepted_iff(g: SemanticGraph, command: SemanticCommand)
    requires
        command is CreateWait,
    ensures
        ({
            let owner_task = command->CreateWait_owner_task;
            let owner_store = command->CreateWait_owner_store;
            let owner_store_generation = command->CreateWait_owner_store_generation;
            g.command_verdict(command) is Ok <==> {
                &&& owner_task is Some || owner_store is Some
                &&& command->CreateWait_blockers@.len() > 0 || command->CreateWait_deadline is Some
                &&& owner_task matches Some(t) ==> exists|i: int| 0 <= i < g.tasks@.len()
                    && (#[trigger] g.tasks@[i]).id == t
                &&& owner_store matches Some(s) ==> owner_store_generation matches Some(sg)
                    && exists|j: int| 0 <= j < g.stores@.len()
                        && (#[trigger] g.stores@[j]).id == s && g.stores@[j].generation == sg
            }
        }),
{
}

/// Clearing a hart's current activation is accepted only with a reason, and only where the
/// graph holds that hart generation with exactly that activation generation current on it.
pub proof fn lemma_clear_hart_current_activation_needs_that_activation(
    g: SemanticGraph,
    hart: HartId,
    hart_generation: Generation,
    activation: ActivationId,
    activation_generation: Generation,
    reason: String,
)
    requires
        g.command_verdict(SemanticCommand::ClearHartCurrentActivation { hart, hart_generation, activation,
            activation_generation, reason }) is Ok,
    ensures
        reason@.len() > 0,
        exists|j: int| 0 <= j < g.harts@.len() && {
            let h = #[trigger] g.harts@[j];
            &&& h.id == hart && h.generation == hart_generation
            &&& h.current_activation == Some(activation)
            &&& h.current_activation_generation == Some(activation_generation)
        },
{
    crate::search::lemma_first_match_facts(g.harts@, crate::command::hart_is(hart, hart_generation));
    let j = crate::search::first_match(g.harts@, crate::command::hart_is(hart, hart_generation))->0;
    assert(crate::command::hart_is(hart, hart_generation)(g.harts@[j]));
}

/// Changing a hart's state is accepted exactly when a reason is given and the graph holds that
/// hart generation.
pub proof fn lemma_set_hart_state_accepted_iff(g: SemanticGraph, command: SemanticCommand)
    requires
        command is SetHartState,
    ensures
        g.command_verdict(command) is Ok <==> command->SetHartState_reason@.len() > 0
            && exists|j: int| 0 <= j < g.harts@.len()
                && (#[trigger] g.harts@[j]).id == command->SetHartState_hart
                && g.harts@[j].generation == command->SetHartState_hart_generation,
{
}

/// Creating a runnable queue is accepted exactly when its id is nonzero, its label nonempty and
/// no runnable queue of that id exists.
pub proof fn lemma_create_runnable_queue_accepted_iff(g: SemanticGraph, command: SemanticCommand)
    requires
        command is CreateRunnableQueue,
    ensures
        g.command_verdict(command) is Ok <==> command->CreateRunnableQueue_queue != 0
            && command->CreateRunnableQueue_label@.len() > 0
            && forall|j: int| 0 <= j < g.runnable_queues@.len()
                ==> (#[trigger] g.runnable_queues@[j]).id != command->CreateRunnableQueue_queue,
{
}

} // verus!
