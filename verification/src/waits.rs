use vstd::prelude::*;
use crate::base::{StoreRecord, TaskRecord, WaitRecord};
use crate::events::{appended_event, EventDomain, EventKind};
use crate::graph::{SemanticGraph, Table};
use crate::lookup2::{pending_wait_is, store_is};
use crate::search::{any_match, exists_match, first_match};
use crate::types::{
    ContractObjectRef, Generation, SavedContextId, SemanticWaitKind, StoreId, TaskId, WaitCancelReason, WaitId,
    WaitRestartPolicy, WaitState,
};

verus! {

/// `new` is `old` with the pending wait token at position `k` resolved and the resolution logged.
pub open spec fn resolved_wait_token(old: SemanticGraph, new: SemanticGraph, k: int) -> bool {
    let w = old.waits@[k];
    &&& 0 <= k < old.waits@.len()
    &&& new.agrees_except(&old, set![Table::EventLog, Table::Waits])
    &&& new.waits@ == old.waits@.update(k, WaitRecord { state: WaitState::Resolved, ..w })
    &&& appended_event(old.event_log, new.event_log, EventDomain::Wait,
        EventKind::WaitResolved { wait: w.id, generation: w.generation })
}

/// `new` is `old` with the pending wait token at position `k` cancelled for `reason` with
/// `errno`, and the cancellation logged.
pub open spec fn cancelled_wait_token(old: SemanticGraph, new: SemanticGraph, k: int, errno: i32, reason: WaitCancelReason) -> bool {
    let w = old.waits@[k];
    &&& 0 <= k < old.waits@.len()
    &&& new.agrees_except(&old, set![Table::EventLog, Table::Waits])
    &&& new.waits@ == old.waits@.update(k, WaitRecord {
        state: WaitState::Cancelled,
        cancel_reason: Some(reason),
        errno: Some(errno),
        ..w
    })
    &&& appended_event(old.event_log, new.event_log, EventDomain::Wait,
        EventKind::WaitCancelled { wait: w.id, generation: w.generation, errno, reason })
}

impl SemanticGraph {
    /// Resolves the first pending wait token with this id and generation.
    pub fn resolve_wait_token(&mut self, wait: WaitId, generation: Generation) -> (k: usize)
        requires
            old(self).event_log.next_event_id < u64::MAX,
            first_match(old(self).waits@, pending_wait_is(wait, generation)) is Some,
        ensures
            first_match(old(self).waits@, pending_wait_is(wait, generation)) == Some(k as int),
            resolved_wait_token(*old(self), *final(self), k as int),
    {
        let k = self.find_pending_wait(wait, generation).unwrap();
        self.waits[k].state = WaitState::Resolved;
        self.event_log.push(EventDomain::Wait, EventKind::WaitResolved { wait, generation });
        k
    }

    /// Cancels the first pending wait token with this id and generation.
    pub fn cancel_wait_token(&mut self, wait: WaitId, generation: Generation, errno: i32, reason: WaitCancelReason) -> (k: usize)
        requires
            old(self).event_log.next_event_id < u64::MAX,
            first_match(old(self).waits@, pending_wait_is(wait, generation)) is Some,
        ensures
            first_match(old(self).waits@, pending_wait_is(wait, generation)) == Some(k as int),
            cancelled_wait_token(*old(self), *final(self), k as int, errno, reason),
    {
        let k = self.find_pending_wait(wait, generation).unwrap();
        self.waits[k].state = WaitState::Cancelled;
        self.waits[k].cancel_reason = Some(reason);
        self.waits[k].errno = Some(errno);
        proof {
            let w = old(self).waits@[k as int];
            assert(self.waits@ =~= old(self).waits@.update(k as int, WaitRecord {
                state: WaitState::Cancelled,
                cancel_reason: Some(reason),
                errno: Some(errno),
                ..w
            }));
        }
        self.event_log.push(EventDomain::Wait, EventKind::WaitCancelled { wait, generation, errno, reason });
        k
    }
}

/// A task with this id (of any generation).
pub open spec fn task_id_is(id: TaskId) -> spec_fn(TaskRecord) -> bool {
    |t: TaskRecord| t.id == id
}

/// The pending wait token that creating a wait adds.
pub open spec fn created_wait_record(
    wait: WaitId,
    generation: Generation,
    kind: SemanticWaitKind,
    blockers: Vec<ContractObjectRef>,
    owner_task: Option<TaskId>,
    owner_store: Option<StoreId>,
    owner_store_generation: Option<Generation>,
    deadline: Option<u64>,
    restart_policy: WaitRestartPolicy,
    saved_context: Option<SavedContextId>,
) -> WaitRecord {
    WaitRecord {
        id: wait,
        generation,
        kind,
        blockers,
        owner_store,
        owner_store_generation,
        owner_task,
        deadline,
        restart_policy,
        saved_context,
        state: WaitState::Pending,
        cancel_reason: None,
        errno: None,
    }
}

impl SemanticGraph {
    /// Whether a wait may be created: it has an owner (a task or a store), something to wait
    /// for (a blocker or a deadline), its owner task exists, and its owner store is named with a
    /// generation that exists.
    pub open spec fn create_wait_verdict(
        &self,
        owner_task: Option<TaskId>,
        owner_store: Option<StoreId>,
        owner_store_generation: Option<Generation>,
        blockers: Seq<ContractObjectRef>,
        deadline: Option<u64>,
    ) -> Result<(), &'static str> {
        if owner_task is None && owner_store is None {
            Err("create-wait requires owner task or owner store")
        } else if blockers.len() == 0 && deadline is None {
            Err("create-wait requires blocker or deadline")
        } else if owner_task matches Some(t) && !any_match(self.tasks@, task_id_is(t)) {
            Err("owner task is missing")
        } else {
            match owner_store {
                None => Ok(()),
                Some(store) => match owner_store_generation {
                    None => Err("owner store generation is required"),
                    Some(g) => if any_match(self.stores@, store_is(store, g)) {
                        Ok(())
                    } else {
                        Err("owner store generation is missing")
                    },
                },
            }
        }
    }

    pub(crate) fn check_create_wait(
        &self,
        owner_task: Option<TaskId>,
        owner_store: Option<StoreId>,
        owner_store_generation: Option<Generation>,
        blockers: &Vec<ContractObjectRef>,
        deadline: Option<u64>,
    ) -> (r: Result<(), &'static str>)
        ensures
            r == self.create_wait_verdict(owner_task, owner_store, owner_store_generation, blockers@, deadline),
    {
        if owner_task.is_none() && owner_store.is_none() {
            return Err("create-wait requires owner task or owner store");
        }
        if blockers.len() == 0 && deadline.is_none() {
            return Err("create-wait requires blocker or deadline");
        }
        if let Some(task) = owner_task {
            if !exists_match(
                &self.tasks,
                |t: &TaskRecord| -> (b: bool)
                    ensures b == task_id_is(task)(*t)
                { t.id == task },
                Ghost(task_id_is(task)),
            ) {
                return Err("owner task is missing");
            }
        }
        match owner_store {
            None => Ok(()),
            Some(store) => match owner_store_generation {
                None => Err("owner store generation is required"),
                Some(g) => if exists_match(
                    &self.stores,
                    |x: &StoreRecord| -> (b: bool)
                        ensures b == store_is(store, g)(*x)
                    { x.id == store && x.generation == g },
                    Ghost(store_is(store, g)),
                ) {
                    Ok(())
                } else {
                    Err("owner store generation is missing")
                },
            },
        }
    }

    /// Adds a pending wait token with the given details and logs its creation.
    pub fn record_wait_created(
        &mut self,
        wait: WaitId,
        generation: Generation,
        kind: SemanticWaitKind,
        blockers: Vec<ContractObjectRef>,
        owner_task: Option<TaskId>,
        owner_store: Option<StoreId>,
        owner_store_generation: Option<Generation>,
        deadline: Option<u64>,
        restart_policy: WaitRestartPolicy,
        saved_context: Option<SavedContextId>,
    )
        requires
            old(self).event_log.next_event_id < u64::MAX,
        ensures
            final(self).agrees_except(old(self), set![Table::EventLog, Table::Waits]),
            final(self).waits@ == old(self).waits@.push(created_wait_record(wait, generation, kind, blockers,
                owner_task, owner_store, owner_store_generation, deadline, restart_policy, saved_context)),
            appended_event(old(self).event_log, final(self).event_log, EventDomain::Wait,
                EventKind::WaitCreated { wait, generation }),
    {
        self.waits.push(WaitRecord {
            id: wait,
            generation,
            kind,
            blockers,
            owner_store,
            owner_store_generation,
            owner_task,
            deadline,
            restart_policy,
            saved_context,
            state: WaitState::Pending,
            cancel_reason: None,
            errno: None,
        });
        self.event_log.push(EventDomain::Wait, EventKind::WaitCreated { wait, generation });
    }
}

} // verus!
