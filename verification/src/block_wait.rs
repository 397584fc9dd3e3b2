use vstd::prelude::*;
use crate::base::{BlockRequestObjectRecord, WaitRecord};
use crate::errors::SemanticInvariantError;
use crate::events::{appended_event, appended_one, has_event_spec, EventDomain, EventKind};
use crate::graph::{SemanticGraph, Table};
use crate::lookup2::{
    completion_is, pending_block_wait_is, pending_wait_is, recorded_completion_is, request_is,
    store_is, submitted_request_is, wait_is,
};
use crate::search::{
    any_match, exists_match, first_failure, first_match, lemma_first_failure_at,
    lemma_first_failure_ok, lemma_first_match_facts, max_of, max_u64, saturating_succ,
    succ_saturating,
};
use crate::waits::{cancelled_wait_token, resolved_wait_token};
use crate::types::{
    BlockCompletionObjectId, BlockCompletionObjectState, BlockCompletionStatus, BlockDeviceObjectId, BlockRangeObjectId,
    BlockRequestObjectId, BlockRequestObjectState, BlockRequestOperation, BlockWaitId,
    BlockWaitState, ContractObjectKind, ContractObjectRef, EventId, Generation, SemanticWaitKind,
    StoreState, WaitCancelReason, WaitId, WaitState,
};

verus! {

/// A wait token bound to one submitted block request.
pub struct BlockWaitRecord {
    pub id: BlockWaitId,
    pub wait: WaitId,
    pub wait_generation: Generation,
    pub block_request: BlockRequestObjectId,
    pub block_request_generation: Generation,
    pub block_device: BlockDeviceObjectId,
    pub block_device_generation: Generation,
    pub block_range: BlockRangeObjectId,
    pub block_range_generation: Generation,
    pub operation: BlockRequestOperation,
    pub sequence: u64,
    pub byte_len: u64,
    pub generation: Generation,
    pub state: BlockWaitState,
    pub created_at_event: EventId,
    pub completed_at_event: Option<EventId>,
    pub completion: Option<BlockCompletionObjectId>,
    pub completion_generation: Option<Generation>,
    pub cancel_reason: Option<WaitCancelReason>,
    pub note: String,
}

pub open spec fn block_wait_id_is(id: BlockWaitId) -> spec_fn(BlockWaitRecord) -> bool {
    |r: BlockWaitRecord| r.id == id
}

/// A pending block wait already holds this wait token generation.
pub open spec fn pending_block_wait_on_token(wait: WaitId, generation: Generation) -> spec_fn(BlockWaitRecord) -> bool {
    |r: BlockWaitRecord| r.wait == wait && r.wait_generation == generation && r.state == BlockWaitState::Pending
}

/// A pending block wait already waits for this request generation.
pub open spec fn pending_block_wait_on_request(request: BlockRequestObjectId, generation: Generation) -> spec_fn(BlockWaitRecord) -> bool {
    |r: BlockWaitRecord| r.block_request == request && r.block_request_generation == generation
        && r.state == BlockWaitState::Pending
}

/// Another pending block wait (id other than `id`) holds the same wait token generation.
pub open spec fn rival_block_wait_on_token(id: BlockWaitId, wait: WaitId, generation: Generation) -> spec_fn(BlockWaitRecord) -> bool {
    |r: BlockWaitRecord| r.id != id && r.wait == wait && r.wait_generation == generation
        && r.state == BlockWaitState::Pending
}

/// Another pending block wait (id other than `id`) waits for the same request generation.
pub open spec fn rival_block_wait_on_request(id: BlockWaitId, request: BlockRequestObjectId, generation: Generation) -> spec_fn(BlockWaitRecord) -> bool {
    |r: BlockWaitRecord| r.id != id && r.block_request == request && r.block_request_generation == generation
        && r.state == BlockWaitState::Pending
}

/// The blocker a block wait's token must name.
pub open spec fn block_request_ref(request: BlockRequestObjectId, generation: Generation) -> ContractObjectRef {
    ContractObjectRef { kind: ContractObjectKind::BlockRequestObject, id: request, generation }
}

/// The reasons for which a block wait may be cancelled.
pub open spec fn block_io_cancel_reason(reason: WaitCancelReason) -> bool {
    reason == WaitCancelReason::DeviceFault || reason == WaitCancelReason::CapabilityRevoked
        || reason == WaitCancelReason::ResourceDropped || reason == WaitCancelReason::GenerationMismatch
}

pub fn is_block_io_cancel_reason(reason: WaitCancelReason) -> (r: bool)
    ensures
        r == block_io_cancel_reason(reason),
{
    match reason {
        WaitCancelReason::DeviceFault | WaitCancelReason::CapabilityRevoked
        | WaitCancelReason::ResourceDropped | WaitCancelReason::GenerationMismatch => true,
        _ => false,
    }
}

/// The event that records the creation of `r`.
pub open spec fn block_wait_created_event(r: BlockWaitRecord) -> EventKind {
    EventKind::BlockWaitCreated {
        block_wait: r.id,
        wait: r.wait,
        wait_generation: r.wait_generation,
        block_request: r.block_request,
        block_request_generation: r.block_request_generation,
        block_device: r.block_device,
        block_device_generation: r.block_device_generation,
        block_range: r.block_range,
        block_range_generation: r.block_range_generation,
        operation: r.operation,
        sequence: r.sequence,
        byte_len: r.byte_len,
        generation: r.generation,
    }
}

/// The event that records how `r` ended, given its state.
pub open spec fn block_wait_end_event(r: BlockWaitRecord) -> EventKind {
    if r.state == BlockWaitState::Resolved {
        EventKind::BlockWaitResolved {
            block_wait: r.id,
            wait: r.wait,
            wait_generation: r.wait_generation,
            block_completion: r.completion->0,
            block_completion_generation: r.completion_generation->0,
            generation: r.generation,
        }
    } else {
        EventKind::BlockWaitCancelled {
            block_wait: r.id,
            wait: r.wait,
            wait_generation: r.wait_generation,
            reason: r.cancel_reason->0,
            generation: r.generation,
        }
    }
}

/// The owner store of a wait token, if it names one, must exist and be alive.
pub open spec fn wait_owner_verdict(g: SemanticGraph, w: WaitRecord) -> Result<(), &'static str> {
    match w.owner_store {
        None => Ok(()),
        Some(store) => match w.owner_store_generation {
            None => Err("block wait owner store generation is missing"),
            Some(generation) => match first_match(g.stores@, store_is(store, generation)) {
                None => Err("block wait owner store generation is missing"),
                Some(k) => if g.stores@[k].state == StoreState::Dead {
                    Err("block wait owner store is dead")
                } else {
                    Ok(())
                },
            },
        },
    }
}

impl SemanticGraph {
    /// Why creating a block wait with these values would be refused, if it would;
    /// otherwise the position of the request it waits for.
    pub open spec fn block_wait_verdict(
        &self,
        block_wait: BlockWaitId,
        wait: WaitId,
        wait_generation: Generation,
        block_request: BlockRequestObjectId,
        block_request_generation: Generation,
    ) -> Result<int, &'static str> {
        if block_wait == 0 {
            Err("block wait id=0 is invalid")
        } else if any_match(self.block_waits@, block_wait_id_is(block_wait)) {
            Err("block wait already exists")
        } else if wait_generation == 0 || block_request_generation == 0 {
            Err("block wait identity values must be nonzero")
        } else {
            match first_match(self.waits@, pending_wait_is(wait, wait_generation)) {
                None => Err("block wait token generation is missing or not pending"),
                Some(k) => {
                    let w = self.waits@[k];
                    if w.kind != SemanticWaitKind::DriverCompletion
                        || !w.blockers@.contains(block_request_ref(block_request, block_request_generation)) {
                        Err("block wait token does not reference the requested block request")
                    } else if wait_owner_verdict(*self, w) is Err {
                        Err(wait_owner_verdict(*self, w)->Err_0)
                    } else {
                        match first_match(self.block_request_objects@, submitted_request_is(block_request, block_request_generation)) {
                            None => Err("block wait request generation is missing or not submitted"),
                            Some(q) => if any_match(self.block_waits@, pending_block_wait_on_token(wait, wait_generation)) {
                                Err("block wait token already has a pending block wait")
                            } else if any_match(self.block_waits@, pending_block_wait_on_request(block_request, block_request_generation)) {
                                Err("block request already has a pending block wait")
                            } else if self.graph_audit() is Err {
                                Err("block wait requires invariant-clean graph")
                            } else {
                                Ok(q)
                            },
                        }
                    }
                },
            }
        }
    }

    /// What an audit finds wrong with block wait `r` once its wait and request are found.
    pub open spec fn block_wait_state_fault(
        &self,
        r: BlockWaitRecord,
        w: WaitRecord,
        req: BlockRequestObjectRecord,
    ) -> Option<SemanticInvariantError> {
        let invalid = SemanticInvariantError::BlockWaitInvalid { block_wait: r.id };
        match r.state {
            BlockWaitState::Pending => if w.state != WaitState::Pending
                || req.state != BlockRequestObjectState::Submitted {
                Some(invalid)
            } else {
                None
            },
            BlockWaitState::Resolved => match (r.completion, r.completion_generation) {
                (Some(c), Some(cg)) => match first_match(self.block_completion_objects@, completion_is(c, cg)) {
                    None => Some(SemanticInvariantError::BlockWaitMissingCompletion { block_wait: r.id, block_completion: c }),
                    Some(k) => {
                        let comp = self.block_completion_objects@[k];
                        if !(w.state == WaitState::Resolved || w.state == WaitState::Consumed)
                            || req.state != BlockRequestObjectState::Completed
                            || comp.block_request != r.block_request
                            || comp.block_request_generation != r.block_request_generation
                            || comp.status != BlockCompletionStatus::Success
                            || comp.completed_bytes != r.byte_len {
                            Some(invalid)
                        } else {
                            None
                        }
                    },
                },
                _ => Some(invalid),
            },
            BlockWaitState::Cancelled => if w.state != WaitState::Cancelled
                || w.cancel_reason != r.cancel_reason || r.cancel_reason is None {
                Some(invalid)
            } else {
                None
            },
        }
    }

    /// What an audit finds wrong with block wait `r`, if anything.
    pub open spec fn block_wait_fault(&self, r: BlockWaitRecord) -> Option<SemanticInvariantError> {
        match first_match(self.waits@, wait_is(r.wait, r.wait_generation)) {
            None => Some(SemanticInvariantError::BlockWaitMissingWait { block_wait: r.id, wait: r.wait }),
            Some(k) => match first_match(self.block_request_objects@, request_is(r.block_request, r.block_request_generation)) {
                None => Some(SemanticInvariantError::BlockWaitMissingRequest { block_wait: r.id, block_request: r.block_request }),
                Some(q) => {
                    let w = self.waits@[k];
                    let req = self.block_request_objects@[q];
                    if r.id == 0 || r.generation == 0 || r.wait_generation == 0
                        || r.block_request_generation == 0 || r.block_device_generation == 0
                        || r.block_range_generation == 0 || r.sequence == 0 || r.byte_len == 0
                        || w.kind != SemanticWaitKind::DriverCompletion
                        || !w.blockers@.contains(block_request_ref(r.block_request, r.block_request_generation))
                        || req.block_device != r.block_device
                        || req.block_device_generation != r.block_device_generation
                        || req.block_range != r.block_range
                        || req.block_range_generation != r.block_range_generation
                        || req.operation != r.operation || req.sequence != r.sequence
                        || req.byte_len != r.byte_len {
                        Some(SemanticInvariantError::BlockWaitInvalid { block_wait: r.id })
                    } else if r.state == BlockWaitState::Pending
                        && any_match(self.block_waits@, rival_block_wait_on_token(r.id, r.wait, r.wait_generation)) {
                        Some(SemanticInvariantError::BlockWaitDuplicateWait { block_wait: r.id, wait: r.wait })
                    } else if r.state == BlockWaitState::Pending
                        && any_match(self.block_waits@, rival_block_wait_on_request(r.id, r.block_request, r.block_request_generation)) {
                        Some(SemanticInvariantError::BlockWaitInvalid { block_wait: r.id })
                    } else if self.block_wait_state_fault(r, w, req) is Some {
                        self.block_wait_state_fault(r, w, req)
                    } else if !has_event_spec(self.event_log.events@, r.created_at_event, block_wait_created_event(r)) {
                        Some(SemanticInvariantError::BlockWaitMissingEvent { block_wait: r.id, event: r.created_at_event })
                    } else {
                        match r.completed_at_event {
                            None => None,
                            Some(e) => if r.state != BlockWaitState::Pending
                                && has_event_spec(self.event_log.events@, e, block_wait_end_event(r)) {
                                None
                            } else {
                                Some(SemanticInvariantError::BlockWaitMissingEvent { block_wait: r.id, event: e })
                            },
                        }
                    }
                },
            },
        }
    }

    /// Audit verdict of the block wait table.
    pub open spec fn block_wait_audit(&self) -> Result<(), SemanticInvariantError> {
        first_failure(Seq::new(self.block_waits@.len(), |i: int| self.block_wait_fault(self.block_waits@[i])))
    }

    fn wait_owner_ok(&self, k: usize) -> (r: Result<(), &'static str>)
        requires
            k < self.waits@.len(),
        ensures
            r == wait_owner_verdict(*self, self.waits@[k as int]),
    {
        let w = &self.waits[k];
        if let Some(store) = w.owner_store {
            let Some(generation) = w.owner_store_generation else {
                return Err("block wait owner store generation is missing");
            };
            let Some(s) = self.find_store(store, generation) else {
                return Err("block wait owner store generation is missing");
            };
            if self.stores[s].state == StoreState::Dead {
                return Err("block wait owner store is dead");
            }
        }
        Ok(())
    }

    pub fn validate_block_wait(
        &self,
        block_wait: BlockWaitId,
        wait: WaitId,
        wait_generation: Generation,
        block_request: BlockRequestObjectId,
        block_request_generation: Generation,
    ) -> (r: Result<usize, &'static str>)
        ensures
            match r {
                Ok(q) => self.block_wait_verdict(block_wait, wait, wait_generation, block_request,
                    block_request_generation) == Ok::<int, &'static str>(q as int),
                Err(e) => self.block_wait_verdict(block_wait, wait, wait_generation, block_request,
                    block_request_generation) == Err::<int, &'static str>(e),
            },
            r matches Ok(q) ==> q < self.block_request_objects@.len(),
    {
        if block_wait == 0 {
            return Err("block wait id=0 is invalid");
        }
        if exists_match(
            &self.block_waits,
            |r: &BlockWaitRecord| -> (b: bool)
                ensures b == block_wait_id_is(block_wait)(*r)
            { r.id == block_wait },
            Ghost(block_wait_id_is(block_wait)),
        ) {
            return Err("block wait already exists");
        }
        if wait_generation == 0 || block_request_generation == 0 {
            return Err("block wait identity values must be nonzero");
        }
        let Some(k) = self.find_pending_wait(wait, wait_generation) else {
            return Err("block wait token generation is missing or not pending");
        };
        let request_ref = ContractObjectRef::new(ContractObjectKind::BlockRequestObject, block_request, block_request_generation);
        if self.waits[k].kind != SemanticWaitKind::DriverCompletion
            || !refs_contain(&self.waits[k].blockers, request_ref) {
            return Err("block wait token does not reference the requested block request");
        }
        if let Err(e) = self.wait_owner_ok(k) {
            return Err(e);
        }
        let Some(q) = self.find_submitted_request(block_request, block_request_generation) else {
            return Err("block wait request generation is missing or not submitted");
        };
        if exists_match(
            &self.block_waits,
            |r: &BlockWaitRecord| -> (b: bool)
                ensures b == pending_block_wait_on_token(wait, wait_generation)(*r)
            { r.wait == wait && r.wait_generation == wait_generation && r.state == BlockWaitState::Pending },
            Ghost(pending_block_wait_on_token(wait, wait_generation)),
        ) {
            return Err("block wait token already has a pending block wait");
        }
        if exists_match(
            &self.block_waits,
            |r: &BlockWaitRecord| -> (b: bool)
                ensures b == pending_block_wait_on_request(block_request, block_request_generation)(*r)
            { r.block_request == block_request && r.block_request_generation == block_request_generation
                && r.state == BlockWaitState::Pending },
            Ghost(pending_block_wait_on_request(block_request, block_request_generation)),
        ) {
            return Err("block request already has a pending block wait");
        }
        if self.check_invariants().is_err() {
            return Err("block wait requires invariant-clean graph");
        }
        Ok(q)
    }

    /// Creates a block wait when the graph accepts it; returns whether it did.
    pub fn record_block_wait_with_id(
        &mut self,
        block_wait: BlockWaitId,
        wait: WaitId,
        wait_generation: Generation,
        block_request: BlockRequestObjectId,
        block_request_generation: Generation,
        note: &str,
    ) -> (ok: bool)
        requires
            old(self).event_log.next_event_id < u64::MAX,
        ensures
            ok == (old(self).block_wait_verdict(block_wait, wait, wait_generation, block_request,
                block_request_generation) is Ok),
            !ok ==> *final(self) == *old(self),
            ok ==> recorded_block_wait(*old(self), *final(self), block_wait, wait, wait_generation,
                block_request, block_request_generation, note@),
    {
        let Ok(q) = self.validate_block_wait(block_wait, wait, wait_generation, block_request,
            block_request_generation) else {
            return false;
        };
        let req = &self.block_request_objects[q];
        let (block_device, block_device_generation, block_range, block_range_generation, operation, sequence, byte_len) =
            (req.block_device, req.block_device_generation, req.block_range, req.block_range_generation,
             req.operation, req.sequence, req.byte_len);
        let generation: u64 = 1;
        self.next_block_wait_id = max_of(self.next_block_wait_id, succ_saturating(block_wait));
        let created_at_event = self.event_log.push(
            EventDomain::Block,
            EventKind::BlockWaitCreated {
                block_wait,
                wait,
                wait_generation,
                block_request,
                block_request_generation,
                block_device,
                block_device_generation,
                block_range,
                block_range_generation,
                operation,
                sequence,
                byte_len,
                generation,
            },
        );
        self.block_waits.push(BlockWaitRecord {
            id: block_wait,
            wait,
            wait_generation,
            block_request,
            block_request_generation,
            block_device,
            block_device_generation,
            block_range,
            block_range_generation,
            operation,
            sequence,
            byte_len,
            generation,
            state: BlockWaitState::Pending,
            created_at_event,
            completed_at_event: None,
            completion: None,
            completion_generation: None,
            cancel_reason: None,
            note: note.to_owned(),
        });
        proof {
            assert(self.block_waits@.subrange(0, old(self).block_waits@.len() as int) =~= old(self).block_waits@);
        }
        true
    }

    /// Why resolving a block wait with this completion would be refused, if it would;
    /// otherwise the positions of the block wait and of its wait token.
    pub open spec fn resolve_block_wait_verdict(
        &self,
        block_wait: BlockWaitId,
        block_wait_generation: Generation,
        block_completion: BlockCompletionObjectId,
        block_completion_generation: Generation,
    ) -> Option<(int, int)> {
        match first_match(self.block_waits@, pending_block_wait_is(block_wait, block_wait_generation)) {
            None => None,
            Some(i) => {
                let r = self.block_waits@[i];
                match first_match(self.block_completion_objects@, recorded_completion_is(block_completion, block_completion_generation)) {
                    None => None,
                    Some(c) => {
                        let comp = self.block_completion_objects@[c];
                        if comp.block_request != r.block_request
                            || comp.block_request_generation != r.block_request_generation
                            || comp.block_device != r.block_device
                            || comp.block_device_generation != r.block_device_generation
                            || comp.block_range != r.block_range
                            || comp.block_range_generation != r.block_range_generation
                            || comp.sequence != r.sequence
                            || comp.status != BlockCompletionStatus::Success
                            || comp.completed_bytes != r.byte_len {
                            None
                        } else {
                            match first_match(self.waits@, pending_wait_is(r.wait, r.wait_generation)) {
                                None => None,
                                Some(k) => Some((i, k)),
                            }
                        }
                    },
                }
            },
        }
    }

    /// Resolves a pending block wait with a matching successful completion; returns whether it did.
    pub fn resolve_block_wait_with_completion(
        &mut self,
        block_wait: BlockWaitId,
        block_wait_generation: Generation,
        block_completion: BlockCompletionObjectId,
        block_completion_generation: Generation,
        note: &str,
    ) -> (ok: bool)
        requires
            old(self).event_log.next_event_id < u64::MAX - 1,
        ensures
            ok == (old(self).resolve_block_wait_verdict(block_wait, block_wait_generation,
                block_completion, block_completion_generation) is Some),
            !ok ==> *final(self) == *old(self),
            ok ==> resolved_block_wait(*old(self), *final(self), block_completion,
                block_completion_generation, note@,
                old(self).resolve_block_wait_verdict(block_wait, block_wait_generation,
                    block_completion, block_completion_generation)->0),
    {
        let Some(index) = self.find_pending_block_wait(block_wait, block_wait_generation) else {
            return false;
        };
        let Some(c) = self.find_recorded_completion(block_completion, block_completion_generation) else {
            return false;
        };
        let r = &self.block_waits[index];
        let comp = &self.block_completion_objects[c];
        if comp.block_request != r.block_request
            || comp.block_request_generation != r.block_request_generation
            || comp.block_device != r.block_device
            || comp.block_device_generation != r.block_device_generation
            || comp.block_range != r.block_range
            || comp.block_range_generation != r.block_range_generation
            || comp.sequence != r.sequence
            || comp.status != BlockCompletionStatus::Success
            || comp.completed_bytes != r.byte_len {
            return false;
        }
        let (wait, wait_generation) = (r.wait, r.wait_generation);
        if self.find_pending_wait(wait, wait_generation).is_none() {
            return false;
        }
        let k = self.resolve_wait_token(wait, wait_generation);
        let ghost mid = *self;
        let completed_at_event = self.event_log.push(
            EventDomain::Block,
            EventKind::BlockWaitResolved {
                block_wait,
                wait,
                wait_generation,
                block_completion,
                block_completion_generation,
                generation: block_wait_generation,
            },
        );
        self.block_waits[index].state = BlockWaitState::Resolved;
        self.block_waits[index].completed_at_event = Some(completed_at_event);
        self.block_waits[index].completion = Some(block_completion);
        self.block_waits[index].completion_generation = Some(block_completion_generation);
        self.block_waits[index].note = note.to_owned();
        proof {
            assert(mid.block_waits == old(self).block_waits);
            assert(old(self).resolve_block_wait_verdict(block_wait, block_wait_generation,
                block_completion, block_completion_generation) == Some((index as int, k as int)));
            assert(self.agrees_except(&mid, set![Table::EventLog, Table::BlockWaits]));
            assert(self.block_waits@[index as int].completed_at_event == Some(mid.event_log.next_event_id));
            let r = old(self).block_waits@[index as int];
            assert(appended_event(mid.event_log, self.event_log, EventDomain::Block, EventKind::BlockWaitResolved {
                block_wait: r.id,
                wait: r.wait,
                wait_generation: r.wait_generation,
                block_completion,
                block_completion_generation,
                generation: r.generation,
            }));
            let n = self.block_waits@[index as int];
            assert(n == (BlockWaitRecord {
                state: BlockWaitState::Resolved,
                completed_at_event: n.completed_at_event,
                completion: Some(block_completion),
                completion_generation: Some(block_completion_generation),
                note: n.note,
                ..r
            }));
            assert(forall|j: int| 0 <= j < old(self).block_waits@.len() && j != index ==> self.block_waits@[j] == old(self).block_waits@[j]);
            assert(resolved_wait_token(*old(self), mid, k as int));
            assert(resolved_block_wait_through(*old(self), mid, *self, block_completion,
                block_completion_generation, (index as int, k as int)));
        }
        true
    }

    /// Why cancelling a block wait would be refused, if it would; otherwise the positions
    /// of the block wait and of its wait token.
    pub open spec fn cancel_block_wait_verdict(
        &self,
        block_wait: BlockWaitId,
        block_wait_generation: Generation,
        reason: WaitCancelReason,
    ) -> Option<(int, int)> {
        if !block_io_cancel_reason(reason) {
            None
        } else {
            match first_match(self.block_waits@, pending_block_wait_is(block_wait, block_wait_generation)) {
                None => None,
                Some(i) => {
                    let r = self.block_waits@[i];
                    match first_match(self.waits@, pending_wait_is(r.wait, r.wait_generation)) {
                        None => None,
                        Some(k) => Some((i, k)),
                    }
                },
            }
        }
    }

    /// Cancels a pending block wait and its wait token for a block I/O reason; returns whether it did.
    pub fn cancel_block_wait(
        &mut self,
        block_wait: BlockWaitId,
        block_wait_generation: Generation,
        errno: i32,
        reason: WaitCancelReason,
        note: &str,
    ) -> (ok: bool)
        requires
            old(self).event_log.next_event_id < u64::MAX - 1,
        ensures
            ok == (old(self).cancel_block_wait_verdict(block_wait, block_wait_generation, reason) is Some),
            !ok ==> *final(self) == *old(self),
            ok ==> cancelled_block_wait(*old(self), *final(self), errno, reason, note@,
                old(self).cancel_block_wait_verdict(block_wait, block_wait_generation, reason)->0),
    {
        if !is_block_io_cancel_reason(reason) {
            return false;
        }
        let Some(index) = self.find_pending_block_wait(block_wait, block_wait_generation) else {
            return false;
        };
        let (wait, wait_generation) = (self.block_waits[index].wait, self.block_waits[index].wait_generation);
        if self.find_pending_wait(wait, wait_generation).is_none() {
            return false;
        }
        let k = self.cancel_wait_token(wait, wait_generation, errno, reason);
        let ghost mid = *self;
        let completed_at_event = self.event_log.push(
            EventDomain::Block,
            EventKind::BlockWaitCancelled {
                block_wait,
                wait,
                wait_generation,
                reason,
                generation: block_wait_generation,
            },
        );
        self.block_waits[index].state = BlockWaitState::Cancelled;
        self.block_waits[index].completed_at_event = Some(completed_at_event);
        self.block_waits[index].cancel_reason = Some(reason);
        self.block_waits[index].note = note.to_owned();
        proof {
            assert(mid.block_waits == old(self).block_waits);
            assert(old(self).cancel_block_wait_verdict(block_wait, block_wait_generation, reason)
                == Some((index as int, k as int)));
            assert(self.agrees_except(&mid, set![Table::EventLog, Table::BlockWaits]));
            assert(self.block_waits@[index as int].completed_at_event == Some(mid.event_log.next_event_id));
            let r = old(self).block_waits@[index as int];
            assert(appended_event(mid.event_log, self.event_log, EventDomain::Block, EventKind::BlockWaitCancelled {
                block_wait: r.id,
                wait: r.wait,
                wait_generation: r.wait_generation,
                reason,
                generation: r.generation,
            }));
            let n = self.block_waits@[index as int];
            assert(n == (BlockWaitRecord {
                state: BlockWaitState::Cancelled,
                completed_at_event: n.completed_at_event,
                cancel_reason: Some(reason),
                note: n.note,
                ..r
            }));
            assert(forall|j: int| 0 <= j < old(self).block_waits@.len() && j != index ==> self.block_waits@[j] == old(self).block_waits@[j]);
            assert(cancelled_wait_token(*old(self), mid, k as int, errno, reason));
            assert(cancelled_block_wait_through(*old(self), mid, *self, errno, reason,
                (index as int, k as int)));
        }
        true
    }

    pub fn block_waits(&self) -> (r: &[BlockWaitRecord])
        ensures
            r@ == self.block_waits@,
    {
        self.block_waits.as_slice()
    }

    pub fn block_wait_count(&self) -> (r: usize)
        ensures
            r == self.block_waits@.len(),
    {
        self.block_waits.len()
    }

    fn block_wait_state_fault_of(&self, r: &BlockWaitRecord, k: usize, q: usize) -> (f: Option<SemanticInvariantError>)
        requires
            k < self.waits@.len(),
            q < self.block_request_objects@.len(),
        ensures
            f == self.block_wait_state_fault(*r, self.waits@[k as int], self.block_request_objects@[q as int]),
    {
        let w = &self.waits[k];
        let req = &self.block_request_objects[q];
        let invalid = SemanticInvariantError::BlockWaitInvalid { block_wait: r.id };
        match r.state {
            BlockWaitState::Pending => {
                if w.state != WaitState::Pending || req.state != BlockRequestObjectState::Submitted {
                    Some(invalid)
                } else {
                    None
                }
            },
            BlockWaitState::Resolved => {
                let (Some(c), Some(cg)) = (r.completion, r.completion_generation) else {
                    return Some(invalid);
                };
                let Some(ci) = self.find_completion(c, cg) else {
                    return Some(SemanticInvariantError::BlockWaitMissingCompletion { block_wait: r.id, block_completion: c });
                };
                let comp = &self.block_completion_objects[ci];
                if !(w.state == WaitState::Resolved || w.state == WaitState::Consumed)
                    || req.state != BlockRequestObjectState::Completed
                    || comp.block_request != r.block_request
                    || comp.block_request_generation != r.block_request_generation
                    || comp.status != BlockCompletionStatus::Success
                    || comp.completed_bytes != r.byte_len {
                    Some(invalid)
                } else {
                    None
                }
            },
            BlockWaitState::Cancelled => {
                if w.state != WaitState::Cancelled || w.cancel_reason != r.cancel_reason || r.cancel_reason.is_none() {
                    Some(invalid)
                } else {
                    None
                }
            },
        }
    }

    fn block_wait_fault_of(&self, r: &BlockWaitRecord) -> (f: Option<SemanticInvariantError>)
        ensures
            f == self.block_wait_fault(*r),
    {
        let Some(k) = self.find_wait(r.wait, r.wait_generation) else {
            return Some(SemanticInvariantError::BlockWaitMissingWait { block_wait: r.id, wait: r.wait });
        };
        let Some(q) = self.find_request(r.block_request, r.block_request_generation) else {
            return Some(SemanticInvariantError::BlockWaitMissingRequest { block_wait: r.id, block_request: r.block_request });
        };
        let w = &self.waits[k];
        let req = &self.block_request_objects[q];
        let expected = ContractObjectRef::new(ContractObjectKind::BlockRequestObject, r.block_request, r.block_request_generation);
        if r.id == 0 || r.generation == 0 || r.wait_generation == 0
            || r.block_request_generation == 0 || r.block_device_generation == 0
            || r.block_range_generation == 0 || r.sequence == 0 || r.byte_len == 0
            || w.kind != SemanticWaitKind::DriverCompletion
            || !refs_contain(&w.blockers, expected)
            || req.block_device != r.block_device
            || req.block_device_generation != r.block_device_generation
            || req.block_range != r.block_range
            || req.block_range_generation != r.block_range_generation
            || req.operation != r.operation || req.sequence != r.sequence
            || req.byte_len != r.byte_len {
            return Some(SemanticInvariantError::BlockWaitInvalid { block_wait: r.id });
        }
        let (id, wait, wait_generation, request, request_generation) =
            (r.id, r.wait, r.wait_generation, r.block_request, r.block_request_generation);
        if r.state == BlockWaitState::Pending && exists_match(
            &self.block_waits,
            |o: &BlockWaitRecord| -> (b: bool)
                ensures b == rival_block_wait_on_token(id, wait, wait_generation)(*o)
            { o.id != id && o.wait == wait && o.wait_generation == wait_generation && o.state == BlockWaitState::Pending },
            Ghost(rival_block_wait_on_token(id, wait, wait_generation)),
        ) {
            return Some(SemanticInvariantError::BlockWaitDuplicateWait { block_wait: r.id, wait: r.wait });
        }
        if r.state == BlockWaitState::Pending && exists_match(
            &self.block_waits,
            |o: &BlockWaitRecord| -> (b: bool)
                ensures b == rival_block_wait_on_request(id, request, request_generation)(*o)
            { o.id != id && o.block_request == request && o.block_request_generation == request_generation
                && o.state == BlockWaitState::Pending },
            Ghost(rival_block_wait_on_request(id, request, request_generation)),
        ) {
            return Some(SemanticInvariantError::BlockWaitInvalid { block_wait: r.id });
        }
        let state_fault = self.block_wait_state_fault_of(r, k, q);
        if state_fault.is_some() {
            return state_fault;
        }
        let created = EventKind::BlockWaitCreated {
            block_wait: r.id,
            wait: r.wait,
            wait_generation: r.wait_generation,
            block_request: r.block_request,
            block_request_generation: r.block_request_generation,
            block_device: r.block_device,
            block_device_generation: r.block_device_generation,
            block_range: r.block_range,
            block_range_generation: r.block_range_generation,
            operation: r.operation,
            sequence: r.sequence,
            byte_len: r.byte_len,
            generation: r.generation,
        };
        if !self.event_log.has_event(r.created_at_event, created) {
            return Some(SemanticInvariantError::BlockWaitMissingEvent { block_wait: r.id, event: r.created_at_event });
        }
        if let Some(e) = r.completed_at_event {
            let found = match r.state {
                BlockWaitState::Resolved => {
                    let kind = EventKind::BlockWaitResolved {
                        block_wait: r.id,
                        wait: r.wait,
                        wait_generation: r.wait_generation,
                        block_completion: r.completion.unwrap(),
                        block_completion_generation: r.completion_generation.unwrap(),
                        generation: r.generation,
                    };
                    self.event_log.has_event(e, kind)
                },
                BlockWaitState::Cancelled => {
                    let kind = EventKind::BlockWaitCancelled {
                        block_wait: r.id,
                        wait: r.wait,
                        wait_generation: r.wait_generation,
                        reason: r.cancel_reason.unwrap(),
                        generation: r.generation,
                    };
                    self.event_log.has_event(e, kind)
                },
                BlockWaitState::Pending => false,
            };
            if !found {
                return Some(SemanticInvariantError::BlockWaitMissingEvent { block_wait: r.id, event: e });
            }
        }
        None
    }

    /// Audits every block wait; the first fault found is returned.
    pub fn check_block_wait_invariants(&self) -> (r: Result<(), SemanticInvariantError>)
        ensures
            r == self.block_wait_audit(),
    {
        let ghost faults = Seq::new(self.block_waits@.len(), |i: int| self.block_wait_fault(self.block_waits@[i]));
        let mut i: usize = 0;
        while i < self.block_waits.len()
            invariant
                i <= self.block_waits@.len(),
                faults == Seq::new(self.block_waits@.len(), |i: int| self.block_wait_fault(self.block_waits@[i])),
                forall|j: int| 0 <= j < i ==> (#[trigger] faults[j]) is None,
            decreases self.block_waits@.len() - i,
        {
            if let Some(e) = self.block_wait_fault_of(&self.block_waits[i]) {
                proof { lemma_first_failure_at(faults, i as int); }
                return Err(e);
            }
            i += 1;
        }
        proof { lemma_first_failure_ok(faults); }
        Ok(())
    }
}

/// Whether `refs` names `target`.
pub fn refs_contain(refs: &Vec<ContractObjectRef>, target: ContractObjectRef) -> (r: bool)
    ensures
        r == refs@.contains(target),
{
    let mut i: usize = 0;
    while i < refs.len()
        invariant
            i <= refs@.len(),
            forall|j: int| 0 <= j < i ==> refs@[j] != target,
        decreases refs@.len() - i,
    {
        if refs[i] == target {
            proof { assert(refs@[i as int] == target); }
            return true;
        }
        i += 1;
    }
    false
}

/// `new` is `old` after creating the block wait described by the arguments.
pub open spec fn recorded_block_wait(
    old: SemanticGraph,
    new: SemanticGraph,
    block_wait: BlockWaitId,
    wait: WaitId,
    wait_generation: Generation,
    block_request: BlockRequestObjectId,
    block_request_generation: Generation,
    note: Seq<char>,
) -> bool {
    let r = new.block_waits@.last();
    let req = old.block_request_objects@[old.block_wait_verdict(block_wait, wait, wait_generation,
        block_request, block_request_generation)->Ok_0];
    &&& new.agrees_except(&old, set![Table::EventLog, Table::BlockWaits])
    &&& appended_one(old.block_waits@, new.block_waits@)
    &&& r.id == block_wait && r.wait == wait && r.wait_generation == wait_generation
    &&& r.block_request == block_request && r.block_request_generation == block_request_generation
    &&& r.block_device == req.block_device && r.block_device_generation == req.block_device_generation
    &&& r.block_range == req.block_range && r.block_range_generation == req.block_range_generation
    &&& r.operation == req.operation && r.sequence == req.sequence && r.byte_len == req.byte_len
    &&& r.generation == 1 && r.state == BlockWaitState::Pending
    &&& r.created_at_event == old.event_log.next_event_id && r.completed_at_event is None
    &&& r.completion is None && r.completion_generation is None && r.cancel_reason is None
    &&& r.note@ == note
    &&& appended_event(old.event_log, new.event_log, EventDomain::Block, block_wait_created_event(r))
    &&& new.next_block_wait_id == max_u64(old.next_block_wait_id, saturating_succ(block_wait))
}

/// The two steps of resolving a block wait, with `mid` the graph between them: the wait
/// token at `at.1` is resolved, then the block wait at `at.0` is updated and its resolution logged.
pub open spec fn resolved_block_wait_through(
    old: SemanticGraph,
    mid: SemanticGraph,
    new: SemanticGraph,
    block_completion: BlockCompletionObjectId,
    block_completion_generation: Generation,
    at: (int, int),
) -> bool {
    let r = old.block_waits@[at.0];
    &&& resolved_wait_token(old, mid, at.1)
    &&& new.agrees_except(&mid, set![Table::EventLog, Table::BlockWaits])
    &&& appended_event(mid.event_log, new.event_log, EventDomain::Block, EventKind::BlockWaitResolved {
        block_wait: r.id,
        wait: r.wait,
        wait_generation: r.wait_generation,
        block_completion,
        block_completion_generation,
        generation: r.generation,
    })
    &&& new.block_waits@[at.0].completed_at_event == Some(mid.event_log.next_event_id)
}

/// The two steps of cancelling a block wait, with `mid` the graph between them: the wait
/// token at `at.1` is cancelled, then the block wait at `at.0` is updated and its cancellation logged.
pub open spec fn cancelled_block_wait_through(
    old: SemanticGraph,
    mid: SemanticGraph,
    new: SemanticGraph,
    errno: i32,
    reason: WaitCancelReason,
    at: (int, int),
) -> bool {
    let r = old.block_waits@[at.0];
    &&& cancelled_wait_token(old, mid, at.1, errno, reason)
    &&& new.agrees_except(&mid, set![Table::EventLog, Table::BlockWaits])
    &&& appended_event(mid.event_log, new.event_log, EventDomain::Block, EventKind::BlockWaitCancelled {
        block_wait: r.id,
        wait: r.wait,
        wait_generation: r.wait_generation,
        reason,
        generation: r.generation,
    })
    &&& new.block_waits@[at.0].completed_at_event == Some(mid.event_log.next_event_id)
}

/// `new` is `old` after resolving the block wait at position `at.0` (whose wait token is at
/// `at.1`) with the given completion.
pub open spec fn resolved_block_wait(
    old: SemanticGraph,
    new: SemanticGraph,
    block_completion: BlockCompletionObjectId,
    block_completion_generation: Generation,
    note: Seq<char>,
    at: (int, int),
) -> bool {
    let i = at.0;
    let r = old.block_waits@[i];
    let n = new.block_waits@[i];
    &&& exists|mid: SemanticGraph| #[trigger] resolved_block_wait_through(old, mid, new, block_completion,
        block_completion_generation, at)
    &&& new.block_waits@.len() == old.block_waits@.len()
    &&& forall|j: int| 0 <= j < old.block_waits@.len() && j != i ==> new.block_waits@[j] == old.block_waits@[j]
    &&& n == (BlockWaitRecord {
        state: BlockWaitState::Resolved,
        completed_at_event: n.completed_at_event,
        completion: Some(block_completion),
        completion_generation: Some(block_completion_generation),
        note: n.note,
        ..r
    })
    &&& n.note@ == note
}

/// `new` is `old` after cancelling the block wait at position `at.0` (whose wait token is at
/// `at.1`) for `reason` with `errno`.
pub open spec fn cancelled_block_wait(
    old: SemanticGraph,
    new: SemanticGraph,
    errno: i32,
    reason: WaitCancelReason,
    note: Seq<char>,
    at: (int, int),
) -> bool {
    let i = at.0;
    let r = old.block_waits@[i];
    let n = new.block_waits@[i];
    &&& exists|mid: SemanticGraph| #[trigger] cancelled_block_wait_through(old, mid, new, errno, reason, at)
    &&& new.block_waits@.len() == old.block_waits@.len()
    &&& forall|j: int| 0 <= j < old.block_waits@.len() && j != i ==> new.block_waits@[j] == old.block_waits@[j]
    &&& n == (BlockWaitRecord {
        state: BlockWaitState::Cancelled,
        completed_at_event: n.completed_at_event,
        cancel_reason: Some(reason),
        note: n.note,
        ..r
    })
    &&& n.note@ == note
}

/// When a block wait is accepted (`validate_block_wait` accepts and `record_block_wait_with_id`
/// records it exactly then), its id is new and nonzero, the named wait token generation is
/// pending, waits for driver completion and lists the named block request generation among its
/// blockers, that request generation is submitted, and no pending block wait already holds the
/// token or the request.
pub proof fn lemma_accepted_block_wait_binds_token_to_request(
    g: SemanticGraph,
    block_wait: BlockWaitId,
    wait: WaitId,
    wait_generation: Generation,
    block_request: BlockRequestObjectId,
    block_request_generation: Generation,
)
    requires
        g.block_wait_verdict(block_wait, wait, wait_generation, block_request, block_request_generation) is Ok,
    ensures
        block_wait != 0,
        forall|i: int| 0 <= i < g.block_waits@.len() ==> (#[trigger] g.block_waits@[i]).id != block_wait,
        exists|k: int| 0 <= k < g.waits@.len() && {
            let w = #[trigger] g.waits@[k];
            &&& w.id == wait && w.generation == wait_generation && w.state == WaitState::Pending
            &&& w.kind == SemanticWaitKind::DriverCompletion
            &&& w.blockers@.contains(ContractObjectRef { kind: ContractObjectKind::BlockRequestObject,
                id: block_request, generation: block_request_generation })
        },
        exists|q: int| 0 <= q < g.block_request_objects@.len() && (#[trigger] g.block_request_objects@[q]).id == block_request
            && g.block_request_objects@[q].generation == block_request_generation
            && g.block_request_objects@[q].state == BlockRequestObjectState::Submitted,
        forall|i: int| 0 <= i < g.block_waits@.len() && (#[trigger] g.block_waits@[i]).state == BlockWaitState::Pending
            ==> !(g.block_waits@[i].wait == wait && g.block_waits@[i].wait_generation == wait_generation)
                && !(g.block_waits@[i].block_request == block_request
                    && g.block_waits@[i].block_request_generation == block_request_generation),
{
    assert forall|i: int| 0 <= i < g.block_waits@.len() implies (#[trigger] g.block_waits@[i]).id != block_wait by {
        if g.block_waits@[i].id == block_wait {
            assert(block_wait_id_is(block_wait)(g.block_waits@[i]));
        }
    }
    crate::search::lemma_first_match_facts(g.waits@, pending_wait_is(wait, wait_generation));
    let k = first_match(g.waits@, pending_wait_is(wait, wait_generation))->0;
    assert(pending_wait_is(wait, wait_generation)(g.waits@[k]));
    crate::search::lemma_first_match_facts(g.block_request_objects@, submitted_request_is(block_request,
        block_request_generation));
    let q = first_match(g.block_request_objects@, submitted_request_is(block_request, block_request_generation))->0;
    assert(submitted_request_is(block_request, block_request_generation)(g.block_request_objects@[q]));
    assert forall|i: int| 0 <= i < g.block_waits@.len() && (#[trigger] g.block_waits@[i]).state == BlockWaitState::Pending
        implies !(g.block_waits@[i].wait == wait && g.block_waits@[i].wait_generation == wait_generation)
            && !(g.block_waits@[i].block_request == block_request
                && g.block_waits@[i].block_request_generation == block_request_generation) by {
        if g.block_waits@[i].wait == wait && g.block_waits@[i].wait_generation == wait_generation {
            assert(pending_block_wait_on_token(wait, wait_generation)(g.block_waits@[i]));
        }
        if g.block_waits@[i].block_request == block_request
            && g.block_waits@[i].block_request_generation == block_request_generation {
            assert(pending_block_wait_on_request(block_request, block_request_generation)(g.block_waits@[i]));
        }
    }
}

/// When `resolve_block_wait_with_completion` resolves a block wait (exactly when
/// `resolve_block_wait_verdict` gives positions), the block wait it resolves is the named pending
/// generation, its wait token is pending, and a recorded completion of the named generation
/// answers it in full: same request, device and range generations, same sequence, success, and
/// exactly the wait's byte length.
pub proof fn lemma_block_wait_resolves_only_with_its_completion(
    g: SemanticGraph,
    block_wait: BlockWaitId,
    block_wait_generation: Generation,
    block_completion: BlockCompletionObjectId,
    block_completion_generation: Generation,
)
    requires
        g.resolve_block_wait_verdict(block_wait, block_wait_generation, block_completion, block_completion_generation)
            is Some,
    ensures
        ({
            let (i, k) = g.resolve_block_wait_verdict(block_wait, block_wait_generation, block_completion,
                block_completion_generation)->Some_0;
            let r = g.block_waits@[i];
            &&& 0 <= i < g.block_waits@.len() && 0 <= k < g.waits@.len()
            &&& r.id == block_wait && r.generation == block_wait_generation && r.state == BlockWaitState::Pending
            &&& g.waits@[k].id == r.wait && g.waits@[k].generation == r.wait_generation
            &&& g.waits@[k].state == WaitState::Pending
            &&& exists|c: int| 0 <= c < g.block_completion_objects@.len() && {
                let comp = #[trigger] g.block_completion_objects@[c];
                &&& comp.id == block_completion && comp.generation == block_completion_generation
                &&& comp.state == BlockCompletionObjectState::Recorded
                &&& comp.block_request == r.block_request && comp.block_request_generation == r.block_request_generation
                &&& comp.block_device == r.block_device && comp.block_device_generation == r.block_device_generation
                &&& comp.block_range == r.block_range && comp.block_range_generation == r.block_range_generation
                &&& comp.sequence == r.sequence && comp.status == BlockCompletionStatus::Success
                &&& comp.completed_bytes == r.byte_len
            }
        }),
{
    lemma_first_match_facts(g.block_waits@, pending_block_wait_is(block_wait, block_wait_generation));
    let i = first_match(g.block_waits@, pending_block_wait_is(block_wait, block_wait_generation))->0;
    let r = g.block_waits@[i];
    assert(pending_block_wait_is(block_wait, block_wait_generation)(r));
    lemma_first_match_facts(g.block_completion_objects@, recorded_completion_is(block_completion,
        block_completion_generation));
    let c = first_match(g.block_completion_objects@, recorded_completion_is(block_completion,
        block_completion_generation))->0;
    assert(recorded_completion_is(block_completion, block_completion_generation)(g.block_completion_objects@[c]));
    lemma_first_match_facts(g.waits@, pending_wait_is(r.wait, r.wait_generation));
    let k = first_match(g.waits@, pending_wait_is(r.wait, r.wait_generation))->0;
    assert(pending_wait_is(r.wait, r.wait_generation)(g.waits@[k]));
}

/// When `cancel_block_wait` cancels a block wait (exactly when `cancel_block_wait_verdict` gives
/// positions), the reason is a device fault, a revoked capability, a dropped resource or a
/// generation mismatch, and the block wait it cancels is the named pending generation whose wait
/// token is pending.
pub proof fn lemma_block_wait_cancels_only_for_io_reasons(
    g: SemanticGraph,
    block_wait: BlockWaitId,
    block_wait_generation: Generation,
    reason: WaitCancelReason,
)
    requires
        g.cancel_block_wait_verdict(block_wait, block_wait_generation, reason) is Some,
    ensures
        reason == WaitCancelReason::DeviceFault || reason == WaitCancelReason::CapabilityRevoked
            || reason == WaitCancelReason::ResourceDropped || reason == WaitCancelReason::GenerationMismatch,
        ({
            let (i, k) = g.cancel_block_wait_verdict(block_wait, block_wait_generation, reason)->Some_0;
            let r = g.block_waits@[i];
            &&& 0 <= i < g.block_waits@.len() && 0 <= k < g.waits@.len()
            &&& r.id == block_wait && r.generation == block_wait_generation && r.state == BlockWaitState::Pending
            &&& g.waits@[k].id == r.wait && g.waits@[k].generation == r.wait_generation
            &&& g.waits@[k].state == WaitState::Pending
        }),
{
    lemma_first_match_facts(g.block_waits@, pending_block_wait_is(block_wait, block_wait_generation));
    let i = first_match(g.block_waits@, pending_block_wait_is(block_wait, block_wait_generation))->0;
    let r = g.block_waits@[i];
    assert(pending_block_wait_is(block_wait, block_wait_generation)(r));
    lemma_first_match_facts(g.waits@, pending_wait_is(r.wait, r.wait_generation));
    let k = first_match(g.waits@, pending_wait_is(r.wait, r.wait_generation))->0;
    assert(pending_wait_is(r.wait, r.wait_generation)(g.waits@[k]));
}

} // verus!
