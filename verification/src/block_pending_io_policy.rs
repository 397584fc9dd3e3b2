use vstd::prelude::*;
use crate::base::BlockRequestObjectRecord;
use crate::block_wait::{cancelled_block_wait, BlockWaitRecord};
use crate::errors::SemanticInvariantError;
use crate::events::{appended_event, appended_one, has_event_spec, EventDomain, EventKind};
use crate::graph::{SemanticGraph, Table};
use crate::lookup2::{
    block_wait_is, pending_block_wait_is, pending_wait_is, request_is, submitted_request_is,
};
use crate::search::{
    any_match, exists_match, first_failure, first_match, lemma_first_failure_at,
    lemma_first_failure_ok, lemma_first_failure_ok_all, lemma_first_match_facts, max_of, max_u64, saturating_succ,
    succ_saturating,
};
use crate::types::{BlockRequestObjectState, WaitState,
    BlockDeviceObjectId, BlockPendingIoAction, BlockPendingIoPolicyId, BlockPendingIoPolicyState,
    BlockRangeObjectId, BlockRequestObjectId, BlockRequestOperation, BlockWaitId, BlockWaitState,
    EventId, Generation, WaitCancelReason, WaitId,
};

verus! {

/// How a pending block wait was disposed of: cancelled, retried or failed with EIO.
pub struct BlockPendingIoPolicyRecord {
    pub id: BlockPendingIoPolicyId,
    pub block_wait: BlockWaitId,
    pub block_wait_generation: Generation,
    pub wait: WaitId,
    pub wait_generation: Generation,
    pub block_request: BlockRequestObjectId,
    pub block_request_generation: Generation,
    pub retry_request: Option<BlockRequestObjectId>,
    pub retry_request_generation: Option<Generation>,
    pub block_device: BlockDeviceObjectId,
    pub block_device_generation: Generation,
    pub block_range: BlockRangeObjectId,
    pub block_range_generation: Generation,
    pub operation: BlockRequestOperation,
    pub sequence: u64,
    pub byte_len: u64,
    pub action: BlockPendingIoAction,
    pub errno: i32,
    pub retry_attempt: u32,
    pub max_retries: u32,
    pub generation: Generation,
    pub state: BlockPendingIoPolicyState,
    pub recorded_at_event: EventId,
    pub note: String,
}

pub open spec fn policy_id_is(id: BlockPendingIoPolicyId) -> spec_fn(BlockPendingIoPolicyRecord) -> bool {
    |r: BlockPendingIoPolicyRecord| r.id == id
}

/// A policy already applied to this block wait generation.
pub open spec fn policy_on_block_wait(block_wait: BlockWaitId, generation: Generation) -> spec_fn(BlockPendingIoPolicyRecord) -> bool {
    |r: BlockPendingIoPolicyRecord| r.block_wait == block_wait && r.block_wait_generation == generation
}

/// The reason the block wait is cancelled with under each action.
pub open spec fn policy_cancel_reason(action: BlockPendingIoAction) -> WaitCancelReason {
    match action {
        BlockPendingIoAction::Cancel => WaitCancelReason::ResourceDropped,
        _ => WaitCancelReason::DeviceFault,
    }
}

pub fn cancel_reason_for(action: BlockPendingIoAction) -> (r: WaitCancelReason)
    ensures
        r == policy_cancel_reason(action),
{
    match action {
        BlockPendingIoAction::Cancel => WaitCancelReason::ResourceDropped,
        BlockPendingIoAction::Retry | BlockPendingIoAction::Eio => WaitCancelReason::DeviceFault,
    }
}

/// The state a policy is recorded in under each action.
pub open spec fn policy_state(action: BlockPendingIoAction) -> BlockPendingIoPolicyState {
    match action {
        BlockPendingIoAction::Cancel => BlockPendingIoPolicyState::Cancelled,
        BlockPendingIoAction::Retry => BlockPendingIoPolicyState::RetryScheduled,
        BlockPendingIoAction::Eio => BlockPendingIoPolicyState::EioReturned,
    }
}

pub fn policy_state_for(action: BlockPendingIoAction) -> (r: BlockPendingIoPolicyState)
    ensures
        r == policy_state(action),
{
    match action {
        BlockPendingIoAction::Cancel => BlockPendingIoPolicyState::Cancelled,
        BlockPendingIoAction::Retry => BlockPendingIoPolicyState::RetryScheduled,
        BlockPendingIoAction::Eio => BlockPendingIoPolicyState::EioReturned,
    }
}

/// The event that records the application of `p`.
pub open spec fn policy_applied_event(p: BlockPendingIoPolicyRecord) -> EventKind {
    EventKind::BlockPendingIoPolicyApplied {
        policy: p.id,
        block_wait: p.block_wait,
        block_wait_generation: p.block_wait_generation,
        wait: p.wait,
        wait_generation: p.wait_generation,
        block_request: p.block_request,
        block_request_generation: p.block_request_generation,
        retry_request: p.retry_request,
        retry_request_generation: p.retry_request_generation,
        block_device: p.block_device,
        block_device_generation: p.block_device_generation,
        block_range: p.block_range,
        block_range_generation: p.block_range_generation,
        action: p.action,
        errno: p.errno,
        retry_attempt: p.retry_attempt,
        max_retries: p.max_retries,
        generation: p.generation,
    }
}

/// A retry request that does not continue `req`: the same request, another device, range,
/// operation or length, or a sequence number that does not move forward.
pub open spec fn retry_misattributed(retry: BlockRequestObjectRecord, req: BlockRequestObjectRecord) -> bool {
    (retry.id == req.id && retry.generation == req.generation)
        || retry.block_device != req.block_device
        || retry.block_device_generation != req.block_device_generation
        || retry.block_range != req.block_range
        || retry.block_range_generation != req.block_range_generation
        || retry.operation != req.operation
        || retry.byte_len != req.byte_len
        || retry.sequence <= req.sequence
}

impl SemanticGraph {
    /// Why the action's own arguments would be refused for the request `req`, if they would.
    pub open spec fn policy_action_verdict(
        &self,
        action: BlockPendingIoAction,
        retry_request: Option<BlockRequestObjectId>,
        retry_request_generation: Option<Generation>,
        errno: i32,
        retry_attempt: u32,
        max_retries: u32,
        req: BlockRequestObjectRecord,
    ) -> Result<(), &'static str> {
        match action {
            BlockPendingIoAction::Cancel => if retry_request is Some || retry_request_generation is Some {
                Err("cancel policy must not carry retry request")
            } else {
                Ok(())
            },
            BlockPendingIoAction::Eio => if retry_request is Some || retry_request_generation is Some {
                Err("eio policy must not carry retry request")
            } else if errno != 5 {
                Err("eio policy must return errno 5")
            } else {
                Ok(())
            },
            BlockPendingIoAction::Retry => if retry_attempt == 0 || max_retries == 0 || retry_attempt > max_retries {
                Err("retry policy retry attempt is outside max retries")
            } else {
                match retry_request {
                    None => Err("retry policy missing retry request"),
                    Some(rr) => match retry_request_generation {
                        None => Err("retry policy missing retry request generation"),
                        Some(rg) => match first_match(self.block_request_objects@, submitted_request_is(rr, rg)) {
                            None => Err("retry policy retry request generation is missing or not submitted"),
                            Some(t) => if retry_misattributed(self.block_request_objects@[t], req) {
                                Err("retry policy retry request attribution mismatch")
                            } else {
                                Ok(())
                            },
                        },
                    },
                }
            },
        }
    }

    /// Why applying this policy would be refused, if it would; otherwise the position of
    /// the block wait it disposes of.
    pub open spec fn block_pending_io_policy_verdict(
        &self,
        policy: BlockPendingIoPolicyId,
        block_wait: BlockWaitId,
        block_wait_generation: Generation,
        action: BlockPendingIoAction,
        retry_request: Option<BlockRequestObjectId>,
        retry_request_generation: Option<Generation>,
        errno: i32,
        retry_attempt: u32,
        max_retries: u32,
    ) -> Result<int, &'static str> {
        if policy == 0 {
            Err("block pending io policy id=0 is invalid")
        } else if block_wait_generation == 0 {
            Err("block pending io policy block wait generation is invalid")
        } else if errno <= 0 {
            Err("block pending io policy errno must be positive")
        } else if any_match(self.block_pending_io_policies@, policy_id_is(policy)) {
            Err("block pending io policy already exists")
        } else if any_match(self.block_pending_io_policies@, policy_on_block_wait(block_wait, block_wait_generation)) {
            Err("block wait already has a pending io policy")
        } else {
            match first_match(self.block_waits@, pending_block_wait_is(block_wait, block_wait_generation)) {
                None => Err("block wait generation is missing or not pending"),
                Some(i) => {
                    let w = self.block_waits@[i];
                    if !any_match(self.waits@, pending_wait_is(w.wait, w.wait_generation)) {
                        Err("block pending io wait token is missing or not pending")
                    } else {
                        match first_match(self.block_request_objects@, submitted_request_is(w.block_request, w.block_request_generation)) {
                            None => Err("block pending io request generation is missing or not submitted"),
                            Some(q) => {
                                let action_verdict = self.policy_action_verdict(action, retry_request,
                                    retry_request_generation, errno, retry_attempt, max_retries,
                                    self.block_request_objects@[q]);
                                if action_verdict is Err {
                                    Err(action_verdict->Err_0)
                                } else if self.graph_audit() is Err {
                                    Err("block pending io policy requires invariant-clean graph")
                                } else {
                                    Ok(i)
                                }
                            },
                        }
                    }
                },
            }
        }
    }

    /// What an audit finds wrong with the action-specific fields of `p`.
    pub open spec fn policy_action_fault(&self, p: BlockPendingIoPolicyRecord) -> Option<SemanticInvariantError> {
        let invalid = SemanticInvariantError::BlockPendingIoPolicyInvalid { policy: p.id };
        match p.action {
            BlockPendingIoAction::Cancel => if p.state != BlockPendingIoPolicyState::Cancelled
                || p.retry_request is Some || p.retry_request_generation is Some {
                Some(invalid)
            } else {
                None
            },
            BlockPendingIoAction::Eio => if p.state != BlockPendingIoPolicyState::EioReturned
                || p.errno != 5 || p.retry_request is Some || p.retry_request_generation is Some {
                Some(invalid)
            } else {
                None
            },
            BlockPendingIoAction::Retry => if p.state != BlockPendingIoPolicyState::RetryScheduled
                || p.retry_attempt == 0 || p.max_retries == 0 || p.retry_attempt > p.max_retries {
                Some(invalid)
            } else {
                match (p.retry_request, p.retry_request_generation) {
                    (Some(rr), Some(rg)) => match first_match(self.block_request_objects@, request_is(rr, rg)) {
                        None => Some(SemanticInvariantError::BlockPendingIoPolicyMissingRetryRequest {
                            policy: p.id,
                            block_request: rr,
                        }),
                        Some(t) => {
                            let retry = self.block_request_objects@[t];
                            if (retry.id == p.block_request && retry.generation == p.block_request_generation)
                                || retry.block_device != p.block_device
                                || retry.block_device_generation != p.block_device_generation
                                || retry.block_range != p.block_range
                                || retry.block_range_generation != p.block_range_generation
                                || retry.operation != p.operation
                                || retry.byte_len != p.byte_len
                                || retry.sequence <= p.sequence {
                                Some(invalid)
                            } else {
                                None
                            }
                        },
                    },
                    _ => Some(invalid),
                }
            },
        }
    }

    /// `p` disagrees with the block wait `w` or the request `req` it names.
    pub open spec fn policy_misattributed(
        p: BlockPendingIoPolicyRecord,
        w: BlockWaitRecord,
        req: BlockRequestObjectRecord,
    ) -> bool {
        w.state != BlockWaitState::Cancelled
            || w.wait != p.wait || w.wait_generation != p.wait_generation
            || w.block_request != p.block_request || w.block_request_generation != p.block_request_generation
            || w.block_device != p.block_device || w.block_device_generation != p.block_device_generation
            || w.block_range != p.block_range || w.block_range_generation != p.block_range_generation
            || w.operation != p.operation || w.sequence != p.sequence || w.byte_len != p.byte_len
            || req.block_device != p.block_device || req.block_device_generation != p.block_device_generation
            || req.block_range != p.block_range || req.block_range_generation != p.block_range_generation
            || req.operation != p.operation || req.sequence != p.sequence || req.byte_len != p.byte_len
    }

    /// What an audit finds wrong with policy `p`, if anything.
    pub open spec fn block_pending_io_policy_fault(&self, p: BlockPendingIoPolicyRecord) -> Option<SemanticInvariantError> {
        let invalid = SemanticInvariantError::BlockPendingIoPolicyInvalid { policy: p.id };
        if p.id == 0 || p.generation == 0 || p.block_wait_generation == 0 || p.wait_generation == 0
            || p.block_request_generation == 0 || p.block_device_generation == 0
            || p.block_range_generation == 0 || p.sequence == 0 || p.byte_len == 0 || p.errno <= 0 {
            Some(invalid)
        } else {
            match first_match(self.block_waits@, block_wait_is(p.block_wait, p.block_wait_generation)) {
                None => Some(SemanticInvariantError::BlockPendingIoPolicyMissingBlockWait {
                    policy: p.id,
                    block_wait: p.block_wait,
                }),
                Some(i) => match first_match(self.block_request_objects@, request_is(p.block_request, p.block_request_generation)) {
                    None => Some(SemanticInvariantError::BlockPendingIoPolicyMissingRequest {
                        policy: p.id,
                        block_request: p.block_request,
                    }),
                    Some(q) => {
                        let w = self.block_waits@[i];
                        if Self::policy_misattributed(p, w, self.block_request_objects@[q])
                            || w.cancel_reason != Some(policy_cancel_reason(p.action)) {
                            Some(invalid)
                        } else if self.policy_action_fault(p) is Some {
                            self.policy_action_fault(p)
                        } else if !has_event_spec(self.event_log.events@, p.recorded_at_event, policy_applied_event(p)) {
                            Some(SemanticInvariantError::BlockPendingIoPolicyMissingEvent {
                                policy: p.id,
                                event: p.recorded_at_event,
                            })
                        } else {
                            None
                        }
                    },
                },
            }
        }
    }

    /// Audit verdict of the pending I/O policy table.
    pub open spec fn block_pending_io_policy_audit(&self) -> Result<(), SemanticInvariantError> {
        first_failure(Seq::new(self.block_pending_io_policies@.len(),
            |i: int| self.block_pending_io_policy_fault(self.block_pending_io_policies@[i])))
    }

    fn policy_action_ok(
        &self,
        action: BlockPendingIoAction,
        retry_request: Option<BlockRequestObjectId>,
        retry_request_generation: Option<Generation>,
        errno: i32,
        retry_attempt: u32,
        max_retries: u32,
        q: usize,
    ) -> (r: Result<(), &'static str>)
        requires
            q < self.block_request_objects@.len(),
        ensures
            r == self.policy_action_verdict(action, retry_request, retry_request_generation, errno,
                retry_attempt, max_retries, self.block_request_objects@[q as int]),
    {
        match action {
            BlockPendingIoAction::Cancel => {
                if retry_request.is_some() || retry_request_generation.is_some() {
                    return Err("cancel policy must not carry retry request");
                }
            },
            BlockPendingIoAction::Eio => {
                if retry_request.is_some() || retry_request_generation.is_some() {
                    return Err("eio policy must not carry retry request");
                }
                if errno != 5 {
                    return Err("eio policy must return errno 5");
                }
            },
            BlockPendingIoAction::Retry => {
                if retry_attempt == 0 || max_retries == 0 || retry_attempt > max_retries {
                    return Err("retry policy retry attempt is outside max retries");
                }
                let Some(rr) = retry_request else {
                    return Err("retry policy missing retry request");
                };
                let Some(rg) = retry_request_generation else {
                    return Err("retry policy missing retry request generation");
                };
                let Some(t) = self.find_submitted_request(rr, rg) else {
                    return Err("retry policy retry request generation is missing or not submitted");
                };
                let retry = &self.block_request_objects[t];
                let req = &self.block_request_objects[q];
                if (retry.id == req.id && retry.generation == req.generation)
                    || retry.block_device != req.block_device
                    || retry.block_device_generation != req.block_device_generation
                    || retry.block_range != req.block_range
                    || retry.block_range_generation != req.block_range_generation
                    || retry.operation != req.operation
                    || retry.byte_len != req.byte_len
                    || retry.sequence <= req.sequence {
                    return Err("retry policy retry request attribution mismatch");
                }
            },
        }
        Ok(())
    }

    pub fn validate_block_pending_io_policy(
        &self,
        policy: BlockPendingIoPolicyId,
        block_wait: BlockWaitId,
        block_wait_generation: Generation,
        action: BlockPendingIoAction,
        retry_request: Option<BlockRequestObjectId>,
        retry_request_generation: Option<Generation>,
        errno: i32,
        retry_attempt: u32,
        max_retries: u32,
    ) -> (r: Result<usize, &'static str>)
        ensures
            match r {
                Ok(i) => self.block_pending_io_policy_verdict(policy, block_wait, block_wait_generation,
                    action, retry_request, retry_request_generation, errno, retry_attempt,
                    max_retries) == Ok::<int, &'static str>(i as int),
                Err(e) => self.block_pending_io_policy_verdict(policy, block_wait, block_wait_generation,
                    action, retry_request, retry_request_generation, errno, retry_attempt,
                    max_retries) == Err::<int, &'static str>(e),
            },
            r matches Ok(i) ==> i < self.block_waits@.len(),
    {
        if policy == 0 {
            return Err("block pending io policy id=0 is invalid");
        }
        if block_wait_generation == 0 {
            return Err("block pending io policy block wait generation is invalid");
        }
        if errno <= 0 {
            return Err("block pending io policy errno must be positive");
        }
        if exists_match(
            &self.block_pending_io_policies,
            |r: &BlockPendingIoPolicyRecord| -> (b: bool)
                ensures b == policy_id_is(policy)(*r)
            { r.id == policy },
            Ghost(policy_id_is(policy)),
        ) {
            return Err("block pending io policy already exists");
        }
        if exists_match(
            &self.block_pending_io_policies,
            |r: &BlockPendingIoPolicyRecord| -> (b: bool)
                ensures b == policy_on_block_wait(block_wait, block_wait_generation)(*r)
            { r.block_wait == block_wait && r.block_wait_generation == block_wait_generation },
            Ghost(policy_on_block_wait(block_wait, block_wait_generation)),
        ) {
            return Err("block wait already has a pending io policy");
        }
        let Some(i) = self.find_pending_block_wait(block_wait, block_wait_generation) else {
            return Err("block wait generation is missing or not pending");
        };
        let w = &self.block_waits[i];
        if self.find_pending_wait(w.wait, w.wait_generation).is_none() {
            proof { lemma_first_match_facts(self.waits@, pending_wait_is(w.wait, w.wait_generation)); }
            return Err("block pending io wait token is missing or not pending");
        }
        proof { lemma_first_match_facts(self.waits@, pending_wait_is(w.wait, w.wait_generation)); }
        let Some(q) = self.find_submitted_request(w.block_request, w.block_request_generation) else {
            return Err("block pending io request generation is missing or not submitted");
        };
        if let Err(e) = self.policy_action_ok(action, retry_request, retry_request_generation, errno,
            retry_attempt, max_retries, q) {
            return Err(e);
        }
        if self.check_invariants().is_err() {
            return Err("block pending io policy requires invariant-clean graph");
        }
        Ok(i)
    }

    /// Applies a policy to a pending block wait: the block wait and its wait token are
    /// cancelled, the policy is recorded, and the graph is audited. Returns whether the
    /// policy was accepted and the audited graph is clean.
    pub fn apply_block_pending_io_policy_with_id(
        &mut self,
        policy: BlockPendingIoPolicyId,
        block_wait: BlockWaitId,
        block_wait_generation: Generation,
        action: BlockPendingIoAction,
        retry_request: Option<BlockRequestObjectId>,
        retry_request_generation: Option<Generation>,
        errno: i32,
        retry_attempt: u32,
        max_retries: u32,
        note: &str,
    ) -> (ok: bool)
        requires
            old(self).event_log.next_event_id < u64::MAX - 2,
        ensures
            old(self).block_pending_io_policy_verdict(policy, block_wait, block_wait_generation,
                action, retry_request, retry_request_generation, errno, retry_attempt,
                max_retries) is Err ==> !ok && *final(self) == *old(self),
            old(self).block_pending_io_policy_verdict(policy, block_wait, block_wait_generation,
                action, retry_request, retry_request_generation, errno, retry_attempt,
                max_retries) is Ok ==> {
                &&& applied_block_pending_io_policy(*old(self), *final(self), policy,
                    retry_request, retry_request_generation, action, errno, retry_attempt,
                    max_retries, note@,
                    old(self).block_pending_io_policy_verdict(policy, block_wait,
                        block_wait_generation, action, retry_request, retry_request_generation,
                        errno, retry_attempt, max_retries)->Ok_0)
                &&& ok == (final(self).graph_audit() is Ok)
            },
    {
        let Ok(i) = self.validate_block_pending_io_policy(policy, block_wait, block_wait_generation,
            action, retry_request, retry_request_generation, errno, retry_attempt, max_retries) else {
            return false;
        };
        let w = &self.block_waits[i];
        let (wait, wait_generation, block_request, block_request_generation) =
            (w.wait, w.wait_generation, w.block_request, w.block_request_generation);
        let (block_device, block_device_generation, block_range, block_range_generation) =
            (w.block_device, w.block_device_generation, w.block_range, w.block_range_generation);
        let (operation, sequence, byte_len) = (w.operation, w.sequence, w.byte_len);
        let cancel_reason = cancel_reason_for(action);
        let ghost k = first_match(self.waits@, pending_wait_is(wait, wait_generation))->0;
        proof {
            lemma_first_match_facts(self.waits@, pending_wait_is(wait, wait_generation));
            assert(self.cancel_block_wait_verdict(block_wait, block_wait_generation, cancel_reason)
                == Some((i as int, k)));
        }
        if !self.cancel_block_wait(block_wait, block_wait_generation, errno, cancel_reason, note) {
            return false;
        }
        let ghost mid = *self;
        let generation: u64 = 1;
        self.next_block_pending_io_policy_id = max_of(self.next_block_pending_io_policy_id, succ_saturating(policy));
        let recorded_at_event = self.event_log.push(
            EventDomain::Block,
            EventKind::BlockPendingIoPolicyApplied {
                policy,
                block_wait,
                block_wait_generation,
                wait,
                wait_generation,
                block_request,
                block_request_generation,
                retry_request,
                retry_request_generation,
                block_device,
                block_device_generation,
                block_range,
                block_range_generation,
                action,
                errno,
                retry_attempt,
                max_retries,
                generation,
            },
        );
        let state = policy_state_for(action);
        self.block_pending_io_policies.push(BlockPendingIoPolicyRecord {
            id: policy,
            block_wait,
            block_wait_generation,
            wait,
            wait_generation,
            block_request,
            block_request_generation,
            retry_request,
            retry_request_generation,
            block_device,
            block_device_generation,
            block_range,
            block_range_generation,
            operation,
            sequence,
            byte_len,
            action,
            errno,
            retry_attempt,
            max_retries,
            generation,
            state,
            recorded_at_event,
            note: note.to_owned(),
        });
        proof {
            assert(self.block_pending_io_policies@.subrange(0, mid.block_pending_io_policies@.len() as int)
                =~= mid.block_pending_io_policies@);
            assert(policy_applied_step(*old(self), mid, *self, errno, cancel_reason, note@, (i as int, k)));
        }
        self.check_invariants().is_ok()
    }

    pub fn block_pending_io_policies(&self) -> (r: &[BlockPendingIoPolicyRecord])
        ensures
            r@ == self.block_pending_io_policies@,
    {
        self.block_pending_io_policies.as_slice()
    }

    pub fn block_pending_io_policy_count(&self) -> (r: usize)
        ensures
            r == self.block_pending_io_policies@.len(),
    {
        self.block_pending_io_policies.len()
    }

    fn policy_action_fault_of(&self, p: &BlockPendingIoPolicyRecord) -> (f: Option<SemanticInvariantError>)
        ensures
            f == self.policy_action_fault(*p),
    {
        let invalid = SemanticInvariantError::BlockPendingIoPolicyInvalid { policy: p.id };
        match p.action {
            BlockPendingIoAction::Cancel => {
                if p.state != BlockPendingIoPolicyState::Cancelled || p.retry_request.is_some()
                    || p.retry_request_generation.is_some() {
                    return Some(invalid);
                }
                None
            },
            BlockPendingIoAction::Eio => {
                if p.state != BlockPendingIoPolicyState::EioReturned || p.errno != 5
                    || p.retry_request.is_some() || p.retry_request_generation.is_some() {
                    return Some(invalid);
                }
                None
            },
            BlockPendingIoAction::Retry => {
                if p.state != BlockPendingIoPolicyState::RetryScheduled || p.retry_attempt == 0
                    || p.max_retries == 0 || p.retry_attempt > p.max_retries {
                    return Some(invalid);
                }
                let (Some(rr), Some(rg)) = (p.retry_request, p.retry_request_generation) else {
                    return Some(invalid);
                };
                let Some(t) = self.find_request(rr, rg) else {
                    return Some(SemanticInvariantError::BlockPendingIoPolicyMissingRetryRequest {
                        policy: p.id,
                        block_request: rr,
                    });
                };
                let retry = &self.block_request_objects[t];
                if (retry.id == p.block_request && retry.generation == p.block_request_generation)
                    || retry.block_device != p.block_device
                    || retry.block_device_generation != p.block_device_generation
                    || retry.block_range != p.block_range
                    || retry.block_range_generation != p.block_range_generation
                    || retry.operation != p.operation
                    || retry.byte_len != p.byte_len
                    || retry.sequence <= p.sequence {
                    return Some(invalid);
                }
                None
            },
        }
    }

    fn block_pending_io_policy_fault_of(&self, p: &BlockPendingIoPolicyRecord) -> (f: Option<SemanticInvariantError>)
        ensures
            f == self.block_pending_io_policy_fault(*p),
    {
        let invalid = SemanticInvariantError::BlockPendingIoPolicyInvalid { policy: p.id };
        if p.id == 0 || p.generation == 0 || p.block_wait_generation == 0 || p.wait_generation == 0
            || p.block_request_generation == 0 || p.block_device_generation == 0
            || p.block_range_generation == 0 || p.sequence == 0 || p.byte_len == 0 || p.errno <= 0 {
            return Some(invalid);
        }
        let Some(i) = self.find_block_wait(p.block_wait, p.block_wait_generation) else {
            return Some(SemanticInvariantError::BlockPendingIoPolicyMissingBlockWait {
                policy: p.id,
                block_wait: p.block_wait,
            });
        };
        let Some(q) = self.find_request(p.block_request, p.block_request_generation) else {
            return Some(SemanticInvariantError::BlockPendingIoPolicyMissingRequest {
                policy: p.id,
                block_request: p.block_request,
            });
        };
        let w = &self.block_waits[i];
        let req = &self.block_request_objects[q];
        if w.state != BlockWaitState::Cancelled
            || w.wait != p.wait || w.wait_generation != p.wait_generation
            || w.block_request != p.block_request || w.block_request_generation != p.block_request_generation
            || w.block_device != p.block_device || w.block_device_generation != p.block_device_generation
            || w.block_range != p.block_range || w.block_range_generation != p.block_range_generation
            || w.operation != p.operation || w.sequence != p.sequence || w.byte_len != p.byte_len
            || req.block_device != p.block_device || req.block_device_generation != p.block_device_generation
            || req.block_range != p.block_range || req.block_range_generation != p.block_range_generation
            || req.operation != p.operation || req.sequence != p.sequence || req.byte_len != p.byte_len {
            return Some(invalid);
        }
        if w.cancel_reason != Some(cancel_reason_for(p.action)) {
            return Some(invalid);
        }
        let action_fault = self.policy_action_fault_of(p);
        if action_fault.is_some() {
            return action_fault;
        }
        let applied = EventKind::BlockPendingIoPolicyApplied {
            policy: p.id,
            block_wait: p.block_wait,
            block_wait_generation: p.block_wait_generation,
            wait: p.wait,
            wait_generation: p.wait_generation,
            block_request: p.block_request,
            block_request_generation: p.block_request_generation,
            retry_request: p.retry_request,
            retry_request_generation: p.retry_request_generation,
            block_device: p.block_device,
            block_device_generation: p.block_device_generation,
            block_range: p.block_range,
            block_range_generation: p.block_range_generation,
            action: p.action,
            errno: p.errno,
            retry_attempt: p.retry_attempt,
            max_retries: p.max_retries,
            generation: p.generation,
        };
        if !self.event_log.has_event(p.recorded_at_event, applied) {
            return Some(SemanticInvariantError::BlockPendingIoPolicyMissingEvent {
                policy: p.id,
                event: p.recorded_at_event,
            });
        }
        None
    }

    /// Audits every pending I/O policy; the first fault found is returned.
    pub fn check_block_pending_io_policy_invariants(&self) -> (r: Result<(), SemanticInvariantError>)
        ensures
            r == self.block_pending_io_policy_audit(),
    {
        let ghost faults = Seq::new(self.block_pending_io_policies@.len(),
            |i: int| self.block_pending_io_policy_fault(self.block_pending_io_policies@[i]));
        let mut i: usize = 0;
        while i < self.block_pending_io_policies.len()
            invariant
                i <= self.block_pending_io_policies@.len(),
                faults == Seq::new(self.block_pending_io_policies@.len(),
                    |i: int| self.block_pending_io_policy_fault(self.block_pending_io_policies@[i])),
                forall|j: int| 0 <= j < i ==> (#[trigger] faults[j]) is None,
            decreases self.block_pending_io_policies@.len() - i,
        {
            if let Some(e) = self.block_pending_io_policy_fault_of(&self.block_pending_io_policies[i]) {
                proof { lemma_first_failure_at(faults, i as int); }
                return Err(e);
            }
            i += 1;
        }
        proof { lemma_first_failure_ok(faults); }
        Ok(())
    }
}

/// The steps of applying a policy, with `mid` the graph after the block wait at `at.0` and
/// its wait token at `at.1` were cancelled: the policy is then recorded and its application logged.
pub open spec fn policy_applied_step(
    old: SemanticGraph,
    mid: SemanticGraph,
    new: SemanticGraph,
    errno: i32,
    reason: WaitCancelReason,
    note: Seq<char>,
    at: (int, int),
) -> bool {
    &&& cancelled_block_wait(old, mid, errno, reason, note, at)
    &&& new.agrees_except(&mid, set![Table::EventLog, Table::BlockPendingIoPolicies])
    &&& appended_one(mid.block_pending_io_policies@, new.block_pending_io_policies@)
    &&& new.block_pending_io_policies@.last().recorded_at_event == mid.event_log.next_event_id
    &&& appended_event(mid.event_log, new.event_log, EventDomain::Block,
        policy_applied_event(new.block_pending_io_policies@.last()))
}

/// `new` is `old` after applying the policy to the block wait at position `i`.
pub open spec fn applied_block_pending_io_policy(
    old: SemanticGraph,
    new: SemanticGraph,
    policy: BlockPendingIoPolicyId,
    retry_request: Option<BlockRequestObjectId>,
    retry_request_generation: Option<Generation>,
    action: BlockPendingIoAction,
    errno: i32,
    retry_attempt: u32,
    max_retries: u32,
    note: Seq<char>,
    i: int,
) -> bool {
    let w = old.block_waits@[i];
    let p = new.block_pending_io_policies@.last();
    &&& exists|mid: SemanticGraph, k: int| #[trigger] policy_applied_step(old, mid, new, errno,
        policy_cancel_reason(action), note, (i, k))
    &&& p.id == policy && p.block_wait == w.id && p.block_wait_generation == w.generation
    &&& p.wait == w.wait && p.wait_generation == w.wait_generation
    &&& p.block_request == w.block_request && p.block_request_generation == w.block_request_generation
    &&& p.retry_request == retry_request && p.retry_request_generation == retry_request_generation
    &&& p.block_device == w.block_device && p.block_device_generation == w.block_device_generation
    &&& p.block_range == w.block_range && p.block_range_generation == w.block_range_generation
    &&& p.operation == w.operation && p.sequence == w.sequence && p.byte_len == w.byte_len
    &&& p.action == action && p.errno == errno && p.retry_attempt == retry_attempt
    &&& p.max_retries == max_retries && p.generation == 1 && p.state == policy_state(action)
    &&& p.note@ == note
    &&& new.next_block_pending_io_policy_id == max_u64(old.next_block_pending_io_policy_id, saturating_succ(policy))
}

/// Policy `p` is settled: its block wait generation exists and was cancelled for the reason its
/// action calls for, its errno is positive (5 under `Eio`), only a retry names a retry request,
/// and a retry's attempt lies between 1 and its retry budget.
pub open spec fn policy_settled(g: SemanticGraph, p: BlockPendingIoPolicyRecord) -> bool {
    &&& p.errno > 0
    &&& match first_match(g.block_waits@, block_wait_is(p.block_wait, p.block_wait_generation)) {
        None => false,
        Some(i) => g.block_waits@[i].state == BlockWaitState::Cancelled
            && g.block_waits@[i].cancel_reason == Some(policy_cancel_reason(p.action)),
    }
    &&& (p.action == BlockPendingIoAction::Eio ==> p.errno == 5)
    &&& (p.action != BlockPendingIoAction::Retry ==> p.retry_request is None)
    &&& (p.action == BlockPendingIoAction::Retry ==> 1 <= p.retry_attempt <= p.max_retries)
}

/// When the pending I/O policy audit is clean, every policy is settled.
pub proof fn lemma_clean_pending_io_policy_audit(g: SemanticGraph)
    requires
        g.block_pending_io_policy_audit() is Ok,
    ensures
        forall|j: int| 0 <= j < g.block_pending_io_policies@.len()
            ==> policy_settled(g, #[trigger] g.block_pending_io_policies@[j]),
{
    let faults = Seq::new(g.block_pending_io_policies@.len(),
        |i: int| g.block_pending_io_policy_fault(g.block_pending_io_policies@[i]));
    lemma_first_failure_ok_all(faults);
    assert forall|j: int| 0 <= j < g.block_pending_io_policies@.len()
        implies policy_settled(g, #[trigger] g.block_pending_io_policies@[j]) by {
        assert(faults[j] is None);
    }
}

/// When a pending-I/O policy is accepted (`validate_block_pending_io_policy` accepts and the
/// recorder applies it exactly then), its id is new and nonzero, its errno is positive (5 under
/// `Eio`), only a retry names a retry request, a retry's attempt lies between 1 and its nonzero
/// budget and names a submitted retry request generation, no policy has touched the block wait
/// generation yet, and that block wait generation is pending with a pending wait token and a
/// submitted request.
pub proof fn lemma_accepted_policy_disposes_of_a_pending_wait(
    g: SemanticGraph,
    policy: BlockPendingIoPolicyId,
    block_wait: BlockWaitId,
    block_wait_generation: Generation,
    action: BlockPendingIoAction,
    retry_request: Option<BlockRequestObjectId>,
    retry_request_generation: Option<Generation>,
    errno: i32,
    retry_attempt: u32,
    max_retries: u32,
)
    requires
        g.block_pending_io_policy_verdict(policy, block_wait, block_wait_generation, action, retry_request,
            retry_request_generation, errno, retry_attempt, max_retries) is Ok,
    ensures
        policy != 0,
        errno > 0,
        action == BlockPendingIoAction::Eio ==> errno == 5,
        action != BlockPendingIoAction::Retry ==> retry_request is None && retry_request_generation is None,
        action == BlockPendingIoAction::Retry ==> 1 <= retry_attempt <= max_retries && exists|t: int|
            0 <= t < g.block_request_objects@.len() && Some((#[trigger] g.block_request_objects@[t]).id) == retry_request
            && Some(g.block_request_objects@[t].generation) == retry_request_generation
            && g.block_request_objects@[t].state == BlockRequestObjectState::Submitted,
        forall|i: int| 0 <= i < g.block_pending_io_policies@.len() ==> (#[trigger] g.block_pending_io_policies@[i]).id != policy
            && !(g.block_pending_io_policies@[i].block_wait == block_wait
                && g.block_pending_io_policies@[i].block_wait_generation == block_wait_generation),
        exists|i: int| 0 <= i < g.block_waits@.len() && {
            let w = #[trigger] g.block_waits@[i];
            &&& w.id == block_wait && w.generation == block_wait_generation && w.state == BlockWaitState::Pending
            &&& exists|k: int| 0 <= k < g.waits@.len() && (#[trigger] g.waits@[k]).id == w.wait
                && g.waits@[k].generation == w.wait_generation && g.waits@[k].state == WaitState::Pending
            &&& exists|q: int| 0 <= q < g.block_request_objects@.len()
                && (#[trigger] g.block_request_objects@[q]).id == w.block_request
                && g.block_request_objects@[q].generation == w.block_request_generation
                && g.block_request_objects@[q].state == BlockRequestObjectState::Submitted
        },
{
    assert forall|i: int| 0 <= i < g.block_pending_io_policies@.len() implies (#[trigger] g.block_pending_io_policies@[i]).id != policy
        && !(g.block_pending_io_policies@[i].block_wait == block_wait
            && g.block_pending_io_policies@[i].block_wait_generation == block_wait_generation) by {
        if g.block_pending_io_policies@[i].id == policy {
            assert(policy_id_is(policy)(g.block_pending_io_policies@[i]));
        }
        if g.block_pending_io_policies@[i].block_wait == block_wait
            && g.block_pending_io_policies@[i].block_wait_generation == block_wait_generation {
            assert(policy_on_block_wait(block_wait, block_wait_generation)(g.block_pending_io_policies@[i]));
        }
    }
    lemma_first_match_facts(g.block_waits@, pending_block_wait_is(block_wait, block_wait_generation));
    let i = first_match(g.block_waits@, pending_block_wait_is(block_wait, block_wait_generation))->0;
    let w = g.block_waits@[i];
    assert(pending_block_wait_is(block_wait, block_wait_generation)(w));
    let k = choose|k: int| 0 <= k < g.waits@.len() && pending_wait_is(w.wait, w.wait_generation)(#[trigger] g.waits@[k]);
    assert(pending_wait_is(w.wait, w.wait_generation)(g.waits@[k]));
    lemma_first_match_facts(g.block_request_objects@, submitted_request_is(w.block_request, w.block_request_generation));
    let q = first_match(g.block_request_objects@, submitted_request_is(w.block_request, w.block_request_generation))->0;
    assert(submitted_request_is(w.block_request, w.block_request_generation)(g.block_request_objects@[q]));
    if action == BlockPendingIoAction::Retry {
        let rr = retry_request->Some_0;
        let rg = retry_request_generation->Some_0;
        lemma_first_match_facts(g.block_request_objects@, submitted_request_is(rr, rg));
        let t = first_match(g.block_request_objects@, submitted_request_is(rr, rg))->0;
        assert(submitted_request_is(rr, rg)(g.block_request_objects@[t]));
    }
}

} // verus!
