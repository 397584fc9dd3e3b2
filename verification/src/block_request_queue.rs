use vstd::prelude::*;
use crate::base::{BlockRequestObjectRecord};
use crate::block_write_path::backend_named_by;
use crate::errors::SemanticInvariantError;
use crate::events::{appended_event, appended_one, has_event_spec, EventDomain, EventKind};
use crate::graph::{SemanticGraph, Table};
use crate::lookup::{block_device_is, registered_block_device_is};
use crate::lookup2::{bound_fake_backend_is, completion_is, request_is};
use crate::search::{
    any_match, exists_match, find_first, first_failure, first_match, lemma_first_failure_at,
    lemma_first_failure_ok, lemma_first_failure_ok_all, lemma_first_match_facts, max_of, max_u64, saturating_succ,
    succ_saturating,
};
use crate::types::{
    BlockCompletionObjectState, BlockDeviceObjectState, BlockRequestObjectState, ContractObjectKind,
    FakeBlockBackendObjectState,
    BlockCompletionObjectId, BlockDeviceObjectId, BlockRequestObjectId, BlockRequestOperation,
    BlockRequestQueueEntryState, BlockRequestQueueId, BlockRequestQueueState, ContractObjectRef,
    EventId, Generation,
};

verus! {

/// A request named when a queue is recorded, optionally with its completion.
#[derive(Clone, Copy, Debug, PartialEq, Eq, Structural)]
pub struct BlockRequestQueueEntryRef {
    pub request: BlockRequestObjectId,
    pub request_generation: Generation,
    pub completion: Option<BlockCompletionObjectId>,
    pub completion_generation: Option<Generation>,
}

/// One request of a recorded queue.
#[derive(Clone, Copy, Debug, PartialEq, Eq, Structural)]
pub struct BlockRequestQueueEntryRecord {
    pub request: BlockRequestObjectId,
    pub request_generation: Generation,
    pub completion: Option<BlockCompletionObjectId>,
    pub completion_generation: Option<Generation>,
    pub sequence: u64,
    pub operation: BlockRequestOperation,
    pub byte_len: u64,
    pub state: BlockRequestQueueEntryState,
}

/// A queue of requests against one block device, ordered by sequence.
pub struct BlockRequestQueueRecord {
    pub id: BlockRequestQueueId,
    pub backend: ContractObjectRef,
    pub block_device: BlockDeviceObjectId,
    pub block_device_generation: Generation,
    pub depth: u32,
    pub entries: Vec<BlockRequestQueueEntryRecord>,
    pub pending_count: u32,
    pub completed_count: u32,
    pub first_sequence: u64,
    pub last_sequence: u64,
    pub generation: Generation,
    pub state: BlockRequestQueueState,
    pub recorded_at_event: EventId,
    pub note: String,
}

pub open spec fn queue_id_is(id: BlockRequestQueueId) -> spec_fn(BlockRequestQueueRecord) -> bool {
    |r: BlockRequestQueueRecord| r.id == id
}

/// An entry of a queue for this request generation.
pub open spec fn entry_for_request(request: BlockRequestObjectId, generation: Generation) -> spec_fn(BlockRequestQueueEntryRecord) -> bool {
    |e: BlockRequestQueueEntryRecord| e.request == request && e.request_generation == generation
}

/// An active queue that already holds this request generation.
pub open spec fn active_queue_holding(request: BlockRequestObjectId, generation: Generation) -> spec_fn(BlockRequestQueueRecord) -> bool {
    |q: BlockRequestQueueRecord| q.state == BlockRequestQueueState::Active
        && any_match(q.entries@, entry_for_request(request, generation))
}

/// The entry recorded for `e`, given the request record `req` it names.
pub open spec fn entry_record(req: BlockRequestObjectRecord, e: BlockRequestQueueEntryRef) -> BlockRequestQueueEntryRecord {
    BlockRequestQueueEntryRecord {
        request: req.id,
        request_generation: req.generation,
        completion: e.completion,
        completion_generation: e.completion_generation,
        sequence: req.sequence,
        operation: req.operation,
        byte_len: req.byte_len,
        state: if e.completion is None { BlockRequestQueueEntryState::Pending } else { BlockRequestQueueEntryState::Completed },
    }
}

/// The number of entries of `s` in `state`.
pub open spec fn entries_in_state(s: Seq<BlockRequestQueueEntryRecord>, state: BlockRequestQueueEntryState) -> nat
    decreases s.len(),
{
    if s.len() == 0 {
        0
    } else {
        entries_in_state(s.drop_last(), state) + if s.last().state == state { 1nat } else { 0nat }
    }
}

/// The event that records queue `r`.
pub open spec fn block_request_queue_event(r: BlockRequestQueueRecord) -> EventKind {
    EventKind::BlockRequestQueueRecorded {
        queue: r.id,
        backend: r.backend,
        block_device: r.block_device,
        block_device_generation: r.block_device_generation,
        depth: r.depth,
        request_count: r.entries@.len() as u32,
        pending_count: r.pending_count,
        completed_count: r.completed_count,
        first_sequence: r.first_sequence,
        last_sequence: r.last_sequence,
        generation: r.generation,
    }
}

impl SemanticGraph {
    /// The request record that `e` names, when there is one.
    pub open spec fn entry_request(&self, e: BlockRequestQueueEntryRef) -> BlockRequestObjectRecord {
        self.block_request_objects@[first_match(self.block_request_objects@, request_is(e.request, e.request_generation))->0]
    }

    /// The entries a queue built from `entries` holds, before ordering.
    pub open spec fn queue_entry_records(&self, entries: Seq<BlockRequestQueueEntryRef>) -> Seq<BlockRequestQueueEntryRecord> {
        Seq::new(entries.len(), |i: int| entry_record(self.entry_request(entries[i]), entries[i]))
    }

    /// Why entry `i` of `entries` cannot join a queue on this block device, if it cannot; the
    /// entries before it are taken as accepted.
    pub open spec fn queue_entry_verdict(
        &self,
        block_device: BlockDeviceObjectId,
        block_device_generation: Generation,
        entries: Seq<BlockRequestQueueEntryRef>,
        i: int,
    ) -> Option<&'static str> {
        let e = entries[i];
        if e.request == 0 || e.request_generation == 0 {
            Some("block request queue entry identity values must be nonzero")
        } else if any_match(self.block_request_queues@, active_queue_holding(e.request, e.request_generation)) {
            Some("block request queue request already belongs to an active queue")
        } else {
            match first_match(self.block_request_objects@, request_is(e.request, e.request_generation)) {
                None => Some("block request queue request generation is missing"),
                Some(q) => {
                    let req = self.block_request_objects@[q];
                    if req.block_device != block_device || req.block_device_generation != block_device_generation {
                        Some("block request queue request does not target queue block device")
                    } else if req.sequence == 0 || req.byte_len == 0 {
                        Some("block request queue request values are invalid")
                    } else if exists|j: int| 0 <= j < i && (#[trigger] entries[j]).request == e.request
                        && entries[j].request_generation == e.request_generation {
                        Some("block request queue request appears twice")
                    } else if exists|j: int| 0 <= j < i && self.entry_request(#[trigger] entries[j]).sequence == req.sequence {
                        Some("block request queue sequence appears twice")
                    } else {
                        match (e.completion, e.completion_generation) {
                            (None, None) => if req.state != BlockRequestObjectState::Submitted {
                                Some("block request queue pending request is not submitted")
                            } else {
                                None
                            },
                            (Some(c), Some(cg)) => if cg == 0 {
                                Some("block request queue completion generation is zero")
                            } else if req.state != BlockRequestObjectState::Completed {
                                Some("block request queue completed request is not completed")
                            } else {
                                match first_match(self.block_completion_objects@, completion_is(c, cg)) {
                                    None => Some("block request queue completion generation is missing"),
                                    Some(k) => {
                                        let comp = self.block_completion_objects@[k];
                                        if comp.block_request != req.id || comp.block_request_generation != req.generation
                                            || comp.block_device != block_device
                                            || comp.block_device_generation != block_device_generation
                                            || comp.block_range != req.block_range
                                            || comp.block_range_generation != req.block_range_generation
                                            || comp.sequence != req.sequence
                                            || comp.state != BlockCompletionObjectState::Recorded {
                                            Some("block request queue completion does not match request")
                                        } else {
                                            None
                                        }
                                    },
                                }
                            },
                            _ => Some("block request queue completion id/generation must be both present"),
                        }
                    }
                },
            }
        }
    }

    /// Why recording this queue would be refused, if it would.
    pub open spec fn block_request_queue_verdict(
        &self,
        queue: BlockRequestQueueId,
        backend: ContractObjectRef,
        block_device: BlockDeviceObjectId,
        block_device_generation: Generation,
        depth: u32,
        entries: Seq<BlockRequestQueueEntryRef>,
    ) -> Result<(), &'static str> {
        if queue == 0 {
            Err("block request queue id=0 is invalid")
        } else if any_match(self.block_request_queues@, queue_id_is(queue)) {
            Err("block request queue already exists")
        } else if backend.generation == 0 || block_device_generation == 0 {
            Err("block request queue identity values must be nonzero")
        } else if backend.kind != ContractObjectKind::FakeBlockBackendObject {
            Err("block request queue backend kind is unsupported for B9")
        } else if depth == 0 {
            Err("block request queue depth is zero")
        } else if entries.len() == 0 {
            Err("block request queue must record at least one request")
        } else if entries.len() > depth {
            Err("block request queue depth exceeded")
        } else {
            match first_match(self.fake_block_backends@, bound_fake_backend_is(backend.id, backend.generation)) {
                None => Err("block request queue backend generation is missing or inactive"),
                Some(b) => {
                    let be = self.fake_block_backends@[b];
                    if be.block_device != block_device || be.block_device_generation != block_device_generation {
                        Err("block request queue backend does not target block device generation")
                    } else {
                        match first_match(self.block_device_objects@, registered_block_device_is(block_device, block_device_generation)) {
                            None => Err("block request queue block device generation is missing or inactive"),
                            Some(d) => if self.block_device_objects@[d].id != be.block_device {
                                Err("block request queue block device does not match backend")
                            } else {
                                let entry_faults = first_failure(Seq::new(entries.len(),
                                    |i: int| self.queue_entry_verdict(block_device, block_device_generation, entries, i)));
                                if entry_faults is Err {
                                    Err(entry_faults->Err_0)
                                } else if self.graph_audit() is Err {
                                    Err("block request queue requires invariant-clean graph")
                                } else {
                                    Ok(())
                                }
                            },
                        }
                    }
                },
            }
        }
    }

    /// What an audit finds wrong with the completion named by entry `e` of queue `r`.
    pub open spec fn queue_entry_completion_fault(
        &self,
        r: BlockRequestQueueRecord,
        e: BlockRequestQueueEntryRecord,
        req: BlockRequestObjectRecord,
    ) -> Option<SemanticInvariantError> {
        let invalid = SemanticInvariantError::BlockRequestQueueInvalid { queue: r.id };
        match e.completion {
            None => None,
            Some(c) => match e.completion_generation {
                None => Some(invalid),
                Some(cg) => match first_match(self.block_completion_objects@, completion_is(c, cg)) {
                    None => Some(SemanticInvariantError::BlockRequestQueueMissingCompletion { queue: r.id, block_completion: c }),
                    Some(k) => {
                        let comp = self.block_completion_objects@[k];
                        if comp.block_request != req.id || comp.block_request_generation != req.generation
                            || comp.block_device != r.block_device
                            || comp.block_device_generation != r.block_device_generation
                            || comp.sequence != e.sequence || comp.state != BlockCompletionObjectState::Recorded {
                            Some(invalid)
                        } else {
                            None
                        }
                    },
                },
            },
        }
    }

    /// What an audit finds wrong with entry `i` of queue `r`, if anything.
    pub open spec fn queue_entry_fault(&self, r: BlockRequestQueueRecord, i: int) -> Option<SemanticInvariantError> {
        let e = r.entries@[i];
        match first_match(self.block_request_objects@, request_is(e.request, e.request_generation)) {
            None => Some(SemanticInvariantError::BlockRequestQueueMissingRequest { queue: r.id, block_request: e.request }),
            Some(q) => {
                let req = self.block_request_objects@[q];
                if e.request == 0 || e.request_generation == 0 || e.sequence == 0 || e.byte_len == 0
                    || req.block_device != r.block_device || req.block_device_generation != r.block_device_generation
                    || req.sequence != e.sequence || req.operation != e.operation || req.byte_len != e.byte_len
                    || (e.state == BlockRequestQueueEntryState::Pending && (e.completion is Some
                        || e.completion_generation is Some || req.state != BlockRequestObjectState::Submitted))
                    || (e.state == BlockRequestQueueEntryState::Completed && (e.completion is None
                        || e.completion_generation is None || req.state != BlockRequestObjectState::Completed)) {
                    Some(SemanticInvariantError::BlockRequestQueueInvalid { queue: r.id })
                } else if self.queue_entry_completion_fault(r, e, req) is Some {
                    self.queue_entry_completion_fault(r, e, req)
                } else if exists|j: int| i < j < r.entries@.len() && (#[trigger] r.entries@[j]).request == e.request
                    && r.entries@[j].request_generation == e.request_generation {
                    Some(SemanticInvariantError::BlockRequestQueueDuplicateRequest { queue: r.id, block_request: e.request })
                } else if exists|j: int| i < j < r.entries@.len() && (#[trigger] r.entries@[j]).sequence == e.sequence {
                    Some(SemanticInvariantError::BlockRequestQueueDuplicateSequence { queue: r.id, sequence: e.sequence })
                } else {
                    None
                }
            },
        }
    }

    /// What an audit finds wrong with queue `r`, if anything.
    pub open spec fn block_request_queue_fault(&self, r: BlockRequestQueueRecord) -> Option<SemanticInvariantError> {
        match first_match(self.fake_block_backends@, backend_named_by(r.backend)) {
            None => Some(SemanticInvariantError::BlockRequestQueueMissingBackend { queue: r.id, backend: r.backend }),
            Some(b) => match first_match(self.block_device_objects@, block_device_is(r.block_device, r.block_device_generation)) {
                None => Some(SemanticInvariantError::BlockRequestQueueMissingBlockDevice { queue: r.id, block_device: r.block_device }),
                Some(d) => {
                    let be = self.fake_block_backends@[b];
                    let bd = self.block_device_objects@[d];
                    if r.id == 0 || r.generation == 0 || r.backend.generation == 0 || r.block_device_generation == 0
                        || r.depth == 0 || r.entries@.len() == 0 || r.entries@.len() > r.depth
                        || r.state != BlockRequestQueueState::Active
                        || r.backend.kind != ContractObjectKind::FakeBlockBackendObject
                        || be.state != FakeBlockBackendObjectState::Bound
                        || bd.state != BlockDeviceObjectState::Registered
                        || be.block_device != r.block_device || be.block_device_generation != r.block_device_generation
                        || r.pending_count != entries_in_state(r.entries@, BlockRequestQueueEntryState::Pending)
                        || r.completed_count != entries_in_state(r.entries@, BlockRequestQueueEntryState::Completed)
                        || r.entries@.len() != r.pending_count + r.completed_count
                        || r.first_sequence == 0 || r.last_sequence < r.first_sequence {
                        Some(SemanticInvariantError::BlockRequestQueueInvalid { queue: r.id })
                    } else {
                        let entry_faults = first_failure(Seq::new(r.entries@.len(), |i: int| self.queue_entry_fault(r, i)));
                        if entry_faults is Err {
                            Some(entry_faults->Err_0)
                        } else if !has_event_spec(self.event_log.events@, r.recorded_at_event, block_request_queue_event(r)) {
                            Some(SemanticInvariantError::BlockRequestQueueMissingEvent { queue: r.id })
                        } else {
                            None
                        }
                    }
                },
            },
        }
    }

    /// Audit verdict of the queue table.
    pub open spec fn block_request_queue_audit(&self) -> Result<(), SemanticInvariantError> {
        first_failure(Seq::new(self.block_request_queues@.len(), |i: int| self.block_request_queue_fault(self.block_request_queues@[i])))
    }

    fn queue_entry_ok(
        &self,
        block_device: BlockDeviceObjectId,
        block_device_generation: Generation,
        entries: &[BlockRequestQueueEntryRef],
        i: usize,
        records: &Vec<BlockRequestQueueEntryRecord>,
    ) -> (r: Result<BlockRequestQueueEntryRecord, &'static str>)
        requires
            i < entries@.len(),
            records@.len() == i,
            forall|j: int| 0 <= j < i ==> #[trigger] records@[j] == entry_record(self.entry_request(entries@[j]), entries@[j]),
        ensures
            match r {
                Ok(rec) => self.queue_entry_verdict(block_device, block_device_generation, entries@, i as int) is None
                    && rec == entry_record(self.entry_request(entries@[i as int]), entries@[i as int]),
                Err(e) => self.queue_entry_verdict(block_device, block_device_generation, entries@, i as int) == Some(e),
            },
    {
        let e = entries[i];
        if e.request == 0 || e.request_generation == 0 {
            return Err("block request queue entry identity values must be nonzero");
        }
        let (request, request_generation) = (e.request, e.request_generation);
        if exists_match(
            &self.block_request_queues,
            |q: &BlockRequestQueueRecord| -> (b: bool)
                ensures b == active_queue_holding(request, request_generation)(*q)
            {
                q.state == BlockRequestQueueState::Active && exists_match(
                    &q.entries,
                    |x: &BlockRequestQueueEntryRecord| -> (m: bool)
                        ensures m == entry_for_request(request, request_generation)(*x)
                    { x.request == request && x.request_generation == request_generation },
                    Ghost(entry_for_request(request, request_generation)),
                )
            },
            Ghost(active_queue_holding(request, request_generation)),
        ) {
            return Err("block request queue request already belongs to an active queue");
        }
        let Some(q) = self.find_request(e.request, e.request_generation) else {
            return Err("block request queue request generation is missing");
        };
        let req = &self.block_request_objects[q];
        if req.block_device != block_device || req.block_device_generation != block_device_generation {
            return Err("block request queue request does not target queue block device");
        }
        if req.sequence == 0 || req.byte_len == 0 {
            return Err("block request queue request values are invalid");
        }
        if earlier_same_request(entries, i) {
            return Err("block request queue request appears twice");
        }
        if earlier_same_sequence(records, req.sequence) {
            proof {
                let j = choose|j: int| 0 <= j < records@.len() && (#[trigger] records@[j]).sequence == req.sequence;
                assert(records@[j] == entry_record(self.entry_request(entries@[j]), entries@[j]));
            }
            return Err("block request queue sequence appears twice");
        }
        proof {
            assert forall|j: int| 0 <= j < i implies self.entry_request(#[trigger] entries@[j]).sequence != req.sequence by {
                assert(records@[j] == entry_record(self.entry_request(entries@[j]), entries@[j]));
            }
        }
        let state = match (e.completion, e.completion_generation) {
            (None, None) => {
                if req.state != BlockRequestObjectState::Submitted {
                    return Err("block request queue pending request is not submitted");
                }
                BlockRequestQueueEntryState::Pending
            },
            (Some(c), Some(cg)) => {
                if cg == 0 {
                    return Err("block request queue completion generation is zero");
                }
                if req.state != BlockRequestObjectState::Completed {
                    return Err("block request queue completed request is not completed");
                }
                let Some(k) = self.find_completion(c, cg) else {
                    return Err("block request queue completion generation is missing");
                };
                let comp = &self.block_completion_objects[k];
                if comp.block_request != req.id || comp.block_request_generation != req.generation
                    || comp.block_device != block_device
                    || comp.block_device_generation != block_device_generation
                    || comp.block_range != req.block_range
                    || comp.block_range_generation != req.block_range_generation
                    || comp.sequence != req.sequence
                    || comp.state != BlockCompletionObjectState::Recorded {
                    return Err("block request queue completion does not match request");
                }
                BlockRequestQueueEntryState::Completed
            },
            _ => {
                return Err("block request queue completion id/generation must be both present");
            },
        };
        Ok(BlockRequestQueueEntryRecord {
            request: req.id,
            request_generation: req.generation,
            completion: e.completion,
            completion_generation: e.completion_generation,
            sequence: req.sequence,
            operation: req.operation,
            byte_len: req.byte_len,
            state,
        })
    }

    fn build_queue_entries(
        &self,
        block_device: BlockDeviceObjectId,
        block_device_generation: Generation,
        entries: &[BlockRequestQueueEntryRef],
    ) -> (r: Result<Vec<BlockRequestQueueEntryRecord>, &'static str>)
        ensures
            match r {
                Ok(v) => first_failure(Seq::new(entries@.len(),
                    |i: int| self.queue_entry_verdict(block_device, block_device_generation, entries@, i))) is Ok
                    && v@ == self.queue_entry_records(entries@) && distinct_sequences(v@),
                Err(e) => first_failure(Seq::new(entries@.len(),
                    |i: int| self.queue_entry_verdict(block_device, block_device_generation, entries@, i)))
                    == Err::<(), &'static str>(e),
            },
    {
        let ghost faults = Seq::new(entries@.len(),
            |i: int| self.queue_entry_verdict(block_device, block_device_generation, entries@, i));
        let mut records: Vec<BlockRequestQueueEntryRecord> = Vec::new();
        let mut i: usize = 0;
        while i < entries.len()
            invariant
                i <= entries@.len(),
                records@.len() == i,
                faults == Seq::new(entries@.len(),
                    |i: int| self.queue_entry_verdict(block_device, block_device_generation, entries@, i)),
                forall|j: int| 0 <= j < i ==> #[trigger] records@[j] == entry_record(self.entry_request(entries@[j]), entries@[j]),
                forall|j: int| 0 <= j < i ==> (#[trigger] faults[j]) is None,
            decreases entries@.len() - i,
        {
            match self.queue_entry_ok(block_device, block_device_generation, entries, i, &records) {
                Ok(rec) => {
                    records.push(rec);
                },
                Err(e) => {
                    proof { lemma_first_failure_at(faults, i as int); }
                    return Err(e);
                },
            }
            i += 1;
        }
        proof {
            lemma_first_failure_ok(faults);
            assert(records@ =~= self.queue_entry_records(entries@));
            assert forall|a: int, c: int| 0 <= a < c < records@.len() implies records@[a].sequence != records@[c].sequence by {
                assert(faults[c] is None);
                assert(records@[a] == entry_record(self.entry_request(entries@[a]), entries@[a]));
                assert(records@[c] == entry_record(self.entry_request(entries@[c]), entries@[c]));
                lemma_first_match_facts(self.block_request_objects@, request_is(entries@[c].request, entries@[c].request_generation));
            }
        }
        Ok(records)
    }

    pub fn validate_block_request_queue(
        &self,
        queue: BlockRequestQueueId,
        backend: ContractObjectRef,
        block_device: BlockDeviceObjectId,
        block_device_generation: Generation,
        depth: u32,
        entries: &[BlockRequestQueueEntryRef],
    ) -> (r: Result<Vec<BlockRequestQueueEntryRecord>, &'static str>)
        ensures
            match r {
                Ok(v) => self.block_request_queue_verdict(queue, backend, block_device, block_device_generation,
                    depth, entries@) is Ok && sorted_by_sequence(self.queue_entry_records(entries@), v@),
                Err(e) => self.block_request_queue_verdict(queue, backend, block_device, block_device_generation,
                    depth, entries@) == Err::<(), &'static str>(e),
            },
    {
        if queue == 0 {
            return Err("block request queue id=0 is invalid");
        }
        if exists_match(
            &self.block_request_queues,
            |r: &BlockRequestQueueRecord| -> (b: bool)
                ensures b == queue_id_is(queue)(*r)
            { r.id == queue },
            Ghost(queue_id_is(queue)),
        ) {
            return Err("block request queue already exists");
        }
        if backend.generation == 0 || block_device_generation == 0 {
            return Err("block request queue identity values must be nonzero");
        }
        if backend.kind != ContractObjectKind::FakeBlockBackendObject {
            return Err("block request queue backend kind is unsupported for B9");
        }
        if depth == 0 {
            return Err("block request queue depth is zero");
        }
        if entries.len() == 0 {
            return Err("block request queue must record at least one request");
        }
        if entries.len() > depth as usize {
            return Err("block request queue depth exceeded");
        }
        let Some(b) = self.find_bound_fake_backend(backend.id, backend.generation) else {
            return Err("block request queue backend generation is missing or inactive");
        };
        let be = &self.fake_block_backends[b];
        if be.block_device != block_device || be.block_device_generation != block_device_generation {
            return Err("block request queue backend does not target block device generation");
        }
        let Some(d) = self.find_registered_block_device_object(block_device, block_device_generation) else {
            return Err("block request queue block device generation is missing or inactive");
        };
        if self.block_device_objects[d].id != be.block_device {
            return Err("block request queue block device does not match backend");
        }
        let records = match self.build_queue_entries(block_device, block_device_generation, entries) {
            Ok(v) => v,
            Err(e) => {
                return Err(e);
            },
        };
        if self.check_invariants().is_err() {
            return Err("block request queue requires invariant-clean graph");
        }
        Ok(sort_entries_by_sequence(records))
    }

    /// Records a queue when the graph accepts it; returns whether it did. The recorded
    /// entries are those named, ordered by sequence.
    pub fn record_block_request_queue_with_id(
        &mut self,
        queue: BlockRequestQueueId,
        backend: ContractObjectRef,
        block_device: BlockDeviceObjectId,
        block_device_generation: Generation,
        depth: u32,
        entries: &[BlockRequestQueueEntryRef],
        note: &str,
    ) -> (ok: bool)
        requires
            old(self).event_log.next_event_id < u64::MAX,
        ensures
            ok == (old(self).block_request_queue_verdict(queue, backend, block_device, block_device_generation,
                depth, entries@) is Ok),
            !ok ==> *final(self) == *old(self),
            ok ==> recorded_block_request_queue(*old(self), *final(self), queue, backend, block_device,
                block_device_generation, depth, entries@, note@),
    {
        let Ok(sorted) = self.validate_block_request_queue(queue, backend, block_device, block_device_generation,
            depth, entries) else {
            return false;
        };
        let generation: u64 = 1;
        let pending_count = count_entries_in_state(&sorted, BlockRequestQueueEntryState::Pending);
        let completed_count = count_entries_in_state(&sorted, BlockRequestQueueEntryState::Completed);
        let first_sequence = sorted[0].sequence;
        let last_sequence = sorted[sorted.len() - 1].sequence;
        self.next_block_request_queue_id = max_of(self.next_block_request_queue_id, succ_saturating(queue));
        let recorded_at_event = self.event_log.push(
            EventDomain::Block,
            EventKind::BlockRequestQueueRecorded {
                queue,
                backend,
                block_device,
                block_device_generation,
                depth,
                request_count: sorted.len() as u32,
                pending_count,
                completed_count,
                first_sequence,
                last_sequence,
                generation,
            },
        );
        self.block_request_queues.push(BlockRequestQueueRecord {
            id: queue,
            backend,
            block_device,
            block_device_generation,
            depth,
            entries: sorted,
            pending_count,
            completed_count,
            first_sequence,
            last_sequence,
            generation,
            state: BlockRequestQueueState::Active,
            recorded_at_event,
            note: note.to_owned(),
        });
        proof {
            assert(self.block_request_queues@.subrange(0, old(self).block_request_queues@.len() as int)
                =~= old(self).block_request_queues@);
        }
        true
    }

    pub fn block_request_queues(&self) -> (r: &[BlockRequestQueueRecord])
        ensures
            r@ == self.block_request_queues@,
    {
        self.block_request_queues.as_slice()
    }

    pub fn block_request_queue_count(&self) -> (r: usize)
        ensures
            r == self.block_request_queues@.len(),
    {
        self.block_request_queues.len()
    }

    fn queue_entry_fault_of(&self, r: &BlockRequestQueueRecord, i: usize) -> (f: Option<SemanticInvariantError>)
        requires
            i < r.entries@.len(),
        ensures
            f == self.queue_entry_fault(*r, i as int),
    {
        let e = r.entries[i];
        let Some(q) = self.find_request(e.request, e.request_generation) else {
            return Some(SemanticInvariantError::BlockRequestQueueMissingRequest { queue: r.id, block_request: e.request });
        };
        let req = &self.block_request_objects[q];
        let invalid = SemanticInvariantError::BlockRequestQueueInvalid { queue: r.id };
        if e.request == 0 || e.request_generation == 0 || e.sequence == 0 || e.byte_len == 0
            || req.block_device != r.block_device || req.block_device_generation != r.block_device_generation
            || req.sequence != e.sequence || req.operation != e.operation || req.byte_len != e.byte_len
            || (e.state == BlockRequestQueueEntryState::Pending && (e.completion.is_some()
                || e.completion_generation.is_some() || req.state != BlockRequestObjectState::Submitted))
            || (e.state == BlockRequestQueueEntryState::Completed && (e.completion.is_none()
                || e.completion_generation.is_none() || req.state != BlockRequestObjectState::Completed)) {
            return Some(invalid);
        }
        if let Some(c) = e.completion {
            let Some(cg) = e.completion_generation else {
                return Some(invalid);
            };
            let Some(k) = self.find_completion(c, cg) else {
                return Some(SemanticInvariantError::BlockRequestQueueMissingCompletion { queue: r.id, block_completion: c });
            };
            let comp = &self.block_completion_objects[k];
            if comp.block_request != req.id || comp.block_request_generation != req.generation
                || comp.block_device != r.block_device
                || comp.block_device_generation != r.block_device_generation
                || comp.sequence != e.sequence || comp.state != BlockCompletionObjectState::Recorded {
                return Some(invalid);
            }
        }
        if later_same_request(&r.entries, i) {
            return Some(SemanticInvariantError::BlockRequestQueueDuplicateRequest { queue: r.id, block_request: e.request });
        }
        if later_same_sequence(&r.entries, i) {
            return Some(SemanticInvariantError::BlockRequestQueueDuplicateSequence { queue: r.id, sequence: e.sequence });
        }
        None
    }

    fn queue_entries_fault_of(&self, r: &BlockRequestQueueRecord) -> (f: Option<SemanticInvariantError>)
        ensures
            f == (match first_failure(Seq::new(r.entries@.len(), |i: int| self.queue_entry_fault(*r, i))) {
                Ok(_) => None,
                Err(e) => Some(e),
            }),
    {
        let ghost faults = Seq::new(r.entries@.len(), |i: int| self.queue_entry_fault(*r, i));
        let mut i: usize = 0;
        while i < r.entries.len()
            invariant
                i <= r.entries@.len(),
                faults == Seq::new(r.entries@.len(), |i: int| self.queue_entry_fault(*r, i)),
                forall|j: int| 0 <= j < i ==> (#[trigger] faults[j]) is None,
            decreases r.entries@.len() - i,
        {
            let f = self.queue_entry_fault_of(r, i);
            if f.is_some() {
                proof { lemma_first_failure_at(faults, i as int); }
                return f;
            }
            i += 1;
        }
        proof { lemma_first_failure_ok(faults); }
        None
    }

    fn block_request_queue_fault_of(&self, r: &BlockRequestQueueRecord) -> (f: Option<SemanticInvariantError>)
        ensures
            f == self.block_request_queue_fault(*r),
    {
        let named = r.backend;
        let Some(b) = find_first(
            &self.fake_block_backends,
            |x: &crate::base::FakeBlockBackendObjectRecord| -> (m: bool)
                ensures m == backend_named_by(named)(*x)
            { named.kind == ContractObjectKind::FakeBlockBackendObject && x.id == named.id && x.generation == named.generation },
            Ghost(backend_named_by(named)),
        ) else {
            return Some(SemanticInvariantError::BlockRequestQueueMissingBackend { queue: r.id, backend: r.backend });
        };
        let Some(d) = self.find_block_device_object(r.block_device, r.block_device_generation) else {
            return Some(SemanticInvariantError::BlockRequestQueueMissingBlockDevice { queue: r.id, block_device: r.block_device });
        };
        let be = &self.fake_block_backends[b];
        let bd = &self.block_device_objects[d];
        let len: usize = r.entries.len();
        if r.id == 0 || r.generation == 0 || r.backend.generation == 0 || r.block_device_generation == 0
            || r.depth == 0 || len == 0 || len > r.depth as usize
            || r.state != BlockRequestQueueState::Active
            || r.backend.kind != ContractObjectKind::FakeBlockBackendObject
            || be.state != FakeBlockBackendObjectState::Bound
            || bd.state != BlockDeviceObjectState::Registered
            || be.block_device != r.block_device || be.block_device_generation != r.block_device_generation {
            return Some(SemanticInvariantError::BlockRequestQueueInvalid { queue: r.id });
        }
        let pending = count_entries_in_state(&r.entries, BlockRequestQueueEntryState::Pending);
        let completed = count_entries_in_state(&r.entries, BlockRequestQueueEntryState::Completed);
        if r.pending_count != pending || r.completed_count != completed
            || len as u64 != r.pending_count as u64 + r.completed_count as u64
            || r.first_sequence == 0 || r.last_sequence < r.first_sequence {
            return Some(SemanticInvariantError::BlockRequestQueueInvalid { queue: r.id });
        }
        let entry_fault = self.queue_entries_fault_of(r);
        if entry_fault.is_some() {
            return entry_fault;
        }
        let recorded = EventKind::BlockRequestQueueRecorded {
            queue: r.id,
            backend: r.backend,
            block_device: r.block_device,
            block_device_generation: r.block_device_generation,
            depth: r.depth,
            request_count: len as u32,
            pending_count: r.pending_count,
            completed_count: r.completed_count,
            first_sequence: r.first_sequence,
            last_sequence: r.last_sequence,
            generation: r.generation,
        };
        if !self.event_log.has_event(r.recorded_at_event, recorded) {
            return Some(SemanticInvariantError::BlockRequestQueueMissingEvent { queue: r.id });
        }
        None
    }

    /// Audits every queue; the first fault found is returned.
    pub fn check_block_request_queue_invariants(&self) -> (r: Result<(), SemanticInvariantError>)
        ensures
            r == self.block_request_queue_audit(),
    {
        let ghost faults = Seq::new(self.block_request_queues@.len(), |i: int| self.block_request_queue_fault(self.block_request_queues@[i]));
        let mut i: usize = 0;
        while i < self.block_request_queues.len()
            invariant
                i <= self.block_request_queues@.len(),
                faults == Seq::new(self.block_request_queues@.len(), |i: int| self.block_request_queue_fault(self.block_request_queues@[i])),
                forall|j: int| 0 <= j < i ==> (#[trigger] faults[j]) is None,
            decreases self.block_request_queues@.len() - i,
        {
            if let Some(e) = self.block_request_queue_fault_of(&self.block_request_queues[i]) {
                proof { lemma_first_failure_at(faults, i as int); }
                return Err(e);
            }
            i += 1;
        }
        proof { lemma_first_failure_ok(faults); }
        Ok(())
    }
}

/// Whether an entry after position `i` names the same request generation as entry `i`.
fn later_same_request(entries: &Vec<BlockRequestQueueEntryRecord>, i: usize) -> (b: bool)
    requires
        i < entries@.len(),
    ensures
        b == exists|j: int| i < j < entries@.len() && (#[trigger] entries@[j]).request == entries@[i as int].request
            && entries@[j].request_generation == entries@[i as int].request_generation,
{
    let e = entries[i];
    let len = entries.len();
    let mut j: usize = i + 1;
    while j < len
        invariant
            i < j <= len,
            len == entries@.len(),
            e == entries@[i as int],
            forall|k: int| i < k < j ==> !((#[trigger] entries@[k]).request == e.request
                && entries@[k].request_generation == e.request_generation),
        decreases len - j,
    {
        if entries[j].request == e.request && entries[j].request_generation == e.request_generation {
            proof { assert(entries@[j as int].request == e.request); }
            return true;
        }
        j += 1;
    }
    false
}

/// Whether an entry after position `i` carries the same sequence as entry `i`.
fn later_same_sequence(entries: &Vec<BlockRequestQueueEntryRecord>, i: usize) -> (b: bool)
    requires
        i < entries@.len(),
    ensures
        b == exists|j: int| i < j < entries@.len() && (#[trigger] entries@[j]).sequence == entries@[i as int].sequence,
{
    let e = entries[i];
    let len = entries.len();
    let mut j: usize = i + 1;
    while j < len
        invariant
            i < j <= len,
            len == entries@.len(),
            e == entries@[i as int],
            forall|k: int| i < k < j ==> (#[trigger] entries@[k]).sequence != e.sequence,
        decreases len - j,
    {
        if entries[j].sequence == e.sequence {
            proof { assert(entries@[j as int].sequence == e.sequence); }
            return true;
        }
        j += 1;
    }
    false
}

/// Counts the entries of `s` in `state`.
pub fn count_entries_in_state(s: &Vec<BlockRequestQueueEntryRecord>, state: BlockRequestQueueEntryState) -> (n: u32)
    requires
        s@.len() <= u32::MAX,
    ensures
        n == entries_in_state(s@, state),
{
    let mut n: u32 = 0;
    let mut i: usize = 0;
    while i < s.len()
        invariant
            i <= s@.len() <= u32::MAX,
            n == entries_in_state(s@.take(i as int), state),
            n <= i,
        decreases s@.len() - i,
    {
        proof {
            assert(s@.take(i + 1).drop_last() =~= s@.take(i as int));
        }
        if s[i].state == state {
            n += 1;
        }
        i += 1;
    }
    proof { assert(s@.take(i as int) =~= s@); }
    n
}

/// Every entry is pending or completed, so the two counts add up to the number of entries.
pub proof fn lemma_queue_counts_partition(s: Seq<BlockRequestQueueEntryRecord>)
    ensures
        entries_in_state(s, BlockRequestQueueEntryState::Pending)
            + entries_in_state(s, BlockRequestQueueEntryState::Completed) == s.len(),
    decreases s.len(),
{
    if s.len() > 0 {
        lemma_queue_counts_partition(s.drop_last());
    }
}

/// `new` is `old` after recording the queue: its entries are those named, ordered by sequence,
/// with their counts and first and last sequence.
pub open spec fn recorded_block_request_queue(
    old: SemanticGraph,
    new: SemanticGraph,
    queue: BlockRequestQueueId,
    backend: ContractObjectRef,
    block_device: BlockDeviceObjectId,
    block_device_generation: Generation,
    depth: u32,
    entries: Seq<BlockRequestQueueEntryRef>,
    note: Seq<char>,
) -> bool {
    let r = new.block_request_queues@.last();
    &&& new.agrees_except(&old, set![Table::EventLog, Table::BlockRequestQueues])
    &&& appended_one(old.block_request_queues@, new.block_request_queues@)
    &&& r.id == queue && r.backend == backend && r.block_device == block_device
    &&& r.block_device_generation == block_device_generation && r.depth == depth
    &&& sorted_by_sequence(old.queue_entry_records(entries), r.entries@)
    &&& r.pending_count == entries_in_state(r.entries@, BlockRequestQueueEntryState::Pending)
    &&& r.completed_count == entries_in_state(r.entries@, BlockRequestQueueEntryState::Completed)
    &&& r.first_sequence == r.entries@[0].sequence
    &&& r.last_sequence == r.entries@.last().sequence
    &&& r.generation == 1 && r.state == BlockRequestQueueState::Active
    &&& r.recorded_at_event == old.event_log.next_event_id && r.note@ == note
    &&& appended_event(old.event_log, new.event_log, EventDomain::Block, block_request_queue_event(r))
    &&& new.next_block_request_queue_id == max_u64(old.next_block_request_queue_id, saturating_succ(queue))
}

/// Whether an entry before position `i` names the same request generation as entry `i`.
fn earlier_same_request(entries: &[BlockRequestQueueEntryRef], i: usize) -> (b: bool)
    requires
        i < entries@.len(),
    ensures
        b == exists|j: int| 0 <= j < i && (#[trigger] entries@[j]).request == entries@[i as int].request
            && entries@[j].request_generation == entries@[i as int].request_generation,
{
    let e = entries[i];
    let mut j: usize = 0;
    while j < i
        invariant
            j <= i < entries@.len(),
            e == entries@[i as int],
            forall|k: int| 0 <= k < j ==> !((#[trigger] entries@[k]).request == e.request
                && entries@[k].request_generation == e.request_generation),
        decreases i - j,
    {
        if entries[j].request == e.request && entries[j].request_generation == e.request_generation {
            proof { assert(entries@[j as int].request == e.request); }
            return true;
        }
        j += 1;
    }
    false
}

/// Whether some entry of `records` carries sequence `sequence`.
fn earlier_same_sequence(records: &Vec<BlockRequestQueueEntryRecord>, sequence: u64) -> (b: bool)
    ensures
        b == exists|j: int| 0 <= j < records@.len() && (#[trigger] records@[j]).sequence == sequence,
{
    let mut j: usize = 0;
    while j < records.len()
        invariant
            j <= records@.len(),
            forall|k: int| 0 <= k < j ==> (#[trigger] records@[k]).sequence != sequence,
        decreases records@.len() - j,
    {
        if records[j].sequence == sequence {
            proof { assert(records@[j as int].sequence == sequence); }
            return true;
        }
        j += 1;
    }
    false
}

/// No two entries of `s` carry the same sequence number.
pub open spec fn distinct_sequences(s: Seq<BlockRequestQueueEntryRecord>) -> bool {
    forall|i: int, j: int| 0 <= i < j < s.len() ==> s[i].sequence != s[j].sequence
}

/// The sequence numbers of `s` strictly increase.
pub open spec fn ascending_sequences(s: Seq<BlockRequestQueueEntryRecord>) -> bool {
    forall|i: int, j: int| 0 <= i < j < s.len() ==> s[i].sequence < s[j].sequence
}

/// `out` holds exactly the entries of `s`, in ascending order of sequence.
pub open spec fn sorted_by_sequence(s: Seq<BlockRequestQueueEntryRecord>, out: Seq<BlockRequestQueueEntryRecord>) -> bool {
    &&& out.len() == s.len()
    &&& ascending_sequences(out)
    &&& forall|k: int| 0 <= k < s.len() ==> out.contains(#[trigger] s[k])
    &&& forall|m: int| 0 <= m < out.len() ==> s.contains(#[trigger] out[m])
}

/// Sorts entries with distinct sequence numbers into ascending order of sequence.
#[verifier::spinoff_prover]
#[verifier::rlimit(40)]
pub fn sort_entries_by_sequence(v: Vec<BlockRequestQueueEntryRecord>) -> (out: Vec<BlockRequestQueueEntryRecord>)
    requires
        distinct_sequences(v@),
    ensures
        sorted_by_sequence(v@, out@),
{
    let mut out: Vec<BlockRequestQueueEntryRecord> = Vec::new();
    let mut i: usize = 0;
    while i < v.len()
        invariant
            i <= v@.len(),
            distinct_sequences(v@),
            out@.len() == i,
            ascending_sequences(out@),
            forall|k: int| 0 <= k < i ==> out@.contains(#[trigger] v@[k]),
            forall|m: int| 0 <= m < out@.len() ==> v@.contains(#[trigger] out@[m]),
            forall|m: int, j: int| 0 <= m < out@.len() && i <= j < v@.len()
                ==> (#[trigger] out@[m]).sequence != (#[trigger] v@[j]).sequence,
        decreases v@.len() - i,
    {
        let x = v[i];
        let mut p: usize = 0;
        while p < out.len() && out[p].sequence < x.sequence
            invariant
                p <= out@.len(),
                forall|m: int| 0 <= m < p ==> (#[trigger] out@[m]).sequence < x.sequence,
            decreases out@.len() - p,
        {
            p += 1;
        }
        let ghost before = out@;
        proof {
            assert forall|m: int| p <= m < before.len() implies (#[trigger] before[m]).sequence > x.sequence by {
                assert(before[m].sequence != v@[i as int].sequence);
                if m > p {
                    assert(before[p as int].sequence < before[m].sequence);
                }
            }
        }
        out.insert(p, x);
        proof {
            assert(out@ == before.insert(p as int, x));
            assert forall|a: int, b: int| 0 <= a < b < out@.len() implies out@[a].sequence < out@[b].sequence by {
                if b < p {
                } else if b == p {
                } else if a < p {
                    assert(out@[b] == before[b - 1]);
                } else if a == p {
                    assert(out@[b] == before[b - 1]);
                } else {
                    assert(out@[a] == before[a - 1]);
                    assert(out@[b] == before[b - 1]);
                }
            }
            assert forall|k: int| 0 <= k < i + 1 implies out@.contains(#[trigger] v@[k]) by {
                if k == i {
                    assert(out@[p as int] == x);
                } else {
                    assert(before.contains(v@[k]));
                    let m = choose|m: int| 0 <= m < before.len() && before[m] == v@[k];
                    if m < p {
                        assert(out@[m] == v@[k]);
                    } else {
                        assert(out@[m + 1] == v@[k]);
                    }
                }
            }
            assert forall|m: int| 0 <= m < out@.len() implies v@.contains(#[trigger] out@[m]) by {
                if m < p {
                    assert(out@[m] == before[m]);
                    assert(v@.contains(before[m]));
                } else if m == p {
                    assert(v@[i as int] == out@[m]);
                } else {
                    assert(out@[m] == before[m - 1]);
                    assert(v@.contains(before[m - 1]));
                }
            }
            assert forall|m: int, j: int| 0 <= m < out@.len() && i + 1 <= j < v@.len()
                implies (#[trigger] out@[m]).sequence != (#[trigger] v@[j]).sequence by {
                if m < p {
                    assert(out@[m] == before[m]);
                } else if m == p {
                    assert(v@[i as int].sequence != v@[j].sequence);
                } else {
                    assert(out@[m] == before[m - 1]);
                }
            }
        }
        i += 1;
    }
    out
}

/// Queue `r` holds at least one entry, its entries strictly ascend by sequence, and its first
/// and last sequence are those of its first and last entry.
pub open spec fn queue_ordered(r: BlockRequestQueueRecord) -> bool {
    &&& r.entries@.len() > 0
    &&& ascending_sequences(r.entries@)
    &&& r.first_sequence == r.entries@[0].sequence
    &&& r.last_sequence == r.entries@.last().sequence
}

/// Every block request queue of `g` is ordered, and no two of them share an id.
pub open spec fn block_request_queues_ordered(g: SemanticGraph) -> bool {
    &&& forall|i: int| 0 <= i < g.block_request_queues@.len() ==> queue_ordered(#[trigger] g.block_request_queues@[i])
    &&& forall|i: int, j: int| 0 <= i < j < g.block_request_queues@.len()
        ==> (#[trigger] g.block_request_queues@[i]).id != (#[trigger] g.block_request_queues@[j]).id
}

/// A graph without block request queues has them all ordered.
pub proof fn lemma_no_queues_are_ordered(g: SemanticGraph)
    requires
        g.block_request_queues@.len() == 0,
    ensures
        block_request_queues_ordered(g),
{
}

/// Recording an accepted queue keeps every queue ordered and their ids distinct.
pub proof fn lemma_record_block_request_queue_keeps_order(
    old: SemanticGraph,
    new: SemanticGraph,
    queue: BlockRequestQueueId,
    backend: ContractObjectRef,
    block_device: BlockDeviceObjectId,
    block_device_generation: Generation,
    depth: u32,
    entries: Seq<BlockRequestQueueEntryRef>,
    note: Seq<char>,
)
    requires
        block_request_queues_ordered(old),
        old.block_request_queue_verdict(queue, backend, block_device, block_device_generation, depth, entries) is Ok,
        recorded_block_request_queue(old, new, queue, backend, block_device, block_device_generation, depth,
            entries, note),
    ensures
        block_request_queues_ordered(new),
{
    let o = old.block_request_queues@;
    let n = new.block_request_queues@;
    assert(n.subrange(0, o.len() as int) == o);
    assert forall|i: int| 0 <= i < o.len() implies #[trigger] n[i] == o[i] by {
        assert(n.subrange(0, o.len() as int)[i] == n[i]);
    }
    assert(old.queue_entry_records(entries).len() == entries.len());
    assert forall|i: int| 0 <= i < o.len() implies (#[trigger] o[i]).id != queue by {
        if o[i].id == queue {
            assert(queue_id_is(queue)(o[i]));
            assert(any_match(o, queue_id_is(queue)));
        }
    }
    assert forall|i: int| 0 <= i < n.len() implies queue_ordered(#[trigger] n[i]) by {
        if i < o.len() {
            assert(n[i] == o[i]);
        }
    }
    assert forall|i: int, j: int| 0 <= i < j < n.len() implies (#[trigger] n[i]).id != (#[trigger] n[j]).id by {
        assert(n[i] == o[i]);
        if j < o.len() {
            assert(n[j] == o[j]);
        } else {
            assert(n[j] == n.last());
        }
    }
}

/// A change that leaves the block request queue table alone keeps every queue ordered.
pub proof fn lemma_queue_table_untouched_keeps_order(old: SemanticGraph, new: SemanticGraph, changed: Set<Table>)
    requires
        block_request_queues_ordered(old),
        new.agrees_except(&old, changed),
        !changed.contains(Table::BlockRequestQueues),
    ensures
        block_request_queues_ordered(new),
{
}

/// Queue `r` is consistent: it holds between one entry and its depth, its counts are those of
/// its pending and completed entries, no two entries name the same request generation or
/// sequence, a pending entry names no completion and a completed one does, and its sequence
/// range is nonzero and ordered.
pub open spec fn queue_consistent(r: BlockRequestQueueRecord) -> bool {
    let s = r.entries@;
    &&& 1 <= s.len() <= r.depth
    &&& r.pending_count == entries_in_state(s, BlockRequestQueueEntryState::Pending)
    &&& r.completed_count == entries_in_state(s, BlockRequestQueueEntryState::Completed)
    &&& forall|i: int, j: int| 0 <= i < j < s.len() ==> !((#[trigger] s[i]).request == (#[trigger] s[j]).request
        && s[i].request_generation == s[j].request_generation)
    &&& forall|i: int, j: int| 0 <= i < j < s.len() ==> (#[trigger] s[i]).sequence != (#[trigger] s[j]).sequence
    &&& forall|i: int| 0 <= i < s.len() && (#[trigger] s[i]).state == BlockRequestQueueEntryState::Pending
        ==> s[i].completion is None
    &&& forall|i: int| 0 <= i < s.len() && (#[trigger] s[i]).state == BlockRequestQueueEntryState::Completed
        ==> s[i].completion is Some
    &&& 0 < r.first_sequence <= r.last_sequence
}

/// When the block request queue audit is clean, every queue is consistent.
pub proof fn lemma_clean_block_request_queue_audit(g: SemanticGraph)
    requires
        g.block_request_queue_audit() is Ok,
    ensures
        forall|q: int| 0 <= q < g.block_request_queues@.len() ==> queue_consistent(#[trigger] g.block_request_queues@[q]),
{
    let faults = Seq::new(g.block_request_queues@.len(), |i: int| g.block_request_queue_fault(g.block_request_queues@[i]));
    lemma_first_failure_ok_all(faults);
    assert forall|q: int| 0 <= q < g.block_request_queues@.len() implies queue_consistent(#[trigger] g.block_request_queues@[q]) by {
        let r = g.block_request_queues@[q];
        assert(faults[q] is None);
        let entry_faults = Seq::new(r.entries@.len(), |i: int| g.queue_entry_fault(r, i));
        lemma_first_failure_ok_all(entry_faults);
        let s = r.entries@;
        assert forall|i: int| 0 <= i < s.len() implies #[trigger] g.queue_entry_fault(r, i) is None by {
            assert(entry_faults[i] is None);
        }
        assert forall|i: int, j: int| 0 <= i < j < s.len() implies !((#[trigger] s[i]).request == (#[trigger] s[j]).request
            && s[i].request_generation == s[j].request_generation) by {
            assert(g.queue_entry_fault(r, i) is None);
        }
        assert forall|i: int, j: int| 0 <= i < j < s.len() implies (#[trigger] s[i]).sequence != (#[trigger] s[j]).sequence by {
            assert(g.queue_entry_fault(r, i) is None);
        }
        assert forall|i: int| 0 <= i < s.len() && (#[trigger] s[i]).state == BlockRequestQueueEntryState::Pending
            implies s[i].completion is None by {
            assert(g.queue_entry_fault(r, i) is None);
        }
        assert forall|i: int| 0 <= i < s.len() && (#[trigger] s[i]).state == BlockRequestQueueEntryState::Completed
            implies s[i].completion is Some by {
            assert(g.queue_entry_fault(r, i) is None);
        }
    }
}

/// When a block request queue is accepted (`validate_block_request_queue` accepts and
/// `record_block_request_queue_with_id` records it exactly then), its id is new and nonzero, it
/// names between one entry and its (nonzero) depth, its backend is a bound fake backend of the
/// named generation targeting the named block device generation, and that block device generation
/// is registered.
pub proof fn lemma_accepted_queue_fits_backend(
    g: SemanticGraph,
    queue: BlockRequestQueueId,
    backend: ContractObjectRef,
    block_device: BlockDeviceObjectId,
    block_device_generation: Generation,
    depth: u32,
    entries: Seq<BlockRequestQueueEntryRef>,
)
    requires
        g.block_request_queue_verdict(queue, backend, block_device, block_device_generation, depth, entries) is Ok,
    ensures
        queue != 0,
        forall|i: int| 0 <= i < g.block_request_queues@.len() ==> (#[trigger] g.block_request_queues@[i]).id != queue,
        0 < entries.len() <= depth,
        backend.kind == ContractObjectKind::FakeBlockBackendObject,
        exists|b: int| 0 <= b < g.fake_block_backends@.len() && {
            let be = #[trigger] g.fake_block_backends@[b];
            &&& be.id == backend.id && be.generation == backend.generation
            &&& be.state == FakeBlockBackendObjectState::Bound
            &&& be.block_device == block_device && be.block_device_generation == block_device_generation
        },
        exists|d: int| 0 <= d < g.block_device_objects@.len() && (#[trigger] g.block_device_objects@[d]).id == block_device
            && g.block_device_objects@[d].generation == block_device_generation
            && g.block_device_objects@[d].state == BlockDeviceObjectState::Registered,
{
    assert forall|i: int| 0 <= i < g.block_request_queues@.len() implies (#[trigger] g.block_request_queues@[i]).id != queue by {
        if g.block_request_queues@[i].id == queue {
            assert(queue_id_is(queue)(g.block_request_queues@[i]));
        }
    }
    lemma_first_match_facts(g.fake_block_backends@, bound_fake_backend_is(backend.id, backend.generation));
    let b = first_match(g.fake_block_backends@, bound_fake_backend_is(backend.id, backend.generation))->0;
    assert(bound_fake_backend_is(backend.id, backend.generation)(g.fake_block_backends@[b]));
    lemma_first_match_facts(g.block_device_objects@, registered_block_device_is(block_device, block_device_generation));
    let d = first_match(g.block_device_objects@, registered_block_device_is(block_device, block_device_generation))->0;
    assert(registered_block_device_is(block_device, block_device_generation)(g.block_device_objects@[d]));
}

} // verus!
