use vstd::prelude::*;
use crate::base::FakeBlockBackendObjectRecord;
use crate::errors::SemanticInvariantError;
use crate::events::{appended_event, appended_one, has_event_spec, EventDomain, EventKind};
use crate::graph::{SemanticGraph, Table};
use crate::lookup2::{block_range_is, bound_fake_backend_is, completion_is, request_is};
use crate::search::{
    any_match, exists_match, find_first, first_failure, first_match, lemma_first_failure_at,
    lemma_first_failure_ok, lemma_first_match_facts, max_of, max_u64, saturating_succ, succ_saturating,
};
use crate::types::{
    BlockCompletionObjectId, BlockCompletionObjectState, BlockCompletionStatus,
    BlockDeviceObjectId, BlockRangeObjectId, BlockRequestObjectId, BlockRequestObjectState,
    BlockRequestOperation, BlockWritePathId, BlockWritePathState, ContractObjectKind,
    ContractObjectRef, EventId, FakeBlockBackendObjectState, Generation,
};

verus! {

/// Starting value of the version-1 payload digest.
pub const BLOCK_WRITE_DIGEST_OFFSET_V1: u64 = 0x8422_2325_cbf2_9ce4;

/// Multiplier of the version-1 payload digest.
pub const BLOCK_WRITE_DIGEST_PRIME_V1: u64 = 0x0000_0100_0000_01b3;

/// A completed write through a block backend, with its payload digest.
pub struct BlockWritePathRecord {
    pub id: BlockWritePathId,
    pub backend: ContractObjectRef,
    pub block_request: BlockRequestObjectId,
    pub block_request_generation: Generation,
    pub block_completion: BlockCompletionObjectId,
    pub block_completion_generation: Generation,
    pub block_device: BlockDeviceObjectId,
    pub block_device_generation: Generation,
    pub block_range: BlockRangeObjectId,
    pub block_range_generation: Generation,
    pub sequence: u64,
    pub completed_bytes: u64,
    pub payload_digest: u64,
    pub generation: Generation,
    pub state: BlockWritePathState,
    pub recorded_at_event: EventId,
    pub note: String,
}

/// One step of the digest: xor in `value`, then multiply by the prime modulo 2^64.
pub open spec fn digest_step(digest: u64, value: u64) -> u64 {
    (((digest ^ value) as nat * BLOCK_WRITE_DIGEST_PRIME_V1 as nat) % 0x1_0000_0000_0000_0000nat) as u64
}

fn mix_digest(digest: u64, value: u64) -> (r: u64)
    ensures
        r == digest_step(digest, value),
{
    (digest ^ value).wrapping_mul(BLOCK_WRITE_DIGEST_PRIME_V1)
}

/// The version-1 digest of a write's identity: the seed and the eight values folded in
/// order with `digest_step`, with a zero result replaced by 1.
pub open spec fn block_write_payload_digest(
    deterministic_seed: u64,
    block_device: BlockDeviceObjectId,
    block_device_generation: Generation,
    block_range: BlockRangeObjectId,
    block_range_generation: Generation,
    start_sector: u64,
    sector_count: u64,
    sequence: u64,
    completed_bytes: u64,
) -> u64 {
    let d0 = BLOCK_WRITE_DIGEST_OFFSET_V1 ^ deterministic_seed;
    let d1 = digest_step(d0, block_device);
    let d2 = digest_step(d1, block_device_generation);
    let d3 = digest_step(d2, block_range);
    let d4 = digest_step(d3, block_range_generation);
    let d5 = digest_step(d4, start_sector);
    let d6 = digest_step(d5, sector_count);
    let d7 = digest_step(d6, sequence);
    let d8 = digest_step(d7, completed_bytes);
    if d8 == 0 { 1 } else { d8 }
}

pub open spec fn write_path_id_is(id: BlockWritePathId) -> spec_fn(BlockWritePathRecord) -> bool {
    |r: BlockWritePathRecord| r.id == id
}

/// A completed write path already covers this request generation.
pub open spec fn completed_write_path_for(request: BlockRequestObjectId, generation: Generation) -> spec_fn(BlockWritePathRecord) -> bool {
    |r: BlockWritePathRecord| r.block_request == request && r.block_request_generation == generation
        && r.state == BlockWritePathState::Completed
}

/// Another completed write path (id other than `id`) covers the same request generation.
pub open spec fn rival_write_path_for(id: BlockWritePathId, request: BlockRequestObjectId, generation: Generation) -> spec_fn(BlockWritePathRecord) -> bool {
    |r: BlockWritePathRecord| r.id != id && r.block_request == request && r.block_request_generation == generation
        && r.state == BlockWritePathState::Completed
}

/// The fake backend a reference names, when it names one.
pub open spec fn backend_named_by(backend: ContractObjectRef) -> spec_fn(FakeBlockBackendObjectRecord) -> bool {
    |b: FakeBlockBackendObjectRecord| backend.kind == ContractObjectKind::FakeBlockBackendObject
        && b.id == backend.id && b.generation == backend.generation
}

/// The event that records `r`.
pub open spec fn block_write_path_event(r: BlockWritePathRecord) -> EventKind {
    EventKind::BlockWritePathRecorded {
        write_path: r.id,
        backend: r.backend,
        block_request: r.block_request,
        block_request_generation: r.block_request_generation,
        block_completion: r.block_completion,
        block_completion_generation: r.block_completion_generation,
        block_device: r.block_device,
        block_device_generation: r.block_device_generation,
        block_range: r.block_range,
        block_range_generation: r.block_range_generation,
        sequence: r.sequence,
        completed_bytes: r.completed_bytes,
        payload_digest: r.payload_digest,
        generation: r.generation,
    }
}

impl SemanticGraph {
    /// The version-1 payload digest that a completed write must carry.
    pub fn expected_block_write_payload_digest_v1(
        deterministic_seed: u64,
        block_device: BlockDeviceObjectId,
        block_device_generation: Generation,
        block_range: BlockRangeObjectId,
        block_range_generation: Generation,
        start_sector: u64,
        sector_count: u64,
        sequence: u64,
        completed_bytes: u64,
    ) -> (r: u64)
        ensures
            r == block_write_payload_digest(deterministic_seed, block_device, block_device_generation,
                block_range, block_range_generation, start_sector, sector_count, sequence, completed_bytes),
            r != 0,
    {
        let mut digest = BLOCK_WRITE_DIGEST_OFFSET_V1 ^ deterministic_seed;
        digest = mix_digest(digest, block_device);
        digest = mix_digest(digest, block_device_generation);
        digest = mix_digest(digest, block_range);
        digest = mix_digest(digest, block_range_generation);
        digest = mix_digest(digest, start_sector);
        digest = mix_digest(digest, sector_count);
        digest = mix_digest(digest, sequence);
        digest = mix_digest(digest, completed_bytes);
        if digest == 0 { 1 } else { digest }
    }

    /// Why recording this write path would be refused, if it would; otherwise the position
    /// of the completion it records.
    pub open spec fn block_write_path_verdict(
        &self,
        write_path: BlockWritePathId,
        backend: ContractObjectRef,
        block_request: BlockRequestObjectId,
        block_request_generation: Generation,
        block_completion: BlockCompletionObjectId,
        block_completion_generation: Generation,
        payload_digest: u64,
    ) -> Result<int, &'static str> {
        if write_path == 0 {
            Err("block write path id=0 is invalid")
        } else if any_match(self.block_write_paths@, write_path_id_is(write_path)) {
            Err("block write path already exists")
        } else if backend.generation == 0 || block_request_generation == 0
            || block_completion_generation == 0 || payload_digest == 0 {
            Err("block write path identity values must be nonzero")
        } else if backend.kind != ContractObjectKind::FakeBlockBackendObject {
            Err("block write path backend kind is unsupported for B8")
        } else {
            match first_match(self.fake_block_backends@, bound_fake_backend_is(backend.id, backend.generation)) {
                None => Err("block write path backend generation is missing or inactive"),
                Some(b) => {
                    let be = self.fake_block_backends@[b];
                    if be.read_only {
                        Err("block write path backend is read-only")
                    } else {
                        match first_match(self.block_request_objects@, request_is(block_request, block_request_generation)) {
                            None => Err("block write path request generation is missing"),
                            Some(q) => {
                                let req = self.block_request_objects@[q];
                                if req.operation != BlockRequestOperation::Write {
                                    Err("block write path request operation is not write")
                                } else if req.state != BlockRequestObjectState::Completed {
                                    Err("block write path request is not completed")
                                } else {
                                    match first_match(self.block_completion_objects@, completion_is(block_completion, block_completion_generation)) {
                                        None => Err("block write path completion generation is missing"),
                                        Some(c) => {
                                            let comp = self.block_completion_objects@[c];
                                            if comp.block_request != req.id || comp.block_request_generation != req.generation
                                                || comp.state != BlockCompletionObjectState::Recorded
                                                || comp.status != BlockCompletionStatus::Success
                                                || comp.completed_bytes != req.byte_len
                                                || comp.sequence != req.sequence
                                                || comp.block_device != req.block_device
                                                || comp.block_device_generation != req.block_device_generation
                                                || comp.block_range != req.block_range
                                                || comp.block_range_generation != req.block_range_generation {
                                                Err("block write path completion does not match write request")
                                            } else if be.block_device != req.block_device
                                                || be.block_device_generation != req.block_device_generation {
                                                Err("block write path backend does not target request block device")
                                            } else {
                                                match first_match(self.block_range_objects@, block_range_is(req.block_range, req.block_range_generation)) {
                                                    None => Err("block write path range generation is missing"),
                                                    Some(g) => {
                                                        let range = self.block_range_objects@[g];
                                                        if payload_digest != block_write_payload_digest(be.deterministic_seed,
                                                            req.block_device, req.block_device_generation, req.block_range,
                                                            req.block_range_generation, range.start_sector, range.sector_count,
                                                            req.sequence, comp.completed_bytes) {
                                                            Err("block write path payload digest mismatch")
                                                        } else if any_match(self.block_write_paths@, completed_write_path_for(req.id, req.generation)) {
                                                            Err("block write path already exists for request generation")
                                                        } else if self.graph_audit() is Err {
                                                            Err("block write path requires invariant-clean graph")
                                                        } else {
                                                            Ok(c)
                                                        }
                                                    },
                                                }
                                            }
                                        },
                                    }
                                }
                            },
                        }
                    }
                },
            }
        }
    }

    /// What an audit finds wrong with write path `r`, if anything.
    pub open spec fn block_write_path_fault(&self, r: BlockWritePathRecord) -> Option<SemanticInvariantError> {
        let invalid = SemanticInvariantError::BlockWritePathInvalid { write_path: r.id };
        match first_match(self.fake_block_backends@, backend_named_by(r.backend)) {
            None => Some(SemanticInvariantError::BlockWritePathMissingBackend { write_path: r.id, backend: r.backend }),
            Some(b) => match first_match(self.block_request_objects@, request_is(r.block_request, r.block_request_generation)) {
                None => Some(SemanticInvariantError::BlockWritePathMissingRequest { write_path: r.id, block_request: r.block_request }),
                Some(q) => match first_match(self.block_completion_objects@, completion_is(r.block_completion, r.block_completion_generation)) {
                    None => Some(SemanticInvariantError::BlockWritePathMissingCompletion {
                        write_path: r.id,
                        block_completion: r.block_completion,
                    }),
                    Some(c) => match first_match(self.block_range_objects@, block_range_is(r.block_range, r.block_range_generation)) {
                        None => Some(invalid),
                        Some(g) => {
                            let be = self.fake_block_backends@[b];
                            let req = self.block_request_objects@[q];
                            let comp = self.block_completion_objects@[c];
                            let range = self.block_range_objects@[g];
                            if r.id == 0 || r.generation == 0 || r.backend.generation == 0
                                || r.block_request_generation == 0 || r.block_completion_generation == 0
                                || r.block_device_generation == 0 || r.block_range_generation == 0
                                || r.sequence == 0 || r.completed_bytes == 0 || r.payload_digest == 0
                                || r.state != BlockWritePathState::Completed
                                || r.backend.kind != ContractObjectKind::FakeBlockBackendObject
                                || be.state != FakeBlockBackendObjectState::Bound || be.read_only
                                || be.block_device != r.block_device
                                || be.block_device_generation != r.block_device_generation
                                || req.operation != BlockRequestOperation::Write
                                || req.state != BlockRequestObjectState::Completed
                                || req.block_device != r.block_device
                                || req.block_device_generation != r.block_device_generation
                                || req.block_range != r.block_range
                                || req.block_range_generation != r.block_range_generation
                                || req.sequence != r.sequence
                                || comp.state != BlockCompletionObjectState::Recorded
                                || comp.status != BlockCompletionStatus::Success
                                || comp.block_request != r.block_request
                                || comp.block_request_generation != r.block_request_generation
                                || comp.block_device != r.block_device
                                || comp.block_device_generation != r.block_device_generation
                                || comp.block_range != r.block_range
                                || comp.block_range_generation != r.block_range_generation
                                || comp.sequence != r.sequence
                                || comp.completed_bytes != r.completed_bytes
                                || comp.completed_bytes != req.byte_len
                                || r.payload_digest != block_write_payload_digest(be.deterministic_seed,
                                    r.block_device, r.block_device_generation, r.block_range,
                                    r.block_range_generation, range.start_sector, range.sector_count,
                                    r.sequence, r.completed_bytes) {
                                Some(invalid)
                            } else {
                                match first_match(self.block_write_paths@, rival_write_path_for(r.id, r.block_request, r.block_request_generation)) {
                                    Some(d) => Some(SemanticInvariantError::BlockWritePathDuplicateRequest {
                                        write_path: self.block_write_paths@[d].id,
                                        block_request: r.block_request,
                                    }),
                                    None => if !has_event_spec(self.event_log.events@, r.recorded_at_event, block_write_path_event(r)) {
                                        Some(SemanticInvariantError::BlockWritePathMissingEvent { write_path: r.id })
                                    } else {
                                        None
                                    },
                                }
                            }
                        },
                    },
                },
            },
        }
    }

    /// Audit verdict of the write path table.
    pub open spec fn block_write_path_audit(&self) -> Result<(), SemanticInvariantError> {
        first_failure(Seq::new(self.block_write_paths@.len(), |i: int| self.block_write_path_fault(self.block_write_paths@[i])))
    }

    pub fn validate_block_write_path(
        &self,
        write_path: BlockWritePathId,
        backend: ContractObjectRef,
        block_request: BlockRequestObjectId,
        block_request_generation: Generation,
        block_completion: BlockCompletionObjectId,
        block_completion_generation: Generation,
        payload_digest: u64,
    ) -> (r: Result<usize, &'static str>)
        ensures
            match r {
                Ok(c) => self.block_write_path_verdict(write_path, backend, block_request, block_request_generation,
                    block_completion, block_completion_generation, payload_digest) == Ok::<int, &'static str>(c as int),
                Err(e) => self.block_write_path_verdict(write_path, backend, block_request, block_request_generation,
                    block_completion, block_completion_generation, payload_digest) == Err::<int, &'static str>(e),
            },
            r matches Ok(c) ==> c < self.block_completion_objects@.len(),
    {
        if write_path == 0 {
            return Err("block write path id=0 is invalid");
        }
        if exists_match(
            &self.block_write_paths,
            |r: &BlockWritePathRecord| -> (b: bool)
                ensures b == write_path_id_is(write_path)(*r)
            { r.id == write_path },
            Ghost(write_path_id_is(write_path)),
        ) {
            return Err("block write path already exists");
        }
        if backend.generation == 0 || block_request_generation == 0 || block_completion_generation == 0
            || payload_digest == 0 {
            return Err("block write path identity values must be nonzero");
        }
        if backend.kind != ContractObjectKind::FakeBlockBackendObject {
            return Err("block write path backend kind is unsupported for B8");
        }
        let Some(b) = self.find_bound_fake_backend(backend.id, backend.generation) else {
            return Err("block write path backend generation is missing or inactive");
        };
        let be = &self.fake_block_backends[b];
        if be.read_only {
            return Err("block write path backend is read-only");
        }
        let Some(q) = self.find_request(block_request, block_request_generation) else {
            return Err("block write path request generation is missing");
        };
        let req = &self.block_request_objects[q];
        if req.operation != BlockRequestOperation::Write {
            return Err("block write path request operation is not write");
        }
        if req.state != BlockRequestObjectState::Completed {
            return Err("block write path request is not completed");
        }
        let Some(c) = self.find_completion(block_completion, block_completion_generation) else {
            return Err("block write path completion generation is missing");
        };
        let comp = &self.block_completion_objects[c];
        if comp.block_request != req.id || comp.block_request_generation != req.generation
            || comp.state != BlockCompletionObjectState::Recorded
            || comp.status != BlockCompletionStatus::Success
            || comp.completed_bytes != req.byte_len
            || comp.sequence != req.sequence
            || comp.block_device != req.block_device
            || comp.block_device_generation != req.block_device_generation
            || comp.block_range != req.block_range
            || comp.block_range_generation != req.block_range_generation {
            return Err("block write path completion does not match write request");
        }
        if be.block_device != req.block_device || be.block_device_generation != req.block_device_generation {
            return Err("block write path backend does not target request block device");
        }
        let Some(g) = self.find_block_range(req.block_range, req.block_range_generation) else {
            return Err("block write path range generation is missing");
        };
        let range = &self.block_range_objects[g];
        let expected = Self::expected_block_write_payload_digest_v1(be.deterministic_seed, req.block_device,
            req.block_device_generation, req.block_range, req.block_range_generation, range.start_sector,
            range.sector_count, req.sequence, comp.completed_bytes);
        if payload_digest != expected {
            return Err("block write path payload digest mismatch");
        }
        let (request_id, request_generation) = (req.id, req.generation);
        if exists_match(
            &self.block_write_paths,
            |r: &BlockWritePathRecord| -> (b: bool)
                ensures b == completed_write_path_for(request_id, request_generation)(*r)
            { r.block_request == request_id && r.block_request_generation == request_generation
                && r.state == BlockWritePathState::Completed },
            Ghost(completed_write_path_for(request_id, request_generation)),
        ) {
            return Err("block write path already exists for request generation");
        }
        if self.check_invariants().is_err() {
            return Err("block write path requires invariant-clean graph");
        }
        Ok(c)
    }
    /// Records a completed write when the graph accepts it; returns whether it did.
    pub fn record_block_write_path_with_id(
        &mut self,
        write_path: BlockWritePathId,
        backend: ContractObjectRef,
        block_request: BlockRequestObjectId,
        block_request_generation: Generation,
        block_completion: BlockCompletionObjectId,
        block_completion_generation: Generation,
        payload_digest: u64,
        note: &str,
    ) -> (ok: bool)
        requires
            old(self).event_log.next_event_id < u64::MAX,
        ensures
            ok == (old(self).block_write_path_verdict(write_path, backend, block_request, block_request_generation,
                block_completion, block_completion_generation, payload_digest) is Ok),
            !ok ==> *final(self) == *old(self),
            ok ==> recorded_block_write_path(*old(self), *final(self), write_path, backend, block_request,
                block_request_generation, block_completion, block_completion_generation, payload_digest, note@),
    {
        let Ok(c) = self.validate_block_write_path(write_path, backend, block_request, block_request_generation,
            block_completion, block_completion_generation, payload_digest) else {
            return false;
        };
        let comp = &self.block_completion_objects[c];
        let (block_device, block_device_generation, block_range, block_range_generation) =
            (comp.block_device, comp.block_device_generation, comp.block_range, comp.block_range_generation);
        let (sequence, completed_bytes) = (comp.sequence, comp.completed_bytes);
        let generation: u64 = 1;
        self.next_block_write_path_id = max_of(self.next_block_write_path_id, succ_saturating(write_path));
        let recorded_at_event = self.event_log.push(
            EventDomain::Block,
            EventKind::BlockWritePathRecorded {
                write_path,
                backend,
                block_request,
                block_request_generation,
                block_completion,
                block_completion_generation,
                block_device,
                block_device_generation,
                block_range,
                block_range_generation,
                sequence,
                completed_bytes,
                payload_digest,
                generation,
            },
        );
        self.block_write_paths.push(BlockWritePathRecord {
            id: write_path,
            backend,
            block_request,
            block_request_generation,
            block_completion,
            block_completion_generation,
            block_device,
            block_device_generation,
            block_range,
            block_range_generation,
            sequence,
            completed_bytes,
            payload_digest,
            generation,
            state: BlockWritePathState::Completed,
            recorded_at_event,
            note: note.to_owned(),
        });
        proof {
            assert(self.block_write_paths@.subrange(0, old(self).block_write_paths@.len() as int)
                =~= old(self).block_write_paths@);
        }
        true
    }

    pub fn block_write_paths(&self) -> (r: &[BlockWritePathRecord])
        ensures
            r@ == self.block_write_paths@,
    {
        self.block_write_paths.as_slice()
    }

    pub fn block_write_path_count(&self) -> (r: usize)
        ensures
            r == self.block_write_paths@.len(),
    {
        self.block_write_paths.len()
    }

    fn block_write_path_fault_of(&self, r: &BlockWritePathRecord) -> (f: Option<SemanticInvariantError>)
        ensures
            f == self.block_write_path_fault(*r),
    {
        let invalid = SemanticInvariantError::BlockWritePathInvalid { write_path: r.id };
        let named = r.backend;
        let Some(b) = find_first(
            &self.fake_block_backends,
            |x: &FakeBlockBackendObjectRecord| -> (m: bool)
                ensures m == backend_named_by(named)(*x)
            { named.kind == ContractObjectKind::FakeBlockBackendObject && x.id == named.id && x.generation == named.generation },
            Ghost(backend_named_by(named)),
        ) else {
            return Some(SemanticInvariantError::BlockWritePathMissingBackend { write_path: r.id, backend: r.backend });
        };
        let Some(q) = self.find_request(r.block_request, r.block_request_generation) else {
            return Some(SemanticInvariantError::BlockWritePathMissingRequest { write_path: r.id, block_request: r.block_request });
        };
        let Some(c) = self.find_completion(r.block_completion, r.block_completion_generation) else {
            return Some(SemanticInvariantError::BlockWritePathMissingCompletion {
                write_path: r.id,
                block_completion: r.block_completion,
            });
        };
        let Some(g) = self.find_block_range(r.block_range, r.block_range_generation) else {
            return Some(invalid);
        };
        let be = &self.fake_block_backends[b];
        let req = &self.block_request_objects[q];
        let comp = &self.block_completion_objects[c];
        let range = &self.block_range_objects[g];
        let expected = Self::expected_block_write_payload_digest_v1(be.deterministic_seed, r.block_device,
            r.block_device_generation, r.block_range, r.block_range_generation, range.start_sector,
            range.sector_count, r.sequence, r.completed_bytes);
        if r.id == 0 || r.generation == 0 || r.backend.generation == 0
            || r.block_request_generation == 0 || r.block_completion_generation == 0
            || r.block_device_generation == 0 || r.block_range_generation == 0
            || r.sequence == 0 || r.completed_bytes == 0 || r.payload_digest == 0
            || r.state != BlockWritePathState::Completed
            || r.backend.kind != ContractObjectKind::FakeBlockBackendObject
            || be.state != FakeBlockBackendObjectState::Bound || be.read_only
            || be.block_device != r.block_device
            || be.block_device_generation != r.block_device_generation
            || req.operation != BlockRequestOperation::Write
            || req.state != BlockRequestObjectState::Completed
            || req.block_device != r.block_device
            || req.block_device_generation != r.block_device_generation
            || req.block_range != r.block_range
            || req.block_range_generation != r.block_range_generation
            || req.sequence != r.sequence
            || comp.state != BlockCompletionObjectState::Recorded
            || comp.status != BlockCompletionStatus::Success
            || comp.block_request != r.block_request
            || comp.block_request_generation != r.block_request_generation
            || comp.block_device != r.block_device
            || comp.block_device_generation != r.block_device_generation
            || comp.block_range != r.block_range
            || comp.block_range_generation != r.block_range_generation
            || comp.sequence != r.sequence
            || comp.completed_bytes != r.completed_bytes
            || comp.completed_bytes != req.byte_len
            || r.payload_digest != expected {
            return Some(invalid);
        }
        let (id, request, request_generation) = (r.id, r.block_request, r.block_request_generation);
        if let Some(d) = find_first(
            &self.block_write_paths,
            |o: &BlockWritePathRecord| -> (m: bool)
                ensures m == rival_write_path_for(id, request, request_generation)(*o)
            { o.id != id && o.block_request == request && o.block_request_generation == request_generation
                && o.state == BlockWritePathState::Completed },
            Ghost(rival_write_path_for(id, request, request_generation)),
        ) {
            return Some(SemanticInvariantError::BlockWritePathDuplicateRequest {
                write_path: self.block_write_paths[d].id,
                block_request: r.block_request,
            });
        }
        let recorded = EventKind::BlockWritePathRecorded {
            write_path: r.id,
            backend: r.backend,
            block_request: r.block_request,
            block_request_generation: r.block_request_generation,
            block_completion: r.block_completion,
            block_completion_generation: r.block_completion_generation,
            block_device: r.block_device,
            block_device_generation: r.block_device_generation,
            block_range: r.block_range,
            block_range_generation: r.block_range_generation,
            sequence: r.sequence,
            completed_bytes: r.completed_bytes,
            payload_digest: r.payload_digest,
            generation: r.generation,
        };
        if !self.event_log.has_event(r.recorded_at_event, recorded) {
            return Some(SemanticInvariantError::BlockWritePathMissingEvent { write_path: r.id });
        }
        None
    }

    /// Audits every write path; the first fault found is returned.
    pub fn check_block_write_path_invariants(&self) -> (r: Result<(), SemanticInvariantError>)
        ensures
            r == self.block_write_path_audit(),
    {
        let ghost faults = Seq::new(self.block_write_paths@.len(), |i: int| self.block_write_path_fault(self.block_write_paths@[i]));
        let mut i: usize = 0;
        while i < self.block_write_paths.len()
            invariant
                i <= self.block_write_paths@.len(),
                faults == Seq::new(self.block_write_paths@.len(), |i: int| self.block_write_path_fault(self.block_write_paths@[i])),
                forall|j: int| 0 <= j < i ==> (#[trigger] faults[j]) is None,
            decreases self.block_write_paths@.len() - i,
        {
            if let Some(e) = self.block_write_path_fault_of(&self.block_write_paths[i]) {
                proof { lemma_first_failure_at(faults, i as int); }
                return Err(e);
            }
            i += 1;
        }
        proof { lemma_first_failure_ok(faults); }
        Ok(())
    }
}

/// `new` is `old` after recording the write path; the completion it records is the one the
/// verdict found.
pub open spec fn recorded_block_write_path(
    old: SemanticGraph,
    new: SemanticGraph,
    write_path: BlockWritePathId,
    backend: ContractObjectRef,
    block_request: BlockRequestObjectId,
    block_request_generation: Generation,
    block_completion: BlockCompletionObjectId,
    block_completion_generation: Generation,
    payload_digest: u64,
    note: Seq<char>,
) -> bool {
    let r = new.block_write_paths@.last();
    let comp = old.block_completion_objects@[old.block_write_path_verdict(write_path, backend, block_request,
        block_request_generation, block_completion, block_completion_generation, payload_digest)->Ok_0];
    &&& new.agrees_except(&old, set![Table::EventLog, Table::BlockWritePaths])
    &&& appended_one(old.block_write_paths@, new.block_write_paths@)
    &&& r.id == write_path && r.backend == backend
    &&& r.block_request == block_request && r.block_request_generation == block_request_generation
    &&& r.block_completion == block_completion && r.block_completion_generation == block_completion_generation
    &&& r.block_device == comp.block_device && r.block_device_generation == comp.block_device_generation
    &&& r.block_range == comp.block_range && r.block_range_generation == comp.block_range_generation
    &&& r.sequence == comp.sequence && r.completed_bytes == comp.completed_bytes
    &&& r.payload_digest == payload_digest && r.generation == 1
    &&& r.state == BlockWritePathState::Completed
    &&& r.recorded_at_event == old.event_log.next_event_id && r.note@ == note
    &&& appended_event(old.event_log, new.event_log, EventDomain::Block, block_write_path_event(r))
    &&& new.next_block_write_path_id == max_u64(old.next_block_write_path_id, saturating_succ(write_path))
}

/// When a write path is accepted (`validate_block_write_path` accepts and the recorder records
/// it exactly then), its id is new and nonzero, and there are: a bound, writable fake backend of the
/// named generation on the request's block device generation; a completed write request of the
/// named generation; a recorded successful completion of the named generation for exactly that
/// request, of its full length and sequence; and the request's block range, whose sectors, with
/// the backend's seed, the request's sequence and the completed bytes, give the payload digest.
pub proof fn lemma_accepted_write_path_is_a_completed_write(
    g: SemanticGraph,
    write_path: BlockWritePathId,
    backend: ContractObjectRef,
    block_request: BlockRequestObjectId,
    block_request_generation: Generation,
    block_completion: BlockCompletionObjectId,
    block_completion_generation: Generation,
    payload_digest: u64,
)
    requires
        g.block_write_path_verdict(write_path, backend, block_request, block_request_generation, block_completion,
            block_completion_generation, payload_digest) is Ok,
    ensures
        write_path != 0,
        payload_digest != 0,
        backend.kind == ContractObjectKind::FakeBlockBackendObject,
        forall|i: int| 0 <= i < g.block_write_paths@.len() ==> (#[trigger] g.block_write_paths@[i]).id != write_path,
        exists|b: int, q: int, c: int, r: int|
            #![trigger g.fake_block_backends@[b], g.block_request_objects@[q], g.block_completion_objects@[c], g.block_range_objects@[r]]
            0 <= b < g.fake_block_backends@.len() && 0 <= q < g.block_request_objects@.len()
            && 0 <= c < g.block_completion_objects@.len() && 0 <= r < g.block_range_objects@.len() && {
            let be = g.fake_block_backends@[b];
            let req = g.block_request_objects@[q];
            let comp = g.block_completion_objects@[c];
            let range = g.block_range_objects@[r];
            &&& be.id == backend.id && be.generation == backend.generation
            &&& be.state == FakeBlockBackendObjectState::Bound && !be.read_only
            &&& req.id == block_request && req.generation == block_request_generation
            &&& req.operation == BlockRequestOperation::Write && req.state == BlockRequestObjectState::Completed
            &&& be.block_device == req.block_device && be.block_device_generation == req.block_device_generation
            &&& comp.id == block_completion && comp.generation == block_completion_generation
            &&& comp.block_request == req.id && comp.block_request_generation == req.generation
            &&& comp.state == BlockCompletionObjectState::Recorded && comp.status == BlockCompletionStatus::Success
            &&& comp.completed_bytes == req.byte_len && comp.sequence == req.sequence
            &&& range.id == req.block_range && range.generation == req.block_range_generation
            &&& payload_digest == block_write_payload_digest(be.deterministic_seed, req.block_device,
                req.block_device_generation, req.block_range, req.block_range_generation, range.start_sector,
                range.sector_count, req.sequence, comp.completed_bytes)
        },
{
    assert forall|i: int| 0 <= i < g.block_write_paths@.len() implies (#[trigger] g.block_write_paths@[i]).id != write_path by {
        if g.block_write_paths@[i].id == write_path {
            assert(write_path_id_is(write_path)(g.block_write_paths@[i]));
        }
    }
    lemma_first_match_facts(g.fake_block_backends@, bound_fake_backend_is(backend.id, backend.generation));
    let b = first_match(g.fake_block_backends@, bound_fake_backend_is(backend.id, backend.generation))->0;
    assert(bound_fake_backend_is(backend.id, backend.generation)(g.fake_block_backends@[b]));
    lemma_first_match_facts(g.block_request_objects@, request_is(block_request, block_request_generation));
    let q = first_match(g.block_request_objects@, request_is(block_request, block_request_generation))->0;
    let req = g.block_request_objects@[q];
    assert(request_is(block_request, block_request_generation)(req));
    lemma_first_match_facts(g.block_completion_objects@, completion_is(block_completion, block_completion_generation));
    let c = first_match(g.block_completion_objects@, completion_is(block_completion, block_completion_generation))->0;
    assert(completion_is(block_completion, block_completion_generation)(g.block_completion_objects@[c]));
    lemma_first_match_facts(g.block_range_objects@, block_range_is(req.block_range, req.block_range_generation));
    let r = first_match(g.block_range_objects@, block_range_is(req.block_range, req.block_range_generation))->0;
    assert(block_range_is(req.block_range, req.block_range_generation)(g.block_range_objects@[r]));
}

} // verus!
