use vstd::prelude::*;
use crate::base::BlockPageObjectRecord;
use crate::block_range_object::BlockRangeObjectRecord;
use crate::errors::SemanticInvariantError;
use crate::events::{appended_event, appended_one, has_event_spec, EventDomain, EventKind};
use crate::graph::{SemanticGraph, Table};
use crate::lookup2::block_range_is;
use crate::search::{
    any_match, exists_match, find_first, first_failure, first_match, lemma_first_failure_at,
    lemma_first_failure_ok, lemma_first_match_facts, max_of, max_u64, saturating_succ,
    succ_saturating,
};
use crate::types::{
    BlockDeviceObjectId, BlockDmaBufferId, BlockPageObjectId, BlockPageObjectState, BlockRangeObjectId,
    BlockRangeObjectState, BlockRequestOperation, BufferCacheObjectId, BufferCacheObjectState,
    ContractObjectKind, ContractObjectRef, EventId, Generation, GuestAddressSpaceId, VmaRegionId,
};

verus! {

/// The size of a page that cached bytes live in.
pub const BUFFER_CACHE_PAGE_SIZE_V1: u64 = 4096;

/// A cached byte range of a block range, held in an integrated page.
pub struct BufferCacheObjectRecord {
    pub id: BufferCacheObjectId,
    pub block_page_object: BlockPageObjectId,
    pub block_page_object_generation: Generation,
    pub block_dma_buffer: BlockDmaBufferId,
    pub block_dma_buffer_generation: Generation,
    pub block_device: BlockDeviceObjectId,
    pub block_device_generation: Generation,
    pub block_range: BlockRangeObjectId,
    pub block_range_generation: Generation,
    pub aspace: GuestAddressSpaceId,
    pub vma_region: VmaRegionId,
    pub page: ContractObjectRef,
    pub page_dirty_generation: Generation,
    pub page_offset: u64,
    pub block_offset: u64,
    pub byte_len: u64,
    pub operation: BlockRequestOperation,
    pub cache_state: BufferCacheObjectState,
    pub coherency_epoch: u64,
    pub generation: Generation,
    pub state: BufferCacheObjectState,
    pub recorded_at_event: EventId,
    pub note: String,
}

pub open spec fn cache_object_id_is(id: BufferCacheObjectId) -> spec_fn(BufferCacheObjectRecord) -> bool {
    |r: BufferCacheObjectRecord| r.id == id
}

pub open spec fn block_page_is(id: BlockPageObjectId, generation: Generation) -> spec_fn(BlockPageObjectRecord) -> bool {
    |r: BlockPageObjectRecord| r.id == id && r.generation == generation
}

pub open spec fn integrated_block_page_is(id: BlockPageObjectId, generation: Generation) -> spec_fn(BlockPageObjectRecord) -> bool {
    |r: BlockPageObjectRecord| r.id == id && r.generation == generation && r.state == BlockPageObjectState::Integrated
}

pub open spec fn registered_block_range_is(id: BlockRangeObjectId, generation: Generation) -> spec_fn(BlockRangeObjectRecord) -> bool {
    |r: BlockRangeObjectRecord| r.id == id && r.generation == generation && r.state == BlockRangeObjectState::Registered
}

/// A live cache entry (id other than `id`, when given) for this byte range of a block range.
pub open spec fn cached_block_range(
    except: Option<BufferCacheObjectId>,
    block_device: BlockDeviceObjectId,
    block_device_generation: Generation,
    block_range: BlockRangeObjectId,
    block_range_generation: Generation,
    block_offset: u64,
    byte_len: u64,
) -> spec_fn(BufferCacheObjectRecord) -> bool {
    |r: BufferCacheObjectRecord| Some(r.id) != except && r.state != BufferCacheObjectState::Invalidated
        && r.block_device == block_device && r.block_device_generation == block_device_generation
        && r.block_range == block_range && r.block_range_generation == block_range_generation
        && r.block_offset == block_offset && r.byte_len == byte_len
}

/// A live cache entry (id other than `id`, when given) for this byte range of a page.
pub open spec fn cached_page_range(
    except: Option<BufferCacheObjectId>,
    page: ContractObjectRef,
    page_offset: u64,
    byte_len: u64,
) -> spec_fn(BufferCacheObjectRecord) -> bool {
    |r: BufferCacheObjectRecord| Some(r.id) != except && r.state != BufferCacheObjectState::Invalidated
        && r.page == page && r.page_offset == page_offset && r.byte_len == byte_len
}

/// The event that records `r`.
pub open spec fn buffer_cache_object_event(r: BufferCacheObjectRecord) -> EventKind {
    EventKind::BufferCacheObjectRecorded {
        buffer_cache_object: r.id,
        block_page_object: r.block_page_object,
        block_page_object_generation: r.block_page_object_generation,
        block_dma_buffer: r.block_dma_buffer,
        block_dma_buffer_generation: r.block_dma_buffer_generation,
        block_device: r.block_device,
        block_device_generation: r.block_device_generation,
        block_range: r.block_range,
        block_range_generation: r.block_range_generation,
        aspace: r.aspace,
        vma_region: r.vma_region,
        page: r.page,
        page_dirty_generation: r.page_dirty_generation,
        page_offset: r.page_offset,
        block_offset: r.block_offset,
        byte_len: r.byte_len,
        operation: r.operation,
        cache_state: r.cache_state,
        coherency_epoch: r.coherency_epoch,
        generation: r.generation,
    }
}

impl SemanticGraph {
    /// The checks of the byte ranges a cache entry covers, once its page integration `src`
    /// is found.
    pub open spec fn cache_range_verdict(
        &self,
        src: BlockPageObjectRecord,
        block_offset: u64,
        byte_len: u64,
    ) -> Result<(), &'static str> {
        if src.page_offset + byte_len > u64::MAX {
            Err("buffer cache object page byte range overflow")
        } else if byte_len > src.byte_len || src.page_offset + byte_len > BUFFER_CACHE_PAGE_SIZE_V1 {
            Err("buffer cache object byte range exceeds integrated page")
        } else if block_offset + byte_len > u64::MAX {
            Err("buffer cache object block byte range overflow")
        } else {
            match first_match(self.block_range_objects@, registered_block_range_is(src.block_range, src.block_range_generation)) {
                None => Err("buffer cache object block range generation is missing"),
                Some(g) => {
                    let range = self.block_range_objects@[g];
                    if range.block_device != src.block_device || range.block_device_generation != src.block_device_generation
                        || block_offset + byte_len > range.byte_len {
                        Err("buffer cache object block range does not match integration")
                    } else if any_match(self.buffer_cache_objects@, cached_block_range(None, src.block_device,
                        src.block_device_generation, src.block_range, src.block_range_generation, block_offset, byte_len)) {
                        Err("buffer cache object block range already cached")
                    } else if any_match(self.buffer_cache_objects@, cached_page_range(None, src.page, src.page_offset, byte_len)) {
                        Err("buffer cache object page range already cached")
                    } else if self.graph_audit() is Err {
                        Err("buffer cache object requires invariant-clean graph")
                    } else {
                        Ok(())
                    }
                },
            }
        }
    }

    /// Why recording this cache entry would be refused, if it would.
    pub open spec fn buffer_cache_object_verdict(
        &self,
        buffer_cache_object: BufferCacheObjectId,
        block_page_object: BlockPageObjectId,
        block_page_object_generation: Generation,
        page: ContractObjectRef,
        page_dirty_generation: Generation,
        block_offset: u64,
        byte_len: u64,
        cache_state: BufferCacheObjectState,
        coherency_epoch: u64,
    ) -> Result<(), &'static str> {
        if buffer_cache_object == 0 {
            Err("buffer cache object id=0 is invalid")
        } else if any_match(self.buffer_cache_objects@, cache_object_id_is(buffer_cache_object)) {
            Err("buffer cache object already exists")
        } else if block_page_object_generation == 0 || page_dirty_generation == 0 || byte_len == 0
            || coherency_epoch == 0 || page.id == 0 || page.generation == 0 {
            Err("buffer cache object identity values must be nonzero")
        } else if page.kind != ContractObjectKind::PageObject {
            Err("buffer cache object page kind is invalid")
        } else if cache_state == BufferCacheObjectState::Invalidated {
            Err("buffer cache object cannot be recorded as invalidated")
        } else {
            match first_match(self.block_page_objects@, integrated_block_page_is(block_page_object, block_page_object_generation)) {
                None => Err("buffer cache object page integration generation is missing"),
                Some(p) => {
                    let src = self.block_page_objects@[p];
                    if src.page != page || src.page_dirty_generation != page_dirty_generation {
                        Err("buffer cache object page ref does not match integration")
                    } else {
                        self.cache_range_verdict(src, block_offset, byte_len)
                    }
                },
            }
        }
    }

    /// What an audit finds wrong with cache entry `r`, if anything.
    pub open spec fn buffer_cache_object_fault(&self, r: BufferCacheObjectRecord) -> Option<SemanticInvariantError> {
        let invalid = SemanticInvariantError::BufferCacheObjectInvalid { buffer_cache_object: r.id };
        match first_match(self.block_page_objects@, block_page_is(r.block_page_object, r.block_page_object_generation)) {
            None => Some(SemanticInvariantError::BufferCacheObjectMissingBlockPageObject {
                buffer_cache_object: r.id,
                block_page_object: r.block_page_object,
            }),
            Some(p) => match first_match(self.block_range_objects@, block_range_is(r.block_range, r.block_range_generation)) {
                None => Some(invalid),
                Some(g) => {
                    let src = self.block_page_objects@[p];
                    let range = self.block_range_objects@[g];
                    if r.id == 0 || r.generation == 0 || r.block_page_object_generation == 0
                        || r.block_dma_buffer_generation == 0 || r.block_device_generation == 0
                        || r.block_range_generation == 0 || r.page.kind != ContractObjectKind::PageObject
                        || r.page.id == 0 || r.page.generation == 0 || r.page_dirty_generation == 0
                        || r.byte_len == 0 || r.coherency_epoch == 0
                        || r.state == BufferCacheObjectState::Invalidated
                        || r.cache_state == BufferCacheObjectState::Invalidated
                        || src.state != BlockPageObjectState::Integrated
                        || r.block_dma_buffer != src.block_dma_buffer
                        || r.block_dma_buffer_generation != src.block_dma_buffer_generation
                        || r.block_device != src.block_device || r.block_device_generation != src.block_device_generation
                        || r.block_range != src.block_range || r.block_range_generation != src.block_range_generation
                        || r.aspace != src.aspace || r.vma_region != src.vma_region || r.page != src.page
                        || r.page_dirty_generation != src.page_dirty_generation || r.page_offset != src.page_offset
                        || r.operation != src.operation || r.byte_len > src.byte_len
                        || r.page_offset + r.byte_len > BUFFER_CACHE_PAGE_SIZE_V1
                        || range.state != BlockRangeObjectState::Registered
                        || range.block_device != r.block_device || range.block_device_generation != r.block_device_generation
                        || r.block_offset + r.byte_len > range.byte_len {
                        Some(invalid)
                    } else {
                        match first_match(self.buffer_cache_objects@, cached_block_range(Some(r.id), r.block_device,
                            r.block_device_generation, r.block_range, r.block_range_generation, r.block_offset, r.byte_len)) {
                            Some(d) => Some(SemanticInvariantError::BufferCacheObjectDuplicateBlockRange {
                                buffer_cache_object: self.buffer_cache_objects@[d].id,
                                block_range: r.block_range,
                            }),
                            None => match first_match(self.buffer_cache_objects@, cached_page_range(Some(r.id), r.page, r.page_offset, r.byte_len)) {
                                Some(d) => Some(SemanticInvariantError::BufferCacheObjectDuplicatePageRange {
                                    buffer_cache_object: self.buffer_cache_objects@[d].id,
                                    page: r.page,
                                }),
                                None => if !has_event_spec(self.event_log.events@, r.recorded_at_event, buffer_cache_object_event(r)) {
                                    Some(SemanticInvariantError::BufferCacheObjectMissingEvent { buffer_cache_object: r.id })
                                } else {
                                    None
                                },
                            },
                        }
                    }
                },
            },
        }
    }

    /// Audit verdict of the buffer cache table.
    pub open spec fn buffer_cache_object_audit(&self) -> Result<(), SemanticInvariantError> {
        first_failure(Seq::new(self.buffer_cache_objects@.len(), |i: int| self.buffer_cache_object_fault(self.buffer_cache_objects@[i])))
    }

    fn cache_range_ok(&self, p: usize, block_offset: u64, byte_len: u64) -> (r: Result<(), &'static str>)
        requires
            p < self.block_page_objects@.len(),
        ensures
            r == self.cache_range_verdict(self.block_page_objects@[p as int], block_offset, byte_len),
    {
        let src = &self.block_page_objects[p];
        let Some(page_end) = src.page_offset.checked_add(byte_len) else {
            return Err("buffer cache object page byte range overflow");
        };
        if byte_len > src.byte_len || page_end > BUFFER_CACHE_PAGE_SIZE_V1 {
            return Err("buffer cache object byte range exceeds integrated page");
        }
        let Some(range_end) = block_offset.checked_add(byte_len) else {
            return Err("buffer cache object block byte range overflow");
        };
        let (rid, rgen) = (src.block_range, src.block_range_generation);
        let Some(g) = find_first(
            &self.block_range_objects,
            |x: &BlockRangeObjectRecord| -> (b: bool)
                ensures b == registered_block_range_is(rid, rgen)(*x)
            { x.id == rid && x.generation == rgen && x.state == BlockRangeObjectState::Registered },
            Ghost(registered_block_range_is(rid, rgen)),
        ) else {
            return Err("buffer cache object block range generation is missing");
        };
        let range = &self.block_range_objects[g];
        if range.block_device != src.block_device || range.block_device_generation != src.block_device_generation
            || range_end > range.byte_len {
            return Err("buffer cache object block range does not match integration");
        }
        let (bd, bdg, page, page_offset) = (src.block_device, src.block_device_generation, src.page, src.page_offset);
        if exists_match(
            &self.buffer_cache_objects,
            |x: &BufferCacheObjectRecord| -> (b: bool)
                ensures b == cached_block_range(None, bd, bdg, rid, rgen, block_offset, byte_len)(*x)
            {
                x.state != BufferCacheObjectState::Invalidated && x.block_device == bd && x.block_device_generation == bdg
                    && x.block_range == rid && x.block_range_generation == rgen
                    && x.block_offset == block_offset && x.byte_len == byte_len
            },
            Ghost(cached_block_range(None, bd, bdg, rid, rgen, block_offset, byte_len)),
        ) {
            return Err("buffer cache object block range already cached");
        }
        if exists_match(
            &self.buffer_cache_objects,
            |x: &BufferCacheObjectRecord| -> (b: bool)
                ensures b == cached_page_range(None, page, page_offset, byte_len)(*x)
            {
                x.state != BufferCacheObjectState::Invalidated && x.page == page && x.page_offset == page_offset
                    && x.byte_len == byte_len
            },
            Ghost(cached_page_range(None, page, page_offset, byte_len)),
        ) {
            return Err("buffer cache object page range already cached");
        }
        if self.check_invariants().is_err() {
            return Err("buffer cache object requires invariant-clean graph");
        }
        Ok(())
    }

    pub fn validate_buffer_cache_object(
        &self,
        buffer_cache_object: BufferCacheObjectId,
        block_page_object: BlockPageObjectId,
        block_page_object_generation: Generation,
        page: ContractObjectRef,
        page_dirty_generation: Generation,
        block_offset: u64,
        byte_len: u64,
        cache_state: BufferCacheObjectState,
        coherency_epoch: u64,
    ) -> (r: Result<(), &'static str>)
        ensures
            r == self.buffer_cache_object_verdict(buffer_cache_object, block_page_object, block_page_object_generation,
                page, page_dirty_generation, block_offset, byte_len, cache_state, coherency_epoch),
    {
        if buffer_cache_object == 0 {
            return Err("buffer cache object id=0 is invalid");
        }
        if exists_match(
            &self.buffer_cache_objects,
            |x: &BufferCacheObjectRecord| -> (b: bool)
                ensures b == cache_object_id_is(buffer_cache_object)(*x)
            { x.id == buffer_cache_object },
            Ghost(cache_object_id_is(buffer_cache_object)),
        ) {
            return Err("buffer cache object already exists");
        }
        if block_page_object_generation == 0 || page_dirty_generation == 0 || byte_len == 0
            || coherency_epoch == 0 || page.id == 0 || page.generation == 0 {
            return Err("buffer cache object identity values must be nonzero");
        }
        if page.kind != ContractObjectKind::PageObject {
            return Err("buffer cache object page kind is invalid");
        }
        if cache_state == BufferCacheObjectState::Invalidated {
            return Err("buffer cache object cannot be recorded as invalidated");
        }
        let (pid, pgen) = (block_page_object, block_page_object_generation);
        let Some(p) = find_first(
            &self.block_page_objects,
            |x: &BlockPageObjectRecord| -> (b: bool)
                ensures b == integrated_block_page_is(pid, pgen)(*x)
            { x.id == pid && x.generation == pgen && x.state == BlockPageObjectState::Integrated },
            Ghost(integrated_block_page_is(pid, pgen)),
        ) else {
            return Err("buffer cache object page integration generation is missing");
        };
        let src = &self.block_page_objects[p];
        if src.page != page || src.page_dirty_generation != page_dirty_generation {
            return Err("buffer cache object page ref does not match integration");
        }
        self.cache_range_ok(p, block_offset, byte_len)
    }
    /// Records a cache entry when the graph accepts it; returns whether it did.
    pub fn record_buffer_cache_object_with_id(
        &mut self,
        buffer_cache_object: BufferCacheObjectId,
        block_page_object: BlockPageObjectId,
        block_page_object_generation: Generation,
        page: ContractObjectRef,
        page_dirty_generation: Generation,
        block_offset: u64,
        byte_len: u64,
        cache_state: BufferCacheObjectState,
        coherency_epoch: u64,
        note: &str,
    ) -> (ok: bool)
        requires
            old(self).event_log.next_event_id < u64::MAX,
        ensures
            ok == (old(self).buffer_cache_object_verdict(buffer_cache_object, block_page_object,
                block_page_object_generation, page, page_dirty_generation, block_offset, byte_len, cache_state,
                coherency_epoch) is Ok),
            !ok ==> *final(self) == *old(self),
            ok ==> recorded_buffer_cache_object(*old(self), *final(self), buffer_cache_object, block_page_object,
                block_page_object_generation, page_dirty_generation, block_offset, byte_len, cache_state,
                coherency_epoch, note@),
    {
        if self.validate_buffer_cache_object(buffer_cache_object, block_page_object, block_page_object_generation,
            page, page_dirty_generation, block_offset, byte_len, cache_state, coherency_epoch).is_err() {
            return false;
        }
        let (pid, pgen) = (block_page_object, block_page_object_generation);
        proof {
            lemma_first_match_facts(self.block_page_objects@, integrated_block_page_is(pid, pgen));
            let k = first_match(self.block_page_objects@, integrated_block_page_is(pid, pgen))->0;
            assert(block_page_is(pid, pgen)(self.block_page_objects@[k]));
            lemma_first_match_facts(self.block_page_objects@, block_page_is(pid, pgen));
        }
        let Some(p) = find_first(
            &self.block_page_objects,
            |x: &BlockPageObjectRecord| -> (b: bool)
                ensures b == block_page_is(pid, pgen)(*x)
            { x.id == pid && x.generation == pgen },
            Ghost(block_page_is(pid, pgen)),
        ) else {
            return false;
        };
        let src = &self.block_page_objects[p];
        let (block_dma_buffer, block_dma_buffer_generation, block_device, block_device_generation) =
            (src.block_dma_buffer, src.block_dma_buffer_generation, src.block_device, src.block_device_generation);
        let (block_range, block_range_generation, aspace, vma_region) =
            (src.block_range, src.block_range_generation, src.aspace, src.vma_region);
        let (source_page, page_offset, operation) = (src.page, src.page_offset, src.operation);
        let generation: u64 = 1;
        self.next_buffer_cache_object_id = max_of(self.next_buffer_cache_object_id, succ_saturating(buffer_cache_object));
        let recorded_at_event = self.event_log.push(
            EventDomain::Block,
            EventKind::BufferCacheObjectRecorded {
                buffer_cache_object,
                block_page_object,
                block_page_object_generation,
                block_dma_buffer,
                block_dma_buffer_generation,
                block_device,
                block_device_generation,
                block_range,
                block_range_generation,
                aspace,
                vma_region,
                page: source_page,
                page_dirty_generation,
                page_offset,
                block_offset,
                byte_len,
                operation,
                cache_state,
                coherency_epoch,
                generation,
            },
        );
        self.buffer_cache_objects.push(BufferCacheObjectRecord {
            id: buffer_cache_object,
            block_page_object,
            block_page_object_generation,
            block_dma_buffer,
            block_dma_buffer_generation,
            block_device,
            block_device_generation,
            block_range,
            block_range_generation,
            aspace,
            vma_region,
            page: source_page,
            page_dirty_generation,
            page_offset,
            block_offset,
            byte_len,
            operation,
            cache_state,
            coherency_epoch,
            generation,
            state: cache_state,
            recorded_at_event,
            note: note.to_owned(),
        });
        proof {
            assert(self.buffer_cache_objects@.subrange(0, old(self).buffer_cache_objects@.len() as int)
                =~= old(self).buffer_cache_objects@);
        }
        true
    }

    pub fn buffer_cache_objects(&self) -> (r: &[BufferCacheObjectRecord])
        ensures
            r@ == self.buffer_cache_objects@,
    {
        self.buffer_cache_objects.as_slice()
    }

    pub fn buffer_cache_object_count(&self) -> (r: usize)
        ensures
            r == self.buffer_cache_objects@.len(),
    {
        self.buffer_cache_objects.len()
    }

    fn buffer_cache_object_fault_of(&self, r: &BufferCacheObjectRecord) -> (f: Option<SemanticInvariantError>)
        ensures
            f == self.buffer_cache_object_fault(*r),
    {
        let invalid = SemanticInvariantError::BufferCacheObjectInvalid { buffer_cache_object: r.id };
        let (pid, pgen) = (r.block_page_object, r.block_page_object_generation);
        let Some(p) = find_first(
            &self.block_page_objects,
            |x: &BlockPageObjectRecord| -> (b: bool)
                ensures b == block_page_is(pid, pgen)(*x)
            { x.id == pid && x.generation == pgen },
            Ghost(block_page_is(pid, pgen)),
        ) else {
            return Some(SemanticInvariantError::BufferCacheObjectMissingBlockPageObject {
                buffer_cache_object: r.id,
                block_page_object: r.block_page_object,
            });
        };
        let Some(g) = self.find_block_range(r.block_range, r.block_range_generation) else {
            return Some(invalid);
        };
        let src = &self.block_page_objects[p];
        let range = &self.block_range_objects[g];
        let page_end_ok = match r.page_offset.checked_add(r.byte_len) {
            None => false,
            Some(end) => end <= BUFFER_CACHE_PAGE_SIZE_V1,
        };
        let block_end_ok = match r.block_offset.checked_add(r.byte_len) {
            None => false,
            Some(end) => end <= range.byte_len,
        };
        if r.id == 0 || r.generation == 0 || r.block_page_object_generation == 0
            || r.block_dma_buffer_generation == 0 || r.block_device_generation == 0
            || r.block_range_generation == 0 || r.page.kind != ContractObjectKind::PageObject
            || r.page.id == 0 || r.page.generation == 0 || r.page_dirty_generation == 0
            || r.byte_len == 0 || r.coherency_epoch == 0
            || r.state == BufferCacheObjectState::Invalidated
            || r.cache_state == BufferCacheObjectState::Invalidated
            || src.state != BlockPageObjectState::Integrated
            || r.block_dma_buffer != src.block_dma_buffer
            || r.block_dma_buffer_generation != src.block_dma_buffer_generation
            || r.block_device != src.block_device || r.block_device_generation != src.block_device_generation
            || r.block_range != src.block_range || r.block_range_generation != src.block_range_generation
            || r.aspace != src.aspace || r.vma_region != src.vma_region || r.page != src.page
            || r.page_dirty_generation != src.page_dirty_generation || r.page_offset != src.page_offset
            || r.operation != src.operation || r.byte_len > src.byte_len
            || !page_end_ok
            || range.state != BlockRangeObjectState::Registered
            || range.block_device != r.block_device || range.block_device_generation != r.block_device_generation
            || !block_end_ok {
            return Some(invalid);
        }
        let (id, bd, bdg, rid, rgen, off, len) = (r.id, r.block_device, r.block_device_generation, r.block_range,
            r.block_range_generation, r.block_offset, r.byte_len);
        if let Some(d) = find_first(
            &self.buffer_cache_objects,
            |x: &BufferCacheObjectRecord| -> (b: bool)
                ensures b == cached_block_range(Some(id), bd, bdg, rid, rgen, off, len)(*x)
            {
                Some(x.id) != Some(id) && x.state != BufferCacheObjectState::Invalidated && x.block_device == bd
                    && x.block_device_generation == bdg && x.block_range == rid && x.block_range_generation == rgen
                    && x.block_offset == off && x.byte_len == len
            },
            Ghost(cached_block_range(Some(id), bd, bdg, rid, rgen, off, len)),
        ) {
            return Some(SemanticInvariantError::BufferCacheObjectDuplicateBlockRange {
                buffer_cache_object: self.buffer_cache_objects[d].id,
                block_range: r.block_range,
            });
        }
        let (page, page_offset) = (r.page, r.page_offset);
        if let Some(d) = find_first(
            &self.buffer_cache_objects,
            |x: &BufferCacheObjectRecord| -> (b: bool)
                ensures b == cached_page_range(Some(id), page, page_offset, len)(*x)
            {
                Some(x.id) != Some(id) && x.state != BufferCacheObjectState::Invalidated && x.page == page
                    && x.page_offset == page_offset && x.byte_len == len
            },
            Ghost(cached_page_range(Some(id), page, page_offset, len)),
        ) {
            return Some(SemanticInvariantError::BufferCacheObjectDuplicatePageRange {
                buffer_cache_object: self.buffer_cache_objects[d].id,
                page: r.page,
            });
        }
        let recorded = EventKind::BufferCacheObjectRecorded {
            buffer_cache_object: r.id,
            block_page_object: r.block_page_object,
            block_page_object_generation: r.block_page_object_generation,
            block_dma_buffer: r.block_dma_buffer,
            block_dma_buffer_generation: r.block_dma_buffer_generation,
            block_device: r.block_device,
            block_device_generation: r.block_device_generation,
            block_range: r.block_range,
            block_range_generation: r.block_range_generation,
            aspace: r.aspace,
            vma_region: r.vma_region,
            page: r.page,
            page_dirty_generation: r.page_dirty_generation,
            page_offset: r.page_offset,
            block_offset: r.block_offset,
            byte_len: r.byte_len,
            operation: r.operation,
            cache_state: r.cache_state,
            coherency_epoch: r.coherency_epoch,
            generation: r.generation,
        };
        if !self.event_log.has_event(r.recorded_at_event, recorded) {
            return Some(SemanticInvariantError::BufferCacheObjectMissingEvent { buffer_cache_object: r.id });
        }
        None
    }

    /// Audits every cache entry; the first fault found is returned.
    pub fn check_buffer_cache_object_invariants(&self) -> (r: Result<(), SemanticInvariantError>)
        ensures
            r == self.buffer_cache_object_audit(),
    {
        let ghost faults = Seq::new(self.buffer_cache_objects@.len(), |i: int| self.buffer_cache_object_fault(self.buffer_cache_objects@[i]));
        let mut i: usize = 0;
        while i < self.buffer_cache_objects.len()
            invariant
                i <= self.buffer_cache_objects@.len(),
                faults == Seq::new(self.buffer_cache_objects@.len(), |i: int| self.buffer_cache_object_fault(self.buffer_cache_objects@[i])),
                forall|j: int| 0 <= j < i ==> (#[trigger] faults[j]) is None,
            decreases self.buffer_cache_objects@.len() - i,
        {
            if let Some(e) = self.buffer_cache_object_fault_of(&self.buffer_cache_objects[i]) {
                proof { lemma_first_failure_at(faults, i as int); }
                return Err(e);
            }
            i += 1;
        }
        proof { lemma_first_failure_ok(faults); }
        Ok(())
    }
}

/// `new` is `old` after recording the cache entry; the page integration it copies from is
/// the first with this id and generation.
pub open spec fn recorded_buffer_cache_object(
    old: SemanticGraph,
    new: SemanticGraph,
    buffer_cache_object: BufferCacheObjectId,
    block_page_object: BlockPageObjectId,
    block_page_object_generation: Generation,
    page_dirty_generation: Generation,
    block_offset: u64,
    byte_len: u64,
    cache_state: BufferCacheObjectState,
    coherency_epoch: u64,
    note: Seq<char>,
) -> bool {
    let r = new.buffer_cache_objects@.last();
    let src = old.block_page_objects@[first_match(old.block_page_objects@, block_page_is(block_page_object, block_page_object_generation))->0];
    &&& new.agrees_except(&old, set![Table::EventLog, Table::BufferCacheObjects])
    &&& appended_one(old.buffer_cache_objects@, new.buffer_cache_objects@)
    &&& r.id == buffer_cache_object && r.block_page_object == block_page_object
    &&& r.block_page_object_generation == block_page_object_generation
    &&& r.block_dma_buffer == src.block_dma_buffer && r.block_dma_buffer_generation == src.block_dma_buffer_generation
    &&& r.block_device == src.block_device && r.block_device_generation == src.block_device_generation
    &&& r.block_range == src.block_range && r.block_range_generation == src.block_range_generation
    &&& r.aspace == src.aspace && r.vma_region == src.vma_region && r.page == src.page
    &&& r.page_dirty_generation == page_dirty_generation && r.page_offset == src.page_offset
    &&& r.block_offset == block_offset && r.byte_len == byte_len && r.operation == src.operation
    &&& r.cache_state == cache_state && r.coherency_epoch == coherency_epoch && r.generation == 1
    &&& r.state == cache_state && r.recorded_at_event == old.event_log.next_event_id && r.note@ == note
    &&& appended_event(old.event_log, new.event_log, EventDomain::Block, buffer_cache_object_event(r))
    &&& new.next_buffer_cache_object_id == max_u64(old.next_buffer_cache_object_id, saturating_succ(buffer_cache_object))
}

/// When a buffer cache object is accepted (`validate_buffer_cache_object` returns `Ok` and the
/// recorder records it exactly then), its id is new and nonzero, its length is nonzero, it is not
/// recorded as invalidated, and there is an integrated block page object of the named id and
/// generation over the same page and dirty generation whose bytes hold it, within one page, and
/// a registered block range of the page object's range generation, on its block device
/// generation, whose bytes hold `block_offset .. block_offset + byte_len`.
pub proof fn lemma_accepted_cache_object_fits_its_range(
    g: SemanticGraph,
    buffer_cache_object: BufferCacheObjectId,
    block_page_object: BlockPageObjectId,
    block_page_object_generation: Generation,
    page: ContractObjectRef,
    page_dirty_generation: Generation,
    block_offset: u64,
    byte_len: u64,
    cache_state: BufferCacheObjectState,
    coherency_epoch: u64,
)
    requires
        g.buffer_cache_object_verdict(buffer_cache_object, block_page_object, block_page_object_generation, page,
            page_dirty_generation, block_offset, byte_len, cache_state, coherency_epoch) is Ok,
    ensures
        buffer_cache_object != 0,
        byte_len != 0,
        cache_state != BufferCacheObjectState::Invalidated,
        forall|i: int| 0 <= i < g.buffer_cache_objects@.len() ==> (#[trigger] g.buffer_cache_objects@[i]).id != buffer_cache_object,
        exists|p: int| 0 <= p < g.block_page_objects@.len() && {
            let src = #[trigger] g.block_page_objects@[p];
            &&& src.id == block_page_object && src.generation == block_page_object_generation
            &&& src.state == BlockPageObjectState::Integrated
            &&& src.page == page && src.page_dirty_generation == page_dirty_generation
            &&& byte_len <= src.byte_len
            &&& src.page_offset + byte_len <= BUFFER_CACHE_PAGE_SIZE_V1
            &&& exists|r: int| 0 <= r < g.block_range_objects@.len() && {
                let range = #[trigger] g.block_range_objects@[r];
                &&& range.id == src.block_range && range.generation == src.block_range_generation
                &&& range.state == BlockRangeObjectState::Registered
                &&& range.block_device == src.block_device
                &&& range.block_device_generation == src.block_device_generation
                &&& block_offset + byte_len <= range.byte_len
            }
        },
{
    assert forall|i: int| 0 <= i < g.buffer_cache_objects@.len() implies (#[trigger] g.buffer_cache_objects@[i]).id != buffer_cache_object by {
        if g.buffer_cache_objects@[i].id == buffer_cache_object {
            assert(cache_object_id_is(buffer_cache_object)(g.buffer_cache_objects@[i]));
        }
    }
    lemma_first_match_facts(g.block_page_objects@, integrated_block_page_is(block_page_object, block_page_object_generation));
    let p = first_match(g.block_page_objects@, integrated_block_page_is(block_page_object, block_page_object_generation))->0;
    let src = g.block_page_objects@[p];
    assert(integrated_block_page_is(block_page_object, block_page_object_generation)(src));
    assert(g.cache_range_verdict(src, block_offset, byte_len) is Ok);
    lemma_first_match_facts(g.block_range_objects@, registered_block_range_is(src.block_range, src.block_range_generation));
    let r = first_match(g.block_range_objects@, registered_block_range_is(src.block_range, src.block_range_generation))->0;
    assert(registered_block_range_is(src.block_range, src.block_range_generation)(g.block_range_objects@[r]));
    assert(block_offset + byte_len <= g.block_range_objects@[r].byte_len);
}

} // verus!
