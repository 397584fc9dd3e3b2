use vstd::prelude::*;
use crate::base::{FramebufferFlushRegionRecord, FramebufferWriteRecord};
use crate::errors::SemanticInvariantError;
use crate::events::{appended_one, has_labeled_event_spec, label_views, log_extends, EventDomain, EventKind};
use crate::framebuffer_benchmark::{applied_write_is, flush_is, write_is};
use crate::graph::{SemanticGraph, Table};
use crate::lookup2::store_is;
use crate::search::{
    any_match, exists_match, find_first, first_failure, first_match, lemma_first_failure_at,
    lemma_first_failure_ok, lemma_first_match_facts, max_of, max_u64, saturating_succ, str_eq,
    succ_saturating,
};
use crate::types::{
    FramebufferFlushRegionState, FramebufferWriteState, StoreState,
    DisplayCapabilityId, DisplayObjectId, EventId, FramebufferDirtyRegionId,
    FramebufferDirtyRegionState, FramebufferFlushRegionId, FramebufferObjectId, FramebufferWriteId,
    Generation, StoreId,
};

verus! {

/// A framebuffer rectangle written by a store, dirty until a flush cleans it.
pub struct FramebufferDirtyRegionRecord {
    pub id: FramebufferDirtyRegionId,
    pub owner_store: StoreId,
    pub owner_store_generation: Generation,
    pub framebuffer_write: FramebufferWriteId,
    pub framebuffer_write_generation: Generation,
    pub framebuffer_flush_region: Option<FramebufferFlushRegionId>,
    pub framebuffer_flush_region_generation: Option<Generation>,
    pub display_capability: DisplayCapabilityId,
    pub display_capability_generation: Generation,
    pub display: DisplayObjectId,
    pub display_generation: Generation,
    pub framebuffer: FramebufferObjectId,
    pub framebuffer_generation: Generation,
    pub x: u32,
    pub y: u32,
    pub width: u32,
    pub height: u32,
    pub byte_offset: u64,
    pub byte_len: u64,
    pub pixel_format: String,
    pub payload_digest: u64,
    pub generation: Generation,
    pub state: FramebufferDirtyRegionState,
    pub dirty_at_event: EventId,
    pub cleaned_at_event: Option<EventId>,
    pub recorded_at_event: EventId,
    pub note: String,
}

pub open spec fn dirty_region_id_is(id: FramebufferDirtyRegionId) -> spec_fn(FramebufferDirtyRegionRecord) -> bool {
    |r: FramebufferDirtyRegionRecord| r.id == id
}

/// A dirty region still tracked as dirty for this write generation.
pub open spec fn dirty_region_for_write(write: FramebufferWriteId, generation: Generation) -> spec_fn(FramebufferDirtyRegionRecord) -> bool {
    |r: FramebufferDirtyRegionRecord| r.framebuffer_write == write && r.framebuffer_write_generation == generation
        && r.state == FramebufferDirtyRegionState::Dirty
}

/// An applied flush named by optional id and generation.
pub open spec fn applied_flush_named(id: Option<FramebufferFlushRegionId>, generation: Option<Generation>) -> spec_fn(FramebufferFlushRegionRecord) -> bool {
    |f: FramebufferFlushRegionRecord| Some(f.id) == id && Some(f.generation) == generation
        && f.state == FramebufferFlushRegionState::Applied
}

/// A flush with this id and the optional generation.
pub open spec fn flush_named(id: FramebufferFlushRegionId, generation: Option<Generation>) -> spec_fn(FramebufferFlushRegionRecord) -> bool {
    |f: FramebufferFlushRegionRecord| f.id == id && Some(f.generation) == generation
}

/// The write does not cover this store and rectangle with this content.
pub open spec fn dirty_write_misbound(
    w: FramebufferWriteRecord,
    owner_store: StoreId,
    owner_store_generation: Generation,
    x: u32,
    y: u32,
    width: u32,
    height: u32,
    byte_offset: u64,
    byte_len: u64,
    payload_digest: u64,
) -> bool {
    w.owner_store != owner_store || w.owner_store_generation != owner_store_generation
        || w.x != x || w.y != y || w.width != width || w.height != height
        || w.byte_offset != byte_offset || w.byte_len != byte_len || w.payload_digest != payload_digest
}

/// The flush does not flush exactly this write's rectangle.
pub open spec fn dirty_flush_misbound(
    f: FramebufferFlushRegionRecord,
    w: FramebufferWriteRecord,
    owner_store: StoreId,
    owner_store_generation: Generation,
    framebuffer_write: FramebufferWriteId,
    framebuffer_write_generation: Generation,
    x: u32,
    y: u32,
    width: u32,
    height: u32,
    byte_offset: u64,
    byte_len: u64,
    payload_digest: u64,
) -> bool {
    f.owner_store != owner_store || f.owner_store_generation != owner_store_generation
        || f.framebuffer_write != framebuffer_write || f.framebuffer_write_generation != framebuffer_write_generation
        || f.display_capability != w.display_capability || f.display_capability_generation != w.display_capability_generation
        || f.display != w.display || f.display_generation != w.display_generation
        || f.framebuffer != w.framebuffer || f.framebuffer_generation != w.framebuffer_generation
        || f.x != x || f.y != y || f.width != width || f.height != height
        || f.byte_offset != byte_offset || f.byte_len != byte_len || f.payload_digest != payload_digest
}

/// The numeric part of the event that records `r`.
pub open spec fn dirty_region_event(r: FramebufferDirtyRegionRecord) -> EventKind {
    EventKind::FramebufferDirtyRegionTracked {
        framebuffer_dirty_region: r.id,
        owner_store: r.owner_store,
        owner_store_generation: r.owner_store_generation,
        framebuffer_write: r.framebuffer_write,
        framebuffer_write_generation: r.framebuffer_write_generation,
        framebuffer_flush_region: r.framebuffer_flush_region,
        framebuffer_flush_region_generation: r.framebuffer_flush_region_generation,
        display_capability: r.display_capability,
        display_capability_generation: r.display_capability_generation,
        display: r.display,
        display_generation: r.display_generation,
        framebuffer: r.framebuffer,
        framebuffer_generation: r.framebuffer_generation,
        x: r.x,
        y: r.y,
        width: r.width,
        height: r.height,
        byte_offset: r.byte_offset,
        byte_len: r.byte_len,
        payload_digest: r.payload_digest,
        state: r.state,
        generation: r.generation,
    }
}

/// The text part of the event that records `r`: its pixel format.
pub open spec fn dirty_region_labels(r: FramebufferDirtyRegionRecord) -> Seq<Seq<char>> {
    seq![r.pixel_format@]
}

fn dirty_region_label_vec(r: &FramebufferDirtyRegionRecord) -> (labels: Vec<String>)
    ensures
        label_views(labels@) == dirty_region_labels(*r),
{
    let mut labels: Vec<String> = Vec::new();
    labels.push(r.pixel_format.clone());
    proof {
        assert(label_views(labels@) =~= dirty_region_labels(*r));
    }
    labels
}

impl SemanticGraph {
    /// The checks of a clean region's flush against the write it cleans.
    pub open spec fn dirty_flush_verdict(
        &self,
        w: FramebufferWriteRecord,
        owner_store: StoreId,
        owner_store_generation: Generation,
        framebuffer_write: FramebufferWriteId,
        framebuffer_write_generation: Generation,
        framebuffer_flush_region: Option<FramebufferFlushRegionId>,
        framebuffer_flush_region_generation: Option<Generation>,
        x: u32,
        y: u32,
        width: u32,
        height: u32,
        byte_offset: u64,
        byte_len: u64,
        payload_digest: u64,
    ) -> Result<(), &'static str> {
        match first_match(self.framebuffer_flush_regions@, applied_flush_named(framebuffer_flush_region, framebuffer_flush_region_generation)) {
            None => Err("framebuffer dirty region flush generation is missing"),
            Some(l) => {
                let f = self.framebuffer_flush_regions@[l];
                if dirty_flush_misbound(f, w, owner_store, owner_store_generation, framebuffer_write,
                    framebuffer_write_generation, x, y, width, height, byte_offset, byte_len, payload_digest) {
                    Err("framebuffer dirty region flush binding mismatch")
                } else if f.recorded_at_event <= w.recorded_at_event {
                    Err("framebuffer dirty region flush must follow write event")
                } else {
                    Ok(())
                }
            },
        }
    }

    /// Why tracking this region would be refused, if it would.
    pub open spec fn framebuffer_dirty_region_verdict(
        &self,
        framebuffer_dirty_region: FramebufferDirtyRegionId,
        owner_store: StoreId,
        owner_store_generation: Generation,
        framebuffer_write: FramebufferWriteId,
        framebuffer_write_generation: Generation,
        framebuffer_flush_region: Option<FramebufferFlushRegionId>,
        framebuffer_flush_region_generation: Option<Generation>,
        state: FramebufferDirtyRegionState,
        x: u32,
        y: u32,
        width: u32,
        height: u32,
        byte_offset: u64,
        byte_len: u64,
        payload_digest: u64,
    ) -> Result<(), &'static str> {
        if framebuffer_dirty_region == 0 {
            Err("framebuffer dirty region id=0 is invalid")
        } else if any_match(self.framebuffer_dirty_regions@, dirty_region_id_is(framebuffer_dirty_region)) {
            Err("framebuffer dirty region already exists")
        } else if owner_store_generation == 0 || framebuffer_write_generation == 0 || width == 0
            || height == 0 || byte_len == 0 || payload_digest == 0 {
            Err("framebuffer dirty region identity and region values must be nonzero")
        } else if state == FramebufferDirtyRegionState::Dirty
            && (framebuffer_flush_region is Some || framebuffer_flush_region_generation is Some) {
            Err("dirty framebuffer region cannot carry a flush ref")
        } else if state == FramebufferDirtyRegionState::Clean
            && (framebuffer_flush_region.unwrap_or(0) == 0 || framebuffer_flush_region_generation.unwrap_or(0) == 0) {
            Err("clean framebuffer dirty region requires exact flush ref")
        } else {
            match first_match(self.stores@, store_is(owner_store, owner_store_generation)) {
                None => Err("framebuffer dirty region owner store generation is missing"),
                Some(s) => if self.stores@[s].state == StoreState::Dead {
                    Err("framebuffer dirty region owner store is dead")
                } else {
                    match first_match(self.framebuffer_writes@, applied_write_is(framebuffer_write, framebuffer_write_generation)) {
                        None => Err("framebuffer dirty region write generation is missing"),
                        Some(w) => {
                            let write = self.framebuffer_writes@[w];
                            let flush_verdict = self.dirty_flush_verdict(write, owner_store, owner_store_generation,
                                framebuffer_write, framebuffer_write_generation, framebuffer_flush_region,
                                framebuffer_flush_region_generation, x, y, width, height, byte_offset, byte_len,
                                payload_digest);
                            if dirty_write_misbound(write, owner_store, owner_store_generation, x, y, width, height,
                                byte_offset, byte_len, payload_digest) {
                                Err("framebuffer dirty region write binding mismatch")
                            } else if state == FramebufferDirtyRegionState::Clean && flush_verdict is Err {
                                Err(flush_verdict->Err_0)
                            } else if state == FramebufferDirtyRegionState::Dirty
                                && any_match(self.framebuffer_dirty_regions@, dirty_region_for_write(framebuffer_write,
                                    framebuffer_write_generation)) {
                                Err("dirty framebuffer region already tracked for write generation")
                            } else if self.graph_audit() is Err {
                                Err("framebuffer dirty region requires invariant-clean graph")
                            } else {
                                Ok(())
                            }
                        },
                    }
                },
            }
        }
    }

    /// The flush a region names, or the fault of naming it.
    pub open spec fn dirty_region_flush(&self, r: FramebufferDirtyRegionRecord) -> Result<Option<FramebufferFlushRegionRecord>, SemanticInvariantError> {
        match (r.state, r.framebuffer_flush_region, r.framebuffer_flush_region_generation) {
            (FramebufferDirtyRegionState::Clean, Some(f), Some(g)) => match first_match(self.framebuffer_flush_regions@, flush_is(f, g)) {
                None => Err(SemanticInvariantError::FramebufferDirtyRegionMissingFlush {
                    framebuffer_dirty_region: r.id,
                    framebuffer_flush_region: f,
                }),
                Some(l) => Ok(Some(self.framebuffer_flush_regions@[l])),
            },
            (FramebufferDirtyRegionState::Dirty, None, None) => Ok(None),
            _ => Err(SemanticInvariantError::FramebufferDirtyRegionInvalid { framebuffer_dirty_region: r.id }),
        }
    }

    /// What an audit finds wrong with region `r`, if anything.
    pub open spec fn framebuffer_dirty_region_fault(&self, r: FramebufferDirtyRegionRecord) -> Option<SemanticInvariantError> {
        let invalid = SemanticInvariantError::FramebufferDirtyRegionInvalid { framebuffer_dirty_region: r.id };
        match first_match(self.stores@, store_is(r.owner_store, r.owner_store_generation)) {
            None => Some(SemanticInvariantError::FramebufferDirtyRegionMissingStore { framebuffer_dirty_region: r.id, store: r.owner_store }),
            Some(s) => match first_match(self.framebuffer_writes@, write_is(r.framebuffer_write, r.framebuffer_write_generation)) {
                None => Some(SemanticInvariantError::FramebufferDirtyRegionMissingWrite {
                    framebuffer_dirty_region: r.id,
                    framebuffer_write: r.framebuffer_write,
                }),
                Some(w) => match self.dirty_region_flush(r) {
                    Err(e) => Some(e),
                    Ok(flush) => {
                        let write = self.framebuffer_writes@[w];
                        if r.id == 0 || r.generation == 0 || r.owner_store_generation == 0
                            || r.framebuffer_write_generation == 0 || r.width == 0 || r.height == 0
                            || r.byte_len == 0 || r.pixel_format@.len() == 0 || r.payload_digest == 0
                            || self.stores@[s].state == StoreState::Dead
                            || write.state != FramebufferWriteState::Applied
                            || write.owner_store != r.owner_store || write.owner_store_generation != r.owner_store_generation
                            || write.display_capability != r.display_capability
                            || write.display_capability_generation != r.display_capability_generation
                            || write.display != r.display || write.display_generation != r.display_generation
                            || write.framebuffer != r.framebuffer || write.framebuffer_generation != r.framebuffer_generation
                            || write.x != r.x || write.y != r.y || write.width != r.width || write.height != r.height
                            || write.byte_offset != r.byte_offset || write.byte_len != r.byte_len
                            || write.pixel_format@ != r.pixel_format@ || write.payload_digest != r.payload_digest
                            || write.recorded_at_event != r.dirty_at_event {
                            Some(invalid)
                        } else if flush matches Some(f) && (f.state != FramebufferFlushRegionState::Applied
                            || f.owner_store != r.owner_store || f.owner_store_generation != r.owner_store_generation
                            || f.framebuffer_write != r.framebuffer_write
                            || f.framebuffer_write_generation != r.framebuffer_write_generation
                            || f.display_capability != r.display_capability
                            || f.display_capability_generation != r.display_capability_generation
                            || f.display != r.display || f.display_generation != r.display_generation
                            || f.framebuffer != r.framebuffer || f.framebuffer_generation != r.framebuffer_generation
                            || f.x != r.x || f.y != r.y || f.width != r.width || f.height != r.height
                            || f.byte_offset != r.byte_offset || f.byte_len != r.byte_len
                            || f.pixel_format@ != r.pixel_format@ || f.payload_digest != r.payload_digest
                            || Some(f.recorded_at_event) != r.cleaned_at_event
                            || f.recorded_at_event <= r.dirty_at_event) {
                            Some(invalid)
                        } else if !has_labeled_event_spec(self.event_log.events@, r.recorded_at_event,
                            dirty_region_event(r), dirty_region_labels(r)) {
                            Some(SemanticInvariantError::FramebufferDirtyRegionMissingEvent { framebuffer_dirty_region: r.id })
                        } else {
                            None
                        }
                    },
                },
            },
        }
    }

    /// Audit verdict of the dirty region table.
    pub open spec fn framebuffer_dirty_region_audit(&self) -> Result<(), SemanticInvariantError> {
        first_failure(Seq::new(self.framebuffer_dirty_regions@.len(),
            |i: int| self.framebuffer_dirty_region_fault(self.framebuffer_dirty_regions@[i])))
    }
    fn dirty_flush_ok(
        &self,
        w: usize,
        owner_store: StoreId,
        owner_store_generation: Generation,
        framebuffer_write: FramebufferWriteId,
        framebuffer_write_generation: Generation,
        framebuffer_flush_region: Option<FramebufferFlushRegionId>,
        framebuffer_flush_region_generation: Option<Generation>,
        x: u32,
        y: u32,
        width: u32,
        height: u32,
        byte_offset: u64,
        byte_len: u64,
        payload_digest: u64,
    ) -> (r: Result<(), &'static str>)
        requires
            w < self.framebuffer_writes@.len(),
        ensures
            r == self.dirty_flush_verdict(self.framebuffer_writes@[w as int], owner_store, owner_store_generation,
                framebuffer_write, framebuffer_write_generation, framebuffer_flush_region,
                framebuffer_flush_region_generation, x, y, width, height, byte_offset, byte_len, payload_digest),
    {
        let (fr, fg) = (framebuffer_flush_region, framebuffer_flush_region_generation);
        let Some(l) = find_first(
            &self.framebuffer_flush_regions,
            |f: &FramebufferFlushRegionRecord| -> (b: bool)
                ensures b == applied_flush_named(fr, fg)(*f)
            { Some(f.id) == fr && Some(f.generation) == fg && f.state == FramebufferFlushRegionState::Applied },
            Ghost(applied_flush_named(fr, fg)),
        ) else {
            return Err("framebuffer dirty region flush generation is missing");
        };
        let f = &self.framebuffer_flush_regions[l];
        let write = &self.framebuffer_writes[w];
        if f.owner_store != owner_store || f.owner_store_generation != owner_store_generation
            || f.framebuffer_write != framebuffer_write || f.framebuffer_write_generation != framebuffer_write_generation
            || f.display_capability != write.display_capability || f.display_capability_generation != write.display_capability_generation
            || f.display != write.display || f.display_generation != write.display_generation
            || f.framebuffer != write.framebuffer || f.framebuffer_generation != write.framebuffer_generation
            || f.x != x || f.y != y || f.width != width || f.height != height
            || f.byte_offset != byte_offset || f.byte_len != byte_len || f.payload_digest != payload_digest {
            return Err("framebuffer dirty region flush binding mismatch");
        }
        if f.recorded_at_event <= write.recorded_at_event {
            return Err("framebuffer dirty region flush must follow write event");
        }
        Ok(())
    }

    pub fn validate_framebuffer_dirty_region(
        &self,
        framebuffer_dirty_region: FramebufferDirtyRegionId,
        owner_store: StoreId,
        owner_store_generation: Generation,
        framebuffer_write: FramebufferWriteId,
        framebuffer_write_generation: Generation,
        framebuffer_flush_region: Option<FramebufferFlushRegionId>,
        framebuffer_flush_region_generation: Option<Generation>,
        state: FramebufferDirtyRegionState,
        x: u32,
        y: u32,
        width: u32,
        height: u32,
        byte_offset: u64,
        byte_len: u64,
        payload_digest: u64,
    ) -> (r: Result<(), &'static str>)
        ensures
            r == self.framebuffer_dirty_region_verdict(framebuffer_dirty_region, owner_store, owner_store_generation,
                framebuffer_write, framebuffer_write_generation, framebuffer_flush_region,
                framebuffer_flush_region_generation, state, x, y, width, height, byte_offset, byte_len, payload_digest),
    {
        if framebuffer_dirty_region == 0 {
            return Err("framebuffer dirty region id=0 is invalid");
        }
        if exists_match(
            &self.framebuffer_dirty_regions,
            |r: &FramebufferDirtyRegionRecord| -> (b: bool)
                ensures b == dirty_region_id_is(framebuffer_dirty_region)(*r)
            { r.id == framebuffer_dirty_region },
            Ghost(dirty_region_id_is(framebuffer_dirty_region)),
        ) {
            return Err("framebuffer dirty region already exists");
        }
        if owner_store_generation == 0 || framebuffer_write_generation == 0 || width == 0 || height == 0
            || byte_len == 0 || payload_digest == 0 {
            return Err("framebuffer dirty region identity and region values must be nonzero");
        }
        match state {
            FramebufferDirtyRegionState::Dirty => {
                if framebuffer_flush_region.is_some() || framebuffer_flush_region_generation.is_some() {
                    return Err("dirty framebuffer region cannot carry a flush ref");
                }
            },
            FramebufferDirtyRegionState::Clean => {
                if framebuffer_flush_region.unwrap_or(0) == 0 || framebuffer_flush_region_generation.unwrap_or(0) == 0 {
                    return Err("clean framebuffer dirty region requires exact flush ref");
                }
            },
        }
        let Some(s) = self.find_store(owner_store, owner_store_generation) else {
            return Err("framebuffer dirty region owner store generation is missing");
        };
        if self.stores[s].state == StoreState::Dead {
            return Err("framebuffer dirty region owner store is dead");
        }
        let (wid, wgen) = (framebuffer_write, framebuffer_write_generation);
        let Some(w) = find_first(
            &self.framebuffer_writes,
            |x: &FramebufferWriteRecord| -> (b: bool)
                ensures b == applied_write_is(wid, wgen)(*x)
            { x.id == wid && x.generation == wgen && x.state == FramebufferWriteState::Applied },
            Ghost(applied_write_is(wid, wgen)),
        ) else {
            return Err("framebuffer dirty region write generation is missing");
        };
        let write = &self.framebuffer_writes[w];
        if write.owner_store != owner_store || write.owner_store_generation != owner_store_generation
            || write.x != x || write.y != y || write.width != width || write.height != height
            || write.byte_offset != byte_offset || write.byte_len != byte_len || write.payload_digest != payload_digest {
            return Err("framebuffer dirty region write binding mismatch");
        }
        if state == FramebufferDirtyRegionState::Clean {
            if let Err(e) = self.dirty_flush_ok(w, owner_store, owner_store_generation, framebuffer_write,
                framebuffer_write_generation, framebuffer_flush_region, framebuffer_flush_region_generation,
                x, y, width, height, byte_offset, byte_len, payload_digest) {
                return Err(e);
            }
        }
        if state == FramebufferDirtyRegionState::Dirty && exists_match(
            &self.framebuffer_dirty_regions,
            |r: &FramebufferDirtyRegionRecord| -> (b: bool)
                ensures b == dirty_region_for_write(wid, wgen)(*r)
            { r.framebuffer_write == wid && r.framebuffer_write_generation == wgen && r.state == FramebufferDirtyRegionState::Dirty },
            Ghost(dirty_region_for_write(wid, wgen)),
        ) {
            return Err("dirty framebuffer region already tracked for write generation");
        }
        if self.check_invariants().is_err() {
            return Err("framebuffer dirty region requires invariant-clean graph");
        }
        Ok(())
    }

    /// Tracks a dirty or cleaned framebuffer region when the graph accepts it; returns whether it did.
    pub fn record_framebuffer_dirty_region_with_id(
        &mut self,
        framebuffer_dirty_region: FramebufferDirtyRegionId,
        owner_store: StoreId,
        owner_store_generation: Generation,
        framebuffer_write: FramebufferWriteId,
        framebuffer_write_generation: Generation,
        framebuffer_flush_region: Option<FramebufferFlushRegionId>,
        framebuffer_flush_region_generation: Option<Generation>,
        state: FramebufferDirtyRegionState,
        x: u32,
        y: u32,
        width: u32,
        height: u32,
        byte_offset: u64,
        byte_len: u64,
        payload_digest: u64,
        note: &str,
    ) -> (ok: bool)
        requires
            old(self).event_log.next_event_id < u64::MAX,
        ensures
            ok == (old(self).framebuffer_dirty_region_verdict(framebuffer_dirty_region, owner_store,
                owner_store_generation, framebuffer_write, framebuffer_write_generation, framebuffer_flush_region,
                framebuffer_flush_region_generation, state, x, y, width, height, byte_offset, byte_len,
                payload_digest) is Ok),
            !ok ==> *final(self) == *old(self),
            ok ==> recorded_framebuffer_dirty_region(*old(self), *final(self), framebuffer_dirty_region, owner_store,
                owner_store_generation, framebuffer_write, framebuffer_write_generation, framebuffer_flush_region,
                framebuffer_flush_region_generation, state, x, y, width, height, byte_offset, byte_len,
                payload_digest, note@),
    {
        if self.validate_framebuffer_dirty_region(framebuffer_dirty_region, owner_store, owner_store_generation,
            framebuffer_write, framebuffer_write_generation, framebuffer_flush_region,
            framebuffer_flush_region_generation, state, x, y, width, height, byte_offset, byte_len,
            payload_digest).is_err() {
            return false;
        }
        let (wid, wgen) = (framebuffer_write, framebuffer_write_generation);
        proof {
            lemma_first_match_facts(self.framebuffer_writes@, applied_write_is(wid, wgen));
            let k = first_match(self.framebuffer_writes@, applied_write_is(wid, wgen))->0;
            assert(write_is(wid, wgen)(self.framebuffer_writes@[k]));
            lemma_first_match_facts(self.framebuffer_writes@, write_is(wid, wgen));
        }
        let Some(w) = find_first(
            &self.framebuffer_writes,
            |x: &FramebufferWriteRecord| -> (b: bool)
                ensures b == write_is(wid, wgen)(*x)
            { x.id == wid && x.generation == wgen },
            Ghost(write_is(wid, wgen)),
        ) else {
            return false;
        };
        let cleaned_at_event = match framebuffer_flush_region {
            None => None,
            Some(fid) => {
                let fg = framebuffer_flush_region_generation;
                match find_first(
                    &self.framebuffer_flush_regions,
                    |f: &FramebufferFlushRegionRecord| -> (b: bool)
                        ensures b == flush_named(fid, fg)(*f)
                    { f.id == fid && Some(f.generation) == fg },
                    Ghost(flush_named(fid, fg)),
                ) {
                    None => None,
                    Some(l) => Some(self.framebuffer_flush_regions[l].recorded_at_event),
                }
            },
        };
        let write = &self.framebuffer_writes[w];
        let record = FramebufferDirtyRegionRecord {
            id: framebuffer_dirty_region,
            owner_store,
            owner_store_generation,
            framebuffer_write,
            framebuffer_write_generation,
            framebuffer_flush_region,
            framebuffer_flush_region_generation,
            display_capability: write.display_capability,
            display_capability_generation: write.display_capability_generation,
            display: write.display,
            display_generation: write.display_generation,
            framebuffer: write.framebuffer,
            framebuffer_generation: write.framebuffer_generation,
            x,
            y,
            width,
            height,
            byte_offset,
            byte_len,
            pixel_format: write.pixel_format.clone(),
            payload_digest,
            generation: 1,
            state,
            dirty_at_event: write.recorded_at_event,
            cleaned_at_event,
            recorded_at_event: self.event_log.next_event_id,
            note: note.to_owned(),
        };
        self.next_framebuffer_dirty_region_id = max_of(self.next_framebuffer_dirty_region_id,
            succ_saturating(framebuffer_dirty_region));
        let labels = dirty_region_label_vec(&record);
        self.event_log.push_labeled(
            EventDomain::Display,
            EventKind::FramebufferDirtyRegionTracked {
                framebuffer_dirty_region,
                owner_store,
                owner_store_generation,
                framebuffer_write,
                framebuffer_write_generation,
                framebuffer_flush_region,
                framebuffer_flush_region_generation,
                display_capability: record.display_capability,
                display_capability_generation: record.display_capability_generation,
                display: record.display,
                display_generation: record.display_generation,
                framebuffer: record.framebuffer,
                framebuffer_generation: record.framebuffer_generation,
                x,
                y,
                width,
                height,
                byte_offset,
                byte_len,
                payload_digest,
                state,
                generation: 1,
            },
            labels,
        );
        self.framebuffer_dirty_regions.push(record);
        proof {
            assert(self.framebuffer_dirty_regions@.subrange(0, old(self).framebuffer_dirty_regions@.len() as int)
                =~= old(self).framebuffer_dirty_regions@);
        }
        true
    }

    pub fn framebuffer_dirty_regions(&self) -> (r: &[FramebufferDirtyRegionRecord])
        ensures
            r@ == self.framebuffer_dirty_regions@,
    {
        self.framebuffer_dirty_regions.as_slice()
    }

    pub fn framebuffer_dirty_region_count(&self) -> (r: usize)
        ensures
            r == self.framebuffer_dirty_regions@.len(),
    {
        self.framebuffer_dirty_regions.len()
    }

    fn dirty_region_flush_of(&self, r: &FramebufferDirtyRegionRecord) -> (f: Result<Option<usize>, SemanticInvariantError>)
        ensures
            match f {
                Ok(None) => self.dirty_region_flush(*r) == Ok::<Option<FramebufferFlushRegionRecord>, SemanticInvariantError>(None),
                Ok(Some(l)) => l < self.framebuffer_flush_regions@.len() && self.dirty_region_flush(*r)
                    == Ok::<Option<FramebufferFlushRegionRecord>, SemanticInvariantError>(Some(self.framebuffer_flush_regions@[l as int])),
                Err(e) => self.dirty_region_flush(*r) == Err::<Option<FramebufferFlushRegionRecord>, SemanticInvariantError>(e),
            },
    {
        match (r.state, r.framebuffer_flush_region, r.framebuffer_flush_region_generation) {
            (FramebufferDirtyRegionState::Clean, Some(fid), Some(fg)) => {
                match find_first(
                    &self.framebuffer_flush_regions,
                    |f: &FramebufferFlushRegionRecord| -> (b: bool)
                        ensures b == flush_is(fid, fg)(*f)
                    { f.id == fid && f.generation == fg },
                    Ghost(flush_is(fid, fg)),
                ) {
                    None => Err(SemanticInvariantError::FramebufferDirtyRegionMissingFlush {
                        framebuffer_dirty_region: r.id,
                        framebuffer_flush_region: fid,
                    }),
                    Some(l) => Ok(Some(l)),
                }
            },
            (FramebufferDirtyRegionState::Dirty, None, None) => Ok(None),
            _ => Err(SemanticInvariantError::FramebufferDirtyRegionInvalid { framebuffer_dirty_region: r.id }),
        }
    }

    fn framebuffer_dirty_region_fault_of(&self, r: &FramebufferDirtyRegionRecord) -> (f: Option<SemanticInvariantError>)
        ensures
            f == self.framebuffer_dirty_region_fault(*r),
    {
        let invalid = SemanticInvariantError::FramebufferDirtyRegionInvalid { framebuffer_dirty_region: r.id };
        let Some(s) = self.find_store(r.owner_store, r.owner_store_generation) else {
            return Some(SemanticInvariantError::FramebufferDirtyRegionMissingStore { framebuffer_dirty_region: r.id, store: r.owner_store });
        };
        let (wid, wgen) = (r.framebuffer_write, r.framebuffer_write_generation);
        let Some(w) = find_first(
            &self.framebuffer_writes,
            |x: &FramebufferWriteRecord| -> (b: bool)
                ensures b == write_is(wid, wgen)(*x)
            { x.id == wid && x.generation == wgen },
            Ghost(write_is(wid, wgen)),
        ) else {
            return Some(SemanticInvariantError::FramebufferDirtyRegionMissingWrite {
                framebuffer_dirty_region: r.id,
                framebuffer_write: r.framebuffer_write,
            });
        };
        let flush = match self.dirty_region_flush_of(r) {
            Err(e) => {
                return Some(e);
            },
            Ok(l) => l,
        };
        let write = &self.framebuffer_writes[w];
        if r.id == 0 || r.generation == 0 || r.owner_store_generation == 0
            || r.framebuffer_write_generation == 0 || r.width == 0 || r.height == 0
            || r.byte_len == 0 || r.pixel_format.as_str().is_empty() || r.payload_digest == 0
            || self.stores[s].state == StoreState::Dead
            || write.state != FramebufferWriteState::Applied
            || write.owner_store != r.owner_store || write.owner_store_generation != r.owner_store_generation
            || write.display_capability != r.display_capability
            || write.display_capability_generation != r.display_capability_generation
            || write.display != r.display || write.display_generation != r.display_generation
            || write.framebuffer != r.framebuffer || write.framebuffer_generation != r.framebuffer_generation
            || write.x != r.x || write.y != r.y || write.width != r.width || write.height != r.height
            || write.byte_offset != r.byte_offset || write.byte_len != r.byte_len
            || !str_eq(write.pixel_format.as_str(), r.pixel_format.as_str()) || write.payload_digest != r.payload_digest
            || write.recorded_at_event != r.dirty_at_event {
            return Some(invalid);
        }
        if let Some(l) = flush {
            let f = &self.framebuffer_flush_regions[l];
            if f.state != FramebufferFlushRegionState::Applied
                || f.owner_store != r.owner_store || f.owner_store_generation != r.owner_store_generation
                || f.framebuffer_write != r.framebuffer_write
                || f.framebuffer_write_generation != r.framebuffer_write_generation
                || f.display_capability != r.display_capability
                || f.display_capability_generation != r.display_capability_generation
                || f.display != r.display || f.display_generation != r.display_generation
                || f.framebuffer != r.framebuffer || f.framebuffer_generation != r.framebuffer_generation
                || f.x != r.x || f.y != r.y || f.width != r.width || f.height != r.height
                || f.byte_offset != r.byte_offset || f.byte_len != r.byte_len
                || !str_eq(f.pixel_format.as_str(), r.pixel_format.as_str()) || f.payload_digest != r.payload_digest
                || Some(f.recorded_at_event) != r.cleaned_at_event
                || f.recorded_at_event <= r.dirty_at_event {
                return Some(invalid);
            }
        }
        let region_event = EventKind::FramebufferDirtyRegionTracked {
            framebuffer_dirty_region: r.id,
            owner_store: r.owner_store,
            owner_store_generation: r.owner_store_generation,
            framebuffer_write: r.framebuffer_write,
            framebuffer_write_generation: r.framebuffer_write_generation,
            framebuffer_flush_region: r.framebuffer_flush_region,
            framebuffer_flush_region_generation: r.framebuffer_flush_region_generation,
            display_capability: r.display_capability,
            display_capability_generation: r.display_capability_generation,
            display: r.display,
            display_generation: r.display_generation,
            framebuffer: r.framebuffer,
            framebuffer_generation: r.framebuffer_generation,
            x: r.x,
            y: r.y,
            width: r.width,
            height: r.height,
            byte_offset: r.byte_offset,
            byte_len: r.byte_len,
            payload_digest: r.payload_digest,
            state: r.state,
            generation: r.generation,
        };
        let labels = dirty_region_label_vec(r);
        if !self.event_log.has_labeled_event(r.recorded_at_event, region_event, &labels) {
            return Some(SemanticInvariantError::FramebufferDirtyRegionMissingEvent { framebuffer_dirty_region: r.id });
        }
        None
    }

    /// Audits every dirty region; the first fault found is returned.
    pub fn check_framebuffer_dirty_region_invariants(&self) -> (r: Result<(), SemanticInvariantError>)
        ensures
            r == self.framebuffer_dirty_region_audit(),
    {
        let ghost faults = Seq::new(self.framebuffer_dirty_regions@.len(),
            |i: int| self.framebuffer_dirty_region_fault(self.framebuffer_dirty_regions@[i]));
        let mut i: usize = 0;
        while i < self.framebuffer_dirty_regions.len()
            invariant
                i <= self.framebuffer_dirty_regions@.len(),
                faults == Seq::new(self.framebuffer_dirty_regions@.len(),
                    |i: int| self.framebuffer_dirty_region_fault(self.framebuffer_dirty_regions@[i])),
                forall|j: int| 0 <= j < i ==> (#[trigger] faults[j]) is None,
            decreases self.framebuffer_dirty_regions@.len() - i,
        {
            if let Some(e) = self.framebuffer_dirty_region_fault_of(&self.framebuffer_dirty_regions[i]) {
                proof { lemma_first_failure_at(faults, i as int); }
                return Err(e);
            }
            i += 1;
        }
        proof { lemma_first_failure_ok(faults); }
        Ok(())
    }
}

/// `new` is `old` after tracking the region; the write it copies from is the first with
/// this id and generation, and a named flush supplies the cleaning event.
pub open spec fn recorded_framebuffer_dirty_region(
    old: SemanticGraph,
    new: SemanticGraph,
    framebuffer_dirty_region: FramebufferDirtyRegionId,
    owner_store: StoreId,
    owner_store_generation: Generation,
    framebuffer_write: FramebufferWriteId,
    framebuffer_write_generation: Generation,
    framebuffer_flush_region: Option<FramebufferFlushRegionId>,
    framebuffer_flush_region_generation: Option<Generation>,
    state: FramebufferDirtyRegionState,
    x: u32,
    y: u32,
    width: u32,
    height: u32,
    byte_offset: u64,
    byte_len: u64,
    payload_digest: u64,
    note: Seq<char>,
) -> bool {
    let r = new.framebuffer_dirty_regions@.last();
    let w = old.framebuffer_writes@[first_match(old.framebuffer_writes@, write_is(framebuffer_write, framebuffer_write_generation))->0];
    let e = new.event_log.events@.last();
    &&& new.agrees_except(&old, set![Table::EventLog, Table::FramebufferDirtyRegions])
    &&& appended_one(old.framebuffer_dirty_regions@, new.framebuffer_dirty_regions@)
    &&& r.id == framebuffer_dirty_region && r.owner_store == owner_store
    &&& r.owner_store_generation == owner_store_generation
    &&& r.framebuffer_write == framebuffer_write && r.framebuffer_write_generation == framebuffer_write_generation
    &&& r.framebuffer_flush_region == framebuffer_flush_region
    &&& r.framebuffer_flush_region_generation == framebuffer_flush_region_generation
    &&& r.display_capability == w.display_capability && r.display_capability_generation == w.display_capability_generation
    &&& r.display == w.display && r.display_generation == w.display_generation
    &&& r.framebuffer == w.framebuffer && r.framebuffer_generation == w.framebuffer_generation
    &&& r.x == x && r.y == y && r.width == width && r.height == height
    &&& r.byte_offset == byte_offset && r.byte_len == byte_len && r.pixel_format@ == w.pixel_format@
    &&& r.payload_digest == payload_digest && r.generation == 1 && r.state == state
    &&& r.dirty_at_event == w.recorded_at_event
    &&& r.cleaned_at_event == (match framebuffer_flush_region {
        None => None,
        Some(fid) => match first_match(old.framebuffer_flush_regions@, flush_named(fid, framebuffer_flush_region_generation)) {
            None => None,
            Some(l) => Some(old.framebuffer_flush_regions@[l].recorded_at_event),
        },
    })
    &&& r.recorded_at_event == old.event_log.next_event_id && r.note@ == note
    &&& new.event_log.next_event_id == old.event_log.next_event_id + 1
    &&& new.event_log.events@.len() == old.event_log.events@.len() + 1
    &&& log_extends(old.event_log.events@, new.event_log.events@)
    &&& e.id == old.event_log.next_event_id && e.domain == EventDomain::Display
    &&& e.kind == dirty_region_event(r) && label_views(e.labels@) == dirty_region_labels(r)
    &&& new.next_framebuffer_dirty_region_id == max_u64(old.next_framebuffer_dirty_region_id, saturating_succ(framebuffer_dirty_region))
}

/// When a dirty region is accepted (`validate_framebuffer_dirty_region` accepts and the recorder
/// records it exactly then), its id is new and nonzero; its size, length and digest are nonzero;
/// a dirty region names no flush, a clean one names a nonzero flush id and generation; its owner
/// store generation exists and is not dead; and an applied framebuffer write of the named
/// generation, owned by that store generation, covers exactly its rectangle, bytes and digest.
/// A dirty region is the only one still dirty for its write generation.
pub proof fn lemma_accepted_dirty_region_mirrors_write(
    g: SemanticGraph,
    framebuffer_dirty_region: FramebufferDirtyRegionId,
    owner_store: StoreId,
    owner_store_generation: Generation,
    framebuffer_write: FramebufferWriteId,
    framebuffer_write_generation: Generation,
    framebuffer_flush_region: Option<FramebufferFlushRegionId>,
    framebuffer_flush_region_generation: Option<Generation>,
    state: FramebufferDirtyRegionState,
    x: u32,
    y: u32,
    width: u32,
    height: u32,
    byte_offset: u64,
    byte_len: u64,
    payload_digest: u64,
)
    requires
        g.framebuffer_dirty_region_verdict(framebuffer_dirty_region, owner_store, owner_store_generation,
            framebuffer_write, framebuffer_write_generation, framebuffer_flush_region,
            framebuffer_flush_region_generation, state, x, y, width, height, byte_offset, byte_len,
            payload_digest) is Ok,
    ensures
        framebuffer_dirty_region != 0,
        width != 0 && height != 0 && byte_len != 0 && payload_digest != 0,
        forall|i: int| 0 <= i < g.framebuffer_dirty_regions@.len()
            ==> (#[trigger] g.framebuffer_dirty_regions@[i]).id != framebuffer_dirty_region,
        state == FramebufferDirtyRegionState::Dirty ==> framebuffer_flush_region is None
            && framebuffer_flush_region_generation is None,
        state == FramebufferDirtyRegionState::Clean ==> framebuffer_flush_region is Some
            && framebuffer_flush_region_generation is Some && framebuffer_flush_region->Some_0 != 0
            && framebuffer_flush_region_generation->Some_0 != 0,
        exists|s: int| 0 <= s < g.stores@.len() && (#[trigger] g.stores@[s]).id == owner_store
            && g.stores@[s].generation == owner_store_generation && g.stores@[s].state != StoreState::Dead,
        exists|w: int| 0 <= w < g.framebuffer_writes@.len() && {
            let write = #[trigger] g.framebuffer_writes@[w];
            &&& write.id == framebuffer_write && write.generation == framebuffer_write_generation
            &&& write.state == FramebufferWriteState::Applied
            &&& write.owner_store == owner_store && write.owner_store_generation == owner_store_generation
            &&& write.x == x && write.y == y && write.width == width && write.height == height
            &&& write.byte_offset == byte_offset && write.byte_len == byte_len
            &&& write.payload_digest == payload_digest
        },
        state == FramebufferDirtyRegionState::Dirty ==> forall|i: int| 0 <= i < g.framebuffer_dirty_regions@.len() ==> !({
            let r = #[trigger] g.framebuffer_dirty_regions@[i];
            r.framebuffer_write == framebuffer_write && r.framebuffer_write_generation == framebuffer_write_generation
                && r.state == FramebufferDirtyRegionState::Dirty
        }),
{
    assert forall|i: int| 0 <= i < g.framebuffer_dirty_regions@.len()
        implies (#[trigger] g.framebuffer_dirty_regions@[i]).id != framebuffer_dirty_region by {
        if g.framebuffer_dirty_regions@[i].id == framebuffer_dirty_region {
            assert(dirty_region_id_is(framebuffer_dirty_region)(g.framebuffer_dirty_regions@[i]));
        }
    }
    lemma_first_match_facts(g.stores@, store_is(owner_store, owner_store_generation));
    let s = first_match(g.stores@, store_is(owner_store, owner_store_generation))->0;
    assert(store_is(owner_store, owner_store_generation)(g.stores@[s]));
    lemma_first_match_facts(g.framebuffer_writes@, applied_write_is(framebuffer_write, framebuffer_write_generation));
    let w = first_match(g.framebuffer_writes@, applied_write_is(framebuffer_write, framebuffer_write_generation))->0;
    assert(applied_write_is(framebuffer_write, framebuffer_write_generation)(g.framebuffer_writes@[w]));
    if state == FramebufferDirtyRegionState::Dirty {
        assert forall|i: int| 0 <= i < g.framebuffer_dirty_regions@.len() implies !({
            let r = #[trigger] g.framebuffer_dirty_regions@[i];
            r.framebuffer_write == framebuffer_write && r.framebuffer_write_generation == framebuffer_write_generation
                && r.state == FramebufferDirtyRegionState::Dirty
        }) by {
            if dirty_region_for_write(framebuffer_write, framebuffer_write_generation)(g.framebuffer_dirty_regions@[i]) {
                assert(any_match(g.framebuffer_dirty_regions@, dirty_region_for_write(framebuffer_write,
                    framebuffer_write_generation)));
            }
        }
    }
}

} // verus!
