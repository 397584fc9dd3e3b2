use vstd::prelude::*;
use crate::base::{
    DisplayCapabilityRecord, DisplayEventLogRecord, DisplayObjectRecord, DisplaySnapshotBarrierRecord,
    FramebufferFlushRegionRecord, FramebufferObjectRecord, FramebufferWriteRecord, StoreRecord,
};
use crate::errors::SemanticInvariantError;
use crate::events::{appended_event, appended_one, has_event_spec, EventDomain, EventKind};
use crate::graph::{SemanticGraph, Table};
use crate::lookup2::store_is;
use crate::search::{
    any_match, exists_match, find_first, first_failure, first_match, lemma_first_failure_at,
    lemma_first_failure_ok, lemma_first_match_facts, max_of, max_u64, saturating_succ, str_eq, succ_saturating,
};
use crate::types::{
    ContractObjectKind, ContractObjectRef, DisplayCapabilityId, DisplayCapabilityState,
    DisplayEventLogId, DisplayEventLogState, DisplayObjectId, DisplayObjectState,
    DisplaySnapshotBarrierId, DisplaySnapshotBarrierState, EventId, FramebufferBenchmarkId,
    FramebufferBenchmarkState, FramebufferFlushRegionId, FramebufferFlushRegionState,
    FramebufferObjectId, FramebufferObjectState, FramebufferWriteId, FramebufferWriteState,
    Generation, StoreId, StoreState,
};

verus! {

/// A measured framebuffer write-and-flush benchmark.
pub struct FramebufferBenchmarkRecord {
    pub id: FramebufferBenchmarkId,
    pub scenario: String,
    pub owner_store: StoreId,
    pub owner_store_generation: Generation,
    pub display: DisplayObjectId,
    pub display_generation: Generation,
    pub framebuffer: FramebufferObjectId,
    pub framebuffer_generation: Generation,
    pub display_capability: DisplayCapabilityId,
    pub display_capability_generation: Generation,
    pub framebuffer_write: FramebufferWriteId,
    pub framebuffer_write_generation: Generation,
    pub framebuffer_flush_region: FramebufferFlushRegionId,
    pub framebuffer_flush_region_generation: Generation,
    pub display_event_log: DisplayEventLogId,
    pub display_event_log_generation: Generation,
    pub display_snapshot_barrier: DisplaySnapshotBarrierId,
    pub display_snapshot_barrier_generation: Generation,
    pub sample_frames: u32,
    pub sample_bytes: u64,
    pub frame_area_pixels: u64,
    pub write_nanos: u64,
    pub flush_nanos: u64,
    pub measured_nanos: u64,
    pub budget_nanos: u64,
    pub throughput_bytes_per_sec: u64,
    pub flushes_per_sec_milli: u64,
    pub p50_latency_nanos: u64,
    pub p99_latency_nanos: u64,
    pub generation: Generation,
    pub state: FramebufferBenchmarkState,
    pub recorded_at_event: EventId,
    pub note: String,
}

/// The objects a benchmark is measured against, each by id and generation.
#[derive(Clone, Copy, Debug, PartialEq, Eq, Structural)]
pub struct FramebufferBenchmarkTargets {
    pub owner_store: StoreId,
    pub owner_store_generation: Generation,
    pub display_capability: DisplayCapabilityId,
    pub display_capability_generation: Generation,
    pub framebuffer_write: FramebufferWriteId,
    pub framebuffer_write_generation: Generation,
    pub framebuffer_flush_region: FramebufferFlushRegionId,
    pub framebuffer_flush_region_generation: Generation,
    pub display_event_log: DisplayEventLogId,
    pub display_event_log_generation: Generation,
    pub display_snapshot_barrier: DisplaySnapshotBarrierId,
    pub display_snapshot_barrier_generation: Generation,
}

/// The measured values of a benchmark.
#[derive(Clone, Copy, Debug, PartialEq, Eq, Structural)]
pub struct FramebufferBenchmarkSample {
    pub sample_frames: u32,
    pub sample_bytes: u64,
    pub frame_area_pixels: u64,
    pub write_nanos: u64,
    pub flush_nanos: u64,
    pub measured_nanos: u64,
    pub budget_nanos: u64,
    pub p50_latency_nanos: u64,
    pub p99_latency_nanos: u64,
}

/// Bytes per second over the measured time: `sample_bytes * 10^9 / measured_nanos`,
/// or nothing when the product overflows 64 bits or no time was measured.
pub open spec fn framebuffer_throughput(sample_bytes: u64, measured_nanos: u64) -> Option<u64> {
    if sample_bytes * 1_000_000_000 > u64::MAX || measured_nanos == 0 {
        None
    } else {
        Some(((sample_bytes * 1_000_000_000) / (measured_nanos as int)) as u64)
    }
}

/// Flushes per thousand seconds over the measured time: `sample_frames * 10^12 / measured_nanos`,
/// or nothing when the product overflows 64 bits or no time was measured.
pub open spec fn framebuffer_flush_rate_milli(sample_frames: u32, measured_nanos: u64) -> Option<u64> {
    if sample_frames * 1_000_000_000_000 > u64::MAX || measured_nanos == 0 {
        None
    } else {
        Some(((sample_frames * 1_000_000_000_000) / (measured_nanos as int)) as u64)
    }
}

/// Why the measured values themselves would be refused, if they would.
pub open spec fn benchmark_sample_verdict(m: FramebufferBenchmarkSample) -> Result<(), &'static str> {
    if m.sample_frames == 0 || m.sample_bytes == 0 || m.frame_area_pixels == 0 || m.write_nanos == 0
        || m.flush_nanos == 0 || m.measured_nanos == 0 || m.budget_nanos == 0
        || m.p50_latency_nanos == 0 || m.p99_latency_nanos == 0 {
        Err("framebuffer benchmark metrics require nonzero samples and timing")
    } else if m.write_nanos + m.flush_nanos != m.measured_nanos {
        Err("framebuffer benchmark measured time is not closed")
    } else if m.measured_nanos > m.budget_nanos {
        Err("framebuffer benchmark exceeds latency budget")
    } else if m.p99_latency_nanos < m.p50_latency_nanos || m.p99_latency_nanos > m.measured_nanos {
        Err("framebuffer benchmark latency distribution is invalid")
    } else if framebuffer_throughput(m.sample_bytes, m.measured_nanos) is None
        || framebuffer_flush_rate_milli(m.sample_frames, m.measured_nanos) is None {
        Err("framebuffer benchmark metric overflow")
    } else {
        Ok(())
    }
}

pub open spec fn benchmark_id_is(id: FramebufferBenchmarkId) -> spec_fn(FramebufferBenchmarkRecord) -> bool {
    |r: FramebufferBenchmarkRecord| r.id == id
}

pub open spec fn display_capability_is(id: DisplayCapabilityId, generation: Generation) -> spec_fn(DisplayCapabilityRecord) -> bool {
    |r: DisplayCapabilityRecord| r.id == id && r.generation == generation
}

pub open spec fn display_is(id: DisplayObjectId, generation: Generation) -> spec_fn(DisplayObjectRecord) -> bool {
    |r: DisplayObjectRecord| r.id == id && r.generation == generation
}

pub open spec fn registered_display_is(id: DisplayObjectId, generation: Generation) -> spec_fn(DisplayObjectRecord) -> bool {
    |r: DisplayObjectRecord| r.id == id && r.generation == generation && r.state == DisplayObjectState::Registered
}

pub open spec fn framebuffer_is(id: FramebufferObjectId, generation: Generation) -> spec_fn(FramebufferObjectRecord) -> bool {
    |r: FramebufferObjectRecord| r.id == id && r.generation == generation
}

pub open spec fn registered_framebuffer_is(id: FramebufferObjectId, generation: Generation) -> spec_fn(FramebufferObjectRecord) -> bool {
    |r: FramebufferObjectRecord| r.id == id && r.generation == generation && r.state == FramebufferObjectState::Registered
}

pub open spec fn write_is(id: FramebufferWriteId, generation: Generation) -> spec_fn(FramebufferWriteRecord) -> bool {
    |r: FramebufferWriteRecord| r.id == id && r.generation == generation
}

pub open spec fn applied_write_is(id: FramebufferWriteId, generation: Generation) -> spec_fn(FramebufferWriteRecord) -> bool {
    |r: FramebufferWriteRecord| r.id == id && r.generation == generation && r.state == FramebufferWriteState::Applied
}

pub open spec fn flush_is(id: FramebufferFlushRegionId, generation: Generation) -> spec_fn(FramebufferFlushRegionRecord) -> bool {
    |r: FramebufferFlushRegionRecord| r.id == id && r.generation == generation
}

pub open spec fn applied_flush_is(id: FramebufferFlushRegionId, generation: Generation) -> spec_fn(FramebufferFlushRegionRecord) -> bool {
    |r: FramebufferFlushRegionRecord| r.id == id && r.generation == generation && r.state == FramebufferFlushRegionState::Applied
}

pub open spec fn display_event_log_is(id: DisplayEventLogId, generation: Generation) -> spec_fn(DisplayEventLogRecord) -> bool {
    |r: DisplayEventLogRecord| r.id == id && r.generation == generation
}

pub open spec fn recorded_display_event_log_is(id: DisplayEventLogId, generation: Generation) -> spec_fn(DisplayEventLogRecord) -> bool {
    |r: DisplayEventLogRecord| r.id == id && r.generation == generation && r.state == DisplayEventLogState::Recorded
}

pub open spec fn barrier_is(id: DisplaySnapshotBarrierId, generation: Generation) -> spec_fn(DisplaySnapshotBarrierRecord) -> bool {
    |r: DisplaySnapshotBarrierRecord| r.id == id && r.generation == generation
}

pub open spec fn validated_barrier_is(id: DisplaySnapshotBarrierId, generation: Generation) -> spec_fn(DisplaySnapshotBarrierRecord) -> bool {
    |r: DisplaySnapshotBarrierRecord| r.id == id && r.generation == generation && r.state == DisplaySnapshotBarrierState::Validated
}

/// Some entry of `ops` is the operation `name`.
pub open spec fn has_operation(ops: Seq<String>, name: Seq<char>) -> bool {
    exists|i: int| 0 <= i < ops.len() && (#[trigger] ops[i])@ == name
}

pub fn operations_contain(ops: &Vec<String>, name: &str) -> (b: bool)
    ensures
        b == has_operation(ops@, name@),
{
    let mut i: usize = 0;
    while i < ops.len()
        invariant
            i <= ops@.len(),
            forall|j: int| 0 <= j < i ==> (#[trigger] ops@[j])@ != name@,
        decreases ops@.len() - i,
    {
        if str_eq(ops[i].as_str(), name) {
            proof { assert(ops@[i as int]@ == name@); }
            return true;
        }
        i += 1;
    }
    false
}

/// The write and the flush do not describe the same rectangle of the same binding.
pub open spec fn write_flush_misbound(
    t: FramebufferBenchmarkTargets,
    display: DisplayObjectRecord,
    framebuffer: FramebufferObjectRecord,
    write: FramebufferWriteRecord,
    flush: FramebufferFlushRegionRecord,
) -> bool {
    write.owner_store != t.owner_store || write.owner_store_generation != t.owner_store_generation
        || write.display_capability != t.display_capability
        || write.display_capability_generation != t.display_capability_generation
        || write.display != display.id || write.display_generation != display.generation
        || write.framebuffer != framebuffer.id || write.framebuffer_generation != framebuffer.generation
        || flush.owner_store != t.owner_store || flush.owner_store_generation != t.owner_store_generation
        || flush.framebuffer_write != write.id || flush.framebuffer_write_generation != write.generation
        || flush.display_capability != t.display_capability
        || flush.display_capability_generation != t.display_capability_generation
        || flush.display != display.id || flush.display_generation != display.generation
        || flush.framebuffer != framebuffer.id || flush.framebuffer_generation != framebuffer.generation
        || flush.x != write.x || flush.y != write.y || flush.width != write.width
        || flush.height != write.height || flush.byte_offset != write.byte_offset
        || flush.byte_len != write.byte_len || flush.pixel_format@ != write.pixel_format@
        || flush.payload_digest != write.payload_digest
}

/// The display event log does not cover this binding and these frames.
pub open spec fn event_log_misbound(
    t: FramebufferBenchmarkTargets,
    m: FramebufferBenchmarkSample,
    display: DisplayObjectRecord,
    framebuffer: FramebufferObjectRecord,
    write: FramebufferWriteRecord,
    flush: FramebufferFlushRegionRecord,
    log: DisplayEventLogRecord,
) -> bool {
    log.owner_store != t.owner_store || log.owner_store_generation != t.owner_store_generation
        || log.display_capability != t.display_capability
        || log.display_capability_generation != t.display_capability_generation
        || log.display != display.id || log.display_generation != display.generation
        || log.framebuffer != framebuffer.id || log.framebuffer_generation != framebuffer.generation
        || log.flush_count < m.sample_frames
        || write.recorded_at_event < log.first_event
        || flush.recorded_at_event > log.last_event
}

/// The snapshot barrier is not over this binding, or the display is not quiescent under it.
pub open spec fn barrier_not_quiescent(
    t: FramebufferBenchmarkTargets,
    display: DisplayObjectRecord,
    framebuffer: FramebufferObjectRecord,
    barrier: DisplaySnapshotBarrierRecord,
) -> bool {
    barrier.owner_store != t.owner_store || barrier.owner_store_generation != t.owner_store_generation
        || barrier.display != display.id || barrier.display_generation != display.generation
        || barrier.framebuffer != framebuffer.id || barrier.framebuffer_generation != framebuffer.generation
        || barrier.active_framebuffer_window_lease_count != 0
        || barrier.active_framebuffer_mapping_count != 0
        || barrier.dirty_framebuffer_region_count != 0
}

/// The references a recorded benchmark must resolve, in the order they are checked.
pub open spec fn benchmark_targets(r: FramebufferBenchmarkRecord) -> Seq<ContractObjectRef> {
    seq![
        ContractObjectRef { kind: ContractObjectKind::Store, id: r.owner_store, generation: r.owner_store_generation },
        ContractObjectRef { kind: ContractObjectKind::DisplayObject, id: r.display, generation: r.display_generation },
        ContractObjectRef { kind: ContractObjectKind::FramebufferObject, id: r.framebuffer, generation: r.framebuffer_generation },
        ContractObjectRef { kind: ContractObjectKind::DisplayCapability, id: r.display_capability, generation: r.display_capability_generation },
        ContractObjectRef { kind: ContractObjectKind::FramebufferWrite, id: r.framebuffer_write, generation: r.framebuffer_write_generation },
        ContractObjectRef { kind: ContractObjectKind::FramebufferFlushRegion, id: r.framebuffer_flush_region, generation: r.framebuffer_flush_region_generation },
        ContractObjectRef { kind: ContractObjectKind::DisplayEventLog, id: r.display_event_log, generation: r.display_event_log_generation },
        ContractObjectRef { kind: ContractObjectKind::DisplaySnapshotBarrier, id: r.display_snapshot_barrier, generation: r.display_snapshot_barrier_generation },
    ]
}

/// The record's own values are inconsistent: a zero identity or measurement, an open
/// time account, a blown budget, derived rates that do not match, or a bad state.
pub open spec fn benchmark_record_invalid(r: FramebufferBenchmarkRecord) -> bool {
    r.id == 0 || r.generation == 0 || r.scenario@.len() == 0 || r.owner_store_generation == 0
        || r.display_generation == 0 || r.framebuffer_generation == 0 || r.display_capability_generation == 0
        || r.framebuffer_write_generation == 0 || r.framebuffer_flush_region_generation == 0
        || r.display_event_log_generation == 0 || r.display_snapshot_barrier_generation == 0
        || r.sample_frames == 0 || r.sample_bytes == 0 || r.frame_area_pixels == 0
        || r.write_nanos == 0 || r.flush_nanos == 0
        || r.write_nanos + r.flush_nanos != r.measured_nanos
        || r.measured_nanos == 0 || r.budget_nanos == 0 || r.measured_nanos > r.budget_nanos
        || framebuffer_throughput(r.sample_bytes, r.measured_nanos) != Some(r.throughput_bytes_per_sec)
        || framebuffer_flush_rate_milli(r.sample_frames, r.measured_nanos) != Some(r.flushes_per_sec_milli)
        || r.p50_latency_nanos == 0 || r.p99_latency_nanos < r.p50_latency_nanos
        || r.p99_latency_nanos > r.measured_nanos || r.state != FramebufferBenchmarkState::Recorded
}

/// The event that records benchmark `r`.
pub open spec fn framebuffer_benchmark_event(r: FramebufferBenchmarkRecord) -> EventKind {
    EventKind::FramebufferBenchmarkRecorded {
        benchmark: r.id,
        owner_store: r.owner_store,
        owner_store_generation: r.owner_store_generation,
        display: r.display,
        display_generation: r.display_generation,
        framebuffer: r.framebuffer,
        framebuffer_generation: r.framebuffer_generation,
        display_capability: r.display_capability,
        display_capability_generation: r.display_capability_generation,
        framebuffer_write: r.framebuffer_write,
        framebuffer_write_generation: r.framebuffer_write_generation,
        framebuffer_flush_region: r.framebuffer_flush_region,
        framebuffer_flush_region_generation: r.framebuffer_flush_region_generation,
        display_event_log: r.display_event_log,
        display_event_log_generation: r.display_event_log_generation,
        display_snapshot_barrier: r.display_snapshot_barrier,
        display_snapshot_barrier_generation: r.display_snapshot_barrier_generation,
        sample_frames: r.sample_frames,
        sample_bytes: r.sample_bytes,
        frame_area_pixels: r.frame_area_pixels,
        write_nanos: r.write_nanos,
        flush_nanos: r.flush_nanos,
        measured_nanos: r.measured_nanos,
        budget_nanos: r.budget_nanos,
        throughput_bytes_per_sec: r.throughput_bytes_per_sec,
        flushes_per_sec_milli: r.flushes_per_sec_milli,
        p50_latency_nanos: r.p50_latency_nanos,
        p99_latency_nanos: r.p99_latency_nanos,
        generation: r.generation,
    }
}

impl SemanticGraph {
    /// Some record of the table its kind names has the reference's id and generation.
    pub open spec fn object_ref_present(&self, target: ContractObjectRef) -> bool {
        match target.kind {
            ContractObjectKind::Store => any_match(self.stores@, store_is(target.id, target.generation)),
            ContractObjectKind::DisplayObject => any_match(self.display_objects@, display_is(target.id, target.generation)),
            ContractObjectKind::FramebufferObject => any_match(self.framebuffer_objects@, framebuffer_is(target.id, target.generation)),
            ContractObjectKind::DisplayCapability => any_match(self.display_capabilities@, display_capability_is(target.id, target.generation)),
            ContractObjectKind::FramebufferWrite => any_match(self.framebuffer_writes@, write_is(target.id, target.generation)),
            ContractObjectKind::FramebufferFlushRegion => any_match(self.framebuffer_flush_regions@, flush_is(target.id, target.generation)),
            ContractObjectKind::DisplayEventLog => any_match(self.display_event_logs@, display_event_log_is(target.id, target.generation)),
            ContractObjectKind::DisplaySnapshotBarrier => any_match(self.display_snapshot_barriers@, barrier_is(target.id, target.generation)),
            _ => false,
        }
    }

    /// A reference of `targets` that names no record.
    pub open spec fn missing_target(&self) -> spec_fn(ContractObjectRef) -> bool {
        |t: ContractObjectRef| !self.object_ref_present(t)
    }

    /// What an audit finds wrong with benchmark `r`, if anything.
    pub open spec fn framebuffer_benchmark_fault(&self, r: FramebufferBenchmarkRecord) -> Option<SemanticInvariantError> {
        let targets = benchmark_targets(r);
        if benchmark_record_invalid(r) {
            Some(SemanticInvariantError::FramebufferBenchmarkInvalid { benchmark: r.id })
        } else {
            match first_match(targets, self.missing_target()) {
                Some(i) => Some(SemanticInvariantError::FramebufferBenchmarkMissingTarget { benchmark: r.id, target: targets[i] }),
                None => match first_match(self.framebuffer_writes@, write_is(r.framebuffer_write, r.framebuffer_write_generation)) {
                    None => Some(SemanticInvariantError::FramebufferBenchmarkMissingTarget { benchmark: r.id, target: targets[4] }),
                    Some(w) => match first_match(self.framebuffer_flush_regions@, flush_is(r.framebuffer_flush_region, r.framebuffer_flush_region_generation)) {
                        None => Some(SemanticInvariantError::FramebufferBenchmarkMissingTarget { benchmark: r.id, target: targets[5] }),
                        Some(l) => match first_match(self.display_event_logs@, display_event_log_is(r.display_event_log, r.display_event_log_generation)) {
                            None => Some(SemanticInvariantError::FramebufferBenchmarkMissingTarget { benchmark: r.id, target: targets[6] }),
                            Some(e) => match first_match(self.display_snapshot_barriers@, barrier_is(r.display_snapshot_barrier, r.display_snapshot_barrier_generation)) {
                                None => Some(SemanticInvariantError::FramebufferBenchmarkMissingTarget { benchmark: r.id, target: targets[7] }),
                                Some(b) => {
                                    let write = self.framebuffer_writes@[w];
                                    let flush = self.framebuffer_flush_regions@[l];
                                    let log = self.display_event_logs@[e];
                                    let barrier = self.display_snapshot_barriers@[b];
                                    if write.state != FramebufferWriteState::Applied
                                        || flush.state != FramebufferFlushRegionState::Applied
                                        || log.state != DisplayEventLogState::Recorded
                                        || barrier.state != DisplaySnapshotBarrierState::Validated
                                        || write.display_capability != r.display_capability
                                        || write.display_capability_generation != r.display_capability_generation
                                        || flush.framebuffer_write != write.id
                                        || flush.framebuffer_write_generation != write.generation
                                        || flush.payload_digest != write.payload_digest
                                        || flush.byte_len * r.sample_frames != r.sample_bytes
                                        || flush.width * flush.height != r.frame_area_pixels
                                        || log.flush_count < r.sample_frames
                                        || barrier.active_framebuffer_window_lease_count != 0
                                        || barrier.active_framebuffer_mapping_count != 0
                                        || barrier.dirty_framebuffer_region_count != 0 {
                                        Some(SemanticInvariantError::FramebufferBenchmarkMetricMismatch { benchmark: r.id })
                                    } else if !has_event_spec(self.event_log.events@, r.recorded_at_event, framebuffer_benchmark_event(r)) {
                                        Some(SemanticInvariantError::FramebufferBenchmarkMissingEvent { benchmark: r.id, event: r.recorded_at_event })
                                    } else {
                                        None
                                    }
                                },
                            },
                        },
                    },
                },
            }
        }
    }

    /// Audit verdict of the benchmark table.
    pub open spec fn framebuffer_benchmark_audit(&self) -> Result<(), SemanticInvariantError> {
        first_failure(Seq::new(self.framebuffer_benchmarks@.len(), |i: int| self.framebuffer_benchmark_fault(self.framebuffer_benchmarks@[i])))
    }

    /// The last checks of a benchmark: its event log window, its snapshot barrier and the
    /// graph's audit.
    pub open spec fn benchmark_log_stage(
        &self,
        t: FramebufferBenchmarkTargets,
        m: FramebufferBenchmarkSample,
        display: DisplayObjectRecord,
        framebuffer: FramebufferObjectRecord,
        write: FramebufferWriteRecord,
        flush: FramebufferFlushRegionRecord,
    ) -> Result<(), &'static str> {
        match first_match(self.display_event_logs@, recorded_display_event_log_is(t.display_event_log, t.display_event_log_generation)) {
            None => Err("framebuffer benchmark display event log generation is missing"),
            Some(e) => if event_log_misbound(t, m, display, framebuffer, write, flush, self.display_event_logs@[e]) {
                Err("framebuffer benchmark event-log binding mismatch")
            } else {
                match first_match(self.display_snapshot_barriers@, validated_barrier_is(t.display_snapshot_barrier,
                    t.display_snapshot_barrier_generation)) {
                    None => Err("framebuffer benchmark snapshot barrier generation is missing"),
                    Some(b) => if barrier_not_quiescent(t, display, framebuffer, self.display_snapshot_barriers@[b]) {
                        Err("framebuffer benchmark snapshot barrier is not quiescent")
                    } else if self.graph_audit() is Err {
                        Err("framebuffer benchmark requires invariant-clean graph")
                    } else {
                        Ok(())
                    },
                }
            },
        }
    }

    /// The checks of a benchmark's write and flush, and of its byte and pixel accounting.
    pub open spec fn benchmark_write_stage(
        &self,
        t: FramebufferBenchmarkTargets,
        m: FramebufferBenchmarkSample,
        display: DisplayObjectRecord,
        framebuffer: FramebufferObjectRecord,
    ) -> Result<(), &'static str> {
        match first_match(self.framebuffer_writes@, applied_write_is(t.framebuffer_write, t.framebuffer_write_generation)) {
            None => Err("framebuffer benchmark write generation is missing"),
            Some(w) => match first_match(self.framebuffer_flush_regions@, applied_flush_is(t.framebuffer_flush_region,
                t.framebuffer_flush_region_generation)) {
                None => Err("framebuffer benchmark flush generation is missing"),
                Some(l) => {
                    let write = self.framebuffer_writes@[w];
                    let flush = self.framebuffer_flush_regions@[l];
                    if write_flush_misbound(t, display, framebuffer, write, flush) {
                        Err("framebuffer benchmark write/flush binding mismatch")
                    } else if flush.byte_len * m.sample_frames > u64::MAX {
                        Err("framebuffer benchmark byte accounting overflow")
                    } else if m.sample_bytes != flush.byte_len * m.sample_frames {
                        Err("framebuffer benchmark byte accounting is not closed")
                    } else if flush.width * flush.height > u64::MAX {
                        Err("framebuffer benchmark pixel accounting overflow")
                    } else if m.frame_area_pixels != flush.width * flush.height {
                        Err("framebuffer benchmark pixel accounting is not closed")
                    } else {
                        self.benchmark_log_stage(t, m, display, framebuffer, write, flush)
                    }
                },
            },
        }
    }

    /// The checks of the display and framebuffer a capability binds.
    pub open spec fn benchmark_display_stage(
        &self,
        t: FramebufferBenchmarkTargets,
        m: FramebufferBenchmarkSample,
        cap: DisplayCapabilityRecord,
    ) -> Result<(), &'static str> {
        match first_match(self.display_objects@, registered_display_is(cap.display, cap.display_generation)) {
            None => Err("framebuffer benchmark display generation is missing"),
            Some(d) => match first_match(self.framebuffer_objects@, registered_framebuffer_is(cap.framebuffer, cap.framebuffer_generation)) {
                None => Err("framebuffer benchmark framebuffer generation is missing"),
                Some(f) => {
                    let display = self.display_objects@[d];
                    let framebuffer = self.framebuffer_objects@[f];
                    if display.framebuffer != framebuffer.id || display.framebuffer_generation != framebuffer.generation {
                        Err("framebuffer benchmark display/framebuffer binding mismatch")
                    } else {
                        self.benchmark_write_stage(t, m, display, framebuffer)
                    }
                },
            },
        }
    }

    /// Why recording this benchmark would be refused, if it would; otherwise the position
    /// of the display capability it was measured through.
    pub open spec fn framebuffer_benchmark_verdict(
        &self,
        benchmark: FramebufferBenchmarkId,
        scenario: Seq<char>,
        t: FramebufferBenchmarkTargets,
        m: FramebufferBenchmarkSample,
    ) -> Result<int, &'static str> {
        if benchmark == 0 {
            Err("framebuffer benchmark id=0 is invalid")
        } else if benchmark == u64::MAX {
            Err("framebuffer benchmark id cannot advance generation cursor")
        } else if any_match(self.framebuffer_benchmarks@, benchmark_id_is(benchmark)) {
            Err("framebuffer benchmark already exists")
        } else if scenario.len() == 0 {
            Err("framebuffer benchmark scenario is empty")
        } else if t.owner_store_generation == 0 || t.display_capability_generation == 0
            || t.framebuffer_write_generation == 0 || t.framebuffer_flush_region_generation == 0
            || t.display_event_log_generation == 0 || t.display_snapshot_barrier_generation == 0 {
            Err("framebuffer benchmark identity values must be nonzero")
        } else if benchmark_sample_verdict(m) is Err {
            Err(benchmark_sample_verdict(m)->Err_0)
        } else {
            match first_match(self.stores@, store_is(t.owner_store, t.owner_store_generation)) {
                None => Err("framebuffer benchmark owner store generation is missing"),
                Some(s) => if self.stores@[s].state == StoreState::Dead {
                    Err("framebuffer benchmark owner store is dead")
                } else {
                    match first_match(self.display_capabilities@, display_capability_is(t.display_capability,
                        t.display_capability_generation)) {
                        None => Err("framebuffer benchmark display capability generation is missing"),
                        Some(c) => {
                            let cap = self.display_capabilities@[c];
                            if cap.owner_store != t.owner_store || cap.owner_store_generation != t.owner_store_generation
                                || !(cap.state == DisplayCapabilityState::Active || cap.state == DisplayCapabilityState::Revoked)
                                || !has_operation(cap.operations@, "lease"@)
                                || !has_operation(cap.operations@, "flush"@) {
                                Err("framebuffer benchmark display capability binding mismatch")
                            } else if self.benchmark_display_stage(t, m, cap) is Err {
                                Err(self.benchmark_display_stage(t, m, cap)->Err_0)
                            } else {
                                Ok(c)
                            }
                        },
                    }
                },
            }
        }
    }

    /// Bytes per second over the measured time, when the arithmetic does not overflow and
    /// some time was measured.
    pub fn derive_framebuffer_throughput_bytes_per_sec(sample_bytes: u64, measured_nanos: u64) -> (r: Option<u64>)
        ensures
            r == framebuffer_throughput(sample_bytes, measured_nanos),
    {
        let Some(scaled) = sample_bytes.checked_mul(1_000_000_000) else {
            return None;
        };
        scaled.checked_div(measured_nanos)
    }

    /// Flushes per thousand seconds over the measured time, when the arithmetic does not
    /// overflow and some time was measured.
    pub fn derive_framebuffer_flushes_per_sec_milli(sample_frames: u32, measured_nanos: u64) -> (r: Option<u64>)
        ensures
            r == framebuffer_flush_rate_milli(sample_frames, measured_nanos),
    {
        let Some(scaled) = (sample_frames as u64).checked_mul(1_000_000_000_000) else {
            return None;
        };
        scaled.checked_div(measured_nanos)
    }

    fn benchmark_log_stage_ok(
        &self,
        t: FramebufferBenchmarkTargets,
        m: FramebufferBenchmarkSample,
        d: usize,
        f: usize,
        w: usize,
        l: usize,
    ) -> (r: Result<(), &'static str>)
        requires
            d < self.display_objects@.len(),
            f < self.framebuffer_objects@.len(),
            w < self.framebuffer_writes@.len(),
            l < self.framebuffer_flush_regions@.len(),
        ensures
            r == self.benchmark_log_stage(t, m, self.display_objects@[d as int], self.framebuffer_objects@[f as int],
                self.framebuffer_writes@[w as int], self.framebuffer_flush_regions@[l as int]),
    {
        let display = &self.display_objects[d];
        let framebuffer = &self.framebuffer_objects[f];
        let write = &self.framebuffer_writes[w];
        let flush = &self.framebuffer_flush_regions[l];
        let (lid, lgen) = (t.display_event_log, t.display_event_log_generation);
        let Some(e) = find_first(
            &self.display_event_logs,
            |x: &DisplayEventLogRecord| -> (b: bool)
                ensures b == recorded_display_event_log_is(lid, lgen)(*x)
            { x.id == lid && x.generation == lgen && x.state == DisplayEventLogState::Recorded },
            Ghost(recorded_display_event_log_is(lid, lgen)),
        ) else {
            return Err("framebuffer benchmark display event log generation is missing");
        };
        let log = &self.display_event_logs[e];
        if log.owner_store != t.owner_store || log.owner_store_generation != t.owner_store_generation
            || log.display_capability != t.display_capability
            || log.display_capability_generation != t.display_capability_generation
            || log.display != display.id || log.display_generation != display.generation
            || log.framebuffer != framebuffer.id || log.framebuffer_generation != framebuffer.generation
            || log.flush_count < m.sample_frames as u64
            || write.recorded_at_event < log.first_event
            || flush.recorded_at_event > log.last_event {
            return Err("framebuffer benchmark event-log binding mismatch");
        }
        let (bid, bgen) = (t.display_snapshot_barrier, t.display_snapshot_barrier_generation);
        let Some(b) = find_first(
            &self.display_snapshot_barriers,
            |x: &DisplaySnapshotBarrierRecord| -> (m: bool)
                ensures m == validated_barrier_is(bid, bgen)(*x)
            { x.id == bid && x.generation == bgen && x.state == DisplaySnapshotBarrierState::Validated },
            Ghost(validated_barrier_is(bid, bgen)),
        ) else {
            return Err("framebuffer benchmark snapshot barrier generation is missing");
        };
        let barrier = &self.display_snapshot_barriers[b];
        if barrier.owner_store != t.owner_store || barrier.owner_store_generation != t.owner_store_generation
            || barrier.display != display.id || barrier.display_generation != display.generation
            || barrier.framebuffer != framebuffer.id || barrier.framebuffer_generation != framebuffer.generation
            || barrier.active_framebuffer_window_lease_count != 0
            || barrier.active_framebuffer_mapping_count != 0
            || barrier.dirty_framebuffer_region_count != 0 {
            return Err("framebuffer benchmark snapshot barrier is not quiescent");
        }
        if self.check_invariants().is_err() {
            return Err("framebuffer benchmark requires invariant-clean graph");
        }
        Ok(())
    }

    fn benchmark_write_stage_ok(
        &self,
        t: FramebufferBenchmarkTargets,
        m: FramebufferBenchmarkSample,
        d: usize,
        f: usize,
    ) -> (r: Result<(), &'static str>)
        requires
            d < self.display_objects@.len(),
            f < self.framebuffer_objects@.len(),
        ensures
            r == self.benchmark_write_stage(t, m, self.display_objects@[d as int], self.framebuffer_objects@[f as int]),
    {
        let (wid, wgen) = (t.framebuffer_write, t.framebuffer_write_generation);
        let Some(w) = find_first(
            &self.framebuffer_writes,
            |x: &FramebufferWriteRecord| -> (b: bool)
                ensures b == applied_write_is(wid, wgen)(*x)
            { x.id == wid && x.generation == wgen && x.state == FramebufferWriteState::Applied },
            Ghost(applied_write_is(wid, wgen)),
        ) else {
            return Err("framebuffer benchmark write generation is missing");
        };
        let (lid, lgen) = (t.framebuffer_flush_region, t.framebuffer_flush_region_generation);
        let Some(l) = find_first(
            &self.framebuffer_flush_regions,
            |x: &FramebufferFlushRegionRecord| -> (b: bool)
                ensures b == applied_flush_is(lid, lgen)(*x)
            { x.id == lid && x.generation == lgen && x.state == FramebufferFlushRegionState::Applied },
            Ghost(applied_flush_is(lid, lgen)),
        ) else {
            return Err("framebuffer benchmark flush generation is missing");
        };
        let display = &self.display_objects[d];
        let framebuffer = &self.framebuffer_objects[f];
        let write = &self.framebuffer_writes[w];
        let flush = &self.framebuffer_flush_regions[l];
        if write.owner_store != t.owner_store || write.owner_store_generation != t.owner_store_generation
            || write.display_capability != t.display_capability
            || write.display_capability_generation != t.display_capability_generation
            || write.display != display.id || write.display_generation != display.generation
            || write.framebuffer != framebuffer.id || write.framebuffer_generation != framebuffer.generation
            || flush.owner_store != t.owner_store || flush.owner_store_generation != t.owner_store_generation
            || flush.framebuffer_write != write.id || flush.framebuffer_write_generation != write.generation
            || flush.display_capability != t.display_capability
            || flush.display_capability_generation != t.display_capability_generation
            || flush.display != display.id || flush.display_generation != display.generation
            || flush.framebuffer != framebuffer.id || flush.framebuffer_generation != framebuffer.generation
            || flush.x != write.x || flush.y != write.y || flush.width != write.width
            || flush.height != write.height || flush.byte_offset != write.byte_offset
            || flush.byte_len != write.byte_len
            || !str_eq(flush.pixel_format.as_str(), write.pixel_format.as_str())
            || flush.payload_digest != write.payload_digest {
            return Err("framebuffer benchmark write/flush binding mismatch");
        }
        let Some(bytes) = flush.byte_len.checked_mul(m.sample_frames as u64) else {
            return Err("framebuffer benchmark byte accounting overflow");
        };
        if m.sample_bytes != bytes {
            return Err("framebuffer benchmark byte accounting is not closed");
        }
        let Some(pixels) = (flush.width as u64).checked_mul(flush.height as u64) else {
            return Err("framebuffer benchmark pixel accounting overflow");
        };
        if m.frame_area_pixels != pixels {
            return Err("framebuffer benchmark pixel accounting is not closed");
        }
        self.benchmark_log_stage_ok(t, m, d, f, w, l)
    }

    fn benchmark_display_stage_ok(
        &self,
        t: FramebufferBenchmarkTargets,
        m: FramebufferBenchmarkSample,
        c: usize,
    ) -> (r: Result<(), &'static str>)
        requires
            c < self.display_capabilities@.len(),
        ensures
            r == self.benchmark_display_stage(t, m, self.display_capabilities@[c as int]),
    {
        let cap = &self.display_capabilities[c];
        let (did, dgen, fid, fgen) = (cap.display, cap.display_generation, cap.framebuffer, cap.framebuffer_generation);
        let Some(d) = find_first(
            &self.display_objects,
            |x: &DisplayObjectRecord| -> (b: bool)
                ensures b == registered_display_is(did, dgen)(*x)
            { x.id == did && x.generation == dgen && x.state == DisplayObjectState::Registered },
            Ghost(registered_display_is(did, dgen)),
        ) else {
            return Err("framebuffer benchmark display generation is missing");
        };
        let Some(f) = find_first(
            &self.framebuffer_objects,
            |x: &FramebufferObjectRecord| -> (b: bool)
                ensures b == registered_framebuffer_is(fid, fgen)(*x)
            { x.id == fid && x.generation == fgen && x.state == FramebufferObjectState::Registered },
            Ghost(registered_framebuffer_is(fid, fgen)),
        ) else {
            return Err("framebuffer benchmark framebuffer generation is missing");
        };
        let display = &self.display_objects[d];
        let framebuffer = &self.framebuffer_objects[f];
        if display.framebuffer != framebuffer.id || display.framebuffer_generation != framebuffer.generation {
            return Err("framebuffer benchmark display/framebuffer binding mismatch");
        }
        self.benchmark_write_stage_ok(t, m, d, f)
    }

    pub fn validate_framebuffer_benchmark(
        &self,
        benchmark: FramebufferBenchmarkId,
        scenario: &str,
        t: FramebufferBenchmarkTargets,
        m: FramebufferBenchmarkSample,
    ) -> (r: Result<usize, &'static str>)
        ensures
            match r {
                Ok(c) => self.framebuffer_benchmark_verdict(benchmark, scenario@, t, m) == Ok::<int, &'static str>(c as int),
                Err(e) => self.framebuffer_benchmark_verdict(benchmark, scenario@, t, m) == Err::<int, &'static str>(e),
            },
            r matches Ok(c) ==> c < self.display_capabilities@.len(),
    {
        if benchmark == 0 {
            return Err("framebuffer benchmark id=0 is invalid");
        }
        if benchmark == u64::MAX {
            return Err("framebuffer benchmark id cannot advance generation cursor");
        }
        if exists_match(
            &self.framebuffer_benchmarks,
            |r: &FramebufferBenchmarkRecord| -> (b: bool)
                ensures b == benchmark_id_is(benchmark)(*r)
            { r.id == benchmark },
            Ghost(benchmark_id_is(benchmark)),
        ) {
            return Err("framebuffer benchmark already exists");
        }
        if scenario.is_empty() {
            return Err("framebuffer benchmark scenario is empty");
        }
        if t.owner_store_generation == 0 || t.display_capability_generation == 0
            || t.framebuffer_write_generation == 0 || t.framebuffer_flush_region_generation == 0
            || t.display_event_log_generation == 0 || t.display_snapshot_barrier_generation == 0 {
            return Err("framebuffer benchmark identity values must be nonzero");
        }
        if m.sample_frames == 0 || m.sample_bytes == 0 || m.frame_area_pixels == 0 || m.write_nanos == 0
            || m.flush_nanos == 0 || m.measured_nanos == 0 || m.budget_nanos == 0
            || m.p50_latency_nanos == 0 || m.p99_latency_nanos == 0 {
            return Err("framebuffer benchmark metrics require nonzero samples and timing");
        }
        if m.write_nanos.checked_add(m.flush_nanos) != Some(m.measured_nanos) {
            return Err("framebuffer benchmark measured time is not closed");
        }
        if m.measured_nanos > m.budget_nanos {
            return Err("framebuffer benchmark exceeds latency budget");
        }
        if m.p99_latency_nanos < m.p50_latency_nanos || m.p99_latency_nanos > m.measured_nanos {
            return Err("framebuffer benchmark latency distribution is invalid");
        }
        if Self::derive_framebuffer_throughput_bytes_per_sec(m.sample_bytes, m.measured_nanos).is_none()
            || Self::derive_framebuffer_flushes_per_sec_milli(m.sample_frames, m.measured_nanos).is_none() {
            return Err("framebuffer benchmark metric overflow");
        }
        let Some(s) = self.find_store(t.owner_store, t.owner_store_generation) else {
            return Err("framebuffer benchmark owner store generation is missing");
        };
        if self.stores[s].state == StoreState::Dead {
            return Err("framebuffer benchmark owner store is dead");
        }
        let (cid, cgen) = (t.display_capability, t.display_capability_generation);
        let Some(c) = find_first(
            &self.display_capabilities,
            |x: &DisplayCapabilityRecord| -> (b: bool)
                ensures b == display_capability_is(cid, cgen)(*x)
            { x.id == cid && x.generation == cgen },
            Ghost(display_capability_is(cid, cgen)),
        ) else {
            return Err("framebuffer benchmark display capability generation is missing");
        };
        let cap = &self.display_capabilities[c];
        let active_or_revoked = match cap.state {
            DisplayCapabilityState::Active | DisplayCapabilityState::Revoked => true,
            _ => false,
        };
        if cap.owner_store != t.owner_store || cap.owner_store_generation != t.owner_store_generation
            || !active_or_revoked
            || !operations_contain(&cap.operations, "lease")
            || !operations_contain(&cap.operations, "flush") {
            return Err("framebuffer benchmark display capability binding mismatch");
        }
        if let Err(e) = self.benchmark_display_stage_ok(t, m, c) {
            return Err(e);
        }
        Ok(c)
    }
    /// The reference itself when some record of the table its kind names has its id and
    /// generation; nothing otherwise.
    fn object_ref_exists(&self, target: ContractObjectRef) -> (r: Option<ContractObjectRef>)
        ensures
            r == (if self.object_ref_present(target) { Some(target) } else { None::<ContractObjectRef> }),
    {
        let (id, generation) = (target.id, target.generation);
        let found = match target.kind {
            ContractObjectKind::Store => exists_match(
                &self.stores,
                |x: &StoreRecord| -> (b: bool) ensures b == store_is(id, generation)(*x) { x.id == id && x.generation == generation },
                Ghost(store_is(id, generation)),
            ),
            ContractObjectKind::DisplayObject => exists_match(
                &self.display_objects,
                |x: &DisplayObjectRecord| -> (b: bool) ensures b == display_is(id, generation)(*x) { x.id == id && x.generation == generation },
                Ghost(display_is(id, generation)),
            ),
            ContractObjectKind::FramebufferObject => exists_match(
                &self.framebuffer_objects,
                |x: &FramebufferObjectRecord| -> (b: bool) ensures b == framebuffer_is(id, generation)(*x) { x.id == id && x.generation == generation },
                Ghost(framebuffer_is(id, generation)),
            ),
            ContractObjectKind::DisplayCapability => exists_match(
                &self.display_capabilities,
                |x: &DisplayCapabilityRecord| -> (b: bool) ensures b == display_capability_is(id, generation)(*x) { x.id == id && x.generation == generation },
                Ghost(display_capability_is(id, generation)),
            ),
            ContractObjectKind::FramebufferWrite => exists_match(
                &self.framebuffer_writes,
                |x: &FramebufferWriteRecord| -> (b: bool) ensures b == write_is(id, generation)(*x) { x.id == id && x.generation == generation },
                Ghost(write_is(id, generation)),
            ),
            ContractObjectKind::FramebufferFlushRegion => exists_match(
                &self.framebuffer_flush_regions,
                |x: &FramebufferFlushRegionRecord| -> (b: bool) ensures b == flush_is(id, generation)(*x) { x.id == id && x.generation == generation },
                Ghost(flush_is(id, generation)),
            ),
            ContractObjectKind::DisplayEventLog => exists_match(
                &self.display_event_logs,
                |x: &DisplayEventLogRecord| -> (b: bool) ensures b == display_event_log_is(id, generation)(*x) { x.id == id && x.generation == generation },
                Ghost(display_event_log_is(id, generation)),
            ),
            ContractObjectKind::DisplaySnapshotBarrier => exists_match(
                &self.display_snapshot_barriers,
                |x: &DisplaySnapshotBarrierRecord| -> (b: bool) ensures b == barrier_is(id, generation)(*x) { x.id == id && x.generation == generation },
                Ghost(barrier_is(id, generation)),
            ),
            _ => false,
        };
        if found { Some(target) } else { None }
    }

    /// Records a benchmark when the graph accepts it, with its derived throughput and flush
    /// rate; returns whether it did.
    pub fn record_framebuffer_benchmark_with_id(
        &mut self,
        benchmark: FramebufferBenchmarkId,
        scenario: &str,
        owner_store: StoreId,
        owner_store_generation: Generation,
        display_capability: DisplayCapabilityId,
        display_capability_generation: Generation,
        framebuffer_write: FramebufferWriteId,
        framebuffer_write_generation: Generation,
        framebuffer_flush_region: FramebufferFlushRegionId,
        framebuffer_flush_region_generation: Generation,
        display_event_log: DisplayEventLogId,
        display_event_log_generation: Generation,
        display_snapshot_barrier: DisplaySnapshotBarrierId,
        display_snapshot_barrier_generation: Generation,
        sample_frames: u32,
        sample_bytes: u64,
        frame_area_pixels: u64,
        write_nanos: u64,
        flush_nanos: u64,
        measured_nanos: u64,
        budget_nanos: u64,
        p50_latency_nanos: u64,
        p99_latency_nanos: u64,
        note: &str,
    ) -> (ok: bool)
        requires
            old(self).event_log.next_event_id < u64::MAX,
        ensures
            ok == (old(self).framebuffer_benchmark_verdict(benchmark, scenario@, (FramebufferBenchmarkTargets {
                owner_store,
                owner_store_generation,
                display_capability,
                display_capability_generation,
                framebuffer_write,
                framebuffer_write_generation,
                framebuffer_flush_region,
                framebuffer_flush_region_generation,
                display_event_log,
                display_event_log_generation,
                display_snapshot_barrier,
                display_snapshot_barrier_generation,
            }), (FramebufferBenchmarkSample {
                sample_frames,
                sample_bytes,
                frame_area_pixels,
                write_nanos,
                flush_nanos,
                measured_nanos,
                budget_nanos,
                p50_latency_nanos,
                p99_latency_nanos,
            })) is Ok),
            !ok ==> *final(self) == *old(self),
            ok ==> recorded_framebuffer_benchmark(*old(self), *final(self), benchmark, scenario@, (FramebufferBenchmarkTargets {
                owner_store,
                owner_store_generation,
                display_capability,
                display_capability_generation,
                framebuffer_write,
                framebuffer_write_generation,
                framebuffer_flush_region,
                framebuffer_flush_region_generation,
                display_event_log,
                display_event_log_generation,
                display_snapshot_barrier,
                display_snapshot_barrier_generation,
            }), (FramebufferBenchmarkSample {
                sample_frames,
                sample_bytes,
                frame_area_pixels,
                write_nanos,
                flush_nanos,
                measured_nanos,
                budget_nanos,
                p50_latency_nanos,
                p99_latency_nanos,
            }), note@),
    {
        let t = FramebufferBenchmarkTargets {
            owner_store,
            owner_store_generation,
            display_capability,
            display_capability_generation,
            framebuffer_write,
            framebuffer_write_generation,
            framebuffer_flush_region,
            framebuffer_flush_region_generation,
            display_event_log,
            display_event_log_generation,
            display_snapshot_barrier,
            display_snapshot_barrier_generation,
        };
        let m = FramebufferBenchmarkSample {
            sample_frames,
            sample_bytes,
            frame_area_pixels,
            write_nanos,
            flush_nanos,
            measured_nanos,
            budget_nanos,
            p50_latency_nanos,
            p99_latency_nanos,
        };
        let Ok(c) = self.validate_framebuffer_benchmark(benchmark, scenario, t, m) else {
            return false;
        };
        let Some(throughput_bytes_per_sec) = Self::derive_framebuffer_throughput_bytes_per_sec(sample_bytes, measured_nanos) else {
            return false;
        };
        let Some(flushes_per_sec_milli) = Self::derive_framebuffer_flushes_per_sec_milli(sample_frames, measured_nanos) else {
            return false;
        };
        let cap = &self.display_capabilities[c];
        let (display, display_generation, framebuffer, framebuffer_generation) =
            (cap.display, cap.display_generation, cap.framebuffer, cap.framebuffer_generation);
        let generation: u64 = 1;
        self.next_framebuffer_benchmark_id = max_of(self.next_framebuffer_benchmark_id, succ_saturating(benchmark));
        let recorded_at_event = self.event_log.push(
            EventDomain::Display,
            EventKind::FramebufferBenchmarkRecorded {
                benchmark,
                owner_store,
                owner_store_generation,
                display,
                display_generation,
                framebuffer,
                framebuffer_generation,
                display_capability,
                display_capability_generation,
                framebuffer_write,
                framebuffer_write_generation,
                framebuffer_flush_region,
                framebuffer_flush_region_generation,
                display_event_log,
                display_event_log_generation,
                display_snapshot_barrier,
                display_snapshot_barrier_generation,
                sample_frames,
                sample_bytes,
                frame_area_pixels,
                write_nanos,
                flush_nanos,
                measured_nanos,
                budget_nanos,
                throughput_bytes_per_sec,
                flushes_per_sec_milli,
                p50_latency_nanos,
                p99_latency_nanos,
                generation,
            },
        );
        self.framebuffer_benchmarks.push(FramebufferBenchmarkRecord {
            id: benchmark,
            scenario: scenario.to_owned(),
            owner_store,
            owner_store_generation,
            display,
            display_generation,
            framebuffer,
            framebuffer_generation,
            display_capability,
            display_capability_generation,
            framebuffer_write,
            framebuffer_write_generation,
            framebuffer_flush_region,
            framebuffer_flush_region_generation,
            display_event_log,
            display_event_log_generation,
            display_snapshot_barrier,
            display_snapshot_barrier_generation,
            sample_frames,
            sample_bytes,
            frame_area_pixels,
            write_nanos,
            flush_nanos,
            measured_nanos,
            budget_nanos,
            throughput_bytes_per_sec,
            flushes_per_sec_milli,
            p50_latency_nanos,
            p99_latency_nanos,
            generation,
            state: FramebufferBenchmarkState::Recorded,
            recorded_at_event,
            note: note.to_owned(),
        });
        proof {
            assert(self.framebuffer_benchmarks@.subrange(0, old(self).framebuffer_benchmarks@.len() as int)
                =~= old(self).framebuffer_benchmarks@);
        }
        true
    }

    pub fn framebuffer_benchmarks(&self) -> (r: &[FramebufferBenchmarkRecord])
        ensures
            r@ == self.framebuffer_benchmarks@,
    {
        self.framebuffer_benchmarks.as_slice()
    }

    pub fn framebuffer_benchmark_count(&self) -> (r: usize)
        ensures
            r == self.framebuffer_benchmarks@.len(),
    {
        self.framebuffer_benchmarks.len()
    }

    fn framebuffer_benchmark_fault_of(&self, r: &FramebufferBenchmarkRecord) -> (f: Option<SemanticInvariantError>)
        ensures
            f == self.framebuffer_benchmark_fault(*r),
    {
        let expected_throughput = Self::derive_framebuffer_throughput_bytes_per_sec(r.sample_bytes, r.measured_nanos);
        let expected_flushes = Self::derive_framebuffer_flushes_per_sec_milli(r.sample_frames, r.measured_nanos);
        if r.id == 0 || r.generation == 0 || r.scenario.as_str().is_empty() || r.owner_store_generation == 0
            || r.display_generation == 0 || r.framebuffer_generation == 0 || r.display_capability_generation == 0
            || r.framebuffer_write_generation == 0 || r.framebuffer_flush_region_generation == 0
            || r.display_event_log_generation == 0 || r.display_snapshot_barrier_generation == 0
            || r.sample_frames == 0 || r.sample_bytes == 0 || r.frame_area_pixels == 0
            || r.write_nanos == 0 || r.flush_nanos == 0
            || r.write_nanos.checked_add(r.flush_nanos) != Some(r.measured_nanos)
            || r.measured_nanos == 0 || r.budget_nanos == 0 || r.measured_nanos > r.budget_nanos
            || expected_throughput != Some(r.throughput_bytes_per_sec)
            || expected_flushes != Some(r.flushes_per_sec_milli)
            || r.p50_latency_nanos == 0 || r.p99_latency_nanos < r.p50_latency_nanos
            || r.p99_latency_nanos > r.measured_nanos || r.state != FramebufferBenchmarkState::Recorded {
            return Some(SemanticInvariantError::FramebufferBenchmarkInvalid { benchmark: r.id });
        }
        let mut targets: Vec<ContractObjectRef> = Vec::new();
        targets.push(ContractObjectRef::new(ContractObjectKind::Store, r.owner_store, r.owner_store_generation));
        targets.push(ContractObjectRef::new(ContractObjectKind::DisplayObject, r.display, r.display_generation));
        targets.push(ContractObjectRef::new(ContractObjectKind::FramebufferObject, r.framebuffer, r.framebuffer_generation));
        targets.push(ContractObjectRef::new(ContractObjectKind::DisplayCapability, r.display_capability, r.display_capability_generation));
        targets.push(ContractObjectRef::new(ContractObjectKind::FramebufferWrite, r.framebuffer_write, r.framebuffer_write_generation));
        targets.push(ContractObjectRef::new(ContractObjectKind::FramebufferFlushRegion, r.framebuffer_flush_region, r.framebuffer_flush_region_generation));
        targets.push(ContractObjectRef::new(ContractObjectKind::DisplayEventLog, r.display_event_log, r.display_event_log_generation));
        targets.push(ContractObjectRef::new(ContractObjectKind::DisplaySnapshotBarrier, r.display_snapshot_barrier, r.display_snapshot_barrier_generation));
        proof { assert(targets@ =~= benchmark_targets(*r)); }
        if let Some(i) = find_first(
            &targets,
            |x: &ContractObjectRef| -> (b: bool)
                ensures b == self.missing_target()(*x)
            { self.object_ref_exists(*x).is_none() },
            Ghost(self.missing_target()),
        ) {
            return Some(SemanticInvariantError::FramebufferBenchmarkMissingTarget { benchmark: r.id, target: targets[i] });
        }
        let (wid, wgen) = (r.framebuffer_write, r.framebuffer_write_generation);
        let Some(w) = find_first(
            &self.framebuffer_writes,
            |x: &FramebufferWriteRecord| -> (b: bool) ensures b == write_is(wid, wgen)(*x) { x.id == wid && x.generation == wgen },
            Ghost(write_is(wid, wgen)),
        ) else {
            return Some(SemanticInvariantError::FramebufferBenchmarkMissingTarget { benchmark: r.id, target: targets[4] });
        };
        let (lid, lgen) = (r.framebuffer_flush_region, r.framebuffer_flush_region_generation);
        let Some(l) = find_first(
            &self.framebuffer_flush_regions,
            |x: &FramebufferFlushRegionRecord| -> (b: bool) ensures b == flush_is(lid, lgen)(*x) { x.id == lid && x.generation == lgen },
            Ghost(flush_is(lid, lgen)),
        ) else {
            return Some(SemanticInvariantError::FramebufferBenchmarkMissingTarget { benchmark: r.id, target: targets[5] });
        };
        let (eid, egen) = (r.display_event_log, r.display_event_log_generation);
        let Some(e) = find_first(
            &self.display_event_logs,
            |x: &DisplayEventLogRecord| -> (b: bool) ensures b == display_event_log_is(eid, egen)(*x) { x.id == eid && x.generation == egen },
            Ghost(display_event_log_is(eid, egen)),
        ) else {
            return Some(SemanticInvariantError::FramebufferBenchmarkMissingTarget { benchmark: r.id, target: targets[6] });
        };
        let (bid, bgen) = (r.display_snapshot_barrier, r.display_snapshot_barrier_generation);
        let Some(b) = find_first(
            &self.display_snapshot_barriers,
            |x: &DisplaySnapshotBarrierRecord| -> (m: bool) ensures m == barrier_is(bid, bgen)(*x) { x.id == bid && x.generation == bgen },
            Ghost(barrier_is(bid, bgen)),
        ) else {
            return Some(SemanticInvariantError::FramebufferBenchmarkMissingTarget { benchmark: r.id, target: targets[7] });
        };
        let write = &self.framebuffer_writes[w];
        let flush = &self.framebuffer_flush_regions[l];
        let log = &self.display_event_logs[e];
        let barrier = &self.display_snapshot_barriers[b];
        if write.state != FramebufferWriteState::Applied
            || flush.state != FramebufferFlushRegionState::Applied
            || log.state != DisplayEventLogState::Recorded
            || barrier.state != DisplaySnapshotBarrierState::Validated
            || write.display_capability != r.display_capability
            || write.display_capability_generation != r.display_capability_generation
            || flush.framebuffer_write != write.id
            || flush.framebuffer_write_generation != write.generation
            || flush.payload_digest != write.payload_digest
            || flush.byte_len.checked_mul(r.sample_frames as u64) != Some(r.sample_bytes)
            || (flush.width as u64).checked_mul(flush.height as u64) != Some(r.frame_area_pixels)
            || log.flush_count < r.sample_frames as u64
            || barrier.active_framebuffer_window_lease_count != 0
            || barrier.active_framebuffer_mapping_count != 0
            || barrier.dirty_framebuffer_region_count != 0 {
            return Some(SemanticInvariantError::FramebufferBenchmarkMetricMismatch { benchmark: r.id });
        }
        let recorded = EventKind::FramebufferBenchmarkRecorded {
            benchmark: r.id,
            owner_store: r.owner_store,
            owner_store_generation: r.owner_store_generation,
            display: r.display,
            display_generation: r.display_generation,
            framebuffer: r.framebuffer,
            framebuffer_generation: r.framebuffer_generation,
            display_capability: r.display_capability,
            display_capability_generation: r.display_capability_generation,
            framebuffer_write: r.framebuffer_write,
            framebuffer_write_generation: r.framebuffer_write_generation,
            framebuffer_flush_region: r.framebuffer_flush_region,
            framebuffer_flush_region_generation: r.framebuffer_flush_region_generation,
            display_event_log: r.display_event_log,
            display_event_log_generation: r.display_event_log_generation,
            display_snapshot_barrier: r.display_snapshot_barrier,
            display_snapshot_barrier_generation: r.display_snapshot_barrier_generation,
            sample_frames: r.sample_frames,
            sample_bytes: r.sample_bytes,
            frame_area_pixels: r.frame_area_pixels,
            write_nanos: r.write_nanos,
            flush_nanos: r.flush_nanos,
            measured_nanos: r.measured_nanos,
            budget_nanos: r.budget_nanos,
            throughput_bytes_per_sec: r.throughput_bytes_per_sec,
            flushes_per_sec_milli: r.flushes_per_sec_milli,
            p50_latency_nanos: r.p50_latency_nanos,
            p99_latency_nanos: r.p99_latency_nanos,
            generation: r.generation,
        };
        if !self.event_log.has_event(r.recorded_at_event, recorded) {
            return Some(SemanticInvariantError::FramebufferBenchmarkMissingEvent { benchmark: r.id, event: r.recorded_at_event });
        }
        None
    }

    /// Audits every benchmark; the first fault found is returned.
    pub fn check_framebuffer_benchmark_invariants(&self) -> (r: Result<(), SemanticInvariantError>)
        ensures
            r == self.framebuffer_benchmark_audit(),
    {
        let ghost faults = Seq::new(self.framebuffer_benchmarks@.len(), |i: int| self.framebuffer_benchmark_fault(self.framebuffer_benchmarks@[i]));
        let mut i: usize = 0;
        while i < self.framebuffer_benchmarks.len()
            invariant
                i <= self.framebuffer_benchmarks@.len(),
                faults == Seq::new(self.framebuffer_benchmarks@.len(), |i: int| self.framebuffer_benchmark_fault(self.framebuffer_benchmarks@[i])),
                forall|j: int| 0 <= j < i ==> (#[trigger] faults[j]) is None,
            decreases self.framebuffer_benchmarks@.len() - i,
        {
            if let Some(e) = self.framebuffer_benchmark_fault_of(&self.framebuffer_benchmarks[i]) {
                proof { lemma_first_failure_at(faults, i as int); }
                return Err(e);
            }
            i += 1;
        }
        proof { lemma_first_failure_ok(faults); }
        Ok(())
    }
}

/// `new` is `old` after recording the benchmark with its derived rates; the display and
/// framebuffer are those of the capability the verdict found.
pub open spec fn recorded_framebuffer_benchmark(
    old: SemanticGraph,
    new: SemanticGraph,
    benchmark: FramebufferBenchmarkId,
    scenario: Seq<char>,
    t: FramebufferBenchmarkTargets,
    m: FramebufferBenchmarkSample,
    note: Seq<char>,
) -> bool {
    let r = new.framebuffer_benchmarks@.last();
    let cap = old.display_capabilities@[old.framebuffer_benchmark_verdict(benchmark, scenario, t, m)->Ok_0];
    &&& new.agrees_except(&old, set![Table::EventLog, Table::FramebufferBenchmarks])
    &&& appended_one(old.framebuffer_benchmarks@, new.framebuffer_benchmarks@)
    &&& r.id == benchmark && r.scenario@ == scenario
    &&& r.owner_store == t.owner_store && r.owner_store_generation == t.owner_store_generation
    &&& r.display == cap.display && r.display_generation == cap.display_generation
    &&& r.framebuffer == cap.framebuffer && r.framebuffer_generation == cap.framebuffer_generation
    &&& r.display_capability == t.display_capability && r.display_capability_generation == t.display_capability_generation
    &&& r.framebuffer_write == t.framebuffer_write && r.framebuffer_write_generation == t.framebuffer_write_generation
    &&& r.framebuffer_flush_region == t.framebuffer_flush_region
    &&& r.framebuffer_flush_region_generation == t.framebuffer_flush_region_generation
    &&& r.display_event_log == t.display_event_log && r.display_event_log_generation == t.display_event_log_generation
    &&& r.display_snapshot_barrier == t.display_snapshot_barrier
    &&& r.display_snapshot_barrier_generation == t.display_snapshot_barrier_generation
    &&& r.sample_frames == m.sample_frames && r.sample_bytes == m.sample_bytes
    &&& r.frame_area_pixels == m.frame_area_pixels && r.write_nanos == m.write_nanos
    &&& r.flush_nanos == m.flush_nanos && r.measured_nanos == m.measured_nanos
    &&& r.budget_nanos == m.budget_nanos
    &&& Some(r.throughput_bytes_per_sec) == framebuffer_throughput(m.sample_bytes, m.measured_nanos)
    &&& Some(r.flushes_per_sec_milli) == framebuffer_flush_rate_milli(m.sample_frames, m.measured_nanos)
    &&& r.p50_latency_nanos == m.p50_latency_nanos && r.p99_latency_nanos == m.p99_latency_nanos
    &&& r.generation == 1 && r.state == FramebufferBenchmarkState::Recorded
    &&& r.recorded_at_event == old.event_log.next_event_id && r.note@ == note
    &&& appended_event(old.event_log, new.event_log, EventDomain::Display, framebuffer_benchmark_event(r))
    &&& new.next_framebuffer_benchmark_id == max_u64(old.next_framebuffer_benchmark_id, saturating_succ(benchmark))
}

/// When a framebuffer benchmark is accepted (`validate_framebuffer_benchmark` returns `Ok` and
/// `record_framebuffer_benchmark_with_id` records it exactly then), its id is new and nonzero,
/// its scenario is named, its measured time is the write time plus the flush time and within
/// budget, its latencies are ordered within the measured time, and its byte and pixel
/// accounting close against the flush region it names: the bytes are the flush's bytes times the
/// frames, and the frame area is the flush's width times its height.
pub proof fn lemma_accepted_benchmark_accounting_closes(
    g: SemanticGraph,
    benchmark: FramebufferBenchmarkId,
    scenario: Seq<char>,
    t: FramebufferBenchmarkTargets,
    m: FramebufferBenchmarkSample,
)
    requires
        g.framebuffer_benchmark_verdict(benchmark, scenario, t, m) is Ok,
    ensures
        benchmark != 0,
        scenario.len() > 0,
        forall|i: int| 0 <= i < g.framebuffer_benchmarks@.len() ==> (#[trigger] g.framebuffer_benchmarks@[i]).id != benchmark,
        m.sample_frames > 0 && m.sample_bytes > 0,
        m.write_nanos + m.flush_nanos == m.measured_nanos,
        m.measured_nanos <= m.budget_nanos,
        m.p50_latency_nanos <= m.p99_latency_nanos <= m.measured_nanos,
        exists|l: int| 0 <= l < g.framebuffer_flush_regions@.len() && {
            let flush = #[trigger] g.framebuffer_flush_regions@[l];
            &&& flush.id == t.framebuffer_flush_region
            &&& flush.generation == t.framebuffer_flush_region_generation
            &&& m.sample_bytes == flush.byte_len * m.sample_frames
            &&& m.frame_area_pixels == flush.width * flush.height
        },
{
    assert forall|i: int| 0 <= i < g.framebuffer_benchmarks@.len() implies (#[trigger] g.framebuffer_benchmarks@[i]).id != benchmark by {
        if g.framebuffer_benchmarks@[i].id == benchmark {
            assert(benchmark_id_is(benchmark)(g.framebuffer_benchmarks@[i]));
        }
    }
    lemma_first_match_facts(g.display_capabilities@, display_capability_is(t.display_capability,
        t.display_capability_generation));
    let c = first_match(g.display_capabilities@, display_capability_is(t.display_capability,
        t.display_capability_generation))->0;
    let cap = g.display_capabilities@[c];
    assert(g.benchmark_display_stage(t, m, cap) is Ok);
    lemma_first_match_facts(g.display_objects@, registered_display_is(cap.display, cap.display_generation));
    lemma_first_match_facts(g.framebuffer_objects@, registered_framebuffer_is(cap.framebuffer, cap.framebuffer_generation));
    let d = first_match(g.display_objects@, registered_display_is(cap.display, cap.display_generation))->0;
    let f = first_match(g.framebuffer_objects@, registered_framebuffer_is(cap.framebuffer, cap.framebuffer_generation))->0;
    let display = g.display_objects@[d];
    let framebuffer = g.framebuffer_objects@[f];
    assert(g.benchmark_write_stage(t, m, display, framebuffer) is Ok);
    lemma_first_match_facts(g.framebuffer_flush_regions@, applied_flush_is(t.framebuffer_flush_region,
        t.framebuffer_flush_region_generation));
    let l = first_match(g.framebuffer_flush_regions@, applied_flush_is(t.framebuffer_flush_region,
        t.framebuffer_flush_region_generation))->0;
    assert(applied_flush_is(t.framebuffer_flush_region, t.framebuffer_flush_region_generation)(
        g.framebuffer_flush_regions@[l]));
    let flush = g.framebuffer_flush_regions@[l];
    assert(m.sample_bytes == flush.byte_len * m.sample_frames);
    assert(m.frame_area_pixels == flush.width * flush.height);
}

/// The derived rates are the measured quantities per second, rounded down: throughput is the
/// largest `t` with `t * measured_nanos <= sample_bytes * 10^9`, and the flush rate the largest
/// `r` with `r * measured_nanos <= sample_frames * 10^12`, whenever time was measured and the
/// scaled quantity fits in 64 bits; otherwise neither is derived.
pub proof fn lemma_derived_rates_are_per_second(sample_bytes: u64, sample_frames: u32, measured_nanos: u64)
    ensures
        framebuffer_throughput(sample_bytes, measured_nanos) is Some
            <==> measured_nanos > 0 && sample_bytes * 1_000_000_000 <= u64::MAX,
        framebuffer_throughput(sample_bytes, measured_nanos) matches Some(t) ==> {
            &&& t * measured_nanos <= sample_bytes * 1_000_000_000
            &&& sample_bytes * 1_000_000_000 < (t + 1) * measured_nanos
        },
        framebuffer_flush_rate_milli(sample_frames, measured_nanos) is Some
            <==> measured_nanos > 0 && sample_frames * 1_000_000_000_000 <= u64::MAX,
        framebuffer_flush_rate_milli(sample_frames, measured_nanos) matches Some(r) ==> {
            &&& r * measured_nanos <= sample_frames * 1_000_000_000_000
            &&& sample_frames * 1_000_000_000_000 < (r + 1) * measured_nanos
        },
{
    if measured_nanos > 0 && sample_bytes * 1_000_000_000 <= u64::MAX {
        let x: int = sample_bytes * 1_000_000_000;
        let n: int = measured_nanos as int;
        assert(0 <= x / n <= x) by (nonlinear_arith)
            requires x >= 0, n > 0;
        assert((x / n) * n <= x && x < (x / n + 1) * n) by (nonlinear_arith)
            requires x >= 0, n > 0;
    }
    if measured_nanos > 0 && sample_frames * 1_000_000_000_000 <= u64::MAX {
        let x: int = sample_frames * 1_000_000_000_000;
        let n: int = measured_nanos as int;
        assert(0 <= x / n <= x) by (nonlinear_arith)
            requires x >= 0, n > 0;
        assert((x / n) * n <= x && x < (x / n + 1) * n) by (nonlinear_arith)
            requires x >= 0, n > 0;
    }
}

} // verus!
