use vstd::prelude::*;
use crate::base::BlockDriverCleanupRecord;
use crate::errors::SemanticInvariantError;
use crate::events::{appended_event, appended_one, has_event_spec, EventDomain, EventKind};
use crate::graph::{SemanticGraph, Table};
use crate::search::{
    any_match, exists_match, find_first, first_failure, first_match, lemma_first_failure_at,
    lemma_first_failure_ok, lemma_first_failure_ok_all, lemma_first_match_facts, max_of, max_u64, saturating_succ,
    succ_saturating,
};
use crate::types::{
    BlockDeviceObjectId, BlockDriverCleanupId, BlockDriverCleanupState, BlockRecoveryBenchmarkId,
    BlockRecoveryBenchmarkState, ContractObjectKind, ContractObjectRef, DeviceObjectId,
    DriverStoreBindingId, EventId, Generation, IoCleanupId, StoreId,
};

verus! {

/// How long a block driver recovery took and what its cleanup undid.
pub struct BlockRecoveryBenchmarkRecord {
    pub id: BlockRecoveryBenchmarkId,
    pub scenario: String,
    pub cleanup: BlockDriverCleanupId,
    pub cleanup_generation: Generation,
    pub io_cleanup: IoCleanupId,
    pub io_cleanup_generation: Generation,
    pub backend: ContractObjectRef,
    pub block_device: BlockDeviceObjectId,
    pub block_device_generation: Generation,
    pub driver_store: StoreId,
    pub driver_store_generation: Generation,
    pub device: DeviceObjectId,
    pub device_generation: Generation,
    pub driver_binding: DriverStoreBindingId,
    pub driver_binding_generation: Generation,
    pub recovery_start_event: EventId,
    pub recovery_complete_event: EventId,
    pub cancelled_block_waits: u32,
    pub cancelled_wait_tokens: u32,
    pub released_dma_buffers: u32,
    pub revoked_device_capabilities: u32,
    pub recovery_nanos: u64,
    pub budget_nanos: u64,
    pub generation: Generation,
    pub state: BlockRecoveryBenchmarkState,
    pub recorded_at_event: EventId,
    pub note: String,
}

pub open spec fn recovery_benchmark_id_is(id: BlockRecoveryBenchmarkId) -> spec_fn(BlockRecoveryBenchmarkRecord) -> bool {
    |r: BlockRecoveryBenchmarkRecord| r.id == id
}

pub open spec fn driver_cleanup_is(id: BlockDriverCleanupId, generation: Generation) -> spec_fn(BlockDriverCleanupRecord) -> bool {
    |r: BlockDriverCleanupRecord| r.id == id && r.generation == generation
}

pub open spec fn completed_driver_cleanup_is(id: BlockDriverCleanupId, generation: Generation) -> spec_fn(BlockDriverCleanupRecord) -> bool {
    |r: BlockDriverCleanupRecord| r.id == id && r.generation == generation && r.state == BlockDriverCleanupState::Completed
}

/// The cleanup's effect lists do not have these lengths.
pub open spec fn cleanup_counts_differ(
    c: BlockDriverCleanupRecord,
    cancelled_block_waits: u32,
    cancelled_wait_tokens: u32,
    released_dma_buffers: u32,
    revoked_device_capabilities: u32,
) -> bool {
    c.cancelled_block_waits@.len() != cancelled_block_waits
        || c.cancelled_wait_tokens@.len() != cancelled_wait_tokens
        || c.released_dma_buffers@.len() != released_dma_buffers
        || c.revoked_device_capabilities@.len() != revoked_device_capabilities
}

fn counts_differ(
    c: &BlockDriverCleanupRecord,
    cancelled_block_waits: u32,
    cancelled_wait_tokens: u32,
    released_dma_buffers: u32,
    revoked_device_capabilities: u32,
) -> (b: bool)
    ensures
        b == cleanup_counts_differ(*c, cancelled_block_waits, cancelled_wait_tokens, released_dma_buffers,
            revoked_device_capabilities),
{
    c.cancelled_block_waits.len() != cancelled_block_waits as usize
        || c.cancelled_wait_tokens.len() != cancelled_wait_tokens as usize
        || c.released_dma_buffers.len() != released_dma_buffers as usize
        || c.revoked_device_capabilities.len() != revoked_device_capabilities as usize
}

/// The event that records `r`.
pub open spec fn recovery_benchmark_event(r: BlockRecoveryBenchmarkRecord) -> EventKind {
    EventKind::BlockRecoveryBenchmarkRecorded {
        benchmark: r.id,
        cleanup: r.cleanup,
        cleanup_generation: r.cleanup_generation,
        io_cleanup: r.io_cleanup,
        io_cleanup_generation: r.io_cleanup_generation,
        backend: r.backend,
        block_device: r.block_device,
        block_device_generation: r.block_device_generation,
        driver_store: r.driver_store,
        driver_store_generation: r.driver_store_generation,
        device: r.device,
        device_generation: r.device_generation,
        driver_binding: r.driver_binding,
        driver_binding_generation: r.driver_binding_generation,
        recovery_start_event: r.recovery_start_event,
        recovery_complete_event: r.recovery_complete_event,
        cancelled_block_waits: r.cancelled_block_waits,
        cancelled_wait_tokens: r.cancelled_wait_tokens,
        released_dma_buffers: r.released_dma_buffers,
        revoked_device_capabilities: r.revoked_device_capabilities,
        recovery_nanos: r.recovery_nanos,
        budget_nanos: r.budget_nanos,
        generation: r.generation,
    }
}

impl SemanticGraph {
    /// Why recording this recovery benchmark would be refused, if it would; otherwise the
    /// position of the cleanup it measures.
    pub open spec fn block_recovery_benchmark_verdict(
        &self,
        benchmark: BlockRecoveryBenchmarkId,
        scenario: Seq<char>,
        cleanup: BlockDriverCleanupId,
        cleanup_generation: Generation,
        io_cleanup: IoCleanupId,
        io_cleanup_generation: Generation,
        recovery_start_event: EventId,
        recovery_complete_event: EventId,
        cancelled_block_waits: u32,
        cancelled_wait_tokens: u32,
        released_dma_buffers: u32,
        revoked_device_capabilities: u32,
        recovery_nanos: u64,
        budget_nanos: u64,
    ) -> Result<int, &'static str> {
        if benchmark == 0 {
            Err("block recovery benchmark id=0 is invalid")
        } else if benchmark == u64::MAX {
            Err("block recovery benchmark id cannot advance generation cursor")
        } else if any_match(self.block_recovery_benchmarks@, recovery_benchmark_id_is(benchmark)) {
            Err("block recovery benchmark already exists")
        } else if scenario.len() == 0 {
            Err("block recovery benchmark scenario is empty")
        } else if recovery_start_event == 0 || recovery_complete_event == 0 {
            Err("block recovery benchmark event ids are invalid")
        } else if recovery_start_event >= recovery_complete_event {
            Err("block recovery benchmark event order is invalid")
        } else if recovery_nanos == 0 || budget_nanos == 0 {
            Err("block recovery benchmark timing is empty")
        } else if recovery_nanos > budget_nanos {
            Err("block recovery benchmark exceeds recovery budget")
        } else if cancelled_block_waits == 0 && cancelled_wait_tokens == 0 && released_dma_buffers == 0
            && revoked_device_capabilities == 0 {
            Err("block recovery benchmark requires cleanup effects")
        } else {
            match first_match(self.block_driver_cleanups@, completed_driver_cleanup_is(cleanup, cleanup_generation)) {
                None => Err("block recovery benchmark cleanup generation is missing or incomplete"),
                Some(k) => {
                    let c = self.block_driver_cleanups@[k];
                    if c.completed_at_event is None {
                        Err("block recovery benchmark cleanup completion event is missing")
                    } else if c.io_cleanup != io_cleanup || c.io_cleanup_generation != io_cleanup_generation
                        || c.started_at_event != recovery_start_event
                        || c.completed_at_event->0 != recovery_complete_event {
                        Err("block recovery benchmark cleanup references do not match")
                    } else if cleanup_counts_differ(c, cancelled_block_waits, cancelled_wait_tokens,
                        released_dma_buffers, revoked_device_capabilities) {
                        Err("block recovery benchmark cleanup effect counts do not match")
                    } else if self.graph_audit() is Err {
                        Err("block recovery benchmark requires invariant-clean graph")
                    } else {
                        Ok(k)
                    }
                },
            }
        }
    }

    /// What an audit finds wrong with recovery benchmark `r`, if anything.
    pub open spec fn block_recovery_benchmark_fault(&self, r: BlockRecoveryBenchmarkRecord) -> Option<SemanticInvariantError> {
        let invalid = SemanticInvariantError::BlockRecoveryBenchmarkInvalid { benchmark: r.id };
        if r.id == 0 || r.generation == 0 || r.scenario@.len() == 0 || r.cleanup_generation == 0
            || r.io_cleanup_generation == 0 || r.backend.kind != ContractObjectKind::VirtioBlkBackendObject
            || r.block_device_generation == 0 || r.driver_store_generation == 0 || r.device_generation == 0
            || r.driver_binding_generation == 0 || r.recovery_start_event == 0 || r.recovery_complete_event == 0
            || r.recovery_start_event >= r.recovery_complete_event
            || (r.cancelled_block_waits == 0 && r.cancelled_wait_tokens == 0 && r.released_dma_buffers == 0
                && r.revoked_device_capabilities == 0)
            || r.recovery_nanos == 0 || r.budget_nanos == 0 || r.recovery_nanos > r.budget_nanos
            || r.state != BlockRecoveryBenchmarkState::Recorded {
            Some(invalid)
        } else {
            match first_match(self.block_driver_cleanups@, completed_driver_cleanup_is(r.cleanup, r.cleanup_generation)) {
                None => Some(SemanticInvariantError::BlockRecoveryBenchmarkMissingTarget {
                    benchmark: r.id,
                    target: ContractObjectRef { kind: ContractObjectKind::BlockDriverCleanup, id: r.cleanup, generation: r.cleanup_generation },
                }),
                Some(k) => {
                    let c = self.block_driver_cleanups@[k];
                    if c.completed_at_event is None {
                        Some(invalid)
                    } else if c.io_cleanup != r.io_cleanup || c.io_cleanup_generation != r.io_cleanup_generation
                        || c.backend != r.backend || c.block_device != r.block_device
                        || c.block_device_generation != r.block_device_generation
                        || c.driver_store != r.driver_store || c.driver_store_generation != r.driver_store_generation
                        || c.device != r.device || c.device_generation != r.device_generation
                        || c.driver_binding != r.driver_binding || c.driver_binding_generation != r.driver_binding_generation
                        || c.started_at_event != r.recovery_start_event
                        || c.completed_at_event->0 != r.recovery_complete_event
                        || cleanup_counts_differ(c, r.cancelled_block_waits, r.cancelled_wait_tokens,
                            r.released_dma_buffers, r.revoked_device_capabilities) {
                        Some(SemanticInvariantError::BlockRecoveryBenchmarkMetricMismatch { benchmark: r.id })
                    } else if !has_event_spec(self.event_log.events@, r.recorded_at_event, recovery_benchmark_event(r)) {
                        Some(SemanticInvariantError::BlockRecoveryBenchmarkMissingEvent { benchmark: r.id, event: r.recorded_at_event })
                    } else {
                        None
                    }
                },
            }
        }
    }

    /// Audit verdict of the recovery benchmark table.
    pub open spec fn block_recovery_benchmark_audit(&self) -> Result<(), SemanticInvariantError> {
        first_failure(Seq::new(self.block_recovery_benchmarks@.len(),
            |i: int| self.block_recovery_benchmark_fault(self.block_recovery_benchmarks@[i])))
    }

    pub fn validate_block_recovery_benchmark(
        &self,
        benchmark: BlockRecoveryBenchmarkId,
        scenario: &str,
        cleanup: BlockDriverCleanupId,
        cleanup_generation: Generation,
        io_cleanup: IoCleanupId,
        io_cleanup_generation: Generation,
        recovery_start_event: EventId,
        recovery_complete_event: EventId,
        cancelled_block_waits: u32,
        cancelled_wait_tokens: u32,
        released_dma_buffers: u32,
        revoked_device_capabilities: u32,
        recovery_nanos: u64,
        budget_nanos: u64,
    ) -> (r: Result<usize, &'static str>)
        ensures
            match r {
                Ok(k) => self.block_recovery_benchmark_verdict(benchmark, scenario@, cleanup, cleanup_generation,
                    io_cleanup, io_cleanup_generation, recovery_start_event, recovery_complete_event,
                    cancelled_block_waits, cancelled_wait_tokens, released_dma_buffers,
                    revoked_device_capabilities, recovery_nanos, budget_nanos) == Ok::<int, &'static str>(k as int),
                Err(e) => self.block_recovery_benchmark_verdict(benchmark, scenario@, cleanup, cleanup_generation,
                    io_cleanup, io_cleanup_generation, recovery_start_event, recovery_complete_event,
                    cancelled_block_waits, cancelled_wait_tokens, released_dma_buffers,
                    revoked_device_capabilities, recovery_nanos, budget_nanos) == Err::<int, &'static str>(e),
            },
            r matches Ok(k) ==> k < self.block_driver_cleanups@.len(),
    {
        if benchmark == 0 {
            return Err("block recovery benchmark id=0 is invalid");
        }
        if benchmark == u64::MAX {
            return Err("block recovery benchmark id cannot advance generation cursor");
        }
        if exists_match(
            &self.block_recovery_benchmarks,
            |x: &BlockRecoveryBenchmarkRecord| -> (b: bool)
                ensures b == recovery_benchmark_id_is(benchmark)(*x)
            { x.id == benchmark },
            Ghost(recovery_benchmark_id_is(benchmark)),
        ) {
            return Err("block recovery benchmark already exists");
        }
        if scenario.is_empty() {
            return Err("block recovery benchmark scenario is empty");
        }
        if recovery_start_event == 0 || recovery_complete_event == 0 {
            return Err("block recovery benchmark event ids are invalid");
        }
        if recovery_start_event >= recovery_complete_event {
            return Err("block recovery benchmark event order is invalid");
        }
        if recovery_nanos == 0 || budget_nanos == 0 {
            return Err("block recovery benchmark timing is empty");
        }
        if recovery_nanos > budget_nanos {
            return Err("block recovery benchmark exceeds recovery budget");
        }
        if cancelled_block_waits == 0 && cancelled_wait_tokens == 0 && released_dma_buffers == 0
            && revoked_device_capabilities == 0 {
            return Err("block recovery benchmark requires cleanup effects");
        }
        let Some(k) = find_first(
            &self.block_driver_cleanups,
            |x: &BlockDriverCleanupRecord| -> (b: bool)
                ensures b == completed_driver_cleanup_is(cleanup, cleanup_generation)(*x)
            { x.id == cleanup && x.generation == cleanup_generation && x.state == BlockDriverCleanupState::Completed },
            Ghost(completed_driver_cleanup_is(cleanup, cleanup_generation)),
        ) else {
            return Err("block recovery benchmark cleanup generation is missing or incomplete");
        };
        let c = &self.block_driver_cleanups[k];
        let Some(completed_at_event) = c.completed_at_event else {
            return Err("block recovery benchmark cleanup completion event is missing");
        };
        if c.io_cleanup != io_cleanup || c.io_cleanup_generation != io_cleanup_generation
            || c.started_at_event != recovery_start_event || completed_at_event != recovery_complete_event {
            return Err("block recovery benchmark cleanup references do not match");
        }
        if counts_differ(c, cancelled_block_waits, cancelled_wait_tokens, released_dma_buffers,
            revoked_device_capabilities) {
            return Err("block recovery benchmark cleanup effect counts do not match");
        }
        if self.check_invariants().is_err() {
            return Err("block recovery benchmark requires invariant-clean graph");
        }
        Ok(k)
    }
    /// Records a block recovery benchmark when the graph accepts it; returns whether it did.
    pub fn record_block_recovery_benchmark_with_id(
        &mut self,
        benchmark: BlockRecoveryBenchmarkId,
        scenario: &str,
        cleanup: BlockDriverCleanupId,
        cleanup_generation: Generation,
        io_cleanup: IoCleanupId,
        io_cleanup_generation: Generation,
        recovery_start_event: EventId,
        recovery_complete_event: EventId,
        cancelled_block_waits: u32,
        cancelled_wait_tokens: u32,
        released_dma_buffers: u32,
        revoked_device_capabilities: u32,
        recovery_nanos: u64,
        budget_nanos: u64,
        note: &str,
    ) -> (ok: bool)
        requires
            old(self).event_log.next_event_id < u64::MAX,
        ensures
            ok == (old(self).block_recovery_benchmark_verdict(benchmark, scenario@, cleanup, cleanup_generation,
                io_cleanup, io_cleanup_generation, recovery_start_event, recovery_complete_event,
                cancelled_block_waits, cancelled_wait_tokens, released_dma_buffers,
                revoked_device_capabilities, recovery_nanos, budget_nanos) is Ok),
            !ok ==> *final(self) == *old(self),
            ok ==> recorded_block_recovery_benchmark(*old(self), *final(self), benchmark, scenario@, cleanup,
                cleanup_generation, io_cleanup, io_cleanup_generation, recovery_start_event,
                recovery_complete_event, cancelled_block_waits, cancelled_wait_tokens, released_dma_buffers,
                revoked_device_capabilities, recovery_nanos, budget_nanos, note@),
    {
        if self.validate_block_recovery_benchmark(benchmark, scenario, cleanup, cleanup_generation, io_cleanup,
            io_cleanup_generation, recovery_start_event, recovery_complete_event, cancelled_block_waits,
            cancelled_wait_tokens, released_dma_buffers, revoked_device_capabilities, recovery_nanos,
            budget_nanos).is_err() {
            return false;
        }
        proof {
            lemma_first_match_facts(self.block_driver_cleanups@, completed_driver_cleanup_is(cleanup, cleanup_generation));
            let k = first_match(self.block_driver_cleanups@, completed_driver_cleanup_is(cleanup, cleanup_generation))->0;
            assert(driver_cleanup_is(cleanup, cleanup_generation)(self.block_driver_cleanups@[k]));
            lemma_first_match_facts(self.block_driver_cleanups@, driver_cleanup_is(cleanup, cleanup_generation));
        }
        let Some(k) = find_first(
            &self.block_driver_cleanups,
            |x: &BlockDriverCleanupRecord| -> (b: bool)
                ensures b == driver_cleanup_is(cleanup, cleanup_generation)(*x)
            { x.id == cleanup && x.generation == cleanup_generation },
            Ghost(driver_cleanup_is(cleanup, cleanup_generation)),
        ) else {
            return false;
        };
        let c = &self.block_driver_cleanups[k];
        let (backend, block_device, block_device_generation, driver_store, driver_store_generation) =
            (c.backend, c.block_device, c.block_device_generation, c.driver_store, c.driver_store_generation);
        let (device, device_generation, driver_binding, driver_binding_generation) =
            (c.device, c.device_generation, c.driver_binding, c.driver_binding_generation);
        let generation: u64 = 1;
        self.next_block_recovery_benchmark_id = max_of(self.next_block_recovery_benchmark_id, succ_saturating(benchmark));
        let recorded_at_event = self.event_log.push(
            EventDomain::Block,
            EventKind::BlockRecoveryBenchmarkRecorded {
                benchmark,
                cleanup,
                cleanup_generation,
                io_cleanup,
                io_cleanup_generation,
                backend,
                block_device,
                block_device_generation,
                driver_store,
                driver_store_generation,
                device,
                device_generation,
                driver_binding,
                driver_binding_generation,
                recovery_start_event,
                recovery_complete_event,
                cancelled_block_waits,
                cancelled_wait_tokens,
                released_dma_buffers,
                revoked_device_capabilities,
                recovery_nanos,
                budget_nanos,
                generation,
            },
        );
        self.block_recovery_benchmarks.push(BlockRecoveryBenchmarkRecord {
            id: benchmark,
            scenario: scenario.to_owned(),
            cleanup,
            cleanup_generation,
            io_cleanup,
            io_cleanup_generation,
            backend,
            block_device,
            block_device_generation,
            driver_store,
            driver_store_generation,
            device,
            device_generation,
            driver_binding,
            driver_binding_generation,
            recovery_start_event,
            recovery_complete_event,
            cancelled_block_waits,
            cancelled_wait_tokens,
            released_dma_buffers,
            revoked_device_capabilities,
            recovery_nanos,
            budget_nanos,
            generation,
            state: BlockRecoveryBenchmarkState::Recorded,
            recorded_at_event,
            note: note.to_owned(),
        });
        proof {
            assert(self.block_recovery_benchmarks@.subrange(0, old(self).block_recovery_benchmarks@.len() as int)
                =~= old(self).block_recovery_benchmarks@);
        }
        true
    }

    pub fn block_recovery_benchmarks(&self) -> (r: &[BlockRecoveryBenchmarkRecord])
        ensures
            r@ == self.block_recovery_benchmarks@,
    {
        self.block_recovery_benchmarks.as_slice()
    }

    pub fn block_recovery_benchmark_count(&self) -> (r: usize)
        ensures
            r == self.block_recovery_benchmarks@.len(),
    {
        self.block_recovery_benchmarks.len()
    }

    fn block_recovery_benchmark_fault_of(&self, r: &BlockRecoveryBenchmarkRecord) -> (f: Option<SemanticInvariantError>)
        ensures
            f == self.block_recovery_benchmark_fault(*r),
    {
        let invalid = SemanticInvariantError::BlockRecoveryBenchmarkInvalid { benchmark: r.id };
        if r.id == 0 || r.generation == 0 || r.scenario.as_str().is_empty() || r.cleanup_generation == 0
            || r.io_cleanup_generation == 0 || r.backend.kind != ContractObjectKind::VirtioBlkBackendObject
            || r.block_device_generation == 0 || r.driver_store_generation == 0 || r.device_generation == 0
            || r.driver_binding_generation == 0 || r.recovery_start_event == 0 || r.recovery_complete_event == 0
            || r.recovery_start_event >= r.recovery_complete_event
            || (r.cancelled_block_waits == 0 && r.cancelled_wait_tokens == 0 && r.released_dma_buffers == 0
                && r.revoked_device_capabilities == 0)
            || r.recovery_nanos == 0 || r.budget_nanos == 0 || r.recovery_nanos > r.budget_nanos
            || r.state != BlockRecoveryBenchmarkState::Recorded {
            return Some(invalid);
        }
        let (cid, cgen) = (r.cleanup, r.cleanup_generation);
        let Some(k) = find_first(
            &self.block_driver_cleanups,
            |x: &BlockDriverCleanupRecord| -> (b: bool)
                ensures b == completed_driver_cleanup_is(cid, cgen)(*x)
            { x.id == cid && x.generation == cgen && x.state == BlockDriverCleanupState::Completed },
            Ghost(completed_driver_cleanup_is(cid, cgen)),
        ) else {
            return Some(SemanticInvariantError::BlockRecoveryBenchmarkMissingTarget {
                benchmark: r.id,
                target: ContractObjectRef::new(ContractObjectKind::BlockDriverCleanup, r.cleanup, r.cleanup_generation),
            });
        };
        let c = &self.block_driver_cleanups[k];
        let Some(completed_at_event) = c.completed_at_event else {
            return Some(invalid);
        };
        if c.io_cleanup != r.io_cleanup || c.io_cleanup_generation != r.io_cleanup_generation
            || c.backend != r.backend || c.block_device != r.block_device
            || c.block_device_generation != r.block_device_generation
            || c.driver_store != r.driver_store || c.driver_store_generation != r.driver_store_generation
            || c.device != r.device || c.device_generation != r.device_generation
            || c.driver_binding != r.driver_binding || c.driver_binding_generation != r.driver_binding_generation
            || c.started_at_event != r.recovery_start_event
            || completed_at_event != r.recovery_complete_event
            || counts_differ(c, r.cancelled_block_waits, r.cancelled_wait_tokens, r.released_dma_buffers,
                r.revoked_device_capabilities) {
            return Some(SemanticInvariantError::BlockRecoveryBenchmarkMetricMismatch { benchmark: r.id });
        }
        let recorded = EventKind::BlockRecoveryBenchmarkRecorded {
            benchmark: r.id,
            cleanup: r.cleanup,
            cleanup_generation: r.cleanup_generation,
            io_cleanup: r.io_cleanup,
            io_cleanup_generation: r.io_cleanup_generation,
            backend: r.backend,
            block_device: r.block_device,
            block_device_generation: r.block_device_generation,
            driver_store: r.driver_store,
            driver_store_generation: r.driver_store_generation,
            device: r.device,
            device_generation: r.device_generation,
            driver_binding: r.driver_binding,
            driver_binding_generation: r.driver_binding_generation,
            recovery_start_event: r.recovery_start_event,
            recovery_complete_event: r.recovery_complete_event,
            cancelled_block_waits: r.cancelled_block_waits,
            cancelled_wait_tokens: r.cancelled_wait_tokens,
            released_dma_buffers: r.released_dma_buffers,
            revoked_device_capabilities: r.revoked_device_capabilities,
            recovery_nanos: r.recovery_nanos,
            budget_nanos: r.budget_nanos,
            generation: r.generation,
        };
        if !self.event_log.has_event(r.recorded_at_event, recorded) {
            return Some(SemanticInvariantError::BlockRecoveryBenchmarkMissingEvent { benchmark: r.id, event: r.recorded_at_event });
        }
        None
    }

    /// Audits every recovery benchmark; the first fault found is returned.
    pub fn check_block_recovery_benchmark_invariants(&self) -> (r: Result<(), SemanticInvariantError>)
        ensures
            r == self.block_recovery_benchmark_audit(),
    {
        let ghost faults = Seq::new(self.block_recovery_benchmarks@.len(),
            |i: int| self.block_recovery_benchmark_fault(self.block_recovery_benchmarks@[i]));
        let mut i: usize = 0;
        while i < self.block_recovery_benchmarks.len()
            invariant
                i <= self.block_recovery_benchmarks@.len(),
                faults == Seq::new(self.block_recovery_benchmarks@.len(),
                    |i: int| self.block_recovery_benchmark_fault(self.block_recovery_benchmarks@[i])),
                forall|j: int| 0 <= j < i ==> (#[trigger] faults[j]) is None,
            decreases self.block_recovery_benchmarks@.len() - i,
        {
            if let Some(e) = self.block_recovery_benchmark_fault_of(&self.block_recovery_benchmarks[i]) {
                proof { lemma_first_failure_at(faults, i as int); }
                return Err(e);
            }
            i += 1;
        }
        proof { lemma_first_failure_ok(faults); }
        Ok(())
    }
}

/// `new` is `old` after recording the recovery benchmark; the cleanup it copies from is the
/// first with this id and generation.
pub open spec fn recorded_block_recovery_benchmark(
    old: SemanticGraph,
    new: SemanticGraph,
    benchmark: BlockRecoveryBenchmarkId,
    scenario: Seq<char>,
    cleanup: BlockDriverCleanupId,
    cleanup_generation: Generation,
    io_cleanup: IoCleanupId,
    io_cleanup_generation: Generation,
    recovery_start_event: EventId,
    recovery_complete_event: EventId,
    cancelled_block_waits: u32,
    cancelled_wait_tokens: u32,
    released_dma_buffers: u32,
    revoked_device_capabilities: u32,
    recovery_nanos: u64,
    budget_nanos: u64,
    note: Seq<char>,
) -> bool {
    let r = new.block_recovery_benchmarks@.last();
    let c = old.block_driver_cleanups@[first_match(old.block_driver_cleanups@, driver_cleanup_is(cleanup, cleanup_generation))->0];
    &&& new.agrees_except(&old, set![Table::EventLog, Table::BlockRecoveryBenchmarks])
    &&& appended_one(old.block_recovery_benchmarks@, new.block_recovery_benchmarks@)
    &&& r.id == benchmark && r.scenario@ == scenario && r.cleanup == cleanup
    &&& r.cleanup_generation == cleanup_generation && r.io_cleanup == io_cleanup
    &&& r.io_cleanup_generation == io_cleanup_generation && r.backend == c.backend
    &&& r.block_device == c.block_device && r.block_device_generation == c.block_device_generation
    &&& r.driver_store == c.driver_store && r.driver_store_generation == c.driver_store_generation
    &&& r.device == c.device && r.device_generation == c.device_generation
    &&& r.driver_binding == c.driver_binding && r.driver_binding_generation == c.driver_binding_generation
    &&& r.recovery_start_event == recovery_start_event && r.recovery_complete_event == recovery_complete_event
    &&& r.cancelled_block_waits == cancelled_block_waits && r.cancelled_wait_tokens == cancelled_wait_tokens
    &&& r.released_dma_buffers == released_dma_buffers
    &&& r.revoked_device_capabilities == revoked_device_capabilities
    &&& r.recovery_nanos == recovery_nanos && r.budget_nanos == budget_nanos && r.generation == 1
    &&& r.state == BlockRecoveryBenchmarkState::Recorded
    &&& r.recorded_at_event == old.event_log.next_event_id && r.note@ == note
    &&& appended_event(old.event_log, new.event_log, EventDomain::Block, recovery_benchmark_event(r))
    &&& new.next_block_recovery_benchmark_id == max_u64(old.next_block_recovery_benchmark_id, saturating_succ(benchmark))
}

/// Benchmark `b` is backed by its cleanup: it names a scenario, its recovery window is a
/// nonempty span of events, its recovery time is positive and within budget, some effect was
/// counted, and a completed block driver cleanup of the named generation started and completed
/// at the window's events with exactly the counted effects.
pub open spec fn benchmark_backed_by_cleanup(g: SemanticGraph, b: BlockRecoveryBenchmarkRecord) -> bool {
    &&& b.scenario@.len() != 0
    &&& 0 < b.recovery_start_event < b.recovery_complete_event
    &&& 0 < b.recovery_nanos <= b.budget_nanos
    &&& !(b.cancelled_block_waits == 0 && b.cancelled_wait_tokens == 0 && b.released_dma_buffers == 0
        && b.revoked_device_capabilities == 0)
    &&& match first_match(g.block_driver_cleanups@, completed_driver_cleanup_is(b.cleanup, b.cleanup_generation)) {
        None => false,
        Some(k) => {
            let c = g.block_driver_cleanups@[k];
            &&& c.started_at_event == b.recovery_start_event
            &&& c.completed_at_event == Some(b.recovery_complete_event)
            &&& !cleanup_counts_differ(c, b.cancelled_block_waits, b.cancelled_wait_tokens, b.released_dma_buffers,
                b.revoked_device_capabilities)
        },
    }
}

/// When the recovery benchmark audit is clean, every benchmark is backed by its cleanup.
pub proof fn lemma_clean_recovery_benchmark_audit(g: SemanticGraph)
    requires
        g.block_recovery_benchmark_audit() is Ok,
    ensures
        forall|j: int| 0 <= j < g.block_recovery_benchmarks@.len()
            ==> benchmark_backed_by_cleanup(g, #[trigger] g.block_recovery_benchmarks@[j]),
{
    let faults = Seq::new(g.block_recovery_benchmarks@.len(),
        |i: int| g.block_recovery_benchmark_fault(g.block_recovery_benchmarks@[i]));
    lemma_first_failure_ok_all(faults);
    assert forall|j: int| 0 <= j < g.block_recovery_benchmarks@.len()
        implies benchmark_backed_by_cleanup(g, #[trigger] g.block_recovery_benchmarks@[j]) by {
        assert(faults[j] is None);
    }
}

/// When a recovery benchmark is accepted (`validate_block_recovery_benchmark` accepts and the
/// recorder records it exactly then), its id is new, nonzero and below `u64::MAX`, its scenario is
/// named, its recovery window is a nonempty span of nonzero events, its time is positive and within
/// budget, some effect is counted, and a completed block driver cleanup of the named generation
/// belongs to the named io cleanup generation, started and completed at the window's events, and
/// has exactly the counted effects.
pub proof fn lemma_accepted_recovery_benchmark_matches_cleanup(
    g: SemanticGraph,
    benchmark: BlockRecoveryBenchmarkId,
    scenario: Seq<char>,
    cleanup: BlockDriverCleanupId,
    cleanup_generation: Generation,
    io_cleanup: IoCleanupId,
    io_cleanup_generation: Generation,
    recovery_start_event: EventId,
    recovery_complete_event: EventId,
    cancelled_block_waits: u32,
    cancelled_wait_tokens: u32,
    released_dma_buffers: u32,
    revoked_device_capabilities: u32,
    recovery_nanos: u64,
    budget_nanos: u64,
)
    requires
        g.block_recovery_benchmark_verdict(benchmark, scenario, cleanup, cleanup_generation, io_cleanup,
            io_cleanup_generation, recovery_start_event, recovery_complete_event, cancelled_block_waits,
            cancelled_wait_tokens, released_dma_buffers, revoked_device_capabilities, recovery_nanos,
            budget_nanos) is Ok,
    ensures
        0 < benchmark < u64::MAX,
        forall|i: int| 0 <= i < g.block_recovery_benchmarks@.len() ==> (#[trigger] g.block_recovery_benchmarks@[i]).id != benchmark,
        scenario.len() > 0,
        0 < recovery_start_event < recovery_complete_event,
        0 < recovery_nanos <= budget_nanos,
        cancelled_block_waits + cancelled_wait_tokens + released_dma_buffers + revoked_device_capabilities > 0,
        exists|k: int| 0 <= k < g.block_driver_cleanups@.len() && {
            let c = #[trigger] g.block_driver_cleanups@[k];
            &&& c.id == cleanup && c.generation == cleanup_generation
            &&& c.state == BlockDriverCleanupState::Completed
            &&& c.io_cleanup == io_cleanup && c.io_cleanup_generation == io_cleanup_generation
            &&& c.started_at_event == recovery_start_event
            &&& c.completed_at_event == Some(recovery_complete_event)
            &&& c.cancelled_block_waits@.len() == cancelled_block_waits
            &&& c.cancelled_wait_tokens@.len() == cancelled_wait_tokens
            &&& c.released_dma_buffers@.len() == released_dma_buffers
            &&& c.revoked_device_capabilities@.len() == revoked_device_capabilities
        },
{
    assert forall|i: int| 0 <= i < g.block_recovery_benchmarks@.len() implies (#[trigger] g.block_recovery_benchmarks@[i]).id != benchmark by {
        if g.block_recovery_benchmarks@[i].id == benchmark {
            assert(recovery_benchmark_id_is(benchmark)(g.block_recovery_benchmarks@[i]));
        }
    }
    lemma_first_match_facts(g.block_driver_cleanups@, completed_driver_cleanup_is(cleanup, cleanup_generation));
    let k = first_match(g.block_driver_cleanups@, completed_driver_cleanup_is(cleanup, cleanup_generation))->0;
    assert(completed_driver_cleanup_is(cleanup, cleanup_generation)(g.block_driver_cleanups@[k]));
}

} // verus!
