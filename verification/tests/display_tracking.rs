use semantic_core::base::{FramebufferWriteRecord, StoreRecord};
use semantic_core::framebuffer_benchmark::{FramebufferBenchmarkSample, FramebufferBenchmarkTargets};
use semantic_core::graph::SemanticGraph;
use semantic_core::types::{FramebufferDirtyRegionState, FramebufferWriteState, StoreState};

fn write_graph() -> SemanticGraph {
    let mut g = SemanticGraph::new();
    g.stores.push(StoreRecord {
        id: 2,
        generation: 1,
        role: "app".to_string(),
        package: "compositor".to_string(),
        state: StoreState::Running,
    });
    g.framebuffer_writes.push(FramebufferWriteRecord {
        id: 6,
        generation: 1,
        owner_store: 2,
        owner_store_generation: 1,
        display_capability: 3,
        display_capability_generation: 1,
        display: 4,
        display_generation: 1,
        framebuffer: 5,
        framebuffer_generation: 1,
        x: 0,
        y: 0,
        width: 16,
        height: 8,
        byte_offset: 0,
        byte_len: 512,
        pixel_format: "xrgb8888".to_string(),
        payload_digest: 99,
        recorded_at_event: 0,
        state: FramebufferWriteState::Applied,
    });
    g
}

fn track(g: &mut SemanticGraph, id: u64) -> bool {
    g.record_framebuffer_dirty_region_with_id(id, 2, 1, 6, 1, None, None, FramebufferDirtyRegionState::Dirty, 0, 0,
        16, 8, 0, 512, 99, "dirty")
}

#[test]
fn dirty_region_copies_the_write_it_tracks() {
    let mut g = write_graph();
    assert!(track(&mut g, 1));
    assert_eq!(g.framebuffer_dirty_region_count(), 1);
    let r = &g.framebuffer_dirty_regions()[0];
    assert_eq!(r.display_capability, 3);
    assert_eq!(r.framebuffer, 5);
    assert_eq!(r.pixel_format, "xrgb8888");
    assert_eq!(r.state, FramebufferDirtyRegionState::Dirty);
    assert_eq!(r.cleaned_at_event, None);
    assert!(!track(&mut g, 2));
    assert_eq!(g.framebuffer_dirty_region_count(), 1);
}

#[test]
fn dirty_region_errors() {
    let g = write_graph();
    let v = |id: u64, flush: Option<u64>, state: FramebufferDirtyRegionState, width: u32, digest: u64| {
        g.validate_framebuffer_dirty_region(id, 2, 1, 6, 1, flush, flush, state, 0, 0, width, 8, 0, 512, digest)
    };
    assert_eq!(v(0, None, FramebufferDirtyRegionState::Dirty, 16, 99), Err("framebuffer dirty region id=0 is invalid"));
    assert_eq!(
        v(1, None, FramebufferDirtyRegionState::Dirty, 0, 99),
        Err("framebuffer dirty region identity and region values must be nonzero")
    );
    assert_eq!(
        v(1, Some(3), FramebufferDirtyRegionState::Dirty, 16, 99),
        Err("dirty framebuffer region cannot carry a flush ref")
    );
    assert_eq!(
        v(1, None, FramebufferDirtyRegionState::Clean, 16, 99),
        Err("clean framebuffer dirty region requires exact flush ref")
    );
    assert_eq!(v(1, None, FramebufferDirtyRegionState::Dirty, 16, 98), Err("framebuffer dirty region write binding mismatch"));
    assert_eq!(
        v(1, Some(3), FramebufferDirtyRegionState::Clean, 16, 99),
        Err("framebuffer dirty region flush generation is missing")
    );
    assert_eq!(v(1, None, FramebufferDirtyRegionState::Dirty, 16, 99), Ok(()));
}

#[test]
fn benchmark_rates() {
    assert_eq!(SemanticGraph::derive_framebuffer_throughput_bytes_per_sec(4096, 1_000_000), Some(4_096_000));
    assert_eq!(SemanticGraph::derive_framebuffer_throughput_bytes_per_sec(1, 0), None);
    assert_eq!(SemanticGraph::derive_framebuffer_throughput_bytes_per_sec(u64::MAX, 1), None);
    assert_eq!(SemanticGraph::derive_framebuffer_flushes_per_sec_milli(60, 1_000_000_000), Some(60_000));
    assert_eq!(SemanticGraph::derive_framebuffer_flushes_per_sec_milli(60, 0), None);
}

fn targets() -> FramebufferBenchmarkTargets {
    FramebufferBenchmarkTargets {
        owner_store: 2,
        owner_store_generation: 1,
        display_capability: 3,
        display_capability_generation: 1,
        framebuffer_write: 6,
        framebuffer_write_generation: 1,
        framebuffer_flush_region: 7,
        framebuffer_flush_region_generation: 1,
        display_event_log: 8,
        display_event_log_generation: 1,
        display_snapshot_barrier: 9,
        display_snapshot_barrier_generation: 1,
    }
}

fn sample() -> FramebufferBenchmarkSample {
    FramebufferBenchmarkSample {
        sample_frames: 60,
        sample_bytes: 4096,
        frame_area_pixels: 1024,
        write_nanos: 600,
        flush_nanos: 400,
        measured_nanos: 1000,
        budget_nanos: 2000,
        p50_latency_nanos: 10,
        p99_latency_nanos: 20,
    }
}

#[test]
fn benchmark_sample_errors() {
    let g = write_graph();
    assert_eq!(g.validate_framebuffer_benchmark(0, "s", targets(), sample()), Err("framebuffer benchmark id=0 is invalid"));
    assert_eq!(
        g.validate_framebuffer_benchmark(u64::MAX, "s", targets(), sample()),
        Err("framebuffer benchmark id cannot advance generation cursor")
    );
    assert_eq!(g.validate_framebuffer_benchmark(1, "", targets(), sample()), Err("framebuffer benchmark scenario is empty"));
    let open = FramebufferBenchmarkSample { flush_nanos: 300, ..sample() };
    assert_eq!(
        g.validate_framebuffer_benchmark(1, "s", targets(), open),
        Err("framebuffer benchmark measured time is not closed")
    );
    let slow = FramebufferBenchmarkSample { budget_nanos: 999, ..sample() };
    assert_eq!(g.validate_framebuffer_benchmark(1, "s", targets(), slow), Err("framebuffer benchmark exceeds latency budget"));
    let skewed = FramebufferBenchmarkSample { p99_latency_nanos: 5, ..sample() };
    assert_eq!(
        g.validate_framebuffer_benchmark(1, "s", targets(), skewed),
        Err("framebuffer benchmark latency distribution is invalid")
    );
    let zero = FramebufferBenchmarkSample { sample_frames: 0, ..sample() };
    assert_eq!(
        g.validate_framebuffer_benchmark(1, "s", targets(), zero),
        Err("framebuffer benchmark metrics require nonzero samples and timing")
    );
    assert_eq!(
        g.validate_framebuffer_benchmark(1, "s", targets(), sample()),
        Err("framebuffer benchmark display capability generation is missing")
    );
}
