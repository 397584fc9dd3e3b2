//! Verified model of the semantic object graph: block, storage, display,
//! scheduler and guest-memory records with their validation and audits.
pub mod search;
pub mod types;
pub mod base;
pub mod events;
pub mod errors;
pub mod graph;
pub mod block_device_object;
pub mod block_range_object;
pub mod descriptor_object;
pub mod block_wait;
pub mod block_wait_audit;
pub mod block_write_path;
pub mod block_request_queue;
pub mod block_pending_io_policy;
pub mod directory_object;
pub mod fs_wait;
pub mod cross_scheduler;
pub mod scheduler_preflight;
pub mod activation_preflight;
pub mod cleanup_transaction;
pub mod wait_preflight;
pub mod activation_wait_preflight;
pub mod activation_waits;
pub mod interrupt_preflight;
pub mod endpoint_object;
pub mod framebuffer_benchmark;
pub mod framebuffer_dirty_region;
pub mod buffer_cache_object;
pub mod block_recovery_benchmark;
pub mod driver_store_binding;
pub mod capability;
pub mod command;
pub mod command_laws;
pub mod display_cleanup;
pub mod display_cleanup_audit;
pub mod guest_memory;
pub mod lookup;
pub mod lookup2;
pub mod waits;
pub mod invariants;
