use vstd::prelude::*;
use crate::errors::SemanticInvariantError;
use crate::graph::SemanticGraph;
use crate::search::then_audit;

verus! {

impl SemanticGraph {
    /// The verdict of auditing every table, in a fixed order; the first failure wins.
    pub open spec fn graph_audit(&self) -> Result<(), SemanticInvariantError> {
        then_audit(self.block_device_object_audit(),
        then_audit(self.block_range_object_audit(),
        then_audit(self.descriptor_object_audit(),
        then_audit(self.block_wait_audit(),
        then_audit(self.block_pending_io_policy_audit(),
        then_audit(self.fs_wait_audit(),
        then_audit(self.block_write_path_audit(),
        then_audit(self.directory_object_audit(),
        then_audit(self.block_request_queue_audit(),
        then_audit(self.cross_hart_scheduler_audit(),
        then_audit(self.endpoint_object_audit(),
        then_audit(self.framebuffer_benchmark_audit(),
        then_audit(self.framebuffer_dirty_region_audit(),
        then_audit(self.buffer_cache_object_audit(),
        then_audit(self.block_recovery_benchmark_audit(),
        then_audit(self.driver_store_binding_audit(),
        then_audit(self.display_cleanup_audit(),
        self.guest_memory_audit())))))))))))))))))
    }

    /// Audits every table and reports the first broken invariant.
    pub fn check_invariants(&self) -> (r: Result<(), SemanticInvariantError>)
        ensures
            r == self.graph_audit(),
    {
        if let Err(e) = self.check_block_device_object_invariants() {
            return Err(e);
        }
        if let Err(e) = self.check_block_range_object_invariants() {
            return Err(e);
        }
        if let Err(e) = self.check_descriptor_object_invariants() {
            return Err(e);
        }
        if let Err(e) = self.check_block_wait_invariants() {
            return Err(e);
        }
        if let Err(e) = self.check_block_pending_io_policy_invariants() {
            return Err(e);
        }
        if let Err(e) = self.check_fs_wait_invariants() {
            return Err(e);
        }
        if let Err(e) = self.check_block_write_path_invariants() {
            return Err(e);
        }
        if let Err(e) = self.check_directory_object_invariants() {
            return Err(e);
        }
        if let Err(e) = self.check_block_request_queue_invariants() {
            return Err(e);
        }
        if let Err(e) = self.check_cross_hart_scheduler_invariants() {
            return Err(e);
        }
        if let Err(e) = self.check_endpoint_object_invariants() {
            return Err(e);
        }
        if let Err(e) = self.check_framebuffer_benchmark_invariants() {
            return Err(e);
        }
        if let Err(e) = self.check_framebuffer_dirty_region_invariants() {
            return Err(e);
        }
        if let Err(e) = self.check_buffer_cache_object_invariants() {
            return Err(e);
        }
        if let Err(e) = self.check_block_recovery_benchmark_invariants() {
            return Err(e);
        }
        if let Err(e) = self.check_driver_store_binding_invariants() {
            return Err(e);
        }
        if let Err(e) = self.check_display_cleanup_invariants() {
            return Err(e);
        }
        self.check_guest_memory_invariants()
    }
}

} // verus!
