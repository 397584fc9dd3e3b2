use vstd::prelude::*;
use crate::base::{
    BlockCompletionObjectRecord, BlockRequestObjectRecord, FakeBlockBackendObjectRecord,
    FileHandleCapabilityRecord, FileObjectRecord, StoreRecord, WaitRecord,
};
use crate::block_range_object::BlockRangeObjectRecord;
use crate::block_wait::BlockWaitRecord;
use crate::directory_object::DirectoryObjectRecord;
use crate::fs_wait::FsWaitRecord;
use crate::graph::SemanticGraph;
use crate::search::{any_match, find_first, first_match, is_first_match, opt_index};
use crate::types::{
    BlockCompletionObjectId, BlockCompletionObjectState, BlockRangeObjectId, BlockRequestObjectId,
    BlockRequestObjectState, BlockWaitId, BlockWaitState, DirectoryObjectId,
    FakeBlockBackendObjectId, FakeBlockBackendObjectState, FileHandleCapabilityId,
    FileHandleCapabilityState, FileObjectId, FileObjectState, FsWaitId, FsWaitState, Generation,
    StoreId, WaitId, WaitState,
};

verus! {

pub open spec fn wait_is(id: WaitId, generation: Generation) -> spec_fn(WaitRecord) -> bool {
    |x: WaitRecord| x.id == id && x.generation == generation
}

pub open spec fn pending_wait_is(id: WaitId, generation: Generation) -> spec_fn(WaitRecord) -> bool {
    |x: WaitRecord| x.id == id && x.generation == generation && x.state == WaitState::Pending
}

pub open spec fn store_is(id: StoreId, generation: Generation) -> spec_fn(StoreRecord) -> bool {
    |x: StoreRecord| x.id == id && x.generation == generation
}

pub open spec fn request_is(id: BlockRequestObjectId, generation: Generation) -> spec_fn(BlockRequestObjectRecord) -> bool {
    |x: BlockRequestObjectRecord| x.id == id && x.generation == generation
}

pub open spec fn submitted_request_is(id: BlockRequestObjectId, generation: Generation) -> spec_fn(BlockRequestObjectRecord) -> bool {
    |x: BlockRequestObjectRecord| x.id == id && x.generation == generation && x.state == BlockRequestObjectState::Submitted
}

pub open spec fn completion_is(id: BlockCompletionObjectId, generation: Generation) -> spec_fn(BlockCompletionObjectRecord) -> bool {
    |x: BlockCompletionObjectRecord| x.id == id && x.generation == generation
}

pub open spec fn recorded_completion_is(id: BlockCompletionObjectId, generation: Generation) -> spec_fn(BlockCompletionObjectRecord) -> bool {
    |x: BlockCompletionObjectRecord| x.id == id && x.generation == generation && x.state == BlockCompletionObjectState::Recorded
}

pub open spec fn block_wait_is(id: BlockWaitId, generation: Generation) -> spec_fn(BlockWaitRecord) -> bool {
    |x: BlockWaitRecord| x.id == id && x.generation == generation
}

pub open spec fn pending_block_wait_is(id: BlockWaitId, generation: Generation) -> spec_fn(BlockWaitRecord) -> bool {
    |x: BlockWaitRecord| x.id == id && x.generation == generation && x.state == BlockWaitState::Pending
}

pub open spec fn bound_fake_backend_is(id: FakeBlockBackendObjectId, generation: Generation) -> spec_fn(FakeBlockBackendObjectRecord) -> bool {
    |x: FakeBlockBackendObjectRecord| x.id == id && x.generation == generation && x.state == FakeBlockBackendObjectState::Bound
}

pub open spec fn fake_backend_is(id: FakeBlockBackendObjectId, generation: Generation) -> spec_fn(FakeBlockBackendObjectRecord) -> bool {
    |x: FakeBlockBackendObjectRecord| x.id == id && x.generation == generation
}

pub open spec fn block_range_is(id: BlockRangeObjectId, generation: Generation) -> spec_fn(BlockRangeObjectRecord) -> bool {
    |x: BlockRangeObjectRecord| x.id == id && x.generation == generation
}

pub open spec fn file_object_is(id: FileObjectId, generation: Generation) -> spec_fn(FileObjectRecord) -> bool {
    |x: FileObjectRecord| x.id == id && x.generation == generation
}

pub open spec fn live_file_object_is(id: FileObjectId, generation: Generation) -> spec_fn(FileObjectRecord) -> bool {
    |x: FileObjectRecord| x.id == id && x.generation == generation && x.state != FileObjectState::Invalidated
}

pub open spec fn directory_object_is(id: DirectoryObjectId, generation: Generation) -> spec_fn(DirectoryObjectRecord) -> bool {
    |x: DirectoryObjectRecord| x.id == id && x.generation == generation
}

pub open spec fn file_handle_capability_is(id: FileHandleCapabilityId, generation: Generation) -> spec_fn(FileHandleCapabilityRecord) -> bool {
    |x: FileHandleCapabilityRecord| x.id == id && x.generation == generation
}

pub open spec fn allowed_file_handle_capability_is(id: FileHandleCapabilityId, generation: Generation) -> spec_fn(FileHandleCapabilityRecord) -> bool {
    |x: FileHandleCapabilityRecord| x.id == id && x.generation == generation && x.state == FileHandleCapabilityState::Allowed
}

pub open spec fn fs_wait_is(id: FsWaitId, generation: Generation) -> spec_fn(FsWaitRecord) -> bool {
    |x: FsWaitRecord| x.id == id && x.generation == generation
}

pub open spec fn pending_fs_wait_is(id: FsWaitId, generation: Generation) -> spec_fn(FsWaitRecord) -> bool {
    |x: FsWaitRecord| x.id == id && x.generation == generation && x.state == FsWaitState::Pending
}

impl SemanticGraph {
    pub fn find_wait(&self, id: WaitId, generation: Generation) -> (r: Option<usize>)
        ensures
            opt_index(r) == first_match(self.waits@, wait_is(id, generation)),
            r matches Some(i) ==> is_first_match(self.waits@, wait_is(id, generation), i as int),
            r is None <==> !any_match(self.waits@, wait_is(id, generation)),
    {
        find_first(
            &self.waits,
            |x: &WaitRecord| -> (b: bool)
                ensures b == wait_is(id, generation)(*x)
            { x.id == id && x.generation == generation },
            Ghost(wait_is(id, generation)),
        )
    }

    pub fn find_pending_wait(&self, id: WaitId, generation: Generation) -> (r: Option<usize>)
        ensures
            opt_index(r) == first_match(self.waits@, pending_wait_is(id, generation)),
            r matches Some(i) ==> is_first_match(self.waits@, pending_wait_is(id, generation), i as int),
            r is None <==> !any_match(self.waits@, pending_wait_is(id, generation)),
    {
        find_first(
            &self.waits,
            |x: &WaitRecord| -> (b: bool)
                ensures b == pending_wait_is(id, generation)(*x)
            { x.id == id && x.generation == generation && x.state == WaitState::Pending },
            Ghost(pending_wait_is(id, generation)),
        )
    }

    pub fn find_store(&self, id: StoreId, generation: Generation) -> (r: Option<usize>)
        ensures
            opt_index(r) == first_match(self.stores@, store_is(id, generation)),
            r matches Some(i) ==> is_first_match(self.stores@, store_is(id, generation), i as int),
            r is None <==> !any_match(self.stores@, store_is(id, generation)),
    {
        find_first(
            &self.stores,
            |x: &StoreRecord| -> (b: bool)
                ensures b == store_is(id, generation)(*x)
            { x.id == id && x.generation == generation },
            Ghost(store_is(id, generation)),
        )
    }

    pub fn find_request(&self, id: BlockRequestObjectId, generation: Generation) -> (r: Option<usize>)
        ensures
            opt_index(r) == first_match(self.block_request_objects@, request_is(id, generation)),
            r matches Some(i) ==> is_first_match(self.block_request_objects@, request_is(id, generation), i as int),
            r is None <==> !any_match(self.block_request_objects@, request_is(id, generation)),
    {
        find_first(
            &self.block_request_objects,
            |x: &BlockRequestObjectRecord| -> (b: bool)
                ensures b == request_is(id, generation)(*x)
            { x.id == id && x.generation == generation },
            Ghost(request_is(id, generation)),
        )
    }

    pub fn find_submitted_request(&self, id: BlockRequestObjectId, generation: Generation) -> (r: Option<usize>)
        ensures
            opt_index(r) == first_match(self.block_request_objects@, submitted_request_is(id, generation)),
            r matches Some(i) ==> is_first_match(self.block_request_objects@, submitted_request_is(id, generation), i as int),
            r is None <==> !any_match(self.block_request_objects@, submitted_request_is(id, generation)),
    {
        find_first(
            &self.block_request_objects,
            |x: &BlockRequestObjectRecord| -> (b: bool)
                ensures b == submitted_request_is(id, generation)(*x)
            { x.id == id && x.generation == generation && x.state == BlockRequestObjectState::Submitted },
            Ghost(submitted_request_is(id, generation)),
        )
    }

    pub fn find_completion(&self, id: BlockCompletionObjectId, generation: Generation) -> (r: Option<usize>)
        ensures
            opt_index(r) == first_match(self.block_completion_objects@, completion_is(id, generation)),
            r matches Some(i) ==> is_first_match(self.block_completion_objects@, completion_is(id, generation), i as int),
            r is None <==> !any_match(self.block_completion_objects@, completion_is(id, generation)),
    {
        find_first(
            &self.block_completion_objects,
            |x: &BlockCompletionObjectRecord| -> (b: bool)
                ensures b == completion_is(id, generation)(*x)
            { x.id == id && x.generation == generation },
            Ghost(completion_is(id, generation)),
        )
    }

    pub fn find_recorded_completion(&self, id: BlockCompletionObjectId, generation: Generation) -> (r: Option<usize>)
        ensures
            opt_index(r) == first_match(self.block_completion_objects@, recorded_completion_is(id, generation)),
            r matches Some(i) ==> is_first_match(self.block_completion_objects@, recorded_completion_is(id, generation), i as int),
            r is None <==> !any_match(self.block_completion_objects@, recorded_completion_is(id, generation)),
    {
        find_first(
            &self.block_completion_objects,
            |x: &BlockCompletionObjectRecord| -> (b: bool)
                ensures b == recorded_completion_is(id, generation)(*x)
            { x.id == id && x.generation == generation && x.state == BlockCompletionObjectState::Recorded },
            Ghost(recorded_completion_is(id, generation)),
        )
    }

    pub fn find_block_wait(&self, id: BlockWaitId, generation: Generation) -> (r: Option<usize>)
        ensures
            opt_index(r) == first_match(self.block_waits@, block_wait_is(id, generation)),
            r matches Some(i) ==> is_first_match(self.block_waits@, block_wait_is(id, generation), i as int),
            r is None <==> !any_match(self.block_waits@, block_wait_is(id, generation)),
    {
        find_first(
            &self.block_waits,
            |x: &BlockWaitRecord| -> (b: bool)
                ensures b == block_wait_is(id, generation)(*x)
            { x.id == id && x.generation == generation },
            Ghost(block_wait_is(id, generation)),
        )
    }

    pub fn find_pending_block_wait(&self, id: BlockWaitId, generation: Generation) -> (r: Option<usize>)
        ensures
            opt_index(r) == first_match(self.block_waits@, pending_block_wait_is(id, generation)),
            r matches Some(i) ==> is_first_match(self.block_waits@, pending_block_wait_is(id, generation), i as int),
            r is None <==> !any_match(self.block_waits@, pending_block_wait_is(id, generation)),
    {
        find_first(
            &self.block_waits,
            |x: &BlockWaitRecord| -> (b: bool)
                ensures b == pending_block_wait_is(id, generation)(*x)
            { x.id == id && x.generation == generation && x.state == BlockWaitState::Pending },
            Ghost(pending_block_wait_is(id, generation)),
        )
    }

    pub fn find_bound_fake_backend(&self, id: FakeBlockBackendObjectId, generation: Generation) -> (r: Option<usize>)
        ensures
            opt_index(r) == first_match(self.fake_block_backends@, bound_fake_backend_is(id, generation)),
            r matches Some(i) ==> is_first_match(self.fake_block_backends@, bound_fake_backend_is(id, generation), i as int),
            r is None <==> !any_match(self.fake_block_backends@, bound_fake_backend_is(id, generation)),
    {
        find_first(
            &self.fake_block_backends,
            |x: &FakeBlockBackendObjectRecord| -> (b: bool)
                ensures b == bound_fake_backend_is(id, generation)(*x)
            { x.id == id && x.generation == generation && x.state == FakeBlockBackendObjectState::Bound },
            Ghost(bound_fake_backend_is(id, generation)),
        )
    }

    pub fn find_fake_backend(&self, id: FakeBlockBackendObjectId, generation: Generation) -> (r: Option<usize>)
        ensures
            opt_index(r) == first_match(self.fake_block_backends@, fake_backend_is(id, generation)),
            r matches Some(i) ==> is_first_match(self.fake_block_backends@, fake_backend_is(id, generation), i as int),
            r is None <==> !any_match(self.fake_block_backends@, fake_backend_is(id, generation)),
    {
        find_first(
            &self.fake_block_backends,
            |x: &FakeBlockBackendObjectRecord| -> (b: bool)
                ensures b == fake_backend_is(id, generation)(*x)
            { x.id == id && x.generation == generation },
            Ghost(fake_backend_is(id, generation)),
        )
    }

    pub fn find_block_range(&self, id: BlockRangeObjectId, generation: Generation) -> (r: Option<usize>)
        ensures
            opt_index(r) == first_match(self.block_range_objects@, block_range_is(id, generation)),
            r matches Some(i) ==> is_first_match(self.block_range_objects@, block_range_is(id, generation), i as int),
            r is None <==> !any_match(self.block_range_objects@, block_range_is(id, generation)),
    {
        find_first(
            &self.block_range_objects,
            |x: &BlockRangeObjectRecord| -> (b: bool)
                ensures b == block_range_is(id, generation)(*x)
            { x.id == id && x.generation == generation },
            Ghost(block_range_is(id, generation)),
        )
    }

    pub fn find_file_object(&self, id: FileObjectId, generation: Generation) -> (r: Option<usize>)
        ensures
            opt_index(r) == first_match(self.file_objects@, file_object_is(id, generation)),
            r matches Some(i) ==> is_first_match(self.file_objects@, file_object_is(id, generation), i as int),
            r is None <==> !any_match(self.file_objects@, file_object_is(id, generation)),
    {
        find_first(
            &self.file_objects,
            |x: &FileObjectRecord| -> (b: bool)
                ensures b == file_object_is(id, generation)(*x)
            { x.id == id && x.generation == generation },
            Ghost(file_object_is(id, generation)),
        )
    }

    pub fn find_live_file_object(&self, id: FileObjectId, generation: Generation) -> (r: Option<usize>)
        ensures
            opt_index(r) == first_match(self.file_objects@, live_file_object_is(id, generation)),
            r matches Some(i) ==> is_first_match(self.file_objects@, live_file_object_is(id, generation), i as int),
            r is None <==> !any_match(self.file_objects@, live_file_object_is(id, generation)),
    {
        find_first(
            &self.file_objects,
            |x: &FileObjectRecord| -> (b: bool)
                ensures b == live_file_object_is(id, generation)(*x)
            { x.id == id && x.generation == generation && x.state != FileObjectState::Invalidated },
            Ghost(live_file_object_is(id, generation)),
        )
    }

    pub fn find_directory_object(&self, id: DirectoryObjectId, generation: Generation) -> (r: Option<usize>)
        ensures
            opt_index(r) == first_match(self.directory_objects@, directory_object_is(id, generation)),
            r matches Some(i) ==> is_first_match(self.directory_objects@, directory_object_is(id, generation), i as int),
            r is None <==> !any_match(self.directory_objects@, directory_object_is(id, generation)),
    {
        find_first(
            &self.directory_objects,
            |x: &DirectoryObjectRecord| -> (b: bool)
                ensures b == directory_object_is(id, generation)(*x)
            { x.id == id && x.generation == generation },
            Ghost(directory_object_is(id, generation)),
        )
    }

    pub fn find_file_handle_capability(&self, id: FileHandleCapabilityId, generation: Generation) -> (r: Option<usize>)
        ensures
            opt_index(r) == first_match(self.file_handle_capabilities@, file_handle_capability_is(id, generation)),
            r matches Some(i) ==> is_first_match(self.file_handle_capabilities@, file_handle_capability_is(id, generation), i as int),
            r is None <==> !any_match(self.file_handle_capabilities@, file_handle_capability_is(id, generation)),
    {
        find_first(
            &self.file_handle_capabilities,
            |x: &FileHandleCapabilityRecord| -> (b: bool)
                ensures b == file_handle_capability_is(id, generation)(*x)
            { x.id == id && x.generation == generation },
            Ghost(file_handle_capability_is(id, generation)),
        )
    }

    pub fn find_allowed_file_handle_capability(&self, id: FileHandleCapabilityId, generation: Generation) -> (r: Option<usize>)
        ensures
            opt_index(r) == first_match(self.file_handle_capabilities@, allowed_file_handle_capability_is(id, generation)),
            r matches Some(i) ==> is_first_match(self.file_handle_capabilities@, allowed_file_handle_capability_is(id, generation), i as int),
            r is None <==> !any_match(self.file_handle_capabilities@, allowed_file_handle_capability_is(id, generation)),
    {
        find_first(
            &self.file_handle_capabilities,
            |x: &FileHandleCapabilityRecord| -> (b: bool)
                ensures b == allowed_file_handle_capability_is(id, generation)(*x)
            { x.id == id && x.generation == generation && x.state == FileHandleCapabilityState::Allowed },
            Ghost(allowed_file_handle_capability_is(id, generation)),
        )
    }

    pub fn find_fs_wait(&self, id: FsWaitId, generation: Generation) -> (r: Option<usize>)
        ensures
            opt_index(r) == first_match(self.fs_waits@, fs_wait_is(id, generation)),
            r matches Some(i) ==> is_first_match(self.fs_waits@, fs_wait_is(id, generation), i as int),
            r is None <==> !any_match(self.fs_waits@, fs_wait_is(id, generation)),
    {
        find_first(
            &self.fs_waits,
            |x: &FsWaitRecord| -> (b: bool)
                ensures b == fs_wait_is(id, generation)(*x)
            { x.id == id && x.generation == generation },
            Ghost(fs_wait_is(id, generation)),
        )
    }

    pub fn find_pending_fs_wait(&self, id: FsWaitId, generation: Generation) -> (r: Option<usize>)
        ensures
            opt_index(r) == first_match(self.fs_waits@, pending_fs_wait_is(id, generation)),
            r matches Some(i) ==> is_first_match(self.fs_waits@, pending_fs_wait_is(id, generation), i as int),
            r is None <==> !any_match(self.fs_waits@, pending_fs_wait_is(id, generation)),
    {
        find_first(
            &self.fs_waits,
            |x: &FsWaitRecord| -> (b: bool)
                ensures b == pending_fs_wait_is(id, generation)(*x)
            { x.id == id && x.generation == generation && x.state == FsWaitState::Pending },
            Ghost(pending_fs_wait_is(id, generation)),
        )
    }

}

} // verus!
