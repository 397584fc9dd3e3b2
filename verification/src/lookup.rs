use vstd::prelude::*;
use crate::base::{DeviceObjectRecord, QueueObjectRecord, ResourceRecord};
use crate::block_device_object::BlockDeviceObjectRecord;
use crate::graph::SemanticGraph;
use crate::search::{any_match, exists_match, find_first, first_match, is_first_match, opt_index};
use crate::types::{QueueObjectId, QueueObjectState, BlockDeviceObjectId, BlockDeviceObjectState, DeviceObjectId, Generation, ResourceId, ResourceKind};

verus! {

pub open spec fn device_is(id: DeviceObjectId, generation: Generation) -> spec_fn(DeviceObjectRecord) -> bool {
    |d: DeviceObjectRecord| d.id == id && d.generation == generation
}

pub open spec fn live_block_resource(id: ResourceId, generation: Generation) -> spec_fn(ResourceRecord) -> bool {
    |r: ResourceRecord| r.id == id && r.generation == generation && r.kind == ResourceKind::BlockDevice && r.live
}

pub open spec fn block_device_is(id: BlockDeviceObjectId, generation: Generation) -> spec_fn(BlockDeviceObjectRecord) -> bool {
    |d: BlockDeviceObjectRecord| d.id == id && d.generation == generation
}

pub open spec fn registered_block_device_is(id: BlockDeviceObjectId, generation: Generation) -> spec_fn(BlockDeviceObjectRecord) -> bool {
    |d: BlockDeviceObjectRecord| d.id == id && d.generation == generation && d.state == BlockDeviceObjectState::Registered
}

pub open spec fn queue_is(id: QueueObjectId, generation: Generation) -> spec_fn(QueueObjectRecord) -> bool {
    |q: QueueObjectRecord| q.id == id && q.generation == generation
}

pub open spec fn registered_queue_is(id: QueueObjectId, generation: Generation) -> spec_fn(QueueObjectRecord) -> bool {
    |q: QueueObjectRecord| q.id == id && q.generation == generation && q.state == QueueObjectState::Registered
}

impl SemanticGraph {
    pub fn find_queue_object(&self, id: QueueObjectId, generation: Generation, registered: bool) -> (r: Option<usize>)
        ensures
            registered ==> opt_index(r) == first_match(self.queue_objects@, registered_queue_is(id, generation)),
            !registered ==> opt_index(r) == first_match(self.queue_objects@, queue_is(id, generation)),
            r matches Some(i) ==> i < self.queue_objects@.len(),
    {
        if registered {
            find_first(
                &self.queue_objects,
                |q: &QueueObjectRecord| -> (b: bool)
                    ensures b == registered_queue_is(id, generation)(*q)
                { q.id == id && q.generation == generation && q.state == QueueObjectState::Registered },
                Ghost(registered_queue_is(id, generation)),
            )
        } else {
            find_first(
                &self.queue_objects,
                |q: &QueueObjectRecord| -> (b: bool)
                    ensures b == queue_is(id, generation)(*q)
                { q.id == id && q.generation == generation },
                Ghost(queue_is(id, generation)),
            )
        }
    }

    pub fn find_block_device_object(&self, id: BlockDeviceObjectId, generation: Generation) -> (r: Option<usize>)
        ensures
            opt_index(r) == first_match(self.block_device_objects@, block_device_is(id, generation)),
            r matches Some(i) ==> is_first_match(self.block_device_objects@, block_device_is(id, generation), i as int),
    {
        find_first(
            &self.block_device_objects,
            |d: &BlockDeviceObjectRecord| -> (b: bool)
                ensures b == block_device_is(id, generation)(*d)
            { d.id == id && d.generation == generation },
            Ghost(block_device_is(id, generation)),
        )
    }

    pub fn find_registered_block_device_object(&self, id: BlockDeviceObjectId, generation: Generation) -> (r: Option<usize>)
        ensures
            opt_index(r) == first_match(self.block_device_objects@, registered_block_device_is(id, generation)),
            r matches Some(i) ==> is_first_match(self.block_device_objects@, registered_block_device_is(id, generation), i as int),
    {
        find_first(
            &self.block_device_objects,
            |d: &BlockDeviceObjectRecord| -> (b: bool)
                ensures b == registered_block_device_is(id, generation)(*d)
            { d.id == id && d.generation == generation && d.state == BlockDeviceObjectState::Registered },
            Ghost(registered_block_device_is(id, generation)),
        )
    }

    pub fn find_device_object(&self, id: DeviceObjectId, generation: Generation) -> (r: Option<usize>)
        ensures
            opt_index(r) == first_match(self.device_objects@, device_is(id, generation)),
            r matches Some(i) ==> is_first_match(self.device_objects@, device_is(id, generation), i as int),
    {
        find_first(
            &self.device_objects,
            |d: &DeviceObjectRecord| -> (b: bool)
                ensures b == device_is(id, generation)(*d)
            { d.id == id && d.generation == generation },
            Ghost(device_is(id, generation)),
        )
    }

    pub fn has_live_block_resource(&self, id: ResourceId, generation: Generation) -> (r: bool)
        ensures
            r == any_match(self.resources@, live_block_resource(id, generation)),
    {
        exists_match(
            &self.resources,
            |x: &ResourceRecord| -> (b: bool)
                ensures b == live_block_resource(id, generation)(*x)
            { x.id == id && x.generation == generation && x.kind == ResourceKind::BlockDevice && x.live },
            Ghost(live_block_resource(id, generation)),
        )
    }
}

} // verus!
