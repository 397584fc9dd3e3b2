use vstd::prelude::*;
use crate::errors::SemanticInvariantError;
use crate::events::{appended_event, appended_one, has_event_spec, lemma_has_event_extends, EventDomain, EventKind};
use crate::graph::{SemanticGraph, Table};
use crate::lookup::{device_is, live_block_resource};
use crate::search::{
    any_match, exists_match, first_failure, first_match, is_power_of_two, lemma_first_failure_at,
    lemma_first_failure_ok, lemma_first_failure_ok_all, max_of, max_u64, saturating_succ, str_eq, succ_saturating,
    u32_is_power_of_two,
};
use crate::types::{
    BlockDeviceObjectId, BlockDeviceObjectState, DeviceObjectId, DeviceObjectState, EventId,
    Generation,
};

verus! {

/// A block device object layered on a registered block-class device.
pub struct BlockDeviceObjectRecord {
    pub id: BlockDeviceObjectId,
    pub name: String,
    pub device: DeviceObjectId,
    pub device_generation: Generation,
    pub sector_size: u32,
    pub sector_count: u64,
    pub read_only: bool,
    pub max_transfer_sectors: u32,
    pub generation: Generation,
    pub state: BlockDeviceObjectState,
    pub recorded_at_event: EventId,
    pub note: String,
}

pub open spec fn block_device_id_is(id: BlockDeviceObjectId) -> spec_fn(BlockDeviceObjectRecord) -> bool {
    |r: BlockDeviceObjectRecord| r.id == id
}

/// The class a device must have to back a block device object.
pub open spec fn block_device_class() -> Seq<char> {
    "block-device"@
}

/// The event that records `r`.
pub open spec fn block_device_object_event(r: BlockDeviceObjectRecord) -> EventKind {
    EventKind::BlockDeviceObjectRecorded {
        block_device: r.id,
        device: r.device,
        device_generation: r.device_generation,
        sector_size: r.sector_size,
        sector_count: r.sector_count,
        read_only: r.read_only,
        max_transfer_sectors: r.max_transfer_sectors,
        generation: r.generation,
    }
}

/// The sector geometry a block device object may have.
pub open spec fn block_geometry_ok(sector_size: u32, sector_count: u64, max_transfer_sectors: u32) -> bool {
    &&& sector_size != 0
    &&& sector_count != 0
    &&& max_transfer_sectors != 0
    &&& is_power_of_two(sector_size as nat)
    &&& sector_size >= 512
}

/// `new` is `old` after recording the block device object described by the arguments.
pub open spec fn recorded_block_device_object(
    old: SemanticGraph,
    new: SemanticGraph,
    block_device: BlockDeviceObjectId,
    name: Seq<char>,
    device: DeviceObjectId,
    device_generation: Generation,
    sector_size: u32,
    sector_count: u64,
    read_only: bool,
    max_transfer_sectors: u32,
    note: Seq<char>,
) -> bool {
    let r = new.block_device_objects@.last();
    &&& new.agrees_except(&old, set![Table::EventLog, Table::BlockDeviceObjects])
    &&& appended_one(old.block_device_objects@, new.block_device_objects@)
    &&& r.id == block_device && r.name@ == name && r.device == device
    &&& r.device_generation == device_generation && r.sector_size == sector_size
    &&& r.sector_count == sector_count && r.read_only == read_only
    &&& r.max_transfer_sectors == max_transfer_sectors && r.generation == 1
    &&& r.state == BlockDeviceObjectState::Registered && r.note@ == note
    &&& r.recorded_at_event == old.event_log.next_event_id
    &&& appended_event(old.event_log, new.event_log, EventDomain::Block,
        block_device_object_event(r))
    &&& new.next_block_device_object_id
        == max_u64(old.next_block_device_object_id, saturating_succ(block_device))
}

impl SemanticGraph {
    /// Why recording a block device object with these values would be refused, if it would.
    pub open spec fn block_device_object_verdict(
        &self,
        block_device: BlockDeviceObjectId,
        name: Seq<char>,
        device: DeviceObjectId,
        device_generation: Generation,
        sector_size: u32,
        sector_count: u64,
        max_transfer_sectors: u32,
    ) -> Result<(), &'static str> {
        if block_device == 0 {
            Err("block device object id=0 is invalid")
        } else if any_match(self.block_device_objects@, block_device_id_is(block_device)) {
            Err("block device object already exists")
        } else if name.len() == 0 {
            Err("block device object name is empty")
        } else if sector_size == 0 || sector_count == 0 || max_transfer_sectors == 0 {
            Err("block device object contract values must be nonzero")
        } else if !is_power_of_two(sector_size as nat) || sector_size < 512 {
            Err("block device object sector size is unsupported")
        } else {
            match first_match(self.device_objects@, device_is(device, device_generation)) {
                None => Err("block device object device generation is missing"),
                Some(i) => {
                    let d = self.device_objects@[i];
                    if d.state != DeviceObjectState::Registered {
                        Err("block device object device is not registered")
                    } else if d.class@ != block_device_class() {
                        Err("block device object device class is not block-device")
                    } else if !any_match(self.resources@, live_block_resource(d.resource, d.resource_generation)) {
                        Err("block device object must be backed by live block device resource")
                    } else if self.graph_audit() is Err {
                        Err("block device object requires invariant-clean graph")
                    } else {
                        Ok(())
                    }
                },
            }
        }
    }

    /// What an audit finds wrong with block device object `r`, if anything.
    pub open spec fn block_device_object_fault(&self, r: BlockDeviceObjectRecord) -> Option<SemanticInvariantError> {
        match first_match(self.device_objects@, device_is(r.device, r.device_generation)) {
            None => Some(SemanticInvariantError::BlockDeviceObjectMissingDevice { block_device: r.id, device: r.device }),
            Some(i) => {
                let d = self.device_objects@[i];
                if r.id == 0 || r.generation == 0 || r.name@.len() == 0
                    || !block_geometry_ok(r.sector_size, r.sector_count, r.max_transfer_sectors)
                    || r.state != BlockDeviceObjectState::Registered
                    || d.state != DeviceObjectState::Registered || d.class@ != block_device_class()
                    || !any_match(self.resources@, live_block_resource(d.resource, d.resource_generation)) {
                    Some(SemanticInvariantError::BlockDeviceObjectInvalid { block_device: r.id })
                } else if !has_event_spec(self.event_log.events@, r.recorded_at_event, block_device_object_event(r)) {
                    Some(SemanticInvariantError::BlockDeviceObjectMissingEvent { block_device: r.id })
                } else {
                    None
                }
            },
        }
    }

    /// Audit verdict of the block device object table.
    pub open spec fn block_device_object_audit(&self) -> Result<(), SemanticInvariantError> {
        first_failure(Seq::new(
            self.block_device_objects@.len(),
            |i: int| self.block_device_object_fault(self.block_device_objects@[i]),
        ))
    }

    pub fn validate_block_device_object(
        &self,
        block_device: BlockDeviceObjectId,
        name: &str,
        device: DeviceObjectId,
        device_generation: Generation,
        sector_size: u32,
        sector_count: u64,
        max_transfer_sectors: u32,
    ) -> (r: Result<(), &'static str>)
        ensures
            r == self.block_device_object_verdict(block_device, name@, device, device_generation,
                sector_size, sector_count, max_transfer_sectors),
    {
        if block_device == 0 {
            return Err("block device object id=0 is invalid");
        }
        if exists_match(
            &self.block_device_objects,
            |r: &BlockDeviceObjectRecord| -> (b: bool)
                ensures b == block_device_id_is(block_device)(*r)
            { r.id == block_device },
            Ghost(block_device_id_is(block_device)),
        ) {
            return Err("block device object already exists");
        }
        if name.is_empty() {
            return Err("block device object name is empty");
        }
        if sector_size == 0 || sector_count == 0 || max_transfer_sectors == 0 {
            return Err("block device object contract values must be nonzero");
        }
        if !u32_is_power_of_two(sector_size) || sector_size < 512 {
            return Err("block device object sector size is unsupported");
        }
        let Some(i) = self.find_device_object(device, device_generation) else {
            return Err("block device object device generation is missing");
        };
        let d = &self.device_objects[i];
        if d.state != DeviceObjectState::Registered {
            return Err("block device object device is not registered");
        }
        if !str_eq(d.class.as_str(), "block-device") {
            return Err("block device object device class is not block-device");
        }
        if !self.has_live_block_resource(d.resource, d.resource_generation) {
            return Err("block device object must be backed by live block device resource");
        }
        if self.check_invariants().is_err() {
            return Err("block device object requires invariant-clean graph");
        }
        Ok(())
    }

    /// Records a block device object when the graph accepts it; returns whether it did.
    pub fn record_block_device_object_with_id(
        &mut self,
        block_device: BlockDeviceObjectId,
        name: &str,
        device: DeviceObjectId,
        device_generation: Generation,
        sector_size: u32,
        sector_count: u64,
        read_only: bool,
        max_transfer_sectors: u32,
        note: &str,
    ) -> (ok: bool)
        requires
            old(self).event_log.next_event_id < u64::MAX,
        ensures
            ok == (old(self).block_device_object_verdict(block_device, name@, device,
                device_generation, sector_size, sector_count, max_transfer_sectors) is Ok),
            !ok ==> *final(self) == *old(self),
            ok ==> recorded_block_device_object(*old(self), *final(self), block_device, name@, device,
                device_generation, sector_size, sector_count, read_only, max_transfer_sectors, note@),
    {
        if self.validate_block_device_object(block_device, name, device, device_generation,
            sector_size, sector_count, max_transfer_sectors).is_err() {
            return false;
        }
        let generation: u64 = 1;
        self.next_block_device_object_id = max_of(self.next_block_device_object_id, succ_saturating(block_device));
        let recorded_at_event = self.event_log.push(
            EventDomain::Block,
            EventKind::BlockDeviceObjectRecorded {
                block_device,
                device,
                device_generation,
                sector_size,
                sector_count,
                read_only,
                max_transfer_sectors,
                generation,
            },
        );
        self.block_device_objects.push(BlockDeviceObjectRecord {
            id: block_device,
            name: name.to_owned(),
            device,
            device_generation,
            sector_size,
            sector_count,
            read_only,
            max_transfer_sectors,
            generation,
            state: BlockDeviceObjectState::Registered,
            recorded_at_event,
            note: note.to_owned(),
        });
        proof {
            assert(self.block_device_objects@.subrange(0, old(self).block_device_objects@.len() as int)
                =~= old(self).block_device_objects@);
        }
        true
    }

    pub fn block_device_objects(&self) -> (r: &[BlockDeviceObjectRecord])
        ensures
            r@ == self.block_device_objects@,
    {
        self.block_device_objects.as_slice()
    }

    pub fn block_device_object_count(&self) -> (r: usize)
        ensures
            r == self.block_device_objects@.len(),
    {
        self.block_device_objects.len()
    }

    fn block_device_object_fault_of(&self, r: &BlockDeviceObjectRecord) -> (f: Option<SemanticInvariantError>)
        ensures
            f == self.block_device_object_fault(*r),
    {
        let Some(i) = self.find_device_object(r.device, r.device_generation) else {
            return Some(SemanticInvariantError::BlockDeviceObjectMissingDevice { block_device: r.id, device: r.device });
        };
        let d = &self.device_objects[i];
        if r.id == 0 || r.generation == 0 || r.name.as_str().is_empty() || r.sector_size == 0
            || r.sector_count == 0 || r.max_transfer_sectors == 0
            || !u32_is_power_of_two(r.sector_size) || r.sector_size < 512
            || r.state != BlockDeviceObjectState::Registered
            || d.state != DeviceObjectState::Registered
            || !str_eq(d.class.as_str(), "block-device")
            || !self.has_live_block_resource(d.resource, d.resource_generation) {
            return Some(SemanticInvariantError::BlockDeviceObjectInvalid { block_device: r.id });
        }
        let kind = EventKind::BlockDeviceObjectRecorded {
            block_device: r.id,
            device: r.device,
            device_generation: r.device_generation,
            sector_size: r.sector_size,
            sector_count: r.sector_count,
            read_only: r.read_only,
            max_transfer_sectors: r.max_transfer_sectors,
            generation: r.generation,
        };
        if !self.event_log.has_event(r.recorded_at_event, kind) {
            return Some(SemanticInvariantError::BlockDeviceObjectMissingEvent { block_device: r.id });
        }
        None
    }

    /// Audits every block device object; the first fault found is returned.
    pub fn check_block_device_object_invariants(&self) -> (r: Result<(), SemanticInvariantError>)
        ensures
            r == self.block_device_object_audit(),
    {
        let ghost faults = Seq::new(
            self.block_device_objects@.len(),
            |i: int| self.block_device_object_fault(self.block_device_objects@[i]),
        );
        let mut i: usize = 0;
        while i < self.block_device_objects.len()
            invariant
                i <= self.block_device_objects@.len(),
                faults.len() == self.block_device_objects@.len(),
                faults == Seq::new(
                    self.block_device_objects@.len(),
                    |i: int| self.block_device_object_fault(self.block_device_objects@[i]),
                ),
                forall|j: int| 0 <= j < i ==> (#[trigger] faults[j]) is None,
            decreases self.block_device_objects@.len() - i,
        {
            if let Some(e) = self.block_device_object_fault_of(&self.block_device_objects[i]) {
                proof { lemma_first_failure_at(faults, i as int); }
                return Err(e);
            }
            i += 1;
        }
        proof { lemma_first_failure_ok(faults); }
        Ok(())
    }
}

/// Recording a block device object keeps the block device object audit clean.
pub proof fn lemma_record_block_device_object_keeps_audit(
    old: SemanticGraph,
    new: SemanticGraph,
    block_device: BlockDeviceObjectId,
    name: Seq<char>,
    device: DeviceObjectId,
    device_generation: Generation,
    sector_size: u32,
    sector_count: u64,
    read_only: bool,
    max_transfer_sectors: u32,
    note: Seq<char>,
)
    requires
        old.block_device_object_audit() is Ok,
        old.block_device_object_verdict(block_device, name, device, device_generation, sector_size,
            sector_count, max_transfer_sectors) is Ok,
        recorded_block_device_object(old, new, block_device, name, device, device_generation,
            sector_size, sector_count, read_only, max_transfer_sectors, note),
    ensures
        new.block_device_object_audit() is Ok,
{
    let n = old.block_device_objects@.len();
    let olds = Seq::new(n, |i: int| old.block_device_object_fault(old.block_device_objects@[i]));
    let news = Seq::new(n + 1, |i: int| new.block_device_object_fault(new.block_device_objects@[i]));
    lemma_first_failure_ok_all(olds);
    assert forall|j: int| 0 <= j < news.len() implies (#[trigger] news[j]) is None by {
        if j < n {
            let r = old.block_device_objects@[j];
            assert(new.block_device_objects@[j] == r) by {
                assert(new.block_device_objects@.subrange(0, n as int)[j] == r);
            }
            assert(olds[j] is None);
            lemma_has_event_extends(old.event_log.events@, new.event_log.events@,
                r.recorded_at_event, block_device_object_event(r));
        } else {
            let r = new.block_device_objects@[j];
            let k = new.event_log.events@.len() - 1;
            assert(new.event_log.events@[k].id == r.recorded_at_event);
        }
    }
    lemma_first_failure_ok(news);
}

/// When a block device object is accepted (`validate_block_device_object` accepts and
/// `record_block_device_object_with_id` records it exactly then), its id is new and nonzero, it
/// is named, its sector size is a power of two of at least 512, its sector count and transfer
/// limit are nonzero, and it sits on a registered device of the named id and generation.
pub proof fn lemma_accepted_block_device_is_well_formed(
    g: SemanticGraph,
    block_device: BlockDeviceObjectId,
    name: Seq<char>,
    device: DeviceObjectId,
    device_generation: Generation,
    sector_size: u32,
    sector_count: u64,
    max_transfer_sectors: u32,
)
    requires
        g.block_device_object_verdict(block_device, name, device, device_generation, sector_size, sector_count,
            max_transfer_sectors) is Ok,
    ensures
        block_device != 0,
        forall|i: int| 0 <= i < g.block_device_objects@.len() ==> (#[trigger] g.block_device_objects@[i]).id != block_device,
        name.len() > 0,
        sector_size >= 512 && is_power_of_two(sector_size as nat),
        sector_count > 0 && max_transfer_sectors > 0,
        exists|i: int| 0 <= i < g.device_objects@.len() && (#[trigger] g.device_objects@[i]).id == device
            && g.device_objects@[i].generation == device_generation
            && g.device_objects@[i].state == DeviceObjectState::Registered,
{
    assert forall|i: int| 0 <= i < g.block_device_objects@.len() implies (#[trigger] g.block_device_objects@[i]).id != block_device by {
        if g.block_device_objects@[i].id == block_device {
            assert(block_device_id_is(block_device)(g.block_device_objects@[i]));
        }
    }
    crate::search::lemma_first_match_facts(g.device_objects@, device_is(device, device_generation));
    let i = first_match(g.device_objects@, device_is(device, device_generation))->0;
    assert(device_is(device, device_generation)(g.device_objects@[i]));
}

} // verus!
