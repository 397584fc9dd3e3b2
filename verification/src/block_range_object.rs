use vstd::prelude::*;
use crate::errors::SemanticInvariantError;
use crate::events::{appended_event, appended_one, has_event_spec, lemma_has_event_extends, EventDomain, EventKind};
use crate::graph::{SemanticGraph, Table};
use crate::lookup::{block_device_is, registered_block_device_is};
use crate::search::{
    any_match, exists_match, first_failure, first_match, lemma_first_failure_at,
    lemma_first_failure_ok, lemma_first_failure_ok_all, max_of, max_u64, saturating_succ,
    succ_saturating,
};
use crate::types::{BlockDeviceObjectId, BlockDeviceObjectState, BlockRangeObjectId, BlockRangeObjectState, EventId, Generation};

verus! {

/// A sector range of a block device, with its byte extent.
pub struct BlockRangeObjectRecord {
    pub id: BlockRangeObjectId,
    pub block_device: BlockDeviceObjectId,
    pub block_device_generation: Generation,
    pub start_sector: u64,
    pub sector_count: u64,
    pub byte_offset: u64,
    pub byte_len: u64,
    pub generation: Generation,
    pub state: BlockRangeObjectState,
    pub recorded_at_event: EventId,
    pub note: String,
}

pub open spec fn block_range_id_is(id: BlockRangeObjectId) -> spec_fn(BlockRangeObjectRecord) -> bool {
    |r: BlockRangeObjectRecord| r.id == id
}

/// The event that records `r`.
pub open spec fn block_range_object_event(r: BlockRangeObjectRecord) -> EventKind {
    EventKind::BlockRangeObjectRecorded {
        block_range: r.id,
        block_device: r.block_device,
        block_device_generation: r.block_device_generation,
        start_sector: r.start_sector,
        sector_count: r.sector_count,
        byte_offset: r.byte_offset,
        byte_len: r.byte_len,
        generation: r.generation,
    }
}

/// `x - y`, or 0 where that would be negative.
pub open spec fn saturating_diff(x: u64, y: u64) -> u64 {
    if x >= y { (x - y) as u64 } else { 0 }
}

impl SemanticGraph {
    /// Why recording a block range with these values would be refused, if it would;
    /// otherwise its byte offset and byte length.
    pub open spec fn block_range_object_verdict(
        &self,
        block_range: BlockRangeObjectId,
        block_device: BlockDeviceObjectId,
        block_device_generation: Generation,
        start_sector: u64,
        sector_count: u64,
    ) -> Result<(u64, u64), &'static str> {
        if block_range == 0 {
            Err("block range object id=0 is invalid")
        } else if any_match(self.block_range_objects@, block_range_id_is(block_range)) {
            Err("block range object already exists")
        } else if block_device_generation == 0 || sector_count == 0 {
            Err("block range object identity values must be nonzero")
        } else {
            match first_match(self.block_device_objects@, registered_block_device_is(block_device, block_device_generation)) {
                None => Err("block range object block device generation is missing or inactive"),
                Some(i) => {
                    let d = self.block_device_objects@[i];
                    if start_sector >= d.sector_count {
                        Err("block range object starts outside block device")
                    } else if sector_count > saturating_diff(d.sector_count, start_sector) {
                        Err("block range object extends beyond block device")
                    } else if sector_count > d.max_transfer_sectors {
                        Err("block range object exceeds max transfer sectors")
                    } else if start_sector * d.sector_size > u64::MAX {
                        Err("block range object byte offset overflow")
                    } else if sector_count * d.sector_size > u64::MAX {
                        Err("block range object byte length overflow")
                    } else if self.graph_audit() is Err {
                        Err("block range object requires invariant-clean graph")
                    } else {
                        Ok(((start_sector * d.sector_size) as u64, (sector_count * d.sector_size) as u64))
                    }
                },
            }
        }
    }

    /// What an audit finds wrong with block range `r`, if anything.
    pub open spec fn block_range_object_fault(&self, r: BlockRangeObjectRecord) -> Option<SemanticInvariantError> {
        match first_match(self.block_device_objects@, block_device_is(r.block_device, r.block_device_generation)) {
            None => Some(SemanticInvariantError::BlockRangeObjectMissingDevice { block_range: r.id, block_device: r.block_device }),
            Some(i) => {
                let d = self.block_device_objects@[i];
                if r.id == 0 || r.generation == 0 || r.block_device_generation == 0 || r.sector_count == 0
                    || r.start_sector >= d.sector_count
                    || r.sector_count > saturating_diff(d.sector_count, r.start_sector)
                    || r.sector_count > d.max_transfer_sectors
                    || r.start_sector * d.sector_size != r.byte_offset
                    || r.sector_count * d.sector_size != r.byte_len
                    || r.state != BlockRangeObjectState::Registered
                    || d.state != BlockDeviceObjectState::Registered {
                    Some(SemanticInvariantError::BlockRangeObjectInvalid { block_range: r.id })
                } else if !has_event_spec(self.event_log.events@, r.recorded_at_event, block_range_object_event(r)) {
                    Some(SemanticInvariantError::BlockRangeObjectMissingEvent { block_range: r.id })
                } else {
                    None
                }
            },
        }
    }

    /// Audit verdict of the block range table.
    pub open spec fn block_range_object_audit(&self) -> Result<(), SemanticInvariantError> {
        first_failure(Seq::new(
            self.block_range_objects@.len(),
            |i: int| self.block_range_object_fault(self.block_range_objects@[i]),
        ))
    }

    pub fn validate_block_range_object(
        &self,
        block_range: BlockRangeObjectId,
        block_device: BlockDeviceObjectId,
        block_device_generation: Generation,
        start_sector: u64,
        sector_count: u64,
    ) -> (r: Result<(u64, u64), &'static str>)
        ensures
            r == self.block_range_object_verdict(block_range, block_device, block_device_generation,
                start_sector, sector_count),
    {
        if block_range == 0 {
            return Err("block range object id=0 is invalid");
        }
        if exists_match(
            &self.block_range_objects,
            |r: &BlockRangeObjectRecord| -> (b: bool)
                ensures b == block_range_id_is(block_range)(*r)
            { r.id == block_range },
            Ghost(block_range_id_is(block_range)),
        ) {
            return Err("block range object already exists");
        }
        if block_device_generation == 0 || sector_count == 0 {
            return Err("block range object identity values must be nonzero");
        }
        let Some(i) = self.find_registered_block_device_object(block_device, block_device_generation) else {
            return Err("block range object block device generation is missing or inactive");
        };
        let d = &self.block_device_objects[i];
        if start_sector >= d.sector_count {
            return Err("block range object starts outside block device");
        }
        if sector_count > d.sector_count.saturating_sub(start_sector) {
            return Err("block range object extends beyond block device");
        }
        if sector_count > d.max_transfer_sectors as u64 {
            return Err("block range object exceeds max transfer sectors");
        }
        let Some(byte_offset) = start_sector.checked_mul(d.sector_size as u64) else {
            return Err("block range object byte offset overflow");
        };
        let Some(byte_len) = sector_count.checked_mul(d.sector_size as u64) else {
            return Err("block range object byte length overflow");
        };
        if self.check_invariants().is_err() {
            return Err("block range object requires invariant-clean graph");
        }
        Ok((byte_offset, byte_len))
    }

    /// Records a block range when the graph accepts it; returns whether it did.
    pub fn record_block_range_object_with_id(
        &mut self,
        block_range: BlockRangeObjectId,
        block_device: BlockDeviceObjectId,
        block_device_generation: Generation,
        start_sector: u64,
        sector_count: u64,
        note: &str,
    ) -> (ok: bool)
        requires
            old(self).event_log.next_event_id < u64::MAX,
        ensures
            ok == (old(self).block_range_object_verdict(block_range, block_device,
                block_device_generation, start_sector, sector_count) is Ok),
            !ok ==> *final(self) == *old(self),
            ok ==> recorded_block_range_object(*old(self), *final(self), block_range, block_device,
                block_device_generation, start_sector, sector_count, note@),
    {
        let Ok((byte_offset, byte_len)) = self.validate_block_range_object(block_range, block_device,
            block_device_generation, start_sector, sector_count) else {
            return false;
        };
        let generation: u64 = 1;
        self.next_block_range_object_id = max_of(self.next_block_range_object_id, succ_saturating(block_range));
        let recorded_at_event = self.event_log.push(
            EventDomain::Block,
            EventKind::BlockRangeObjectRecorded {
                block_range,
                block_device,
                block_device_generation,
                start_sector,
                sector_count,
                byte_offset,
                byte_len,
                generation,
            },
        );
        self.block_range_objects.push(BlockRangeObjectRecord {
            id: block_range,
            block_device,
            block_device_generation,
            start_sector,
            sector_count,
            byte_offset,
            byte_len,
            generation,
            state: BlockRangeObjectState::Registered,
            recorded_at_event,
            note: note.to_owned(),
        });
        proof {
            assert(self.block_range_objects@.subrange(0, old(self).block_range_objects@.len() as int)
                =~= old(self).block_range_objects@);
        }
        true
    }

    pub fn block_range_objects(&self) -> (r: &[BlockRangeObjectRecord])
        ensures
            r@ == self.block_range_objects@,
    {
        self.block_range_objects.as_slice()
    }

    pub fn block_range_object_count(&self) -> (r: usize)
        ensures
            r == self.block_range_objects@.len(),
    {
        self.block_range_objects.len()
    }

    fn block_range_object_fault_of(&self, r: &BlockRangeObjectRecord) -> (f: Option<SemanticInvariantError>)
        ensures
            f == self.block_range_object_fault(*r),
    {
        let Some(i) = self.find_block_device_object(r.block_device, r.block_device_generation) else {
            return Some(SemanticInvariantError::BlockRangeObjectMissingDevice { block_range: r.id, block_device: r.block_device });
        };
        let d = &self.block_device_objects[i];
        let expected_offset = r.start_sector.checked_mul(d.sector_size as u64);
        let expected_len = r.sector_count.checked_mul(d.sector_size as u64);
        if r.id == 0 || r.generation == 0 || r.block_device_generation == 0 || r.sector_count == 0
            || r.start_sector >= d.sector_count
            || r.sector_count > d.sector_count.saturating_sub(r.start_sector)
            || r.sector_count > d.max_transfer_sectors as u64
            || expected_offset != Some(r.byte_offset)
            || expected_len != Some(r.byte_len)
            || r.state != BlockRangeObjectState::Registered
            || d.state != BlockDeviceObjectState::Registered {
            return Some(SemanticInvariantError::BlockRangeObjectInvalid { block_range: r.id });
        }
        let kind = EventKind::BlockRangeObjectRecorded {
            block_range: r.id,
            block_device: r.block_device,
            block_device_generation: r.block_device_generation,
            start_sector: r.start_sector,
            sector_count: r.sector_count,
            byte_offset: r.byte_offset,
            byte_len: r.byte_len,
            generation: r.generation,
        };
        if !self.event_log.has_event(r.recorded_at_event, kind) {
            return Some(SemanticInvariantError::BlockRangeObjectMissingEvent { block_range: r.id });
        }
        None
    }

    /// Audits every block range; the first fault found is returned.
    pub fn check_block_range_object_invariants(&self) -> (r: Result<(), SemanticInvariantError>)
        ensures
            r == self.block_range_object_audit(),
    {
        let ghost faults = Seq::new(
            self.block_range_objects@.len(),
            |i: int| self.block_range_object_fault(self.block_range_objects@[i]),
        );
        let mut i: usize = 0;
        while i < self.block_range_objects.len()
            invariant
                i <= self.block_range_objects@.len(),
                faults == Seq::new(
                    self.block_range_objects@.len(),
                    |i: int| self.block_range_object_fault(self.block_range_objects@[i]),
                ),
                forall|j: int| 0 <= j < i ==> (#[trigger] faults[j]) is None,
            decreases self.block_range_objects@.len() - i,
        {
            if let Some(e) = self.block_range_object_fault_of(&self.block_range_objects[i]) {
                proof { lemma_first_failure_at(faults, i as int); }
                return Err(e);
            }
            i += 1;
        }
        proof { lemma_first_failure_ok(faults); }
        Ok(())
    }
}

/// `new` is `old` after recording the block range described by the arguments.
pub open spec fn recorded_block_range_object(
    old: SemanticGraph,
    new: SemanticGraph,
    block_range: BlockRangeObjectId,
    block_device: BlockDeviceObjectId,
    block_device_generation: Generation,
    start_sector: u64,
    sector_count: u64,
    note: Seq<char>,
) -> bool {
    let r = new.block_range_objects@.last();
    let extent = old.block_range_object_verdict(block_range, block_device, block_device_generation,
        start_sector, sector_count);
    &&& new.agrees_except(&old, set![Table::EventLog, Table::BlockRangeObjects])
    &&& appended_one(old.block_range_objects@, new.block_range_objects@)
    &&& extent matches Ok((byte_offset, byte_len))
    &&& r.id == block_range && r.block_device == block_device
    &&& r.block_device_generation == block_device_generation && r.start_sector == start_sector
    &&& r.sector_count == sector_count && r.byte_offset == byte_offset && r.byte_len == byte_len
    &&& r.generation == 1 && r.state == BlockRangeObjectState::Registered && r.note@ == note
    &&& r.recorded_at_event == old.event_log.next_event_id
    &&& appended_event(old.event_log, new.event_log, EventDomain::Block, block_range_object_event(r))
    &&& new.next_block_range_object_id == max_u64(old.next_block_range_object_id, saturating_succ(block_range))
}

/// Recording a block range keeps the block range audit clean.
pub proof fn lemma_record_block_range_object_keeps_audit(
    old: SemanticGraph,
    new: SemanticGraph,
    block_range: BlockRangeObjectId,
    block_device: BlockDeviceObjectId,
    block_device_generation: Generation,
    start_sector: u64,
    sector_count: u64,
    note: Seq<char>,
)
    requires
        old.block_range_object_audit() is Ok,
        recorded_block_range_object(old, new, block_range, block_device, block_device_generation,
            start_sector, sector_count, note),
    ensures
        new.block_range_object_audit() is Ok,
{
    let n = old.block_range_objects@.len();
    let olds = Seq::new(n, |i: int| old.block_range_object_fault(old.block_range_objects@[i]));
    let news = Seq::new(n + 1, |i: int| new.block_range_object_fault(new.block_range_objects@[i]));
    lemma_first_failure_ok_all(olds);
    assert forall|j: int| 0 <= j < news.len() implies (#[trigger] news[j]) is None by {
        if j < n {
            let r = old.block_range_objects@[j];
            assert(new.block_range_objects@[j] == r) by {
                assert(new.block_range_objects@.subrange(0, n as int)[j] == r);
            }
            assert(olds[j] is None);
            lemma_has_event_extends(old.event_log.events@, new.event_log.events@,
                r.recorded_at_event, block_range_object_event(r));
        } else {
            let r = new.block_range_objects@[j];
            let k = new.event_log.events@.len() - 1;
            assert(new.event_log.events@[k].id == r.recorded_at_event);
            crate::search::lemma_first_match_facts(old.block_device_objects@,
                registered_block_device_is(block_device, block_device_generation));
            let i = first_match(old.block_device_objects@, registered_block_device_is(block_device, block_device_generation))->0;
            crate::search::lemma_first_match_facts(old.block_device_objects@,
                block_device_is(block_device, block_device_generation));
            let i2 = first_match(old.block_device_objects@, block_device_is(block_device, block_device_generation))->0;
            assert(block_device_is(block_device, block_device_generation)(old.block_device_objects@[i]));
            assert(i2 <= i);
            let bdos = Seq::new(old.block_device_objects@.len(),
                |k: int| old.block_device_object_fault(old.block_device_objects@[k]));
            lemma_first_failure_ok_all(bdos);
            assert(bdos[i2] is None);
            assert(registered_block_device_is(block_device, block_device_generation)(old.block_device_objects@[i2]));
            assert(i2 == i);
        }
    }
    lemma_first_failure_ok(news);
}

/// Range `r` lies within a registered generation of its block device: it is nonempty, starts
/// inside the device and ends within it, is no longer than one transfer, and its byte offset
/// and length are its sectors times the device's sector size.
pub open spec fn range_within_device(g: SemanticGraph, r: BlockRangeObjectRecord) -> bool {
    match first_match(g.block_device_objects@, block_device_is(r.block_device, r.block_device_generation)) {
        None => false,
        Some(i) => {
            let d = g.block_device_objects@[i];
            &&& d.state == BlockDeviceObjectState::Registered
            &&& r.sector_count != 0
            &&& r.start_sector < d.sector_count
            &&& r.start_sector + r.sector_count <= d.sector_count
            &&& r.sector_count <= d.max_transfer_sectors
            &&& r.byte_offset == r.start_sector * d.sector_size
            &&& r.byte_len == r.sector_count * d.sector_size
        },
    }
}

/// When the block range audit is clean, every block range lies within its block device.
pub proof fn lemma_clean_block_range_audit(g: SemanticGraph)
    requires
        g.block_range_object_audit() is Ok,
    ensures
        forall|j: int| 0 <= j < g.block_range_objects@.len() ==> range_within_device(g, #[trigger] g.block_range_objects@[j]),
{
    let faults = Seq::new(g.block_range_objects@.len(), |i: int| g.block_range_object_fault(g.block_range_objects@[i]));
    lemma_first_failure_ok_all(faults);
    assert forall|j: int| 0 <= j < g.block_range_objects@.len() implies range_within_device(g, #[trigger] g.block_range_objects@[j]) by {
        assert(faults[j] is None);
    }
}

/// When a block range is accepted (`validate_block_range_object` returns its byte offset and
/// length and the recorder records it exactly then), its id is new and nonzero, and it lies
/// inside a registered block device of the named id and generation: nonempty, starting before the
/// device's end and ending at or before it, no longer than one transfer, with the byte offset and
/// length returned being its start and length times the device's sector size.
pub proof fn lemma_accepted_block_range_fits_device(
    g: SemanticGraph,
    block_range: BlockRangeObjectId,
    block_device: BlockDeviceObjectId,
    block_device_generation: Generation,
    start_sector: u64,
    sector_count: u64,
)
    requires
        g.block_range_object_verdict(block_range, block_device, block_device_generation, start_sector, sector_count) is Ok,
    ensures
        block_range != 0,
        forall|i: int| 0 <= i < g.block_range_objects@.len() ==> (#[trigger] g.block_range_objects@[i]).id != block_range,
        exists|i: int| 0 <= i < g.block_device_objects@.len() && {
            let d = #[trigger] g.block_device_objects@[i];
            let bytes = g.block_range_object_verdict(block_range, block_device, block_device_generation, start_sector,
                sector_count)->Ok_0;
            &&& d.id == block_device && d.generation == block_device_generation
            &&& d.state == BlockDeviceObjectState::Registered
            &&& 0 < sector_count <= d.max_transfer_sectors
            &&& start_sector < d.sector_count
            &&& start_sector + sector_count <= d.sector_count
            &&& bytes.0 == start_sector * d.sector_size
            &&& bytes.1 == sector_count * d.sector_size
        },
{
    assert forall|i: int| 0 <= i < g.block_range_objects@.len() implies (#[trigger] g.block_range_objects@[i]).id != block_range by {
        if g.block_range_objects@[i].id == block_range {
            assert(block_range_id_is(block_range)(g.block_range_objects@[i]));
        }
    }
    crate::search::lemma_first_match_facts(g.block_device_objects@, registered_block_device_is(block_device,
        block_device_generation));
    let i = first_match(g.block_device_objects@, registered_block_device_is(block_device, block_device_generation))->0;
    assert(registered_block_device_is(block_device, block_device_generation)(g.block_device_objects@[i]));
}

} // verus!
