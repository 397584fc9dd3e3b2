use vstd::prelude::*;
use crate::errors::SemanticInvariantError;
use crate::events::{appended_event, appended_one, has_event_spec, lemma_has_event_extends, EventDomain, EventKind};
use crate::graph::{SemanticGraph, Table};
use crate::lookup::{queue_is, registered_queue_is};
use crate::search::{
    any_match, exists_match, find_first, first_failure, first_match, lemma_first_failure_at,
    lemma_first_failure_ok, lemma_first_failure_ok_all, lemma_first_match_facts, max_of, max_u64,
    saturating_succ, succ_saturating,
};
use crate::base::QueueObjectRecord;
use crate::types::{
    DescriptorObjectAccess, DescriptorObjectId, DescriptorObjectState, EventId, Generation,
    QueueObjectId, QueueObjectState,
};

verus! {

/// A descriptor occupying one slot of a device queue.
pub struct DescriptorObjectRecord {
    pub id: DescriptorObjectId,
    pub queue: QueueObjectId,
    pub queue_generation: Generation,
    pub slot: u16,
    pub access: DescriptorObjectAccess,
    pub length: u32,
    pub generation: Generation,
    pub state: DescriptorObjectState,
    pub recorded_at_event: EventId,
    pub note: String,
}

pub open spec fn descriptor_id_is(id: DescriptorObjectId) -> spec_fn(DescriptorObjectRecord) -> bool {
    |r: DescriptorObjectRecord| r.id == id
}

/// A registered descriptor already occupies `slot` of that queue generation.
pub open spec fn descriptor_slot_taken(queue: QueueObjectId, queue_generation: Generation, slot: u16) -> spec_fn(DescriptorObjectRecord) -> bool {
    |r: DescriptorObjectRecord| r.queue == queue && r.queue_generation == queue_generation
        && r.slot == slot && r.state == DescriptorObjectState::Registered
}

/// Another registered descriptor (id other than `id`) occupies the same slot.
pub open spec fn descriptor_slot_rival(id: DescriptorObjectId, queue: QueueObjectId, queue_generation: Generation, slot: u16) -> spec_fn(DescriptorObjectRecord) -> bool {
    |r: DescriptorObjectRecord| r.id != id && r.queue == queue && r.queue_generation == queue_generation
        && r.slot == slot && r.state == DescriptorObjectState::Registered
}

/// The access modes a descriptor may carry.
pub open spec fn descriptor_access_supported(access: DescriptorObjectAccess) -> bool {
    access == DescriptorObjectAccess::ReadOnly || access == DescriptorObjectAccess::WriteOnly
        || access == DescriptorObjectAccess::ReadWrite
}

pub fn descriptor_access_is_supported(access: DescriptorObjectAccess) -> (r: bool)
    ensures
        r == descriptor_access_supported(access),
{
    match access {
        DescriptorObjectAccess::ReadOnly | DescriptorObjectAccess::WriteOnly
        | DescriptorObjectAccess::ReadWrite => true,
        _ => false,
    }
}

/// The event that records `r`.
pub open spec fn descriptor_object_event(r: DescriptorObjectRecord) -> EventKind {
    EventKind::DescriptorObjectRecorded {
        descriptor: r.id,
        queue: r.queue,
        queue_generation: r.queue_generation,
        slot: r.slot,
        access: r.access,
        length: r.length,
        generation: r.generation,
    }
}

impl SemanticGraph {
    /// Why recording a descriptor with these values would be refused, if it would.
    pub open spec fn descriptor_object_verdict(
        &self,
        descriptor: DescriptorObjectId,
        queue: QueueObjectId,
        queue_generation: Generation,
        slot: u16,
        access: DescriptorObjectAccess,
        length: u32,
    ) -> Result<(), &'static str> {
        if descriptor == 0 {
            Err("descriptor object id=0 is invalid")
        } else if any_match(self.descriptor_objects@, descriptor_id_is(descriptor)) {
            Err("descriptor object already exists")
        } else if length == 0 {
            Err("descriptor object length is zero")
        } else if !descriptor_access_supported(access) {
            Err("descriptor object access is unsupported")
        } else {
            match first_match(self.queue_objects@, registered_queue_is(queue, queue_generation)) {
                None => Err("descriptor object queue generation is missing or inactive"),
                Some(i) => {
                    let q = self.queue_objects@[i];
                    if slot as u32 >= q.depth {
                        Err("descriptor object slot is outside queue depth")
                    } else if any_match(self.descriptor_objects@, descriptor_slot_taken(q.id, queue_generation, slot)) {
                        Err("descriptor object slot already exists for queue generation")
                    } else if self.graph_audit() is Err {
                        Err("descriptor object requires invariant-clean graph")
                    } else {
                        Ok(())
                    }
                },
            }
        }
    }

    /// What an audit finds wrong with descriptor `r`, if anything.
    pub open spec fn descriptor_object_fault(&self, r: DescriptorObjectRecord) -> Option<SemanticInvariantError> {
        match first_match(self.queue_objects@, queue_is(r.queue, r.queue_generation)) {
            None => Some(SemanticInvariantError::DescriptorObjectMissingQueue { descriptor: r.id, queue: r.queue }),
            Some(i) => {
                let q = self.queue_objects@[i];
                if r.id == 0 || r.generation == 0 || r.length == 0 || r.queue_generation == 0
                    || r.slot as u32 >= q.depth || q.state != QueueObjectState::Registered
                    || r.state != DescriptorObjectState::Registered
                    || !descriptor_access_supported(r.access) {
                    Some(SemanticInvariantError::DescriptorObjectInvalid { descriptor: r.id })
                } else {
                    match first_match(self.descriptor_objects@, descriptor_slot_rival(r.id, r.queue, r.queue_generation, r.slot)) {
                        Some(k) => Some(SemanticInvariantError::DescriptorObjectDuplicateSlot {
                            descriptor: self.descriptor_objects@[k].id,
                            queue: r.queue,
                            slot: r.slot,
                        }),
                        None => if !has_event_spec(self.event_log.events@, r.recorded_at_event, descriptor_object_event(r)) {
                            Some(SemanticInvariantError::DescriptorObjectMissingEvent { descriptor: r.id })
                        } else {
                            None
                        },
                    }
                }
            },
        }
    }

    /// Audit verdict of the descriptor table.
    pub open spec fn descriptor_object_audit(&self) -> Result<(), SemanticInvariantError> {
        first_failure(Seq::new(
            self.descriptor_objects@.len(),
            |i: int| self.descriptor_object_fault(self.descriptor_objects@[i]),
        ))
    }

    pub fn validate_descriptor_object(
        &self,
        descriptor: DescriptorObjectId,
        queue: QueueObjectId,
        queue_generation: Generation,
        slot: u16,
        access: DescriptorObjectAccess,
        length: u32,
    ) -> (r: Result<(), &'static str>)
        ensures
            r == self.descriptor_object_verdict(descriptor, queue, queue_generation, slot, access, length),
    {
        if descriptor == 0 {
            return Err("descriptor object id=0 is invalid");
        }
        if exists_match(
            &self.descriptor_objects,
            |r: &DescriptorObjectRecord| -> (b: bool)
                ensures b == descriptor_id_is(descriptor)(*r)
            { r.id == descriptor },
            Ghost(descriptor_id_is(descriptor)),
        ) {
            return Err("descriptor object already exists");
        }
        if length == 0 {
            return Err("descriptor object length is zero");
        }
        if !descriptor_access_is_supported(access) {
            return Err("descriptor object access is unsupported");
        }
        let Some(i) = self.find_queue_object(queue, queue_generation, true) else {
            return Err("descriptor object queue generation is missing or inactive");
        };
        let q = &self.queue_objects[i];
        if slot as u32 >= q.depth {
            return Err("descriptor object slot is outside queue depth");
        }
        let qid = q.id;
        if exists_match(
            &self.descriptor_objects,
            |r: &DescriptorObjectRecord| -> (b: bool)
                ensures b == descriptor_slot_taken(qid, queue_generation, slot)(*r)
            { r.queue == qid && r.queue_generation == queue_generation && r.slot == slot
                && r.state == DescriptorObjectState::Registered },
            Ghost(descriptor_slot_taken(qid, queue_generation, slot)),
        ) {
            return Err("descriptor object slot already exists for queue generation");
        }
        if self.check_invariants().is_err() {
            return Err("descriptor object requires invariant-clean graph");
        }
        Ok(())
    }

    /// Records a descriptor when the graph accepts it; returns whether it did.
    pub fn record_descriptor_object_with_id(
        &mut self,
        descriptor: DescriptorObjectId,
        queue: QueueObjectId,
        queue_generation: Generation,
        slot: u16,
        access: DescriptorObjectAccess,
        length: u32,
        note: &str,
    ) -> (ok: bool)
        requires
            old(self).event_log.next_event_id < u64::MAX,
        ensures
            ok == (old(self).descriptor_object_verdict(descriptor, queue, queue_generation, slot,
                access, length) is Ok),
            !ok ==> *final(self) == *old(self),
            ok ==> recorded_descriptor_object(*old(self), *final(self), descriptor, queue,
                queue_generation, slot, access, length, note@),
    {
        if self.validate_descriptor_object(descriptor, queue, queue_generation, slot, access, length).is_err() {
            return false;
        }
        let generation: u64 = 1;
        self.next_descriptor_object_id = max_of(self.next_descriptor_object_id, succ_saturating(descriptor));
        let recorded_at_event = self.event_log.push(
            EventDomain::Io,
            EventKind::DescriptorObjectRecorded {
                descriptor,
                queue,
                queue_generation,
                slot,
                access,
                length,
                generation,
            },
        );
        self.descriptor_objects.push(DescriptorObjectRecord {
            id: descriptor,
            queue,
            queue_generation,
            slot,
            access,
            length,
            generation,
            state: DescriptorObjectState::Registered,
            recorded_at_event,
            note: note.to_owned(),
        });
        proof {
            assert(self.descriptor_objects@.subrange(0, old(self).descriptor_objects@.len() as int)
                =~= old(self).descriptor_objects@);
        }
        true
    }

    pub fn descriptor_objects(&self) -> (r: &[DescriptorObjectRecord])
        ensures
            r@ == self.descriptor_objects@,
    {
        self.descriptor_objects.as_slice()
    }

    pub fn descriptor_object_count(&self) -> (r: usize)
        ensures
            r == self.descriptor_objects@.len(),
    {
        self.descriptor_objects.len()
    }

    fn descriptor_object_fault_of(&self, r: &DescriptorObjectRecord) -> (f: Option<SemanticInvariantError>)
        ensures
            f == self.descriptor_object_fault(*r),
    {
        let Some(i) = self.find_queue_object(r.queue, r.queue_generation, false) else {
            return Some(SemanticInvariantError::DescriptorObjectMissingQueue { descriptor: r.id, queue: r.queue });
        };
        let q = &self.queue_objects[i];
        if r.id == 0 || r.generation == 0 || r.length == 0 || r.queue_generation == 0
            || r.slot as u32 >= q.depth || q.state != QueueObjectState::Registered
            || r.state != DescriptorObjectState::Registered
            || !descriptor_access_is_supported(r.access) {
            return Some(SemanticInvariantError::DescriptorObjectInvalid { descriptor: r.id });
        }
        let (id, queue, queue_generation, slot) = (r.id, r.queue, r.queue_generation, r.slot);
        let rival = find_first(
            &self.descriptor_objects,
            |o: &DescriptorObjectRecord| -> (b: bool)
                ensures b == descriptor_slot_rival(id, queue, queue_generation, slot)(*o)
            { o.id != id && o.queue == queue && o.queue_generation == queue_generation
                && o.slot == slot && o.state == DescriptorObjectState::Registered },
            Ghost(descriptor_slot_rival(id, queue, queue_generation, slot)),
        );
        if let Some(k) = rival {
            return Some(SemanticInvariantError::DescriptorObjectDuplicateSlot {
                descriptor: self.descriptor_objects[k].id,
                queue: r.queue,
                slot: r.slot,
            });
        }
        let kind = EventKind::DescriptorObjectRecorded {
            descriptor: r.id,
            queue: r.queue,
            queue_generation: r.queue_generation,
            slot: r.slot,
            access: r.access,
            length: r.length,
            generation: r.generation,
        };
        if !self.event_log.has_event(r.recorded_at_event, kind) {
            return Some(SemanticInvariantError::DescriptorObjectMissingEvent { descriptor: r.id });
        }
        None
    }

    /// Audits every descriptor; the first fault found is returned.
    pub fn check_descriptor_object_invariants(&self) -> (r: Result<(), SemanticInvariantError>)
        ensures
            r == self.descriptor_object_audit(),
    {
        let ghost faults = Seq::new(
            self.descriptor_objects@.len(),
            |i: int| self.descriptor_object_fault(self.descriptor_objects@[i]),
        );
        let mut i: usize = 0;
        while i < self.descriptor_objects.len()
            invariant
                i <= self.descriptor_objects@.len(),
                faults == Seq::new(
                    self.descriptor_objects@.len(),
                    |i: int| self.descriptor_object_fault(self.descriptor_objects@[i]),
                ),
                forall|j: int| 0 <= j < i ==> (#[trigger] faults[j]) is None,
            decreases self.descriptor_objects@.len() - i,
        {
            if let Some(e) = self.descriptor_object_fault_of(&self.descriptor_objects[i]) {
                proof { lemma_first_failure_at(faults, i as int); }
                return Err(e);
            }
            i += 1;
        }
        proof { lemma_first_failure_ok(faults); }
        Ok(())
    }
}

/// `new` is `old` after recording the descriptor described by the arguments.
pub open spec fn recorded_descriptor_object(
    old: SemanticGraph,
    new: SemanticGraph,
    descriptor: DescriptorObjectId,
    queue: QueueObjectId,
    queue_generation: Generation,
    slot: u16,
    access: DescriptorObjectAccess,
    length: u32,
    note: Seq<char>,
) -> bool {
    let r = new.descriptor_objects@.last();
    &&& new.agrees_except(&old, set![Table::EventLog, Table::DescriptorObjects])
    &&& appended_one(old.descriptor_objects@, new.descriptor_objects@)
    &&& r.id == descriptor && r.queue == queue && r.queue_generation == queue_generation
    &&& r.slot == slot && r.access == access && r.length == length && r.generation == 1
    &&& r.state == DescriptorObjectState::Registered && r.note@ == note
    &&& r.recorded_at_event == old.event_log.next_event_id
    &&& appended_event(old.event_log, new.event_log, EventDomain::Io, descriptor_object_event(r))
    &&& new.next_descriptor_object_id == max_u64(old.next_descriptor_object_id, saturating_succ(descriptor))
}


/// No two queue objects share an id and a generation.
pub open spec fn queue_generations_unique(queues: Seq<QueueObjectRecord>) -> bool {
    forall|i: int, j: int| 0 <= i < j < queues.len()
        ==> !((#[trigger] queues[i]).id == (#[trigger] queues[j]).id && queues[i].generation == queues[j].generation)
}

/// Recording a descriptor keeps the descriptor audit clean, where queue objects are unique by
/// id and generation and the descriptor names a nonzero queue generation.
pub proof fn lemma_record_descriptor_object_keeps_audit(
    old: SemanticGraph,
    new: SemanticGraph,
    descriptor: DescriptorObjectId,
    queue: QueueObjectId,
    queue_generation: Generation,
    slot: u16,
    access: DescriptorObjectAccess,
    length: u32,
    note: Seq<char>,
)
    requires
        old.descriptor_object_audit() is Ok,
        queue_generations_unique(old.queue_objects@),
        queue_generation != 0,
        old.descriptor_object_verdict(descriptor, queue, queue_generation, slot, access, length) is Ok,
        recorded_descriptor_object(old, new, descriptor, queue, queue_generation, slot, access, length, note),
    ensures
        new.descriptor_object_audit() is Ok,
{
    let n = old.descriptor_objects@.len();
    let olds = Seq::new(n, |i: int| old.descriptor_object_fault(old.descriptor_objects@[i]));
    let news = Seq::new(n + 1, |i: int| new.descriptor_object_fault(new.descriptor_objects@[i]));
    lemma_first_failure_ok_all(olds);
    let qi = first_match(old.queue_objects@, registered_queue_is(queue, queue_generation))->0;
    lemma_first_match_facts(old.queue_objects@, registered_queue_is(queue, queue_generation));
    lemma_first_match_facts(old.queue_objects@, queue_is(queue, queue_generation));
    let qa = first_match(old.queue_objects@, queue_is(queue, queue_generation))->0;
    assert(queue_is(queue, queue_generation)(old.queue_objects@[qi]));
    if qa != qi {
        if qa < qi {
            assert(!(old.queue_objects@[qa].id == old.queue_objects@[qi].id
                && old.queue_objects@[qa].generation == old.queue_objects@[qi].generation));
        } else {
            assert(!queue_is(queue, queue_generation)(old.queue_objects@[qi]));
        }
    }
    let last = new.descriptor_objects@[n as int];
    assert forall|j: int| 0 <= j < news.len() implies (#[trigger] news[j]) is None by {
        if j < n {
            let r = old.descriptor_objects@[j];
            assert(new.descriptor_objects@[j] == r) by {
                assert(new.descriptor_objects@.subrange(0, n as int)[j] == r);
            }
            assert(olds[j] is None);
            lemma_first_match_facts(old.descriptor_objects@, descriptor_slot_rival(r.id, r.queue, r.queue_generation, r.slot));
            lemma_first_match_facts(new.descriptor_objects@, descriptor_slot_rival(r.id, r.queue, r.queue_generation, r.slot));
            assert forall|k: int| 0 <= k < new.descriptor_objects@.len()
                implies !descriptor_slot_rival(r.id, r.queue, r.queue_generation, r.slot)(#[trigger] new.descriptor_objects@[k]) by {
                if k < n {
                    assert(new.descriptor_objects@[k] == new.descriptor_objects@.subrange(0, n as int)[k]);
                } else {
                    if descriptor_slot_rival(r.id, r.queue, r.queue_generation, r.slot)(last) {
                        assert(descriptor_slot_taken(old.queue_objects@[qi].id, queue_generation, slot)(r));
                    }
                }
            }
            lemma_has_event_extends(old.event_log.events@, new.event_log.events@,
                r.recorded_at_event, descriptor_object_event(r));
        } else {
            lemma_first_match_facts(new.descriptor_objects@, descriptor_slot_rival(last.id, queue, queue_generation, slot));
            assert forall|k: int| 0 <= k < new.descriptor_objects@.len()
                implies !descriptor_slot_rival(last.id, queue, queue_generation, slot)(#[trigger] new.descriptor_objects@[k]) by {
                if k < n {
                    let o = old.descriptor_objects@[k];
                    assert(new.descriptor_objects@[k] == new.descriptor_objects@.subrange(0, n as int)[k]);
                    if descriptor_slot_rival(last.id, queue, queue_generation, slot)(o) {
                        assert(descriptor_slot_taken(old.queue_objects@[qi].id, queue_generation, slot)(o));
                    }
                }
            }
            let e = new.event_log.events@.len() - 1;
            assert(new.event_log.events@[e].id == last.recorded_at_event);
        }
    }
    lemma_first_failure_ok(news);
}

/// When a descriptor is accepted (`validate_descriptor_object` accepts and the recorder records
/// it exactly then), its id is new and nonzero, its length is nonzero, its slot lies within the
/// depth of a registered queue of the named id and generation, and no registered descriptor
/// holds that slot of that queue generation.
pub proof fn lemma_accepted_descriptor_fits_queue(
    g: SemanticGraph,
    descriptor: DescriptorObjectId,
    queue: QueueObjectId,
    queue_generation: Generation,
    slot: u16,
    access: DescriptorObjectAccess,
    length: u32,
)
    requires
        g.descriptor_object_verdict(descriptor, queue, queue_generation, slot, access, length) is Ok,
    ensures
        descriptor != 0,
        length != 0,
        forall|i: int| 0 <= i < g.descriptor_objects@.len() ==> (#[trigger] g.descriptor_objects@[i]).id != descriptor,
        forall|i: int| 0 <= i < g.descriptor_objects@.len() ==> !({
            let d = #[trigger] g.descriptor_objects@[i];
            d.queue == queue && d.queue_generation == queue_generation && d.slot == slot
                && d.state == DescriptorObjectState::Registered
        }),
        exists|i: int| 0 <= i < g.queue_objects@.len() && (#[trigger] g.queue_objects@[i]).id == queue
            && g.queue_objects@[i].generation == queue_generation
            && g.queue_objects@[i].state == QueueObjectState::Registered
            && (slot as u32) < g.queue_objects@[i].depth,
{
    assert forall|i: int| 0 <= i < g.descriptor_objects@.len() implies (#[trigger] g.descriptor_objects@[i]).id != descriptor by {
        if g.descriptor_objects@[i].id == descriptor {
            assert(descriptor_id_is(descriptor)(g.descriptor_objects@[i]));
        }
    }
    crate::search::lemma_first_match_facts(g.queue_objects@, registered_queue_is(queue, queue_generation));
    let k = first_match(g.queue_objects@, registered_queue_is(queue, queue_generation))->0;
    assert(registered_queue_is(queue, queue_generation)(g.queue_objects@[k]));
    assert forall|i: int| 0 <= i < g.descriptor_objects@.len() implies !({
        let d = #[trigger] g.descriptor_objects@[i];
        d.queue == queue && d.queue_generation == queue_generation && d.slot == slot
            && d.state == DescriptorObjectState::Registered
    }) by {
        let d = g.descriptor_objects@[i];
        if d.queue == queue && d.queue_generation == queue_generation && d.slot == slot
            && d.state == DescriptorObjectState::Registered {
            assert(descriptor_slot_taken(g.queue_objects@[k].id, queue_generation, slot)(d));
        }
    }
}

} // verus!
