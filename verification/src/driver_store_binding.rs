use vstd::prelude::*;
use crate::base::{CapabilityRecord, DeviceCapabilityRecord, DeviceObjectRecord};
use crate::errors::SemanticInvariantError;
use crate::events::{appended_event, appended_one, has_event_spec, lemma_has_event_extends, EventDomain, EventKind};
use crate::framebuffer_benchmark::{has_operation, operations_contain};
use crate::graph::{SemanticGraph, Table};
use crate::lookup::device_is;
use crate::lookup2::store_is;
use crate::search::{
    any_match, exists_match, find_first, first_failure, first_match, lemma_first_failure_at,
    lemma_first_failure_ok, lemma_first_failure_ok_all, lemma_first_match_facts, max_of, max_u64, str_eq,
};
use crate::types::{
    AuthorityObjectRef, CapabilityClass, CapabilityId, ContractObjectKind, ContractObjectRef,
    DeviceCapabilityId, DeviceCapabilityState, DeviceObjectId, DeviceObjectState, DriverStoreBindingId,
    DriverStoreBindingState, EventId, Generation, StoreId, StoreState,
};

verus! {

/// A driver store bound to the device it drives.
pub struct DriverStoreBindingRecord {
    pub id: DriverStoreBindingId,
    pub driver_store: StoreId,
    pub driver_store_generation: Generation,
    pub device: DeviceObjectId,
    pub device_generation: Generation,
    pub device_capability: DeviceCapabilityId,
    pub device_capability_generation: Generation,
    pub capability: CapabilityId,
    pub capability_generation: Generation,
    pub generation: Generation,
    pub state: DriverStoreBindingState,
    pub recorded_at_event: EventId,
    pub note: String,
}

/// The operations that authorize binding a driver to a device.
pub open spec fn driver_binding_operation(operation: Seq<char>) -> bool {
    operation == "probe"@ || operation == "bind-driver"@
}

fn is_driver_binding_operation(operation: &str) -> (b: bool)
    ensures
        b == driver_binding_operation(operation@),
{
    str_eq(operation, "probe") || str_eq(operation, "bind-driver")
}

pub open spec fn binding_id_is(id: DriverStoreBindingId) -> spec_fn(DriverStoreBindingRecord) -> bool {
    |r: DriverStoreBindingRecord| r.id == id
}

pub open spec fn registered_device_is(id: DeviceObjectId, generation: Generation) -> spec_fn(DeviceObjectRecord) -> bool {
    |d: DeviceObjectRecord| d.id == id && d.generation == generation && d.state == DeviceObjectState::Registered
}

pub open spec fn device_capability_is(id: DeviceCapabilityId, generation: Generation) -> spec_fn(DeviceCapabilityRecord) -> bool {
    |r: DeviceCapabilityRecord| r.id == id && r.generation == generation
}

pub open spec fn active_device_capability_is(id: DeviceCapabilityId, generation: Generation) -> spec_fn(DeviceCapabilityRecord) -> bool {
    |r: DeviceCapabilityRecord| r.id == id && r.generation == generation && r.state == DeviceCapabilityState::Active
}

/// The ledger entry of capability `id`.
pub open spec fn capability_id_is(id: CapabilityId) -> spec_fn(CapabilityRecord) -> bool {
    |r: CapabilityRecord| r.id == id
}

/// A bound binding (id other than `except`, when given) for this device generation.
pub open spec fn bound_binding_for(except: Option<DriverStoreBindingId>, device: DeviceObjectId, generation: Generation) -> spec_fn(DriverStoreBindingRecord) -> bool {
    |r: DriverStoreBindingRecord| Some(r.id) != except && r.device == device && r.device_generation == generation
        && r.state == DriverStoreBindingState::Bound
}

pub open spec fn device_ref(device: DeviceObjectId, generation: Generation) -> ContractObjectRef {
    ContractObjectRef { kind: ContractObjectKind::DeviceObject, id: device, generation }
}

/// The event that records binding `r`.
pub open spec fn driver_store_bound_event(r: DriverStoreBindingRecord) -> EventKind {
    EventKind::DriverStoreBound {
        binding: r.id,
        driver_store: r.driver_store,
        driver_store_generation: r.driver_store_generation,
        device: r.device,
        device_generation: r.device_generation,
        device_capability: r.device_capability,
        device_capability_generation: r.device_capability_generation,
        capability: r.capability,
        capability_generation: r.capability_generation,
        generation: r.generation,
    }
}

impl SemanticGraph {
    /// Why binding this driver store to this device would be refused, if it would; otherwise
    /// the position of the capability evidence that authorizes it.
    pub open spec fn driver_store_binding_verdict(
        &self,
        binding: DriverStoreBindingId,
        driver_store: StoreId,
        driver_store_generation: Generation,
        device: DeviceObjectId,
        device_generation: Generation,
        device_capability: DeviceCapabilityId,
        device_capability_generation: Generation,
    ) -> Result<int, &'static str> {
        let dref = device_ref(device, device_generation);
        if binding == 0 {
            Err("driver store binding id=0 is invalid")
        } else if any_match(self.driver_store_bindings@, binding_id_is(binding)) {
            Err("driver store binding already exists")
        } else {
            match first_match(self.stores@, store_is(driver_store, driver_store_generation)) {
                None => Err("driver store binding store generation is missing"),
                Some(s) => {
                    let store = self.stores@[s];
                    if store.state == StoreState::Dead {
                        Err("driver store binding store is dead")
                    } else if store.role@ != "driver"@ {
                        Err("driver store binding store role is not driver")
                    } else if !any_match(self.device_objects@, registered_device_is(device, device_generation)) {
                        Err("driver store binding device generation is missing or inactive")
                    } else {
                        match first_match(self.device_capabilities@, active_device_capability_is(device_capability, device_capability_generation)) {
                            None => Err("driver store binding device capability generation is missing or inactive"),
                            Some(e) => {
                                let ev = self.device_capabilities@[e];
                                if ev.driver_store != driver_store || ev.driver_store_generation != driver_store_generation
                                    || ev.target != dref || ev.class != CapabilityClass::Device
                                    || !driver_binding_operation(ev.operation@) {
                                    Err("driver store binding device capability does not authorize binding")
                                } else {
                                    match first_match(self.capabilities@, capability_id_is(ev.capability)) {
                                        None => Err("driver store binding capability record is missing"),
                                        Some(c) => {
                                            let cap = self.capabilities@[c];
                                            if cap.generation != ev.capability_generation || cap.revoked
                                                || cap.subject@ != store.package@
                                                || cap.object_ref != Some(AuthorityObjectRef { class: CapabilityClass::Device, object: dref })
                                                || cap.owner_store != Some(driver_store)
                                                || cap.owner_store_generation != Some(driver_store_generation)
                                                || !has_operation(cap.operations@, ev.operation@) {
                                                Err("driver store binding capability record is not active for device")
                                            } else if any_match(self.driver_store_bindings@, bound_binding_for(None, device, device_generation)) {
                                                Err("driver store binding device already has an active driver")
                                            } else if self.graph_audit() is Err {
                                                Err("driver store binding requires invariant-clean graph")
                                            } else {
                                                Ok(e)
                                            }
                                        },
                                    }
                                }
                            },
                        }
                    }
                },
            }
        }
    }

    /// What an audit finds wrong with binding `r`, if anything.
    pub open spec fn driver_store_binding_fault(&self, r: DriverStoreBindingRecord) -> Option<SemanticInvariantError> {
        let dref = device_ref(r.device, r.device_generation);
        match first_match(self.stores@, store_is(r.driver_store, r.driver_store_generation)) {
            None => Some(SemanticInvariantError::DriverStoreBindingMissingStore { binding: r.id, store: r.driver_store }),
            Some(s) => match first_match(self.device_objects@, device_is(r.device, r.device_generation)) {
                None => Some(SemanticInvariantError::DriverStoreBindingMissingDevice { binding: r.id, device: r.device }),
                Some(d) => match first_match(self.device_capabilities@, device_capability_is(r.device_capability, r.device_capability_generation)) {
                    None => Some(SemanticInvariantError::DriverStoreBindingMissingCapabilityEvidence {
                        binding: r.id,
                        device_capability: r.device_capability,
                    }),
                    Some(e) => {
                        let store = self.stores@[s];
                        let ev = self.device_capabilities@[e];
                        let bound = r.state == DriverStoreBindingState::Bound;
                        let released = r.state == DriverStoreBindingState::Released;
                        if r.id == 0 || r.generation == 0 || r.driver_store_generation == 0 || r.device_generation == 0
                            || r.device_capability_generation == 0 || r.capability_generation == 0
                            || store.role@ != "driver"@
                            || self.device_objects@[d].state != DeviceObjectState::Registered
                            || (!bound && !released)
                            || (bound && store.state == StoreState::Dead)
                            || (bound && ev.state != DeviceCapabilityState::Active)
                            || (released && ev.state != DeviceCapabilityState::Revoked)
                            || ev.driver_store != r.driver_store || ev.driver_store_generation != r.driver_store_generation
                            || ev.target != dref || ev.class != CapabilityClass::Device
                            || !driver_binding_operation(ev.operation@)
                            || ev.capability != r.capability || ev.capability_generation != r.capability_generation {
                            Some(SemanticInvariantError::DriverStoreBindingInvalid { binding: r.id })
                        } else {
                            match first_match(self.driver_store_bindings@, bound_binding_for(Some(r.id), r.device, r.device_generation)) {
                                Some(k) => Some(SemanticInvariantError::DriverStoreBindingDuplicateDevice {
                                    binding: self.driver_store_bindings@[k].id,
                                    device: r.device,
                                }),
                                None => if !has_event_spec(self.event_log.events@, r.recorded_at_event, driver_store_bound_event(r)) {
                                    Some(SemanticInvariantError::DriverStoreBindingMissingEvent { binding: r.id })
                                } else {
                                    None
                                },
                            }
                        }
                    },
                },
            },
        }
    }

    /// Audit verdict of the driver binding table.
    pub open spec fn driver_store_binding_audit(&self) -> Result<(), SemanticInvariantError> {
        first_failure(Seq::new(self.driver_store_bindings@.len(), |i: int| self.driver_store_binding_fault(self.driver_store_bindings@[i])))
    }

    fn capability_grants_binding(&self, c: usize, e: usize, s: usize) -> (b: bool)
        requires
            c < self.capabilities@.len(),
            e < self.device_capabilities@.len(),
            s < self.stores@.len(),
        ensures
            b == ({
                let cap = self.capabilities@[c as int];
                let ev = self.device_capabilities@[e as int];
                let store = self.stores@[s as int];
                let dref = ev.target;
                !(cap.generation != ev.capability_generation || cap.revoked
                    || cap.subject@ != store.package@
                    || cap.object_ref != Some(AuthorityObjectRef { class: CapabilityClass::Device, object: dref })
                    || cap.owner_store != Some(ev.driver_store)
                    || cap.owner_store_generation != Some(ev.driver_store_generation)
                    || !has_operation(cap.operations@, ev.operation@))
            }),
    {
        let cap = &self.capabilities[c];
        let ev = &self.device_capabilities[e];
        let store = &self.stores[s];
        let authority = AuthorityObjectRef::internal(CapabilityClass::Device, ev.target);
        !(cap.generation != ev.capability_generation || cap.revoked
            || !str_eq(cap.subject.as_str(), store.package.as_str())
            || cap.object_ref != Some(authority)
            || cap.owner_store != Some(ev.driver_store)
            || cap.owner_store_generation != Some(ev.driver_store_generation)
            || !operations_contain(&cap.operations, ev.operation.as_str()))
    }

    pub fn validate_driver_store_binding(
        &self,
        binding: DriverStoreBindingId,
        driver_store: StoreId,
        driver_store_generation: Generation,
        device: DeviceObjectId,
        device_generation: Generation,
        device_capability: DeviceCapabilityId,
        device_capability_generation: Generation,
    ) -> (r: Result<usize, &'static str>)
        ensures
            match r {
                Ok(e) => self.driver_store_binding_verdict(binding, driver_store, driver_store_generation, device,
                    device_generation, device_capability, device_capability_generation) == Ok::<int, &'static str>(e as int),
                Err(m) => self.driver_store_binding_verdict(binding, driver_store, driver_store_generation, device,
                    device_generation, device_capability, device_capability_generation) == Err::<int, &'static str>(m),
            },
            r matches Ok(e) ==> e < self.device_capabilities@.len(),
    {
        if binding == 0 {
            return Err("driver store binding id=0 is invalid");
        }
        if exists_match(
            &self.driver_store_bindings,
            |x: &DriverStoreBindingRecord| -> (b: bool)
                ensures b == binding_id_is(binding)(*x)
            { x.id == binding },
            Ghost(binding_id_is(binding)),
        ) {
            return Err("driver store binding already exists");
        }
        let Some(s) = self.find_store(driver_store, driver_store_generation) else {
            return Err("driver store binding store generation is missing");
        };
        let store = &self.stores[s];
        if store.state == StoreState::Dead {
            return Err("driver store binding store is dead");
        }
        if !str_eq(store.role.as_str(), "driver") {
            return Err("driver store binding store role is not driver");
        }
        let dref = ContractObjectRef::new(ContractObjectKind::DeviceObject, device, device_generation);
        if !exists_match(
            &self.device_objects,
            |x: &DeviceObjectRecord| -> (b: bool)
                ensures b == registered_device_is(device, device_generation)(*x)
            { x.id == device && x.generation == device_generation && x.state == DeviceObjectState::Registered },
            Ghost(registered_device_is(device, device_generation)),
        ) {
            return Err("driver store binding device generation is missing or inactive");
        }
        let (dcid, dcgen) = (device_capability, device_capability_generation);
        let Some(e) = find_first(
            &self.device_capabilities,
            |x: &DeviceCapabilityRecord| -> (b: bool)
                ensures b == active_device_capability_is(dcid, dcgen)(*x)
            { x.id == dcid && x.generation == dcgen && x.state == DeviceCapabilityState::Active },
            Ghost(active_device_capability_is(dcid, dcgen)),
        ) else {
            return Err("driver store binding device capability generation is missing or inactive");
        };
        let ev = &self.device_capabilities[e];
        if ev.driver_store != driver_store || ev.driver_store_generation != driver_store_generation
            || ev.target != dref || ev.class != CapabilityClass::Device
            || !is_driver_binding_operation(ev.operation.as_str()) {
            return Err("driver store binding device capability does not authorize binding");
        }
        let Some(c) = self.find_capability(ev.capability) else {
            return Err("driver store binding capability record is missing");
        };
        if !self.capability_grants_binding(c, e, s) {
            return Err("driver store binding capability record is not active for device");
        }
        if exists_match(
            &self.driver_store_bindings,
            |x: &DriverStoreBindingRecord| -> (b: bool)
                ensures b == bound_binding_for(None, device, device_generation)(*x)
            { x.device == device && x.device_generation == device_generation && x.state == DriverStoreBindingState::Bound },
            Ghost(bound_binding_for(None, device, device_generation)),
        ) {
            return Err("driver store binding device already has an active driver");
        }
        if self.check_invariants().is_err() {
            return Err("driver store binding requires invariant-clean graph");
        }
        Ok(e)
    }
    /// Binds a driver store to a device when the graph accepts it; returns whether it did.
    pub fn record_driver_store_binding_with_id(
        &mut self,
        binding: DriverStoreBindingId,
        driver_store: StoreId,
        driver_store_generation: Generation,
        device: DeviceObjectId,
        device_generation: Generation,
        device_capability: DeviceCapabilityId,
        device_capability_generation: Generation,
        note: &str,
    ) -> (ok: bool)
        requires
            old(self).event_log.next_event_id < u64::MAX,
            binding < u64::MAX,
        ensures
            ok == (old(self).driver_store_binding_verdict(binding, driver_store, driver_store_generation, device,
                device_generation, device_capability, device_capability_generation) is Ok),
            !ok ==> *final(self) == *old(self),
            ok ==> recorded_driver_store_binding(*old(self), *final(self), binding, driver_store,
                driver_store_generation, device, device_generation, device_capability,
                device_capability_generation, note@),
    {
        if self.validate_driver_store_binding(binding, driver_store, driver_store_generation, device,
            device_generation, device_capability, device_capability_generation).is_err() {
            return false;
        }
        let (dcid, dcgen) = (device_capability, device_capability_generation);
        proof {
            lemma_first_match_facts(self.device_capabilities@, active_device_capability_is(dcid, dcgen));
            let k = first_match(self.device_capabilities@, active_device_capability_is(dcid, dcgen))->0;
            assert(device_capability_is(dcid, dcgen)(self.device_capabilities@[k]));
            lemma_first_match_facts(self.device_capabilities@, device_capability_is(dcid, dcgen));
        }
        let Some(e) = find_first(
            &self.device_capabilities,
            |x: &DeviceCapabilityRecord| -> (b: bool)
                ensures b == device_capability_is(dcid, dcgen)(*x)
            { x.id == dcid && x.generation == dcgen },
            Ghost(device_capability_is(dcid, dcgen)),
        ) else {
            return false;
        };
        let (capability, capability_generation) =
            (self.device_capabilities[e].capability, self.device_capabilities[e].capability_generation);
        let generation: u64 = 1;
        self.next_driver_store_binding_id = max_of(self.next_driver_store_binding_id, binding + 1);
        let recorded_at_event = self.event_log.push(
            EventDomain::Io,
            EventKind::DriverStoreBound {
                binding,
                driver_store,
                driver_store_generation,
                device,
                device_generation,
                device_capability,
                device_capability_generation,
                capability,
                capability_generation,
                generation,
            },
        );
        self.driver_store_bindings.push(DriverStoreBindingRecord {
            id: binding,
            driver_store,
            driver_store_generation,
            device,
            device_generation,
            device_capability,
            device_capability_generation,
            capability,
            capability_generation,
            generation,
            state: DriverStoreBindingState::Bound,
            recorded_at_event,
            note: note.to_owned(),
        });
        proof {
            assert(self.driver_store_bindings@.subrange(0, old(self).driver_store_bindings@.len() as int)
                =~= old(self).driver_store_bindings@);
        }
        true
    }

    pub fn driver_store_bindings(&self) -> (r: &[DriverStoreBindingRecord])
        ensures
            r@ == self.driver_store_bindings@,
    {
        self.driver_store_bindings.as_slice()
    }

    pub fn driver_store_binding_count(&self) -> (r: usize)
        ensures
            r == self.driver_store_bindings@.len(),
    {
        self.driver_store_bindings.len()
    }

    fn driver_store_binding_fault_of(&self, r: &DriverStoreBindingRecord) -> (f: Option<SemanticInvariantError>)
        ensures
            f == self.driver_store_binding_fault(*r),
    {
        let Some(s) = self.find_store(r.driver_store, r.driver_store_generation) else {
            return Some(SemanticInvariantError::DriverStoreBindingMissingStore { binding: r.id, store: r.driver_store });
        };
        let Some(d) = self.find_device_object(r.device, r.device_generation) else {
            return Some(SemanticInvariantError::DriverStoreBindingMissingDevice { binding: r.id, device: r.device });
        };
        let (dcid, dcgen) = (r.device_capability, r.device_capability_generation);
        let Some(e) = find_first(
            &self.device_capabilities,
            |x: &DeviceCapabilityRecord| -> (b: bool)
                ensures b == device_capability_is(dcid, dcgen)(*x)
            { x.id == dcid && x.generation == dcgen },
            Ghost(device_capability_is(dcid, dcgen)),
        ) else {
            return Some(SemanticInvariantError::DriverStoreBindingMissingCapabilityEvidence {
                binding: r.id,
                device_capability: r.device_capability,
            });
        };
        let store = &self.stores[s];
        let ev = &self.device_capabilities[e];
        let dref = ContractObjectRef::new(ContractObjectKind::DeviceObject, r.device, r.device_generation);
        let bound = r.state == DriverStoreBindingState::Bound;
        let released = r.state == DriverStoreBindingState::Released;
        if r.id == 0 || r.generation == 0 || r.driver_store_generation == 0 || r.device_generation == 0
            || r.device_capability_generation == 0 || r.capability_generation == 0
            || !str_eq(store.role.as_str(), "driver")
            || self.device_objects[d].state != DeviceObjectState::Registered
            || (!bound && !released)
            || (bound && store.state == StoreState::Dead)
            || (bound && ev.state != DeviceCapabilityState::Active)
            || (released && ev.state != DeviceCapabilityState::Revoked)
            || ev.driver_store != r.driver_store || ev.driver_store_generation != r.driver_store_generation
            || ev.target != dref || ev.class != CapabilityClass::Device
            || !is_driver_binding_operation(ev.operation.as_str())
            || ev.capability != r.capability || ev.capability_generation != r.capability_generation {
            return Some(SemanticInvariantError::DriverStoreBindingInvalid { binding: r.id });
        }
        let (id, device, device_generation) = (r.id, r.device, r.device_generation);
        if let Some(k) = find_first(
            &self.driver_store_bindings,
            |x: &DriverStoreBindingRecord| -> (b: bool)
                ensures b == bound_binding_for(Some(id), device, device_generation)(*x)
            { Some(x.id) != Some(id) && x.device == device && x.device_generation == device_generation
                && x.state == DriverStoreBindingState::Bound },
            Ghost(bound_binding_for(Some(id), device, device_generation)),
        ) {
            return Some(SemanticInvariantError::DriverStoreBindingDuplicateDevice {
                binding: self.driver_store_bindings[k].id,
                device: r.device,
            });
        }
        let bound_event = EventKind::DriverStoreBound {
            binding: r.id,
            driver_store: r.driver_store,
            driver_store_generation: r.driver_store_generation,
            device: r.device,
            device_generation: r.device_generation,
            device_capability: r.device_capability,
            device_capability_generation: r.device_capability_generation,
            capability: r.capability,
            capability_generation: r.capability_generation,
            generation: r.generation,
        };
        if !self.event_log.has_event(r.recorded_at_event, bound_event) {
            return Some(SemanticInvariantError::DriverStoreBindingMissingEvent { binding: r.id });
        }
        None
    }

    /// Audits every driver binding; the first fault found is returned.
    pub fn check_driver_store_binding_invariants(&self) -> (r: Result<(), SemanticInvariantError>)
        ensures
            r == self.driver_store_binding_audit(),
    {
        let ghost faults = Seq::new(self.driver_store_bindings@.len(), |i: int| self.driver_store_binding_fault(self.driver_store_bindings@[i]));
        let mut i: usize = 0;
        while i < self.driver_store_bindings.len()
            invariant
                i <= self.driver_store_bindings@.len(),
                faults == Seq::new(self.driver_store_bindings@.len(), |i: int| self.driver_store_binding_fault(self.driver_store_bindings@[i])),
                forall|j: int| 0 <= j < i ==> (#[trigger] faults[j]) is None,
            decreases self.driver_store_bindings@.len() - i,
        {
            if let Some(e) = self.driver_store_binding_fault_of(&self.driver_store_bindings[i]) {
                proof { lemma_first_failure_at(faults, i as int); }
                return Err(e);
            }
            i += 1;
        }
        proof { lemma_first_failure_ok(faults); }
        Ok(())
    }
}

/// `new` is `old` after binding the driver store; the capability it records is that of the
/// first evidence with this id and generation.
pub open spec fn recorded_driver_store_binding(
    old: SemanticGraph,
    new: SemanticGraph,
    binding: DriverStoreBindingId,
    driver_store: StoreId,
    driver_store_generation: Generation,
    device: DeviceObjectId,
    device_generation: Generation,
    device_capability: DeviceCapabilityId,
    device_capability_generation: Generation,
    note: Seq<char>,
) -> bool {
    let r = new.driver_store_bindings@.last();
    let ev = old.device_capabilities@[first_match(old.device_capabilities@,
        device_capability_is(device_capability, device_capability_generation))->0];
    &&& new.agrees_except(&old, set![Table::EventLog, Table::DriverStoreBindings])
    &&& appended_one(old.driver_store_bindings@, new.driver_store_bindings@)
    &&& r.id == binding && r.driver_store == driver_store && r.driver_store_generation == driver_store_generation
    &&& r.device == device && r.device_generation == device_generation
    &&& r.device_capability == device_capability && r.device_capability_generation == device_capability_generation
    &&& r.capability == ev.capability && r.capability_generation == ev.capability_generation
    &&& r.generation == 1 && r.state == DriverStoreBindingState::Bound
    &&& r.recorded_at_event == old.event_log.next_event_id && r.note@ == note
    &&& appended_event(old.event_log, new.event_log, EventDomain::Io, driver_store_bound_event(r))
    &&& new.next_driver_store_binding_id == max_u64(old.next_driver_store_binding_id, (binding + 1) as u64)
}


/// No two device objects share an id and a generation.
pub open spec fn device_generations_unique(s: Seq<DeviceObjectRecord>) -> bool {
    forall|i: int, j: int| 0 <= i < j < s.len()
        ==> !((#[trigger] s[i]).id == (#[trigger] s[j]).id && s[i].generation == s[j].generation)
}

/// No two device capabilities share an id and a generation, and each names a nonzero
/// ledger generation.
pub open spec fn device_capabilities_well_formed(s: Seq<DeviceCapabilityRecord>) -> bool {
    &&& forall|i: int, j: int| 0 <= i < j < s.len()
        ==> !((#[trigger] s[i]).id == (#[trigger] s[j]).id && s[i].generation == s[j].generation)
    &&& forall|i: int| 0 <= i < s.len() ==> (#[trigger] s[i]).capability_generation != 0
}

/// A binding, in any state, for this device generation.
pub open spec fn binding_on_device(device: DeviceObjectId, generation: Generation) -> spec_fn(DriverStoreBindingRecord) -> bool {
    |r: DriverStoreBindingRecord| r.device == device && r.device_generation == generation
}

/// Binding a driver store keeps the driver binding audit clean, where device objects and
/// device capabilities are unique by id and generation, the request names nonzero
/// generations, and no binding, not even a released one, exists yet for the device
/// generation (a released binding would count the new one as a duplicate).
pub proof fn lemma_record_driver_store_binding_keeps_audit(
    old: SemanticGraph,
    new: SemanticGraph,
    binding: DriverStoreBindingId,
    driver_store: StoreId,
    driver_store_generation: Generation,
    device: DeviceObjectId,
    device_generation: Generation,
    device_capability: DeviceCapabilityId,
    device_capability_generation: Generation,
    note: Seq<char>,
)
    requires
        old.driver_store_binding_audit() is Ok,
        device_generations_unique(old.device_objects@),
        device_capabilities_well_formed(old.device_capabilities@),
        driver_store_generation != 0 && device_generation != 0 && device_capability_generation != 0,
        !any_match(old.driver_store_bindings@, binding_on_device(device, device_generation)),
        old.driver_store_binding_verdict(binding, driver_store, driver_store_generation, device, device_generation,
            device_capability, device_capability_generation) is Ok,
        recorded_driver_store_binding(old, new, binding, driver_store, driver_store_generation, device,
            device_generation, device_capability, device_capability_generation, note),
    ensures
        new.driver_store_binding_audit() is Ok,
{
    let n = old.driver_store_bindings@.len();
    let olds = Seq::new(n, |i: int| old.driver_store_binding_fault(old.driver_store_bindings@[i]));
    let news = Seq::new(n + 1, |i: int| new.driver_store_binding_fault(new.driver_store_bindings@[i]));
    lemma_first_failure_ok_all(olds);
    let (dcid, dcgen) = (device_capability, device_capability_generation);
    lemma_first_match_facts(old.device_capabilities@, active_device_capability_is(dcid, dcgen));
    lemma_first_match_facts(old.device_capabilities@, device_capability_is(dcid, dcgen));
    let e = first_match(old.device_capabilities@, active_device_capability_is(dcid, dcgen))->0;
    let ea = first_match(old.device_capabilities@, device_capability_is(dcid, dcgen))->0;
    assert(device_capability_is(dcid, dcgen)(old.device_capabilities@[e]));
    if ea < e {
        assert(!(old.device_capabilities@[ea].id == old.device_capabilities@[e].id
            && old.device_capabilities@[ea].generation == old.device_capabilities@[e].generation));
    } else if ea > e {
        assert(!device_capability_is(dcid, dcgen)(old.device_capabilities@[e]));
    }
    let di = choose|i: int| 0 <= i < old.device_objects@.len()
        && #[trigger] registered_device_is(device, device_generation)(old.device_objects@[i]);
    lemma_first_match_facts(old.device_objects@, device_is(device, device_generation));
    let da = first_match(old.device_objects@, device_is(device, device_generation))->0;
    assert(device_is(device, device_generation)(old.device_objects@[di]));
    if da < di {
        assert(!(old.device_objects@[da].id == old.device_objects@[di].id
            && old.device_objects@[da].generation == old.device_objects@[di].generation));
    } else if da > di {
        assert(!device_is(device, device_generation)(old.device_objects@[di]));
    }
    lemma_first_match_facts(old.stores@, store_is(driver_store, driver_store_generation));
    let c = first_match(old.capabilities@, capability_id_is(old.device_capabilities@[e].capability))->0;
    lemma_first_match_facts(old.capabilities@, capability_id_is(old.device_capabilities@[e].capability));
    let last = new.driver_store_bindings@[n as int];
    assert forall|i: int| 0 <= i < n implies #[trigger] new.driver_store_bindings@[i] == old.driver_store_bindings@[i] by {
        assert(new.driver_store_bindings@.subrange(0, n as int)[i] == old.driver_store_bindings@[i]);
    }
    assert forall|j: int| 0 <= j < news.len() implies (#[trigger] news[j]) is None by {
        if j < n {
            let r = old.driver_store_bindings@[j];
            assert(olds[j] is None);
            lemma_first_match_facts(new.driver_store_bindings@, bound_binding_for(Some(r.id), r.device, r.device_generation));
            lemma_first_match_facts(old.driver_store_bindings@, bound_binding_for(Some(r.id), r.device, r.device_generation));
            assert forall|m: int| 0 <= m < new.driver_store_bindings@.len()
                implies !bound_binding_for(Some(r.id), r.device, r.device_generation)(#[trigger] new.driver_store_bindings@[m]) by {
                if m == n && bound_binding_for(Some(r.id), r.device, r.device_generation)(last) {
                    assert(binding_on_device(device, device_generation)(r));
                }
            }
            lemma_has_event_extends(old.event_log.events@, new.event_log.events@, r.recorded_at_event,
                driver_store_bound_event(r));
        } else {
            assert(old.device_capabilities@[e].capability_generation != 0);
            lemma_first_match_facts(new.driver_store_bindings@, bound_binding_for(Some(binding), device, device_generation));
            assert forall|m: int| 0 <= m < new.driver_store_bindings@.len()
                implies !bound_binding_for(Some(binding), device, device_generation)(#[trigger] new.driver_store_bindings@[m]) by {
                if m < n && bound_binding_for(Some(binding), device, device_generation)(old.driver_store_bindings@[m]) {
                    assert(binding_on_device(device, device_generation)(old.driver_store_bindings@[m]));
                }
            }
            let k = new.event_log.events@.len() - 1;
            assert(new.event_log.events@[k].id == last.recorded_at_event);
        }
    }
    lemma_first_failure_ok(news);
}

/// When a driver binding is accepted (`validate_driver_store_binding` accepts and the recorder
/// records it exactly then), its id is new and nonzero; the driver store generation exists, is not
/// dead and has the driver role; the device generation is registered; an active device capability
/// of the named id and generation grants that store generation a device-class operation on that
/// device generation, and its ledger entry is live at that generation and owned by that store
/// generation; and no bound driver already holds that device generation.
pub proof fn lemma_accepted_binding_is_authorized(
    g: SemanticGraph,
    binding: DriverStoreBindingId,
    driver_store: StoreId,
    driver_store_generation: Generation,
    device: DeviceObjectId,
    device_generation: Generation,
    device_capability: DeviceCapabilityId,
    device_capability_generation: Generation,
)
    requires
        g.driver_store_binding_verdict(binding, driver_store, driver_store_generation, device, device_generation,
            device_capability, device_capability_generation) is Ok,
    ensures
        binding != 0,
        forall|i: int| 0 <= i < g.driver_store_bindings@.len() ==> (#[trigger] g.driver_store_bindings@[i]).id != binding,
        exists|s: int| 0 <= s < g.stores@.len() && (#[trigger] g.stores@[s]).id == driver_store
            && g.stores@[s].generation == driver_store_generation && g.stores@[s].state != StoreState::Dead
            && g.stores@[s].role@ == "driver"@,
        exists|d: int| 0 <= d < g.device_objects@.len() && (#[trigger] g.device_objects@[d]).id == device
            && g.device_objects@[d].generation == device_generation
            && g.device_objects@[d].state == DeviceObjectState::Registered,
        exists|e: int, c: int| #![trigger g.device_capabilities@[e], g.capabilities@[c]]
            0 <= e < g.device_capabilities@.len() && 0 <= c < g.capabilities@.len() && {
            let ev = g.device_capabilities@[e];
            let cap = g.capabilities@[c];
            &&& ev.id == device_capability && ev.generation == device_capability_generation
            &&& ev.state == DeviceCapabilityState::Active
            &&& ev.driver_store == driver_store && ev.driver_store_generation == driver_store_generation
            &&& ev.target == (ContractObjectRef { kind: ContractObjectKind::DeviceObject, id: device,
                generation: device_generation })
            &&& ev.class == CapabilityClass::Device
            &&& cap.id == ev.capability && cap.generation == ev.capability_generation && !cap.revoked
            &&& cap.owner_store == Some(driver_store) && cap.owner_store_generation == Some(driver_store_generation)
        },
        forall|i: int| 0 <= i < g.driver_store_bindings@.len() ==> !({
            let b = #[trigger] g.driver_store_bindings@[i];
            b.device == device && b.device_generation == device_generation && b.state == DriverStoreBindingState::Bound
        }),
{
    assert forall|i: int| 0 <= i < g.driver_store_bindings@.len() implies (#[trigger] g.driver_store_bindings@[i]).id != binding by {
        if g.driver_store_bindings@[i].id == binding {
            assert(binding_id_is(binding)(g.driver_store_bindings@[i]));
        }
    }
    lemma_first_match_facts(g.stores@, store_is(driver_store, driver_store_generation));
    let s = first_match(g.stores@, store_is(driver_store, driver_store_generation))->0;
    assert(store_is(driver_store, driver_store_generation)(g.stores@[s]));
    let d = choose|d: int| 0 <= d < g.device_objects@.len() && registered_device_is(device, device_generation)(#[trigger] g.device_objects@[d]);
    assert(registered_device_is(device, device_generation)(g.device_objects@[d]));
    lemma_first_match_facts(g.device_capabilities@, active_device_capability_is(device_capability,
        device_capability_generation));
    let e = first_match(g.device_capabilities@, active_device_capability_is(device_capability,
        device_capability_generation))->0;
    let ev = g.device_capabilities@[e];
    assert(active_device_capability_is(device_capability, device_capability_generation)(ev));
    lemma_first_match_facts(g.capabilities@, capability_id_is(ev.capability));
    let c = first_match(g.capabilities@, capability_id_is(ev.capability))->0;
    assert(capability_id_is(ev.capability)(g.capabilities@[c]));
    assert forall|i: int| 0 <= i < g.driver_store_bindings@.len() implies !({
        let b = #[trigger] g.driver_store_bindings@[i];
        b.device == device && b.device_generation == device_generation && b.state == DriverStoreBindingState::Bound
    }) by {
        if bound_binding_for(None, device, device_generation)(g.driver_store_bindings@[i]) {
            assert(any_match(g.driver_store_bindings@, bound_binding_for(None, device, device_generation)));
        }
    }
}

} // verus!
