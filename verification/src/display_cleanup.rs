use vstd::prelude::*;
use crate::base::{
    DisplayCapabilityRecord, DisplayObjectRecord, FramebufferMappingRecord,
    FramebufferObjectRecord, FramebufferWindowLeaseRecord,
};
use crate::driver_store_binding::capability_id_is;
use crate::capability::{ledger_revocable, ledger_with_revoked, lemma_revoke_keeps_lookup};
use crate::errors::SemanticInvariantError;
use crate::events::{appended_event, appended_one, has_event_spec, log_extends, Event, EventDomain, EventKind};
use crate::framebuffer_benchmark::display_capability_is;
use crate::graph::{SemanticGraph, Table};
use crate::lookup2::store_is;
use crate::search::{
    any_match, exists_match, find_first, first_failure, first_match, lemma_first_failure_at,
    lemma_first_failure_ok, lemma_first_match_facts, max_of, max_u64, opt_index,
};
use crate::types::{
    ContractObjectKind, ContractObjectRef, DisplayCapabilityId, DisplayCapabilityState,
    DisplayCleanupId, DisplayCleanupState, DisplayCleanupStepKind, DisplayCleanupStepStatus,
    DisplayObjectId, DisplayObjectState, EventId, FramebufferMappingState, FramebufferObjectId,
    FramebufferObjectState, FramebufferWindowLeaseState, Generation, StoreId, StoreState,
};

verus! {

/// One step of a display cleanup: what it acted on and whether it found anything to do.
#[derive(Clone, Copy, Debug, PartialEq, Eq, Structural)]
pub struct DisplayCleanupStepRecord {
    pub kind: DisplayCleanupStepKind,
    pub target: ContractObjectRef,
    pub observed_generation: Generation,
    pub status: DisplayCleanupStepStatus,
    pub event: Option<EventId>,
}

/// The cleanup of a store's display: its mappings unmapped, its leases released and its
/// display capability revoked.
pub struct DisplayCleanupRecord {
    pub id: DisplayCleanupId,
    pub owner_store: StoreId,
    pub owner_store_generation: Generation,
    pub display_capability: DisplayCapabilityId,
    pub display_capability_generation: Generation,
    pub display: DisplayObjectId,
    pub display_generation: Generation,
    pub framebuffer: FramebufferObjectId,
    pub framebuffer_generation: Generation,
    pub generation: Generation,
    pub state: DisplayCleanupState,
    pub reason: String,
    pub started_at_event: EventId,
    pub completed_at_event: EventId,
    pub unmapped_framebuffer_mappings: Vec<ContractObjectRef>,
    pub released_framebuffer_window_leases: Vec<ContractObjectRef>,
    pub revoked_display_capabilities: Vec<ContractObjectRef>,
    pub revoked_capabilities: Vec<ContractObjectRef>,
    pub steps: Vec<DisplayCleanupStepRecord>,
    pub note: String,
}

/// What a display cleanup acts on: a store's display capability over a display and its framebuffer.
#[derive(Clone, Copy, Debug, PartialEq, Eq, Structural)]
pub struct DisplayCleanupTarget {
    pub owner_store: StoreId,
    pub owner_store_generation: Generation,
    pub display_capability: DisplayCapabilityId,
    pub display_capability_generation: Generation,
    pub display: DisplayObjectId,
    pub display_generation: Generation,
    pub framebuffer: FramebufferObjectId,
    pub framebuffer_generation: Generation,
}

/// The target of a recorded cleanup.
pub open spec fn cleanup_target(r: DisplayCleanupRecord) -> DisplayCleanupTarget {
    DisplayCleanupTarget {
        owner_store: r.owner_store,
        owner_store_generation: r.owner_store_generation,
        display_capability: r.display_capability,
        display_capability_generation: r.display_capability_generation,
        display: r.display,
        display_generation: r.display_generation,
        framebuffer: r.framebuffer,
        framebuffer_generation: r.framebuffer_generation,
    }
}

/// A cleanup with this id already recorded for another target.
pub open spec fn cleanup_id_for_other_target(cleanup: DisplayCleanupId, t: DisplayCleanupTarget) -> spec_fn(DisplayCleanupRecord) -> bool {
    |r: DisplayCleanupRecord| r.id == cleanup && cleanup_target(r) != t
}

/// A completed cleanup of this target (under any id).
pub open spec fn completed_cleanup_of(t: DisplayCleanupTarget) -> spec_fn(DisplayCleanupRecord) -> bool {
    |r: DisplayCleanupRecord| cleanup_target(r) == t && r.state == DisplayCleanupState::Completed
}

/// A completed cleanup of this target under this id.
pub open spec fn completed_cleanup_as(cleanup: DisplayCleanupId, t: DisplayCleanupTarget) -> spec_fn(DisplayCleanupRecord) -> bool {
    |r: DisplayCleanupRecord| r.id == cleanup && cleanup_target(r) == t && r.state == DisplayCleanupState::Completed
}

pub open spec fn active_display_capability_is(id: DisplayCapabilityId, generation: Generation) -> spec_fn(DisplayCapabilityRecord) -> bool {
    |r: DisplayCapabilityRecord| r.id == id && r.generation == generation && r.state == DisplayCapabilityState::Active
}

/// A registered display of this generation bound to this framebuffer generation.
pub open spec fn display_bound_to(t: DisplayCleanupTarget) -> spec_fn(DisplayObjectRecord) -> bool {
    |d: DisplayObjectRecord| d.id == t.display && d.generation == t.display_generation
        && d.framebuffer == t.framebuffer && d.framebuffer_generation == t.framebuffer_generation
        && d.state == DisplayObjectState::Registered
}

pub open spec fn registered_framebuffer_of(t: DisplayCleanupTarget) -> spec_fn(FramebufferObjectRecord) -> bool {
    |f: FramebufferObjectRecord| f.id == t.framebuffer && f.generation == t.framebuffer_generation
        && f.state == FramebufferObjectState::Registered
}

/// An active mapping held under the target's capability.
pub open spec fn mapping_in_target(m: FramebufferMappingRecord, t: DisplayCleanupTarget) -> bool {
    m.owner_store == t.owner_store && m.owner_store_generation == t.owner_store_generation
        && m.display_capability == t.display_capability && m.display_capability_generation == t.display_capability_generation
        && m.display == t.display && m.display_generation == t.display_generation
        && m.framebuffer == t.framebuffer && m.framebuffer_generation == t.framebuffer_generation
        && m.state == FramebufferMappingState::Active
}

/// An active window lease held under the target's capability.
pub open spec fn lease_in_target(l: FramebufferWindowLeaseRecord, t: DisplayCleanupTarget) -> bool {
    l.owner_store == t.owner_store && l.owner_store_generation == t.owner_store_generation
        && l.display_capability == t.display_capability && l.display_capability_generation == t.display_capability_generation
        && l.display == t.display && l.display_generation == t.display_generation
        && l.framebuffer == t.framebuffer && l.framebuffer_generation == t.framebuffer_generation
        && l.state == FramebufferWindowLeaseState::Active
}

pub open spec fn mapping_ref(m: FramebufferMappingRecord) -> ContractObjectRef {
    ContractObjectRef { kind: ContractObjectKind::FramebufferMapping, id: m.id, generation: m.generation }
}

pub open spec fn lease_ref(l: FramebufferWindowLeaseRecord) -> ContractObjectRef {
    ContractObjectRef { kind: ContractObjectKind::FramebufferWindowLease, id: l.id, generation: l.generation }
}

/// The references of the mappings of `s` held under `t`, in table order.
pub open spec fn target_mapping_refs(s: Seq<FramebufferMappingRecord>, t: DisplayCleanupTarget) -> Seq<ContractObjectRef>
    decreases s.len(),
{
    if s.len() == 0 {
        Seq::empty()
    } else if mapping_in_target(s.last(), t) {
        target_mapping_refs(s.drop_last(), t).push(mapping_ref(s.last()))
    } else {
        target_mapping_refs(s.drop_last(), t)
    }
}

/// The references of the leases of `s` held under `t`, in table order.
pub open spec fn target_lease_refs(s: Seq<FramebufferWindowLeaseRecord>, t: DisplayCleanupTarget) -> Seq<ContractObjectRef>
    decreases s.len(),
{
    if s.len() == 0 {
        Seq::empty()
    } else if lease_in_target(s.last(), t) {
        target_lease_refs(s.drop_last(), t).push(lease_ref(s.last()))
    } else {
        target_lease_refs(s.drop_last(), t)
    }
}

/// `s` with every mapping held under `t` unmapped.
pub open spec fn unmapped_under(s: Seq<FramebufferMappingRecord>, t: DisplayCleanupTarget) -> Seq<FramebufferMappingRecord> {
    Seq::new(s.len(), |i: int| if mapping_in_target(s[i], t) {
        FramebufferMappingRecord { state: FramebufferMappingState::Unmapped, ..s[i] }
    } else {
        s[i]
    })
}

/// `s` with every lease held under `t` released.
pub open spec fn released_under(s: Seq<FramebufferWindowLeaseRecord>, t: DisplayCleanupTarget) -> Seq<FramebufferWindowLeaseRecord> {
    Seq::new(s.len(), |i: int| if lease_in_target(s[i], t) {
        FramebufferWindowLeaseRecord { state: FramebufferWindowLeaseState::Released, ..s[i] }
    } else {
        s[i]
    })
}

/// The step a cleanup must have recorded, given its target and whether it found anything.
pub open spec fn expected_step(r: DisplayCleanupRecord, i: int) -> (DisplayCleanupStepKind, ContractObjectKind, u64, Generation, bool) {
    if i == 0 {
        (DisplayCleanupStepKind::UnmapFramebufferMappings, ContractObjectKind::DisplayCapability,
            r.display_capability, r.display_capability_generation, r.unmapped_framebuffer_mappings@.len() == 0)
    } else if i == 1 {
        (DisplayCleanupStepKind::ReleaseFramebufferWindowLeases, ContractObjectKind::DisplayCapability,
            r.display_capability, r.display_capability_generation, r.released_framebuffer_window_leases@.len() == 0)
    } else {
        (DisplayCleanupStepKind::RevokeDisplayCapabilities, ContractObjectKind::Store,
            r.owner_store, r.owner_store_generation, r.revoked_display_capabilities@.len() == 0)
    }
}

/// Step `s` is the step expected in position `i` of cleanup `r`.
pub open spec fn step_matches(s: DisplayCleanupStepRecord, r: DisplayCleanupRecord, i: int) -> bool {
    let (kind, target_kind, target_id, target_generation, empty) = expected_step(r, i);
    &&& s.kind == kind
    &&& s.target.kind == target_kind && s.target.id == target_id && s.target.generation == target_generation
    &&& s.observed_generation == target_generation
    &&& s.status == (if empty { DisplayCleanupStepStatus::SkippedNotPresent } else { DisplayCleanupStepStatus::Done })
    &&& s.event.unwrap_or(0) != 0
}

/// The event that records the start of cleanup `r`.
pub open spec fn cleanup_started_event(r: DisplayCleanupRecord) -> EventKind {
    EventKind::DisplayCleanupStarted {
        cleanup: r.id,
        owner_store: r.owner_store,
        owner_store_generation: r.owner_store_generation,
        display_capability: r.display_capability,
        display_capability_generation: r.display_capability_generation,
        display: r.display,
        display_generation: r.display_generation,
        framebuffer: r.framebuffer,
        framebuffer_generation: r.framebuffer_generation,
        generation: r.generation,
    }
}

/// The event that records the completion of cleanup `r`.
pub open spec fn cleanup_completed_event(r: DisplayCleanupRecord) -> EventKind {
    EventKind::DisplayCleanupCompleted {
        cleanup: r.id,
        owner_store: r.owner_store,
        owner_store_generation: r.owner_store_generation,
        display_capability: r.display_capability,
        display_capability_generation: r.display_capability_generation,
        display: r.display,
        display_generation: r.display_generation,
        framebuffer: r.framebuffer,
        framebuffer_generation: r.framebuffer_generation,
        unmapped_framebuffer_mappings: r.unmapped_framebuffer_mappings@.len() as usize,
        released_framebuffer_window_leases: r.released_framebuffer_window_leases@.len() as usize,
        revoked_display_capabilities: r.revoked_display_capabilities@.len() as usize,
        generation: r.generation,
    }
}

pub open spec fn unmapped_mapping_is(target: ContractObjectRef) -> spec_fn(FramebufferMappingRecord) -> bool {
    |m: FramebufferMappingRecord| m.id == target.id && m.generation == target.generation
        && m.state == FramebufferMappingState::Unmapped
}

pub open spec fn released_lease_is(target: ContractObjectRef) -> spec_fn(FramebufferWindowLeaseRecord) -> bool {
    |l: FramebufferWindowLeaseRecord| l.id == target.id && l.generation == target.generation
        && l.state == FramebufferWindowLeaseState::Released
}

pub open spec fn revoked_display_capability_is(target: ContractObjectRef) -> spec_fn(DisplayCapabilityRecord) -> bool {
    |d: DisplayCapabilityRecord| d.id == target.id && d.generation == target.generation
        && d.state == DisplayCapabilityState::Revoked
}

impl SemanticGraph {
    /// A reference of `refs` names no unmapped mapping.
    pub open spec fn mapping_effect_missing(&self) -> spec_fn(ContractObjectRef) -> bool {
        |t: ContractObjectRef| !any_match(self.framebuffer_mappings@, unmapped_mapping_is(t))
    }

    /// A reference of `refs` names no released lease.
    pub open spec fn lease_effect_missing(&self) -> spec_fn(ContractObjectRef) -> bool {
        |t: ContractObjectRef| !any_match(self.framebuffer_window_leases@, released_lease_is(t))
    }

    /// A reference of `refs` names no revoked display capability.
    pub open spec fn display_capability_effect_missing(&self) -> spec_fn(ContractObjectRef) -> bool {
        |t: ContractObjectRef| !any_match(self.display_capabilities@, revoked_display_capability_is(t))
    }

    /// What an audit finds wrong with one revoked capability of cleanup `cleanup`.
    pub open spec fn capability_effect_fault(&self, cleanup: DisplayCleanupId, c: ContractObjectRef) -> Option<SemanticInvariantError> {
        match first_match(self.capabilities@, capability_id_is(c.id)) {
            None => Some(SemanticInvariantError::DisplayCleanupMissingEffectTarget { cleanup, target: c }),
            Some(k) => if !self.capabilities@[k].revoked || self.capabilities@[k].generation != c.generation {
                Some(SemanticInvariantError::DisplayCleanupInvalid { cleanup })
            } else {
                None
            },
        }
    }

    /// What an audit finds wrong with the recorded effects of cleanup `r`, if anything.
    pub open spec fn cleanup_effects_fault(&self, r: DisplayCleanupRecord) -> Option<SemanticInvariantError> {
        let mappings = r.unmapped_framebuffer_mappings@;
        let leases = r.released_framebuffer_window_leases@;
        let caps = r.revoked_display_capabilities@;
        let revoked = r.revoked_capabilities@;
        match first_match(mappings, self.mapping_effect_missing()) {
            Some(i) => Some(SemanticInvariantError::DisplayCleanupMissingEffectTarget { cleanup: r.id, target: mappings[i] }),
            None => match first_match(leases, self.lease_effect_missing()) {
                Some(i) => Some(SemanticInvariantError::DisplayCleanupMissingEffectTarget { cleanup: r.id, target: leases[i] }),
                None => match first_match(caps, self.display_capability_effect_missing()) {
                    Some(i) => Some(SemanticInvariantError::DisplayCleanupMissingEffectTarget { cleanup: r.id, target: caps[i] }),
                    None => match first_failure(Seq::new(revoked.len(), |i: int| self.capability_effect_fault(r.id, revoked[i]))) {
                        Err(e) => Some(e),
                        Ok(_) => None,
                    },
                },
            },
        }
    }

    /// What an audit finds wrong with cleanup `r`, if anything.
    pub open spec fn display_cleanup_fault(&self, r: DisplayCleanupRecord) -> Option<SemanticInvariantError> {
        let invalid = SemanticInvariantError::DisplayCleanupInvalid { cleanup: r.id };
        if r.id == 0 || r.generation == 0 || r.owner_store_generation == 0 || r.display_capability_generation == 0
            || r.display_generation == 0 || r.framebuffer_generation == 0 || r.reason@.len() == 0
            || r.state != DisplayCleanupState::Completed {
            Some(invalid)
        } else if !any_match(self.stores@, store_is(r.owner_store, r.owner_store_generation)) {
            Some(SemanticInvariantError::DisplayCleanupMissingStore { cleanup: r.id, store: r.owner_store })
        } else {
            match first_match(self.display_capabilities@, display_capability_is(r.display_capability, r.display_capability_generation)) {
                None => Some(SemanticInvariantError::DisplayCleanupMissingDisplayCapability {
                    cleanup: r.id,
                    display_capability: r.display_capability,
                }),
                Some(c) => {
                    let dc = self.display_capabilities@[c];
                    if dc.state != DisplayCapabilityState::Revoked || dc.owner_store != r.owner_store
                        || dc.owner_store_generation != r.owner_store_generation || dc.display != r.display
                        || dc.display_generation != r.display_generation || dc.framebuffer != r.framebuffer
                        || dc.framebuffer_generation != r.framebuffer_generation {
                        Some(invalid)
                    } else if self.cleanup_effects_fault(r) is Some {
                        self.cleanup_effects_fault(r)
                    } else if r.steps@.len() != 3 || exists|i: int| 0 <= i < 3 && !step_matches(#[trigger] r.steps@[i], r, i) {
                        Some(invalid)
                    } else if !has_event_spec(self.event_log.events@, r.started_at_event, cleanup_started_event(r))
                        || !has_event_spec(self.event_log.events@, r.completed_at_event, cleanup_completed_event(r)) {
                        Some(SemanticInvariantError::DisplayCleanupMissingEvent { cleanup: r.id })
                    } else {
                        None
                    }
                },
            }
        }
    }

    /// Audit verdict of the display cleanup table.
    pub open spec fn display_cleanup_audit(&self) -> Result<(), SemanticInvariantError> {
        first_failure(Seq::new(self.display_cleanups@.len(), |i: int| self.display_cleanup_fault(self.display_cleanups@[i])))
    }

    /// Why cleaning up this target would be refused, if it would. A target already cleaned
    /// up is accepted at once.
    pub open spec fn display_cleanup_verdict(
        &self,
        cleanup: DisplayCleanupId,
        t: DisplayCleanupTarget,
        reason: Seq<char>,
    ) -> Result<(), &'static str> {
        if cleanup == 0 {
            Err("display cleanup id=0 is invalid")
        } else if t.owner_store_generation == 0 || t.display_capability_generation == 0
            || t.display_generation == 0 || t.framebuffer_generation == 0 || reason.len() == 0 {
            Err("display cleanup requires exact refs and reason")
        } else if any_match(self.display_cleanups@, cleanup_id_for_other_target(cleanup, t)) {
            Err("display cleanup id is already used for a different target")
        } else if any_match(self.display_cleanups@, completed_cleanup_of(t)) {
            Ok(())
        } else {
            match first_match(self.stores@, store_is(t.owner_store, t.owner_store_generation)) {
                None => Err("display cleanup owner store generation is missing"),
                Some(s) => if self.stores@[s].state == StoreState::Dead {
                    Err("display cleanup owner store is dead")
                } else {
                    match first_match(self.display_capabilities@, active_display_capability_is(t.display_capability,
                        t.display_capability_generation)) {
                        None => Err("display cleanup active display capability generation is missing"),
                        Some(c) => {
                            let dc = self.display_capabilities@[c];
                            if dc.owner_store != t.owner_store || dc.owner_store_generation != t.owner_store_generation
                                || dc.display != t.display || dc.display_generation != t.display_generation
                                || dc.framebuffer != t.framebuffer || dc.framebuffer_generation != t.framebuffer_generation {
                                Err("display cleanup display capability binding mismatch")
                            } else {
                                match first_match(self.capabilities@, capability_id_is(dc.capability)) {
                                    None => Err("display cleanup capability ledger record is missing"),
                                    Some(k) => {
                                        let cap = self.capabilities@[k];
                                        if cap.generation != dc.capability_generation || cap.revoked
                                            || cap.owner_store != Some(t.owner_store)
                                            || cap.owner_store_generation != Some(t.owner_store_generation) {
                                            Err("display cleanup capability ledger binding mismatch")
                                        } else if !any_match(self.display_objects@, display_bound_to(t)) {
                                            Err("display cleanup display generation is missing")
                                        } else if !any_match(self.framebuffer_objects@, registered_framebuffer_of(t)) {
                                            Err("display cleanup framebuffer generation is missing")
                                        } else if self.graph_audit() is Err {
                                            Err("display cleanup requires invariant-clean graph")
                                        } else {
                                            Ok(())
                                        }
                                    },
                                }
                            }
                        },
                    }
                },
            }
        }
    }
}


impl DisplayCleanupRecord {
    /// The target this cleanup acted on.
    pub fn target(&self) -> (t: DisplayCleanupTarget)
        ensures
            t == cleanup_target(*self),
    {
        DisplayCleanupTarget {
            owner_store: self.owner_store,
            owner_store_generation: self.owner_store_generation,
            display_capability: self.display_capability,
            display_capability_generation: self.display_capability_generation,
            display: self.display,
            display_generation: self.display_generation,
            framebuffer: self.framebuffer,
            framebuffer_generation: self.framebuffer_generation,
        }
    }
}

fn holds_mapping(m: &FramebufferMappingRecord, t: &DisplayCleanupTarget) -> (b: bool)
    ensures
        b == mapping_in_target(*m, *t),
{
    m.owner_store == t.owner_store && m.owner_store_generation == t.owner_store_generation
        && m.display_capability == t.display_capability && m.display_capability_generation == t.display_capability_generation
        && m.display == t.display && m.display_generation == t.display_generation
        && m.framebuffer == t.framebuffer && m.framebuffer_generation == t.framebuffer_generation
        && m.state == FramebufferMappingState::Active
}

fn holds_lease(l: &FramebufferWindowLeaseRecord, t: &DisplayCleanupTarget) -> (b: bool)
    ensures
        b == lease_in_target(*l, *t),
{
    l.owner_store == t.owner_store && l.owner_store_generation == t.owner_store_generation
        && l.display_capability == t.display_capability && l.display_capability_generation == t.display_capability_generation
        && l.display == t.display && l.display_generation == t.display_generation
        && l.framebuffer == t.framebuffer && l.framebuffer_generation == t.framebuffer_generation
        && l.state == FramebufferWindowLeaseState::Active
}

impl SemanticGraph {
    fn find_active_display_capability(&self, id: DisplayCapabilityId, generation: Generation) -> (r: Option<usize>)
        ensures
            opt_index(r) == first_match(self.display_capabilities@, active_display_capability_is(id, generation)),
            r matches Some(i) ==> i < self.display_capabilities@.len(),
    {
        let r = find_first(
            &self.display_capabilities,
            |x: &DisplayCapabilityRecord| -> (b: bool)
                ensures b == active_display_capability_is(id, generation)(*x)
            { x.id == id && x.generation == generation && x.state == DisplayCapabilityState::Active },
            Ghost(active_display_capability_is(id, generation)),
        );
        proof { lemma_first_match_facts(self.display_capabilities@, active_display_capability_is(id, generation)); }
        r
    }

    /// Checks a display cleanup request against the graph.
    pub(crate) fn validate_display_cleanup(
        &self,
        cleanup: DisplayCleanupId,
        t: &DisplayCleanupTarget,
        reason: &str,
    ) -> (r: Result<(), &'static str>)
        ensures
            r == self.display_cleanup_verdict(cleanup, *t, reason@),
    {
        if cleanup == 0 {
            return Err("display cleanup id=0 is invalid");
        }
        if t.owner_store_generation == 0 || t.display_capability_generation == 0 || t.display_generation == 0
            || t.framebuffer_generation == 0 || reason.unicode_len() == 0 {
            return Err("display cleanup requires exact refs and reason");
        }
        let tt = *t;
        if exists_match(
            &self.display_cleanups,
            |x: &DisplayCleanupRecord| -> (b: bool)
                ensures b == cleanup_id_for_other_target(cleanup, tt)(*x)
            { x.id == cleanup && x.target() != tt },
            Ghost(cleanup_id_for_other_target(cleanup, tt)),
        ) {
            return Err("display cleanup id is already used for a different target");
        }
        if exists_match(
            &self.display_cleanups,
            |x: &DisplayCleanupRecord| -> (b: bool)
                ensures b == completed_cleanup_of(tt)(*x)
            { x.target() == tt && x.state == DisplayCleanupState::Completed },
            Ghost(completed_cleanup_of(tt)),
        ) {
            return Ok(());
        }
        let Some(s) = self.find_store(t.owner_store, t.owner_store_generation) else {
            return Err("display cleanup owner store generation is missing");
        };
        if self.stores[s].state == StoreState::Dead {
            return Err("display cleanup owner store is dead");
        }
        let Some(c) = self.find_active_display_capability(t.display_capability, t.display_capability_generation) else {
            return Err("display cleanup active display capability generation is missing");
        };
        let dc = &self.display_capabilities[c];
        if dc.owner_store != t.owner_store || dc.owner_store_generation != t.owner_store_generation
            || dc.display != t.display || dc.display_generation != t.display_generation
            || dc.framebuffer != t.framebuffer || dc.framebuffer_generation != t.framebuffer_generation {
            return Err("display cleanup display capability binding mismatch");
        }
        let Some(k) = self.find_capability(dc.capability) else {
            return Err("display cleanup capability ledger record is missing");
        };
        proof { lemma_first_match_facts(self.capabilities@, capability_id_is(dc.capability)); }
        let cap = &self.capabilities[k];
        if cap.generation != dc.capability_generation || cap.revoked
            || cap.owner_store != Some(t.owner_store)
            || cap.owner_store_generation != Some(t.owner_store_generation) {
            return Err("display cleanup capability ledger binding mismatch");
        }
        if !exists_match(
            &self.display_objects,
            |x: &DisplayObjectRecord| -> (b: bool)
                ensures b == display_bound_to(tt)(*x)
            { x.id == tt.display && x.generation == tt.display_generation && x.framebuffer == tt.framebuffer
                && x.framebuffer_generation == tt.framebuffer_generation && x.state == DisplayObjectState::Registered },
            Ghost(display_bound_to(tt)),
        ) {
            return Err("display cleanup display generation is missing");
        }
        if !exists_match(
            &self.framebuffer_objects,
            |x: &FramebufferObjectRecord| -> (b: bool)
                ensures b == registered_framebuffer_of(tt)(*x)
            { x.id == tt.framebuffer && x.generation == tt.framebuffer_generation
                && x.state == FramebufferObjectState::Registered },
            Ghost(registered_framebuffer_of(tt)),
        ) {
            return Err("display cleanup framebuffer generation is missing");
        }
        if self.check_invariants().is_err() {
            return Err("display cleanup requires invariant-clean graph");
        }
        Ok(())
    }
}


/// The graph revokes the target's display capability when it cleans it up: the capability
/// is active and its ledger entry is live at the recorded generation.
pub open spec fn cleanup_revokes(g: SemanticGraph, t: DisplayCleanupTarget) -> bool {
    match first_match(g.display_capabilities@, active_display_capability_is(t.display_capability, t.display_capability_generation)) {
        None => false,
        Some(c) => ledger_revocable(g.capabilities@, g.display_capabilities@[c].capability,
            g.display_capabilities@[c].capability_generation),
    }
}

/// Position of the target's active display capability.
pub open spec fn target_capability_index(g: SemanticGraph, t: DisplayCleanupTarget) -> int {
    first_match(g.display_capabilities@, active_display_capability_is(t.display_capability, t.display_capability_generation))->0
}

/// The reference by which a cleanup names the target's display capability.
pub open spec fn display_capability_ref_of(t: DisplayCleanupTarget) -> ContractObjectRef {
    ContractObjectRef { kind: ContractObjectKind::DisplayCapability, id: t.display_capability, generation: t.display_capability_generation }
}

/// The reference by which a cleanup names the target's owner store.
pub open spec fn store_ref_of(t: DisplayCleanupTarget) -> ContractObjectRef {
    ContractObjectRef { kind: ContractObjectKind::Store, id: t.owner_store, generation: t.owner_store_generation }
}

/// The reference by which a cleanup names the revoked ledger entry of the target's capability.
pub open spec fn revoked_capability_ref_of(g: SemanticGraph, t: DisplayCleanupTarget) -> ContractObjectRef {
    let dc = g.display_capabilities@[target_capability_index(g, t)];
    let k = first_match(g.capabilities@, capability_id_is(dc.capability))->0;
    ContractObjectRef { kind: ContractObjectKind::Capability, id: dc.capability, generation: g.capabilities@[k].generation }
}

/// `new` is `old` with the target's display capability revoked, in the display table and in
/// the ledger, and the ledger revocation logged.
pub open spec fn revoked_target_capability(old: SemanticGraph, new: SemanticGraph, t: DisplayCleanupTarget) -> bool {
    let c = target_capability_index(old, t);
    let dc = old.display_capabilities@[c];
    &&& new.agrees_except(&old, set![Table::EventLog, Table::Capabilities, Table::DisplayCapabilities])
    &&& new.display_capabilities@ == old.display_capabilities@.update(c,
        DisplayCapabilityRecord { state: DisplayCapabilityState::Revoked, ..dc })
    &&& new.capabilities@ == ledger_with_revoked(old.capabilities@, dc.capability)
    &&& appended_event(old.event_log, new.event_log, EventDomain::Capability,
        EventKind::CapabilityRevoked { cap: dc.capability })
}

impl SemanticGraph {
    /// Unmaps every active mapping held under `t`; returns their references in table order.
    fn unmap_target_mappings(&mut self, t: &DisplayCleanupTarget) -> (refs: Vec<ContractObjectRef>)
        ensures
            final(self).agrees_except(&old(self), set![Table::FramebufferMappings]),
            final(self).framebuffer_mappings@ == unmapped_under(old(self).framebuffer_mappings@, *t),
            refs@ == target_mapping_refs(old(self).framebuffer_mappings@, *t),
    {
        let ghost orig = self.framebuffer_mappings@;
        let mut refs: Vec<ContractObjectRef> = Vec::new();
        let mut i: usize = 0;
        while i < self.framebuffer_mappings.len()
            invariant
                self.agrees_except(&old(self), set![Table::FramebufferMappings]),
                orig == old(self).framebuffer_mappings@,
                self.framebuffer_mappings@.len() == orig.len(),
                i <= orig.len(),
                forall|j: int| 0 <= j < i ==> self.framebuffer_mappings@[j] == #[trigger] unmapped_under(orig, *t)[j],
                forall|j: int| i <= j < orig.len() ==> #[trigger] self.framebuffer_mappings@[j] == orig[j],
                refs@ == target_mapping_refs(orig.take(i as int), *t),
            decreases orig.len() - i,
        {
            proof {
                assert(orig.take(i as int + 1).drop_last() =~= orig.take(i as int));
                assert(orig.take(i as int + 1).last() == orig[i as int]);
            }
            if holds_mapping(&self.framebuffer_mappings[i], t) {
                let r = ContractObjectRef::new(ContractObjectKind::FramebufferMapping,
                    self.framebuffer_mappings[i].id, self.framebuffer_mappings[i].generation);
                self.framebuffer_mappings[i].state = FramebufferMappingState::Unmapped;
                refs.push(r);
            }
            i += 1;
        }
        proof {
            assert(orig.take(orig.len() as int) =~= orig);
            assert(self.framebuffer_mappings@ =~= unmapped_under(orig, *t));
        }
        refs
    }

    /// Releases every active lease held under `t`; returns their references in table order.
    fn release_target_leases(&mut self, t: &DisplayCleanupTarget) -> (refs: Vec<ContractObjectRef>)
        ensures
            final(self).agrees_except(&old(self), set![Table::FramebufferWindowLeases]),
            final(self).framebuffer_window_leases@ == released_under(old(self).framebuffer_window_leases@, *t),
            refs@ == target_lease_refs(old(self).framebuffer_window_leases@, *t),
    {
        let ghost orig = self.framebuffer_window_leases@;
        let mut refs: Vec<ContractObjectRef> = Vec::new();
        let mut i: usize = 0;
        while i < self.framebuffer_window_leases.len()
            invariant
                self.agrees_except(&old(self), set![Table::FramebufferWindowLeases]),
                orig == old(self).framebuffer_window_leases@,
                self.framebuffer_window_leases@.len() == orig.len(),
                i <= orig.len(),
                forall|j: int| 0 <= j < i ==> self.framebuffer_window_leases@[j] == #[trigger] released_under(orig, *t)[j],
                forall|j: int| i <= j < orig.len() ==> #[trigger] self.framebuffer_window_leases@[j] == orig[j],
                refs@ == target_lease_refs(orig.take(i as int), *t),
            decreases orig.len() - i,
        {
            proof {
                assert(orig.take(i as int + 1).drop_last() =~= orig.take(i as int));
                assert(orig.take(i as int + 1).last() == orig[i as int]);
            }
            if holds_lease(&self.framebuffer_window_leases[i], t) {
                let r = ContractObjectRef::new(ContractObjectKind::FramebufferWindowLease,
                    self.framebuffer_window_leases[i].id, self.framebuffer_window_leases[i].generation);
                self.framebuffer_window_leases[i].state = FramebufferWindowLeaseState::Released;
                refs.push(r);
            }
            i += 1;
        }
        proof {
            assert(orig.take(orig.len() as int) =~= orig);
            assert(self.framebuffer_window_leases@ =~= released_under(orig, *t));
        }
        refs
    }

    /// Revokes the target's active display capability and its ledger entry, if the ledger
    /// entry is live at the recorded generation; returns the references of what it revoked.
    fn revoke_target_display_capability(&mut self, t: &DisplayCleanupTarget)
        -> (revoked: (Vec<ContractObjectRef>, Vec<ContractObjectRef>))
        requires
            old(self).event_log.next_event_id < u64::MAX,
        ensures
            !cleanup_revokes(*old(self), *t) ==> {
                &&& *final(self) == *old(self)
                &&& revoked.0@ == Seq::<ContractObjectRef>::empty()
                &&& revoked.1@ == Seq::<ContractObjectRef>::empty()
            },
            cleanup_revokes(*old(self), *t) ==> {
                &&& revoked_target_capability(*old(self), *final(self), *t)
                &&& revoked.0@ == seq![display_capability_ref_of(*t)]
                &&& revoked.1@ == seq![revoked_capability_ref_of(*old(self), *t)]
            },
    {
        let mut dcs: Vec<ContractObjectRef> = Vec::new();
        let mut caps: Vec<ContractObjectRef> = Vec::new();
        let Some(index) = self.find_active_display_capability(t.display_capability, t.display_capability_generation) else {
            return (dcs, caps);
        };
        let capability = self.display_capabilities[index].capability;
        let capability_generation = self.display_capabilities[index].capability_generation;
        if !self.revoke_capability_generation(capability, capability_generation) {
            return (dcs, caps);
        }
        let ghost mid = *self;
        proof {
            lemma_revoke_keeps_lookup(old(self).capabilities@, capability, capability);
        }
        let revoked_generation = match self.find_capability(capability) {
            Some(k) => self.capabilities[k].generation,
            None => capability_generation,
        };
        self.display_capabilities[index].state = DisplayCapabilityState::Revoked;
        proof {
            let dc = old(self).display_capabilities@[index as int];
            assert(self.display_capabilities@ =~= old(self).display_capabilities@.update(index as int,
                DisplayCapabilityRecord { state: DisplayCapabilityState::Revoked, ..dc }));
            let k = first_match(old(self).capabilities@, capability_id_is(capability))->0;
            assert(mid.capabilities@[k].generation == old(self).capabilities@[k].generation);
        }
        dcs.push(ContractObjectRef::new(ContractObjectKind::DisplayCapability, t.display_capability,
            t.display_capability_generation));
        caps.push(ContractObjectRef::new(ContractObjectKind::Capability, capability, revoked_generation));
        (dcs, caps)
    }
}


/// The target named by the arguments of a cleanup request.
pub open spec fn target_of(
    owner_store: StoreId,
    owner_store_generation: Generation,
    display_capability: DisplayCapabilityId,
    display_capability_generation: Generation,
    display: DisplayObjectId,
    display_generation: Generation,
    framebuffer: FramebufferObjectId,
    framebuffer_generation: Generation,
) -> DisplayCleanupTarget {
    DisplayCleanupTarget {
        owner_store,
        owner_store_generation,
        display_capability,
        display_capability_generation,
        display,
        display_generation,
        framebuffer,
        framebuffer_generation,
    }
}

/// `Done` when a step found something to act on, else `SkippedNotPresent`.
pub open spec fn step_status(empty: bool) -> DisplayCleanupStepStatus {
    if empty { DisplayCleanupStepStatus::SkippedNotPresent } else { DisplayCleanupStepStatus::Done }
}

/// The three steps a cleanup of `t` records.
pub open spec fn cleanup_steps(
    t: DisplayCleanupTarget,
    no_mappings: bool,
    no_leases: bool,
    revoked: bool,
    unmap_event: EventId,
    revoke_event: EventId,
) -> Seq<DisplayCleanupStepRecord> {
    let dref = display_capability_ref_of(t);
    seq![
        DisplayCleanupStepRecord {
            kind: DisplayCleanupStepKind::UnmapFramebufferMappings,
            target: dref,
            observed_generation: t.display_capability_generation,
            status: step_status(no_mappings),
            event: Some(unmap_event),
        },
        DisplayCleanupStepRecord {
            kind: DisplayCleanupStepKind::ReleaseFramebufferWindowLeases,
            target: dref,
            observed_generation: t.display_capability_generation,
            status: step_status(no_leases),
            event: Some(unmap_event),
        },
        DisplayCleanupStepRecord {
            kind: DisplayCleanupStepKind::RevokeDisplayCapabilities,
            target: store_ref_of(t),
            observed_generation: t.owner_store_generation,
            status: step_status(!revoked),
            event: Some(revoke_event),
        },
    ]
}

/// Event `e` has this id, domain and kind, and no text.
pub open spec fn logged_as(e: Event, id: EventId, domain: EventDomain, kind: EventKind) -> bool {
    e.id == id && e.domain == domain && e.kind == kind && e.labels@.len() == 0
}

/// `new` is `old` after cleaning up the display target `t` under id `cleanup`: the start is
/// logged; every active mapping and lease held under `t` is unmapped or released; the
/// target's display capability and its ledger entry are revoked where `cleanup_revokes`
/// holds, and the revocation logged; the completion is logged; and the completed cleanup
/// record, with its effects and steps, is appended.
pub open spec fn cleaned_display(
    old: SemanticGraph,
    new: SemanticGraph,
    cleanup: DisplayCleanupId,
    t: DisplayCleanupTarget,
    reason: Seq<char>,
    note: Seq<char>,
) -> bool {
    let n = old.event_log.next_event_id;
    let rv = cleanup_revokes(old, t);
    let unmapped = target_mapping_refs(old.framebuffer_mappings@, t);
    let released = target_lease_refs(old.framebuffer_window_leases@, t);
    let revoke_event: EventId = if rv { (n + 1) as u64 } else { n };
    let c = target_capability_index(old, t);
    let dc = old.display_capabilities@[c];
    let r = new.display_cleanups@.last();
    let oe = old.event_log.events@;
    let ne = new.event_log.events@;
    &&& n < u64::MAX - 3
    &&& new.agrees_except(&old, set![Table::EventLog, Table::FramebufferMappings, Table::FramebufferWindowLeases,
        Table::DisplayCapabilities, Table::Capabilities, Table::DisplayCleanups])
    &&& new.framebuffer_mappings@ == unmapped_under(old.framebuffer_mappings@, t)
    &&& new.framebuffer_window_leases@ == released_under(old.framebuffer_window_leases@, t)
    &&& rv ==> new.display_capabilities@ == old.display_capabilities@.update(c,
            DisplayCapabilityRecord { state: DisplayCapabilityState::Revoked, ..dc })
    &&& rv ==> new.capabilities@ == ledger_with_revoked(old.capabilities@, dc.capability)
    &&& !rv ==> new.display_capabilities == old.display_capabilities && new.capabilities == old.capabilities
    &&& new.next_display_cleanup_id == max_u64(old.next_display_cleanup_id, (cleanup + 1) as u64)
    &&& appended_one(old.display_cleanups@, new.display_cleanups@)
    &&& r.id == cleanup && cleanup_target(r) == t && r.generation == 1
    &&& r.state == DisplayCleanupState::Completed && r.reason@ == reason && r.note@ == note
    &&& r.started_at_event == n && r.completed_at_event == revoke_event + 1
    &&& r.unmapped_framebuffer_mappings@ == unmapped
    &&& r.released_framebuffer_window_leases@ == released
    &&& r.revoked_display_capabilities@ == (if rv { seq![display_capability_ref_of(t)] } else { Seq::empty() })
    &&& r.revoked_capabilities@ == (if rv { seq![revoked_capability_ref_of(old, t)] } else { Seq::empty() })
    &&& r.steps@ == cleanup_steps(t, unmapped.len() == 0, released.len() == 0, rv, n, revoke_event)
    &&& new.event_log.next_event_id == revoke_event + 2
    &&& log_extends(oe, ne)
    &&& ne.len() == oe.len() + (if rv { 3int } else { 2int })
    &&& logged_as(ne[oe.len() as int], n, EventDomain::Display, cleanup_started_event(r))
    &&& rv ==> logged_as(ne[oe.len() + 1int], (n + 1) as u64, EventDomain::Capability,
            EventKind::CapabilityRevoked { cap: dc.capability })
    &&& logged_as(ne.last(), (revoke_event + 1) as u64, EventDomain::Display, cleanup_completed_event(r))
}

impl SemanticGraph {
    /// Cleans up a store's display: unmaps its framebuffer mappings, releases its window
    /// leases and revokes its display capability, then records the completed cleanup.
    /// Returns false when the request is refused; a target already cleaned up under this id
    /// is accepted again with nothing changed; otherwise returns whether the graph still
    /// passes its audit.
    pub fn cleanup_display_for_store_with_id(
        &mut self,
        cleanup: DisplayCleanupId,
        owner_store: StoreId,
        owner_store_generation: Generation,
        display_capability: DisplayCapabilityId,
        display_capability_generation: Generation,
        display: DisplayObjectId,
        display_generation: Generation,
        framebuffer: FramebufferObjectId,
        framebuffer_generation: Generation,
        reason: &str,
        note: &str,
    ) -> (ok: bool)
        requires
            old(self).event_log.next_event_id < u64::MAX - 3,
            cleanup < u64::MAX,
        ensures
            ({
                let t = target_of(owner_store, owner_store_generation, display_capability,
                    display_capability_generation, display, display_generation, framebuffer, framebuffer_generation);
                let verdict = old(self).display_cleanup_verdict(cleanup, t, reason@);
                let done = any_match(old(self).display_cleanups@, completed_cleanup_as(cleanup, t));
                &&& verdict is Err ==> !ok && *final(self) == *old(self)
                &&& verdict is Ok && done ==> ok && *final(self) == *old(self)
                &&& verdict is Ok && !done ==> cleaned_display(*old(self), *final(self), cleanup, t, reason@, note@)
                    && ok == (final(self).graph_audit() is Ok)
            }),
    {
        let t = DisplayCleanupTarget {
            owner_store,
            owner_store_generation,
            display_capability,
            display_capability_generation,
            display,
            display_generation,
            framebuffer,
            framebuffer_generation,
        };
        if self.validate_display_cleanup(cleanup, &t, reason).is_err() {
            return false;
        }
        if exists_match(
            &self.display_cleanups,
            |x: &DisplayCleanupRecord| -> (b: bool)
                ensures b == completed_cleanup_as(cleanup, t)(*x)
            { x.id == cleanup && x.target() == t && x.state == DisplayCleanupState::Completed },
            Ghost(completed_cleanup_as(cleanup, t)),
        ) {
            return true;
        }
        let ghost g0 = *self;
        let generation: u64 = 1;
        self.next_display_cleanup_id = max_of(self.next_display_cleanup_id, cleanup + 1);
        let started_at_event = self.event_log.push(
            EventDomain::Display,
            EventKind::DisplayCleanupStarted {
                cleanup,
                owner_store,
                owner_store_generation,
                display_capability,
                display_capability_generation,
                display,
                display_generation,
                framebuffer,
                framebuffer_generation,
                generation,
            },
        );
        let ghost g1 = *self;
        let unmapped_framebuffer_mappings = self.unmap_target_mappings(&t);
        let unmap_event = self.event_log.cursor();
        let ghost g2 = *self;
        let released_framebuffer_window_leases = self.release_target_leases(&t);
        let release_event = self.event_log.cursor();
        let ghost g3 = *self;
        proof {
            assert(cleanup_revokes(g3, t) == cleanup_revokes(g0, t));
        }
        let (revoked_display_capabilities, revoked_capabilities) = self.revoke_target_display_capability(&t);
        let revoke_event = self.event_log.cursor();
        let ghost g4 = *self;
        let display_capability_ref = ContractObjectRef::new(ContractObjectKind::DisplayCapability,
            display_capability, display_capability_generation);
        let store_ref = ContractObjectRef::new(ContractObjectKind::Store, owner_store, owner_store_generation);
        let unmap_status = if unmapped_framebuffer_mappings.len() == 0 {
            DisplayCleanupStepStatus::SkippedNotPresent
        } else {
            DisplayCleanupStepStatus::Done
        };
        let release_status = if released_framebuffer_window_leases.len() == 0 {
            DisplayCleanupStepStatus::SkippedNotPresent
        } else {
            DisplayCleanupStepStatus::Done
        };
        let revoke_status = if revoked_display_capabilities.len() == 0 {
            DisplayCleanupStepStatus::SkippedNotPresent
        } else {
            DisplayCleanupStepStatus::Done
        };
        let steps = vec![
            DisplayCleanupStepRecord {
                kind: DisplayCleanupStepKind::UnmapFramebufferMappings,
                target: display_capability_ref,
                observed_generation: display_capability_generation,
                status: unmap_status,
                event: Some(unmap_event),
            },
            DisplayCleanupStepRecord {
                kind: DisplayCleanupStepKind::ReleaseFramebufferWindowLeases,
                target: display_capability_ref,
                observed_generation: display_capability_generation,
                status: release_status,
                event: Some(release_event),
            },
            DisplayCleanupStepRecord {
                kind: DisplayCleanupStepKind::RevokeDisplayCapabilities,
                target: store_ref,
                observed_generation: owner_store_generation,
                status: revoke_status,
                event: Some(revoke_event),
            },
        ];
        let completed_at_event = self.event_log.push(
            EventDomain::Display,
            EventKind::DisplayCleanupCompleted {
                cleanup,
                owner_store,
                owner_store_generation,
                display_capability,
                display_capability_generation,
                display,
                display_generation,
                framebuffer,
                framebuffer_generation,
                unmapped_framebuffer_mappings: unmapped_framebuffer_mappings.len(),
                released_framebuffer_window_leases: released_framebuffer_window_leases.len(),
                revoked_display_capabilities: revoked_display_capabilities.len(),
                generation,
            },
        );
        let ghost g5 = *self;
        self.display_cleanups.push(DisplayCleanupRecord {
            id: cleanup,
            owner_store,
            owner_store_generation,
            display_capability,
            display_capability_generation,
            display,
            display_generation,
            framebuffer,
            framebuffer_generation,
            generation,
            state: DisplayCleanupState::Completed,
            reason: reason.to_owned(),
            started_at_event,
            completed_at_event,
            unmapped_framebuffer_mappings,
            released_framebuffer_window_leases,
            revoked_display_capabilities,
            revoked_capabilities,
            steps,
            note: note.to_owned(),
        });
        proof {
            assert(self.display_cleanups@.subrange(0, g0.display_cleanups@.len() as int) =~= g0.display_cleanups@);
            let r = self.display_cleanups@.last();
            assert(r.steps@ =~= cleanup_steps(t, r.unmapped_framebuffer_mappings@.len() == 0,
                r.released_framebuffer_window_leases@.len() == 0, cleanup_revokes(g0, t),
                g0.event_log.next_event_id, revoke_event));
            assert(cleaned_display(g0, *self, cleanup, t, reason@, note@));
        }
        self.check_invariants().is_ok()
    }

    pub fn display_cleanups(&self) -> (r: &[DisplayCleanupRecord])
        ensures
            r@ == self.display_cleanups@,
    {
        self.display_cleanups.as_slice()
    }

    pub fn display_cleanup_count(&self) -> (r: usize)
        ensures
            r == self.display_cleanups@.len(),
    {
        self.display_cleanups.len()
    }
}


impl SemanticGraph {
    fn has_unmapped_mapping(&self, target: &ContractObjectRef) -> (b: bool)
        ensures
            b == any_match(self.framebuffer_mappings@, unmapped_mapping_is(*target)),
    {
        let tt = *target;
        exists_match(
            &self.framebuffer_mappings,
            |x: &FramebufferMappingRecord| -> (b: bool)
                ensures b == unmapped_mapping_is(tt)(*x)
            { x.id == tt.id && x.generation == tt.generation && x.state == FramebufferMappingState::Unmapped },
            Ghost(unmapped_mapping_is(tt)),
        )
    }

    fn has_released_lease(&self, target: &ContractObjectRef) -> (b: bool)
        ensures
            b == any_match(self.framebuffer_window_leases@, released_lease_is(*target)),
    {
        let tt = *target;
        exists_match(
            &self.framebuffer_window_leases,
            |x: &FramebufferWindowLeaseRecord| -> (b: bool)
                ensures b == released_lease_is(tt)(*x)
            { x.id == tt.id && x.generation == tt.generation && x.state == FramebufferWindowLeaseState::Released },
            Ghost(released_lease_is(tt)),
        )
    }

    fn has_revoked_display_capability(&self, target: &ContractObjectRef) -> (b: bool)
        ensures
            b == any_match(self.display_capabilities@, revoked_display_capability_is(*target)),
    {
        let tt = *target;
        exists_match(
            &self.display_capabilities,
            |x: &DisplayCapabilityRecord| -> (b: bool)
                ensures b == revoked_display_capability_is(tt)(*x)
            { x.id == tt.id && x.generation == tt.generation && x.state == DisplayCapabilityState::Revoked },
            Ghost(revoked_display_capability_is(tt)),
        )
    }

    fn capability_effect_fault_of(&self, cleanup: DisplayCleanupId, c: &ContractObjectRef) -> (f: Option<SemanticInvariantError>)
        ensures
            f == self.capability_effect_fault(cleanup, *c),
    {
        let Some(k) = self.find_capability(c.id) else {
            return Some(SemanticInvariantError::DisplayCleanupMissingEffectTarget { cleanup, target: *c });
        };
        if !self.capabilities[k].revoked || self.capabilities[k].generation != c.generation {
            return Some(SemanticInvariantError::DisplayCleanupInvalid { cleanup });
        }
        None
    }

    fn cleanup_effects_fault_of(&self, r: &DisplayCleanupRecord) -> (f: Option<SemanticInvariantError>)
        ensures
            f == self.cleanup_effects_fault(*r),
    {
        if let Some(i) = find_first(
            &r.unmapped_framebuffer_mappings,
            |x: &ContractObjectRef| -> (b: bool)
                ensures b == self.mapping_effect_missing()(*x)
            { !self.has_unmapped_mapping(x) },
            Ghost(self.mapping_effect_missing()),
        ) {
            return Some(SemanticInvariantError::DisplayCleanupMissingEffectTarget {
                cleanup: r.id,
                target: r.unmapped_framebuffer_mappings[i],
            });
        }
        if let Some(i) = find_first(
            &r.released_framebuffer_window_leases,
            |x: &ContractObjectRef| -> (b: bool)
                ensures b == self.lease_effect_missing()(*x)
            { !self.has_released_lease(x) },
            Ghost(self.lease_effect_missing()),
        ) {
            return Some(SemanticInvariantError::DisplayCleanupMissingEffectTarget {
                cleanup: r.id,
                target: r.released_framebuffer_window_leases[i],
            });
        }
        if let Some(i) = find_first(
            &r.revoked_display_capabilities,
            |x: &ContractObjectRef| -> (b: bool)
                ensures b == self.display_capability_effect_missing()(*x)
            { !self.has_revoked_display_capability(x) },
            Ghost(self.display_capability_effect_missing()),
        ) {
            return Some(SemanticInvariantError::DisplayCleanupMissingEffectTarget {
                cleanup: r.id,
                target: r.revoked_display_capabilities[i],
            });
        }
        let ghost revoked = r.revoked_capabilities@;
        let ghost faults = Seq::new(revoked.len(), |i: int| self.capability_effect_fault(r.id, revoked[i]));
        let mut i: usize = 0;
        while i < r.revoked_capabilities.len()
            invariant
                i <= revoked.len(),
                revoked == r.revoked_capabilities@,
                faults == Seq::new(revoked.len(), |i: int| self.capability_effect_fault(r.id, revoked[i])),
                first_match(r.unmapped_framebuffer_mappings@, self.mapping_effect_missing()) is None,
                first_match(r.released_framebuffer_window_leases@, self.lease_effect_missing()) is None,
                first_match(r.revoked_display_capabilities@, self.display_capability_effect_missing()) is None,
                forall|j: int| 0 <= j < i ==> (#[trigger] faults[j]) is None,
            decreases revoked.len() - i,
        {
            if let Some(e) = self.capability_effect_fault_of(r.id, &r.revoked_capabilities[i]) {
                proof { lemma_first_failure_at(faults, i as int); }
                return Some(e);
            }
            i += 1;
        }
        proof { lemma_first_failure_ok(faults); }
        None
    }
}

fn step_ok(s: &DisplayCleanupStepRecord, r: &DisplayCleanupRecord, i: usize) -> (b: bool)
    requires
        i < 3,
    ensures
        b == step_matches(*s, *r, i as int),
{
    let (kind, target_kind, target_id, target_generation, empty) = if i == 0 {
        (DisplayCleanupStepKind::UnmapFramebufferMappings, ContractObjectKind::DisplayCapability,
            r.display_capability, r.display_capability_generation, r.unmapped_framebuffer_mappings.len() == 0)
    } else if i == 1 {
        (DisplayCleanupStepKind::ReleaseFramebufferWindowLeases, ContractObjectKind::DisplayCapability,
            r.display_capability, r.display_capability_generation, r.released_framebuffer_window_leases.len() == 0)
    } else {
        (DisplayCleanupStepKind::RevokeDisplayCapabilities, ContractObjectKind::Store,
            r.owner_store, r.owner_store_generation, r.revoked_display_capabilities.len() == 0)
    };
    let expected_status = if empty {
        DisplayCleanupStepStatus::SkippedNotPresent
    } else {
        DisplayCleanupStepStatus::Done
    };
    let event_ok = match s.event {
        Some(e) => e != 0,
        None => false,
    };
    s.kind == kind && s.target.kind == target_kind && s.target.id == target_id
        && s.target.generation == target_generation && s.observed_generation == target_generation
        && s.status == expected_status && event_ok
}

fn steps_ok(r: &DisplayCleanupRecord) -> (b: bool)
    ensures
        b == !(r.steps@.len() != 3 || exists|i: int| 0 <= i < 3 && !step_matches(#[trigger] r.steps@[i], *r, i)),
{
    if r.steps.len() != 3 {
        return false;
    }
    let mut i: usize = 0;
    while i < 3
        invariant
            r.steps@.len() == 3,
            i <= 3,
            forall|j: int| 0 <= j < i ==> step_matches(#[trigger] r.steps@[j], *r, j),
        decreases 3 - i,
    {
        if !step_ok(&r.steps[i], r, i) {
            return false;
        }
        i += 1;
    }
    true
}

impl SemanticGraph {
    fn display_cleanup_fault_of(&self, r: &DisplayCleanupRecord) -> (f: Option<SemanticInvariantError>)
        ensures
            f == self.display_cleanup_fault(*r),
    {
        let invalid = SemanticInvariantError::DisplayCleanupInvalid { cleanup: r.id };
        if r.id == 0 || r.generation == 0 || r.owner_store_generation == 0 || r.display_capability_generation == 0
            || r.display_generation == 0 || r.framebuffer_generation == 0 || r.reason.unicode_len() == 0
            || r.state != DisplayCleanupState::Completed {
            return Some(invalid);
        }
        if self.find_store(r.owner_store, r.owner_store_generation).is_none() {
            return Some(SemanticInvariantError::DisplayCleanupMissingStore { cleanup: r.id, store: r.owner_store });
        }
        let (cid, cgen) = (r.display_capability, r.display_capability_generation);
        let Some(c) = find_first(
            &self.display_capabilities,
            |x: &DisplayCapabilityRecord| -> (b: bool)
                ensures b == display_capability_is(cid, cgen)(*x)
            { x.id == cid && x.generation == cgen },
            Ghost(display_capability_is(cid, cgen)),
        ) else {
            return Some(SemanticInvariantError::DisplayCleanupMissingDisplayCapability {
                cleanup: r.id,
                display_capability: r.display_capability,
            });
        };
        let dc = &self.display_capabilities[c];
        if dc.state != DisplayCapabilityState::Revoked || dc.owner_store != r.owner_store
            || dc.owner_store_generation != r.owner_store_generation || dc.display != r.display
            || dc.display_generation != r.display_generation || dc.framebuffer != r.framebuffer
            || dc.framebuffer_generation != r.framebuffer_generation {
            return Some(invalid);
        }
        let effects = self.cleanup_effects_fault_of(r);
        if effects.is_some() {
            return effects;
        }
        if !steps_ok(r) {
            return Some(invalid);
        }
        let started = EventKind::DisplayCleanupStarted {
            cleanup: r.id,
            owner_store: r.owner_store,
            owner_store_generation: r.owner_store_generation,
            display_capability: r.display_capability,
            display_capability_generation: r.display_capability_generation,
            display: r.display,
            display_generation: r.display_generation,
            framebuffer: r.framebuffer,
            framebuffer_generation: r.framebuffer_generation,
            generation: r.generation,
        };
        let completed = EventKind::DisplayCleanupCompleted {
            cleanup: r.id,
            owner_store: r.owner_store,
            owner_store_generation: r.owner_store_generation,
            display_capability: r.display_capability,
            display_capability_generation: r.display_capability_generation,
            display: r.display,
            display_generation: r.display_generation,
            framebuffer: r.framebuffer,
            framebuffer_generation: r.framebuffer_generation,
            unmapped_framebuffer_mappings: r.unmapped_framebuffer_mappings.len(),
            released_framebuffer_window_leases: r.released_framebuffer_window_leases.len(),
            revoked_display_capabilities: r.revoked_display_capabilities.len(),
            generation: r.generation,
        };
        if !self.event_log.has_event(r.started_at_event, started)
            || !self.event_log.has_event(r.completed_at_event, completed) {
            return Some(SemanticInvariantError::DisplayCleanupMissingEvent { cleanup: r.id });
        }
        None
    }

    /// Audits every display cleanup; the first fault found is returned.
    pub fn check_display_cleanup_invariants(&self) -> (r: Result<(), SemanticInvariantError>)
        ensures
            r == self.display_cleanup_audit(),
    {
        let ghost faults = Seq::new(self.display_cleanups@.len(), |i: int| self.display_cleanup_fault(self.display_cleanups@[i]));
        let mut i: usize = 0;
        while i < self.display_cleanups.len()
            invariant
                i <= self.display_cleanups@.len(),
                faults == Seq::new(self.display_cleanups@.len(), |i: int| self.display_cleanup_fault(self.display_cleanups@[i])),
                forall|j: int| 0 <= j < i ==> (#[trigger] faults[j]) is None,
            decreases self.display_cleanups@.len() - i,
        {
            if let Some(e) = self.display_cleanup_fault_of(&self.display_cleanups[i]) {
                proof { lemma_first_failure_at(faults, i as int); }
                return Err(e);
            }
            i += 1;
        }
        proof { lemma_first_failure_ok(faults); }
        Ok(())
    }
}


/// Cleaning up a display target twice under the same id is harmless: once a cleanup has
/// been recorded, the same request is accepted again and, being already done, changes
/// nothing (see `cleanup_display_for_store_with_id`).
pub proof fn lemma_display_cleanup_repeat_is_accepted(
    old: SemanticGraph,
    new: SemanticGraph,
    cleanup: DisplayCleanupId,
    t: DisplayCleanupTarget,
    reason: Seq<char>,
    note: Seq<char>,
)
    requires
        old.display_cleanup_verdict(cleanup, t, reason) is Ok,
        cleaned_display(old, new, cleanup, t, reason, note),
    ensures
        new.display_cleanup_verdict(cleanup, t, reason) is Ok,
        any_match(new.display_cleanups@, completed_cleanup_as(cleanup, t)),
{
    let last = new.display_cleanups@.len() - 1;
    let r = new.display_cleanups@[last];
    assert(completed_cleanup_as(cleanup, t)(r));
    assert(completed_cleanup_of(t)(r));
    assert forall|i: int| 0 <= i < new.display_cleanups@.len()
        implies !cleanup_id_for_other_target(cleanup, t)(#[trigger] new.display_cleanups@[i]) by {
        if i < last {
            assert(new.display_cleanups@[i] == new.display_cleanups@.subrange(0, old.display_cleanups@.len() as int)[i]);
            assert(!cleanup_id_for_other_target(cleanup, t)(old.display_cleanups@[i]));
        }
    }
}


/// After a display cleanup nothing is left mapped or leased under its target, and every
/// mapping and lease it lists was held under the target before.
pub proof fn lemma_cleanup_leaves_nothing_held(
    old: SemanticGraph,
    new: SemanticGraph,
    cleanup: DisplayCleanupId,
    t: DisplayCleanupTarget,
    reason: Seq<char>,
    note: Seq<char>,
)
    requires
        cleaned_display(old, new, cleanup, t, reason, note),
    ensures
        forall|i: int| 0 <= i < new.framebuffer_mappings@.len()
            ==> !mapping_in_target(#[trigger] new.framebuffer_mappings@[i], t),
        forall|i: int| 0 <= i < new.framebuffer_window_leases@.len()
            ==> !lease_in_target(#[trigger] new.framebuffer_window_leases@[i], t),
        forall|j: int| 0 <= j < new.display_cleanups@.last().unmapped_framebuffer_mappings@.len()
            ==> exists|i: int| 0 <= i < old.framebuffer_mappings@.len()
                && mapping_in_target(old.framebuffer_mappings@[i], t)
                && #[trigger] new.display_cleanups@.last().unmapped_framebuffer_mappings@[j] == mapping_ref(old.framebuffer_mappings@[i]),
        forall|j: int| 0 <= j < new.display_cleanups@.last().released_framebuffer_window_leases@.len()
            ==> exists|i: int| 0 <= i < old.framebuffer_window_leases@.len()
                && lease_in_target(old.framebuffer_window_leases@[i], t)
                && #[trigger] new.display_cleanups@.last().released_framebuffer_window_leases@[j] == lease_ref(old.framebuffer_window_leases@[i]),
{
    lemma_target_mapping_refs_held(old.framebuffer_mappings@, t);
    lemma_target_lease_refs_held(old.framebuffer_window_leases@, t);
}

proof fn lemma_target_mapping_refs_held(s: Seq<FramebufferMappingRecord>, t: DisplayCleanupTarget)
    ensures
        forall|j: int| 0 <= j < target_mapping_refs(s, t).len()
            ==> exists|i: int| 0 <= i < s.len() && mapping_in_target(s[i], t)
                && #[trigger] target_mapping_refs(s, t)[j] == mapping_ref(s[i]),
    decreases s.len(),
{
    if s.len() > 0 {
        let d = s.drop_last();
        lemma_target_mapping_refs_held(d, t);
        assert forall|j: int| 0 <= j < target_mapping_refs(s, t).len()
            implies exists|i: int| 0 <= i < s.len() && mapping_in_target(s[i], t)
                && #[trigger] target_mapping_refs(s, t)[j] == mapping_ref(s[i]) by {
            if j < target_mapping_refs(d, t).len() {
                let i = choose|i: int| 0 <= i < d.len() && mapping_in_target(d[i], t)
                    && #[trigger] target_mapping_refs(d, t)[j] == mapping_ref(d[i]);
                assert(s[i] == d[i]);
            } else {
                assert(s[s.len() - 1] == s.last());
            }
        }
    }
}

proof fn lemma_target_lease_refs_held(s: Seq<FramebufferWindowLeaseRecord>, t: DisplayCleanupTarget)
    ensures
        forall|j: int| 0 <= j < target_lease_refs(s, t).len()
            ==> exists|i: int| 0 <= i < s.len() && lease_in_target(s[i], t)
                && #[trigger] target_lease_refs(s, t)[j] == lease_ref(s[i]),
    decreases s.len(),
{
    if s.len() > 0 {
        let d = s.drop_last();
        lemma_target_lease_refs_held(d, t);
        assert forall|j: int| 0 <= j < target_lease_refs(s, t).len()
            implies exists|i: int| 0 <= i < s.len() && lease_in_target(s[i], t)
                && #[trigger] target_lease_refs(s, t)[j] == lease_ref(s[i]) by {
            if j < target_lease_refs(d, t).len() {
                let i = choose|i: int| 0 <= i < d.len() && lease_in_target(d[i], t)
                    && #[trigger] target_lease_refs(d, t)[j] == lease_ref(d[i]);
                assert(s[i] == d[i]);
            } else {
                assert(s[s.len() - 1] == s.last());
            }
        }
    }
}

/// When a display cleanup is accepted (`validate_display_cleanup` accepts and
/// `cleanup_display_for_store_with_id` cleans up exactly then), its id is nonzero, a reason is
/// given, the target's generations are nonzero, and the id names no cleanup of another target.
/// Either that target was already cleaned up, or its owner store generation exists and is not
/// dead and an active display capability of the named generation binds exactly that store,
/// display and framebuffer generation, with a live ledger entry of its generation owned by that
/// store generation, and the display generation is registered on that framebuffer generation.
pub proof fn lemma_accepted_display_cleanup_is_authorized(
    g: SemanticGraph,
    cleanup: DisplayCleanupId,
    t: DisplayCleanupTarget,
    reason: Seq<char>,
)
    requires
        g.display_cleanup_verdict(cleanup, t, reason) is Ok,
    ensures
        cleanup != 0,
        reason.len() > 0,
        t.owner_store_generation != 0 && t.display_capability_generation != 0 && t.display_generation != 0
            && t.framebuffer_generation != 0,
        forall|i: int| 0 <= i < g.display_cleanups@.len() && (#[trigger] g.display_cleanups@[i]).id == cleanup
            ==> cleanup_target(g.display_cleanups@[i]) == t,
        (exists|i: int| 0 <= i < g.display_cleanups@.len() && cleanup_target(#[trigger] g.display_cleanups@[i]) == t
            && g.display_cleanups@[i].state == DisplayCleanupState::Completed)
        || {
            &&& exists|s: int| 0 <= s < g.stores@.len() && (#[trigger] g.stores@[s]).id == t.owner_store
                && g.stores@[s].generation == t.owner_store_generation && g.stores@[s].state != StoreState::Dead
            &&& exists|c: int, k: int| #![trigger g.display_capabilities@[c], g.capabilities@[k]]
                0 <= c < g.display_capabilities@.len() && 0 <= k < g.capabilities@.len() && {
                let dc = g.display_capabilities@[c];
                let cap = g.capabilities@[k];
                &&& dc.id == t.display_capability && dc.generation == t.display_capability_generation
                &&& dc.state == DisplayCapabilityState::Active
                &&& dc.owner_store == t.owner_store && dc.owner_store_generation == t.owner_store_generation
                &&& dc.display == t.display && dc.display_generation == t.display_generation
                &&& dc.framebuffer == t.framebuffer && dc.framebuffer_generation == t.framebuffer_generation
                &&& cap.id == dc.capability && cap.generation == dc.capability_generation && !cap.revoked
                &&& cap.owner_store == Some(t.owner_store) && cap.owner_store_generation == Some(t.owner_store_generation)
            }
            &&& exists|d: int| 0 <= d < g.display_objects@.len() && (#[trigger] g.display_objects@[d]).id == t.display
                && g.display_objects@[d].generation == t.display_generation
                && g.display_objects@[d].framebuffer == t.framebuffer
                && g.display_objects@[d].framebuffer_generation == t.framebuffer_generation
                && g.display_objects@[d].state == DisplayObjectState::Registered
        },
{
    assert forall|i: int| 0 <= i < g.display_cleanups@.len() && (#[trigger] g.display_cleanups@[i]).id == cleanup
        implies cleanup_target(g.display_cleanups@[i]) == t by {
        if cleanup_target(g.display_cleanups@[i]) != t {
            assert(cleanup_id_for_other_target(cleanup, t)(g.display_cleanups@[i]));
        }
    }
    if any_match(g.display_cleanups@, completed_cleanup_of(t)) {
        let i = choose|i: int| 0 <= i < g.display_cleanups@.len() && completed_cleanup_of(t)(#[trigger] g.display_cleanups@[i]);
        assert(completed_cleanup_of(t)(g.display_cleanups@[i]));
    } else {
        lemma_first_match_facts(g.stores@, store_is(t.owner_store, t.owner_store_generation));
        let s = first_match(g.stores@, store_is(t.owner_store, t.owner_store_generation))->0;
        assert(store_is(t.owner_store, t.owner_store_generation)(g.stores@[s]));
        lemma_first_match_facts(g.display_capabilities@, active_display_capability_is(t.display_capability,
            t.display_capability_generation));
        let c = first_match(g.display_capabilities@, active_display_capability_is(t.display_capability,
            t.display_capability_generation))->0;
        let dc = g.display_capabilities@[c];
        assert(active_display_capability_is(t.display_capability, t.display_capability_generation)(dc));
        lemma_first_match_facts(g.capabilities@, capability_id_is(dc.capability));
        let k = first_match(g.capabilities@, capability_id_is(dc.capability))->0;
        assert(capability_id_is(dc.capability)(g.capabilities@[k]));
        let d = choose|d: int| 0 <= d < g.display_objects@.len() && display_bound_to(t)(#[trigger] g.display_objects@[d]);
        assert(display_bound_to(t)(g.display_objects@[d]));
    }
}

} // verus!
