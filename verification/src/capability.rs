use vstd::prelude::*;
use crate::base::CapabilityRecord;
use crate::driver_store_binding::capability_id_is;
use crate::events::{appended_event, label_views, log_extends, EventDomain, EventKind};
use crate::graph::{SemanticGraph, Table};
use crate::search::{str_eq, find_first, first_match, is_first_match, lemma_first_match_at, lemma_first_match_facts, opt_index};
use crate::types::{AuthorityObjectRef, CapabilityId, Generation, HostcallClass, StoreId};

verus! {

/// The ledger entry of `cap` is live (not revoked).
pub open spec fn ledger_live(ledger: Seq<CapabilityRecord>, cap: CapabilityId) -> bool {
    match first_match(ledger, capability_id_is(cap)) {
        None => false,
        Some(k) => !ledger[k].revoked,
    }
}

/// The ledger entry of `cap` is live at exactly `generation`.
pub open spec fn ledger_revocable(ledger: Seq<CapabilityRecord>, cap: CapabilityId, generation: Generation) -> bool {
    match first_match(ledger, capability_id_is(cap)) {
        None => false,
        Some(k) => ledger[k].generation == generation && !ledger[k].revoked,
    }
}

/// `ledger` with the entry of `cap` marked revoked.
pub open spec fn ledger_with_revoked(ledger: Seq<CapabilityRecord>, cap: CapabilityId) -> Seq<CapabilityRecord> {
    let k = first_match(ledger, capability_id_is(cap))->0;
    ledger.update(k, CapabilityRecord { revoked: true, ..ledger[k] })
}

/// `new` is `old` with the ledger entry of `cap` revoked and the revocation logged under
/// `domain`.
pub open spec fn revoked_capability_in(old: SemanticGraph, new: SemanticGraph, cap: CapabilityId, domain: EventDomain) -> bool {
    &&& new.agrees_except(&old, set![Table::EventLog, Table::Capabilities])
    &&& new.capabilities@ == ledger_with_revoked(old.capabilities@, cap)
    &&& appended_event(old.event_log, new.event_log, domain, EventKind::CapabilityRevoked { cap })
}

/// `new` is `old` with the ledger entry of `cap` revoked and the revocation logged.
pub open spec fn revoked_capability(old: SemanticGraph, new: SemanticGraph, cap: CapabilityId) -> bool {
    revoked_capability_in(old, new, cap, EventDomain::Capability)
}

/// Number of live entries of the ledger.
pub open spec fn live_capability_count(ledger: Seq<CapabilityRecord>) -> nat
    decreases ledger.len(),
{
    if ledger.len() == 0 {
        0
    } else {
        live_capability_count(ledger.drop_last()) + if ledger.last().revoked { 0nat } else { 1nat }
    }
}

/// Revoking an entry keeps the position at which its id is first found.
pub proof fn lemma_revoke_keeps_lookup(ledger: Seq<CapabilityRecord>, cap: CapabilityId, other: CapabilityId)
    requires
        first_match(ledger, capability_id_is(cap)) is Some,
    ensures
        first_match(ledger_with_revoked(ledger, cap), capability_id_is(other)) == first_match(ledger, capability_id_is(other)),
        ledger_with_revoked(ledger, cap).len() == ledger.len(),
{
    let k = first_match(ledger, capability_id_is(cap))->0;
    let n = ledger_with_revoked(ledger, cap);
    lemma_first_match_facts(ledger, capability_id_is(other));
    lemma_first_match_facts(n, capability_id_is(other));
    assert forall|j: int| 0 <= j < ledger.len() implies #[trigger] n[j].id == ledger[j].id by {}
    match first_match(ledger, capability_id_is(other)) {
        Some(i) => {
            assert(is_first_match(n, capability_id_is(other), i)) by {
                assert forall|j: int| 0 <= j < i implies !capability_id_is(other)(#[trigger] n[j]) by {
                    assert(!capability_id_is(other)(ledger[j]));
                }
            }
            lemma_first_match_at(n, capability_id_is(other), i);
        },
        None => {
            if first_match(n, capability_id_is(other)) is Some {
                let i = first_match(n, capability_id_is(other))->0;
                assert(capability_id_is(other)(ledger[i]));
            }
        },
    }
}

impl SemanticGraph {
    pub(crate) fn find_capability(&self, id: CapabilityId) -> (r: Option<usize>)
        ensures
            opt_index(r) == first_match(self.capabilities@, capability_id_is(id)),
    {
        find_first(
            &self.capabilities,
            |x: &CapabilityRecord| -> (b: bool)
                ensures b == capability_id_is(id)(*x)
            { x.id == id },
            Ghost(capability_id_is(id)),
        )
    }

    fn revoke_ledger_entry(&mut self, k: usize, cap: CapabilityId, domain: EventDomain)
        requires
            first_match(old(self).capabilities@, capability_id_is(cap)) == Some(k as int),
            old(self).event_log.next_event_id < u64::MAX,
        ensures
            revoked_capability_in(*old(self), *final(self), cap, domain),
    {
        self.capabilities[k].revoked = true;
        proof {
            let c = old(self).capabilities@[k as int];
            assert(self.capabilities@ =~= old(self).capabilities@.update(k as int, CapabilityRecord { revoked: true, ..c }));
        }
        self.event_log.push(domain, EventKind::CapabilityRevoked { cap });
    }

    pub(crate) fn revoke_live_capability(&mut self, cap: CapabilityId, domain: EventDomain) -> (ok: bool)
        requires
            old(self).event_log.next_event_id < u64::MAX,
        ensures
            ok == ledger_live(old(self).capabilities@, cap),
            !ok ==> *final(self) == *old(self),
            ok ==> revoked_capability_in(*old(self), *final(self), cap, domain),
    {
        let Some(k) = self.find_capability(cap) else {
            return false;
        };
        if self.capabilities[k].revoked {
            return false;
        }
        self.revoke_ledger_entry(k, cap, domain);
        true
    }

    /// Revokes capability `cap` if its ledger entry is live; returns whether it did.
    pub fn revoke_capability(&mut self, cap: CapabilityId) -> (ok: bool)
        requires
            old(self).event_log.next_event_id < u64::MAX,
        ensures
            ok == ledger_live(old(self).capabilities@, cap),
            !ok ==> *final(self) == *old(self),
            ok ==> revoked_capability(*old(self), *final(self), cap),
    {
        self.revoke_live_capability(cap, EventDomain::Capability)
    }

    /// Revokes capability `cap` if its ledger entry is live at `generation`; returns whether
    /// it did.
    pub fn revoke_capability_generation(&mut self, cap: CapabilityId, generation: Generation) -> (ok: bool)
        requires
            old(self).event_log.next_event_id < u64::MAX,
        ensures
            ok == ledger_revocable(old(self).capabilities@, cap, generation),
            !ok ==> *final(self) == *old(self),
            ok ==> revoked_capability(*old(self), *final(self), cap),
    {
        let Some(k) = self.find_capability(cap) else {
            return false;
        };
        if self.capabilities[k].generation != generation || self.capabilities[k].revoked {
            return false;
        }
        self.revoke_ledger_entry(k, cap, EventDomain::Capability);
        true
    }

    /// Number of live capabilities in the ledger.
    pub fn capability_count(&self) -> (n: usize)
        ensures
            n == live_capability_count(self.capabilities@),
    {
        let mut n: usize = 0;
        let mut i: usize = 0;
        while i < self.capabilities.len()
            invariant
                i <= self.capabilities@.len(),
                n == live_capability_count(self.capabilities@.take(i as int)),
                n <= i,
            decreases self.capabilities@.len() - i,
        {
            proof {
                assert(self.capabilities@.take(i as int + 1).drop_last() =~= self.capabilities@.take(i as int));
            }
            if !self.capabilities[i].revoked {
                n = n + 1;
            }
            i += 1;
        }
        proof {
            assert(self.capabilities@.take(i as int) =~= self.capabilities@);
        }
        n
    }
}


/// The entry is live and held by `subject`.
pub open spec fn held_live_by(r: CapabilityRecord, subject: Seq<char>) -> bool {
    r.subject@ == subject && !r.revoked
}

/// The ids of the live entries of `ledger` held by `subject`, in ledger order.
pub open spec fn live_ids_of(ledger: Seq<CapabilityRecord>, subject: Seq<char>) -> Seq<CapabilityId>
    decreases ledger.len(),
{
    if ledger.len() == 0 {
        Seq::empty()
    } else if held_live_by(ledger.last(), subject) {
        live_ids_of(ledger.drop_last(), subject).push(ledger.last().id)
    } else {
        live_ids_of(ledger.drop_last(), subject)
    }
}

/// `ledger` with every live entry held by `subject` revoked.
pub open spec fn revoked_for_subject(ledger: Seq<CapabilityRecord>, subject: Seq<char>) -> Seq<CapabilityRecord> {
    Seq::new(ledger.len(), |i: int| if held_live_by(ledger[i], subject) {
        CapabilityRecord { revoked: true, ..ledger[i] }
    } else {
        ledger[i]
    })
}

/// What revoking a subject's capabilities did.
pub struct CapabilityRevocationReport {
    /// The capabilities revoked, in ledger order.
    pub revoked: Vec<CapabilityId>,
}

pub proof fn lemma_live_ids_len(ledger: Seq<CapabilityRecord>, subject: Seq<char>)
    ensures
        live_ids_of(ledger, subject).len() <= ledger.len(),
    decreases ledger.len(),
{
    if ledger.len() > 0 {
        lemma_live_ids_len(ledger.drop_last(), subject);
    }
}

impl SemanticGraph {
    /// The capability ledger.
    pub fn capabilities(&self) -> (r: &[CapabilityRecord])
        ensures
            r@ == self.capabilities@,
    {
        self.capabilities.as_slice()
    }

    /// Revokes every live capability held by `subject`, logging one revocation per
    /// capability in ledger order, and reports which it revoked.
    pub fn revoke_capabilities_for_subject(&mut self, subject: &str) -> (report: CapabilityRevocationReport)
        requires
            old(self).event_log.next_event_id + old(self).capabilities@.len() < u64::MAX,
        ensures
            ({
                let ids = live_ids_of(old(self).capabilities@, subject@);
                let oe = old(self).event_log.events@;
                let ne = final(self).event_log.events@;
                let n = old(self).event_log.next_event_id;
                &&& report.revoked@ == ids
                &&& final(self).agrees_except(&old(self), set![Table::EventLog, Table::Capabilities])
                &&& final(self).capabilities@ == revoked_for_subject(old(self).capabilities@, subject@)
                &&& final(self).event_log.next_event_id == n + ids.len()
                &&& ne.len() == oe.len() + ids.len()
                &&& log_extends(oe, ne)
                &&& forall|j: int| 0 <= j < ids.len() ==> {
                    let e = #[trigger] ne[oe.len() + j];
                    &&& e.id == n + j
                    &&& e.domain == EventDomain::Capability
                    &&& e.kind == EventKind::CapabilityRevoked { cap: ids[j] }
                    &&& e.labels@.len() == 0
                }
            }),
    {
        let ghost orig = self.capabilities@;
        let ghost oe = self.event_log.events@;
        let ghost n = self.event_log.next_event_id;
        let mut revoked: Vec<CapabilityId> = Vec::new();
        let mut i: usize = 0;
        proof { lemma_live_ids_len(orig, subject@); }
        while i < self.capabilities.len()
            invariant
                self.agrees_except(&old(self), set![Table::EventLog, Table::Capabilities]),
                orig == old(self).capabilities@,
                oe == old(self).event_log.events@,
                n == old(self).event_log.next_event_id,
                n + orig.len() < u64::MAX,
                self.capabilities@.len() == orig.len(),
                i <= orig.len(),
                forall|j: int| 0 <= j < i ==> self.capabilities@[j] == #[trigger] revoked_for_subject(orig, subject@)[j],
                forall|j: int| i <= j < orig.len() ==> #[trigger] self.capabilities@[j] == orig[j],
                revoked@ == live_ids_of(orig.take(i as int), subject@),
                revoked@.len() <= i,
                self.event_log.next_event_id == n + revoked@.len(),
                self.event_log.events@.len() == oe.len() + revoked@.len(),
                log_extends(oe, self.event_log.events@),
                forall|j: int| 0 <= j < revoked@.len() ==> {
                    let e = #[trigger] self.event_log.events@[oe.len() + j];
                    &&& e.id == n + j
                    &&& e.domain == EventDomain::Capability
                    &&& e.kind == EventKind::CapabilityRevoked { cap: revoked@[j] }
                    &&& e.labels@.len() == 0
                },
            decreases orig.len() - i,
        {
            proof {
                assert(orig.take(i as int + 1).drop_last() =~= orig.take(i as int));
                assert(orig.take(i as int + 1).last() == orig[i as int]);
                lemma_live_ids_len(orig.take(i as int), subject@);
            }
            if !self.capabilities[i].revoked && str_eq(self.capabilities[i].subject.as_str(), subject) {
                let cap = self.capabilities[i].id;
                self.capabilities[i].revoked = true;
                let ghost before = self.event_log.events@;
                self.event_log.push(EventDomain::Capability, EventKind::CapabilityRevoked { cap });
                revoked.push(cap);
                proof {
                    assert forall|j: int| 0 <= j < revoked@.len() implies {
                        let e = #[trigger] self.event_log.events@[oe.len() + j];
                        &&& e.id == n + j
                        &&& e.domain == EventDomain::Capability
                        &&& e.kind == EventKind::CapabilityRevoked { cap: revoked@[j] }
                        &&& e.labels@.len() == 0
                    } by {
                        if j < revoked@.len() - 1 {
                            assert(self.event_log.events@[oe.len() + j] == before[oe.len() + j]);
                        }
                    }
                    assert forall|j: int| 0 <= j < oe.len() implies #[trigger] self.event_log.events@[j] == oe[j] by {
                        assert(self.event_log.events@[j] == before[j]);
                    }
                }
            }
            i += 1;
        }
        proof {
            assert(orig.take(orig.len() as int) =~= orig);
            assert(self.capabilities@ =~= revoked_for_subject(orig, subject@));
        }
        CapabilityRevocationReport { revoked }
    }
}


proof fn lemma_live_count_update(ledger: Seq<CapabilityRecord>, k: int, r: CapabilityRecord)
    requires
        0 <= k < ledger.len(),
    ensures
        live_capability_count(ledger.update(k, r)) + (if ledger[k].revoked { 0int } else { 1int })
            == live_capability_count(ledger) + (if r.revoked { 0int } else { 1int }),
    decreases ledger.len(),
{
    let n = ledger.update(k, r);
    if k == ledger.len() - 1 {
        assert(n.drop_last() =~= ledger.drop_last());
    } else {
        assert(n.drop_last() =~= ledger.drop_last().update(k, r));
        lemma_live_count_update(ledger.drop_last(), k, r);
    }
}

/// Revoking a live capability takes exactly one capability out of the live count, and the
/// capability is no longer live afterwards, so a second revocation is refused.
pub proof fn lemma_revoke_live_capability(ledger: Seq<CapabilityRecord>, cap: CapabilityId)
    requires
        ledger_live(ledger, cap),
    ensures
        live_capability_count(ledger_with_revoked(ledger, cap)) + 1 == live_capability_count(ledger),
        !ledger_live(ledger_with_revoked(ledger, cap), cap),
{
    let k = first_match(ledger, capability_id_is(cap))->0;
    lemma_first_match_facts(ledger, capability_id_is(cap));
    lemma_live_count_update(ledger, k, CapabilityRecord { revoked: true, ..ledger[k] });
    lemma_revoke_keeps_lookup(ledger, cap, cap);
}

proof fn lemma_live_ids_prefix(ledger: Seq<CapabilityRecord>, subject: Seq<char>)
    ensures
        live_capability_count(revoked_for_subject(ledger, subject)) + live_ids_of(ledger, subject).len()
            == live_capability_count(ledger),
    decreases ledger.len(),
{
    if ledger.len() > 0 {
        let d = ledger.drop_last();
        assert(revoked_for_subject(ledger, subject).drop_last() =~= revoked_for_subject(d, subject));
        lemma_live_ids_prefix(d, subject);
    }
}

/// After a subject's capabilities are revoked, the subject holds no live capability, and the
/// live count has dropped by exactly the number of capabilities revoked.
pub proof fn lemma_subject_revocation_is_complete(ledger: Seq<CapabilityRecord>, subject: Seq<char>)
    ensures
        forall|i: int| 0 <= i < ledger.len() ==> !held_live_by(#[trigger] revoked_for_subject(ledger, subject)[i], subject),
        live_capability_count(revoked_for_subject(ledger, subject)) + live_ids_of(ledger, subject).len()
            == live_capability_count(ledger),
{
    lemma_live_ids_prefix(ledger, subject);
}

/// The largest id in the ledger, or 0 when it is empty.
pub open spec fn max_capability_id(ledger: Seq<CapabilityRecord>) -> CapabilityId
    decreases ledger.len(),
{
    if ledger.len() == 0 {
        0
    } else {
        let m = max_capability_id(ledger.drop_last());
        if ledger.last().id > m { ledger.last().id } else { m }
    }
}

/// No entry of the ledger has an id above `max_capability_id`.
pub proof fn lemma_max_capability_id_bounds(ledger: Seq<CapabilityRecord>)
    ensures
        forall|i: int| 0 <= i < ledger.len() ==> (#[trigger] ledger[i]).id <= max_capability_id(ledger),
    decreases ledger.len(),
{
    if ledger.len() > 0 {
        let d = ledger.drop_last();
        lemma_max_capability_id_bounds(d);
        assert forall|i: int| 0 <= i < ledger.len() implies (#[trigger] ledger[i]).id <= max_capability_id(ledger) by {
            if i < ledger.len() - 1 {
                assert(d[i] == ledger[i]);
            }
        }
    }
}

/// The live ledger entry a grant adds, at generation 1.
pub open spec fn granted_record(
    cap: CapabilityId,
    subject: String,
    object_ref: Option<AuthorityObjectRef>,
    operations: Vec<String>,
    owner_store: Option<StoreId>,
    owner_store_generation: Option<Generation>,
) -> CapabilityRecord {
    CapabilityRecord {
        id: cap,
        generation: 1,
        subject,
        object_ref,
        operations,
        owner_store,
        owner_store_generation,
        revoked: false,
    }
}

/// `new` is `old` with `record` appended to the ledger and the grant logged as a command.
pub open spec fn granted_capability(old: SemanticGraph, new: SemanticGraph, record: CapabilityRecord) -> bool {
    &&& new.agrees_except(&old, set![Table::EventLog, Table::Capabilities])
    &&& new.capabilities@ == old.capabilities@.push(record)
    &&& appended_event(old.event_log, new.event_log, EventDomain::Command, EventKind::CapabilityGranted { cap: record.id })
}

/// `new` is `old` with a hostcall entry logged: its class as the event kind and its label,
/// subject, object and operation as the event's text.
pub open spec fn recorded_hostcall(
    old: SemanticGraph,
    new: SemanticGraph,
    class: HostcallClass,
    texts: Seq<Seq<char>>,
) -> bool {
    let e = new.event_log.events@.last();
    &&& new.agrees_except(&old, set![Table::EventLog])
    &&& new.event_log.next_event_id == old.event_log.next_event_id + 1
    &&& new.event_log.events@.len() == old.event_log.events@.len() + 1
    &&& log_extends(old.event_log.events@, new.event_log.events@)
    &&& e.id == old.event_log.next_event_id
    &&& e.domain == EventDomain::Hostcall
    &&& e.kind == EventKind::HostcallEntered { class }
    &&& label_views(e.labels@) == texts
}

impl SemanticGraph {
    fn find_max_capability_id(&self) -> (m: CapabilityId)
        ensures
            m == max_capability_id(self.capabilities@),
    {
        let mut m: u64 = 0;
        let mut i: usize = 0;
        while i < self.capabilities.len()
            invariant
                i <= self.capabilities@.len(),
                m == max_capability_id(self.capabilities@.subrange(0, i as int)),
            decreases self.capabilities@.len() - i,
        {
            proof {
                assert(self.capabilities@.subrange(0, i as int + 1).drop_last()
                    =~= self.capabilities@.subrange(0, i as int));
            }
            if self.capabilities[i].id > m {
                m = self.capabilities[i].id;
            }
            i += 1;
        }
        proof { assert(self.capabilities@.subrange(0, i as int) =~= self.capabilities@); }
        m
    }

    /// Adds a live ledger entry under the id one above the largest in use, and logs the grant.
    /// Returns the new id, or `None` (changing nothing) when the largest id in use is
    /// `u64::MAX`.
    pub(crate) fn grant_ledger_entry(
        &mut self,
        subject: String,
        object_ref: Option<AuthorityObjectRef>,
        operations: Vec<String>,
        owner_store: Option<StoreId>,
        owner_store_generation: Option<Generation>,
    ) -> (r: Option<CapabilityId>)
        requires
            old(self).event_log.next_event_id < u64::MAX,
        ensures
            max_capability_id(old(self).capabilities@) == u64::MAX ==> r is None && *final(self) == *old(self),
            max_capability_id(old(self).capabilities@) < u64::MAX ==> {
                let cap = (max_capability_id(old(self).capabilities@) + 1) as u64;
                &&& r == Some(cap)
                &&& granted_capability(*old(self), *final(self), granted_record(cap, subject, object_ref, operations,
                    owner_store, owner_store_generation))
                &&& forall|i: int| 0 <= i < old(self).capabilities@.len() ==> (#[trigger] old(self).capabilities@[i]).id != cap
            },
    {
        let m = self.find_max_capability_id();
        if m == u64::MAX {
            return None;
        }
        let cap = m + 1;
        proof { lemma_max_capability_id_bounds(self.capabilities@); }
        self.capabilities.push(CapabilityRecord {
            id: cap,
            generation: 1,
            subject,
            object_ref,
            operations,
            owner_store,
            owner_store_generation,
            revoked: false,
        });
        self.event_log.push(EventDomain::Command, EventKind::CapabilityGranted { cap });
        Some(cap)
    }

    /// Logs entry into a hostcall: its class, and its label, subject, object and operation as
    /// the event's text.
    pub fn record_hostcall(&mut self, label: &str, class: HostcallClass, subject: &str, object: &str, operation: &str)
        requires
            old(self).event_log.next_event_id < u64::MAX,
        ensures
            recorded_hostcall(*old(self), *final(self), class, seq![label@, subject@, object@, operation@]),
    {
        let mut texts: Vec<String> = Vec::new();
        texts.push(label.to_owned());
        texts.push(subject.to_owned());
        texts.push(object.to_owned());
        texts.push(operation.to_owned());
        let ghost v = texts@;
        self.event_log.push_labeled(EventDomain::Hostcall, EventKind::HostcallEntered { class }, texts);
        proof {
            assert(label_views(v) =~= seq![label@, subject@, object@, operation@]);
        }
    }
}

} // verus!
