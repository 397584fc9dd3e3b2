use vstd::prelude::*;
use crate::base::DisplayCapabilityRecord;
use crate::capability::lemma_revoke_keeps_lookup;
use crate::display_cleanup::{
    cleaned_display, cleanup_revokes, cleanup_steps, completed_cleanup_of, display_capability_ref_of,
    lease_in_target, lease_ref, lemma_cleanup_leaves_nothing_held, mapping_in_target, mapping_ref,
    released_lease_is, released_under, revoked_capability_ref_of, revoked_display_capability_is,
    target_capability_index, unmapped_mapping_is, unmapped_under, DisplayCleanupRecord, DisplayCleanupTarget,
    active_display_capability_is, cleanup_started_event, cleanup_completed_event, step_matches,
};
use crate::driver_store_binding::capability_id_is;
use crate::events::{has_event_spec, lemma_has_event_extends};
use crate::framebuffer_benchmark::display_capability_is;
use crate::graph::SemanticGraph;
use crate::search::{
    any_match, first_failure, first_match, is_first_match, lemma_first_failure_ok, lemma_first_failure_ok_all,
    lemma_first_match_at, lemma_first_match_facts, lemma_first_match_none,
};
use crate::types::{DisplayCapabilityState, DisplayCleanupId};

verus! {

/// No two display capabilities share an id and a generation.
pub open spec fn display_capability_generations_unique(s: Seq<DisplayCapabilityRecord>) -> bool {
    forall|i: int, j: int| 0 <= i < j < s.len()
        ==> !((#[trigger] s[i]).id == (#[trigger] s[j]).id && s[i].generation == s[j].generation)
}

/// Two sequences on which `p` agrees position by position have the same first match.
pub proof fn lemma_first_match_agrees<T>(a: Seq<T>, b: Seq<T>, p: spec_fn(T) -> bool)
    requires
        a.len() == b.len(),
        forall|i: int| 0 <= i < a.len() ==> p(#[trigger] a[i]) == p(b[i]),
    ensures
        first_match(a, p) == first_match(b, p),
{
    lemma_first_match_facts(a, p);
    lemma_first_match_facts(b, p);
    match first_match(a, p) {
        Some(i) => {
            assert(is_first_match(b, p, i)) by {
                assert forall|j: int| 0 <= j < i implies !p(#[trigger] b[j]) by {
                    assert(!p(a[j]));
                }
            }
            lemma_first_match_at(b, p, i);
        },
        None => {
            if first_match(b, p) is Some {
                let i = first_match(b, p)->0;
                assert(p(a[i]));
            }
        },
    }
}

/// The state of the display capability table after a cleanup of `t`.
proof fn lemma_display_capability_lookup_kept(old: SemanticGraph, new: SemanticGraph, t: DisplayCleanupTarget,
    id: u64, generation: u64)
    requires
        cleanup_revokes(old, t) ==> new.display_capabilities@ == old.display_capabilities@.update(
            target_capability_index(old, t),
            DisplayCapabilityRecord { state: DisplayCapabilityState::Revoked,
                ..old.display_capabilities@[target_capability_index(old, t)] }),
        !cleanup_revokes(old, t) ==> new.display_capabilities == old.display_capabilities,
        cleanup_revokes(old, t) ==> 0 <= target_capability_index(old, t) < old.display_capabilities@.len(),
    ensures
        first_match(new.display_capabilities@, display_capability_is(id, generation))
            == first_match(old.display_capabilities@, display_capability_is(id, generation)),
{
    if cleanup_revokes(old, t) {
        let c = target_capability_index(old, t);
        assert forall|i: int| 0 <= i < new.display_capabilities@.len() implies
            display_capability_is(id, generation)(#[trigger] new.display_capabilities@[i])
                == display_capability_is(id, generation)(old.display_capabilities@[i]) by {}
        lemma_first_match_agrees(new.display_capabilities@, old.display_capabilities@, display_capability_is(id, generation));
    }
}

/// The effects a cleanup recorded before another cleanup ran are still in place after it.
proof fn lemma_effects_kept(old: SemanticGraph, new: SemanticGraph, cleanup: DisplayCleanupId, t: DisplayCleanupTarget,
    reason: Seq<char>, note: Seq<char>, r: DisplayCleanupRecord)
    requires
        cleaned_display(old, new, cleanup, t, reason, note),
        old.cleanup_effects_fault(r) is None,
        cleanup_revokes(old, t) ==> 0 <= target_capability_index(old, t) < old.display_capabilities@.len(),
        cleanup_revokes(old, t) ==> first_match(old.capabilities@, capability_id_is(
            old.display_capabilities@[target_capability_index(old, t)].capability)) is Some,
        cleanup_revokes(old, t) ==> {
            let k = first_match(old.capabilities@, capability_id_is(
                old.display_capabilities@[target_capability_index(old, t)].capability))->0;
            !old.capabilities@[k].revoked
        },
    ensures
        new.cleanup_effects_fault(r) is None,
{
    let mappings = r.unmapped_framebuffer_mappings@;
    let leases = r.released_framebuffer_window_leases@;
    let caps = r.revoked_display_capabilities@;
    let revoked = r.revoked_capabilities@;
    lemma_first_match_facts(mappings, old.mapping_effect_missing());
    lemma_first_match_facts(leases, old.lease_effect_missing());
    lemma_first_match_facts(caps, old.display_capability_effect_missing());
    assert forall|j: int| 0 <= j < mappings.len() implies !new.mapping_effect_missing()(#[trigger] mappings[j]) by {
        assert(!old.mapping_effect_missing()(mappings[j]));
        let i = choose|i: int| 0 <= i < old.framebuffer_mappings@.len()
            && unmapped_mapping_is(mappings[j])(#[trigger] old.framebuffer_mappings@[i]);
        assert(new.framebuffer_mappings@[i] == unmapped_under(old.framebuffer_mappings@, t)[i]);
    }
    lemma_first_match_none(mappings, new.mapping_effect_missing());
    assert forall|j: int| 0 <= j < leases.len() implies !new.lease_effect_missing()(#[trigger] leases[j]) by {
        assert(!old.lease_effect_missing()(leases[j]));
        let i = choose|i: int| 0 <= i < old.framebuffer_window_leases@.len()
            && released_lease_is(leases[j])(#[trigger] old.framebuffer_window_leases@[i]);
        assert(new.framebuffer_window_leases@[i] == released_under(old.framebuffer_window_leases@, t)[i]);
    }
    lemma_first_match_none(leases, new.lease_effect_missing());
    assert forall|j: int| 0 <= j < caps.len() implies !new.display_capability_effect_missing()(#[trigger] caps[j]) by {
        assert(!old.display_capability_effect_missing()(caps[j]));
        let i = choose|i: int| 0 <= i < old.display_capabilities@.len()
            && revoked_display_capability_is(caps[j])(#[trigger] old.display_capabilities@[i]);
        if cleanup_revokes(old, t) {
            assert(revoked_display_capability_is(caps[j])(new.display_capabilities@[i]));
        } else {
            assert(revoked_display_capability_is(caps[j])(new.display_capabilities@[i]));
        }
    }
    lemma_first_match_none(caps, new.display_capability_effect_missing());
    let olds = Seq::new(revoked.len(), |i: int| old.capability_effect_fault(r.id, revoked[i]));
    let news = Seq::new(revoked.len(), |i: int| new.capability_effect_fault(r.id, revoked[i]));
    assert(first_failure(olds) is Ok);
    lemma_first_failure_ok_all(olds);
    assert forall|j: int| 0 <= j < news.len() implies (#[trigger] news[j]) is None by {
        assert(olds[j] is None);
        let c = revoked[j];
        if cleanup_revokes(old, t) {
            let cap = old.display_capabilities@[target_capability_index(old, t)].capability;
            lemma_revoke_keeps_lookup(old.capabilities@, cap, c.id);
            lemma_first_match_facts(old.capabilities@, capability_id_is(c.id));
            let k = first_match(old.capabilities@, capability_id_is(cap))->0;
            lemma_first_match_facts(old.capabilities@, capability_id_is(cap));
            match first_match(old.capabilities@, capability_id_is(c.id)) {
                Some(k2) => {
                    assert(old.capabilities@[k2].revoked);
                    if k2 == k {
                        assert(!old.capabilities@[k].revoked);
                    }
                    assert(new.capabilities@[k2] == old.capabilities@[k2]);
                },
                None => {},
            }
        }
    }
    lemma_first_failure_ok(news);
}

/// The effects the new cleanup records are in place once it is done.
proof fn lemma_new_effects_in_place(old: SemanticGraph, new: SemanticGraph, cleanup: DisplayCleanupId,
    t: DisplayCleanupTarget, reason: Seq<char>, note: Seq<char>)
    requires
        cleaned_display(old, new, cleanup, t, reason, note),
        cleanup_revokes(old, t),
        0 <= target_capability_index(old, t) < old.display_capabilities@.len(),
    ensures
        new.cleanup_effects_fault(new.display_cleanups@.last()) is None,
{
    let r = new.display_cleanups@.last();
    let mappings = r.unmapped_framebuffer_mappings@;
    let leases = r.released_framebuffer_window_leases@;
    let caps = r.revoked_display_capabilities@;
    let revoked = r.revoked_capabilities@;
    lemma_cleanup_leaves_nothing_held(old, new, cleanup, t, reason, note);
    assert forall|j: int| 0 <= j < mappings.len() implies !new.mapping_effect_missing()(#[trigger] mappings[j]) by {
        let i = choose|i: int| 0 <= i < old.framebuffer_mappings@.len()
            && mapping_in_target(old.framebuffer_mappings@[i], t)
            && #[trigger] mappings[j] == mapping_ref(old.framebuffer_mappings@[i]);
        assert(new.framebuffer_mappings@[i] == unmapped_under(old.framebuffer_mappings@, t)[i]);
        assert(unmapped_mapping_is(mappings[j])(new.framebuffer_mappings@[i]));
    }
    lemma_first_match_none(mappings, new.mapping_effect_missing());
    assert forall|j: int| 0 <= j < leases.len() implies !new.lease_effect_missing()(#[trigger] leases[j]) by {
        let i = choose|i: int| 0 <= i < old.framebuffer_window_leases@.len()
            && lease_in_target(old.framebuffer_window_leases@[i], t)
            && #[trigger] leases[j] == lease_ref(old.framebuffer_window_leases@[i]);
        assert(new.framebuffer_window_leases@[i] == released_under(old.framebuffer_window_leases@, t)[i]);
        assert(released_lease_is(leases[j])(new.framebuffer_window_leases@[i]));
    }
    lemma_first_match_none(leases, new.lease_effect_missing());
    let c = target_capability_index(old, t);
    lemma_first_match_facts(old.display_capabilities@, active_display_capability_is(t.display_capability,
        t.display_capability_generation));
    assert forall|j: int| 0 <= j < caps.len() implies !new.display_capability_effect_missing()(#[trigger] caps[j]) by {
        assert(caps[j] == display_capability_ref_of(t));
        assert(revoked_display_capability_is(caps[j])(new.display_capabilities@[c]));
    }
    lemma_first_match_none(caps, new.display_capability_effect_missing());
    let cap = old.display_capabilities@[c].capability;
    lemma_first_match_facts(old.capabilities@, capability_id_is(cap));
    lemma_revoke_keeps_lookup(old.capabilities@, cap, cap);
    let k = first_match(old.capabilities@, capability_id_is(cap))->0;
    let news = Seq::new(revoked.len(), |i: int| new.capability_effect_fault(r.id, revoked[i]));
    assert forall|j: int| 0 <= j < news.len() implies (#[trigger] news[j]) is None by {
        assert(revoked[j] == revoked_capability_ref_of(old, t));
        assert(new.capabilities@[k].revoked);
    }
    lemma_first_failure_ok(news);
}

/// What a first cleanup of `t` may rely on: the graph accepted it, its target's display
/// capability is unique and active, and its ledger entry is live.
pub open spec fn first_cleanup_premises(old: SemanticGraph, cleanup: DisplayCleanupId, t: DisplayCleanupTarget,
    reason: Seq<char>) -> bool {
    &&& display_capability_generations_unique(old.display_capabilities@)
    &&& old.event_log.next_event_id != 0
    &&& old.display_cleanup_verdict(cleanup, t, reason) is Ok
    &&& !any_match(old.display_cleanups@, completed_cleanup_of(t))
}

proof fn lemma_first_cleanup_facts(old: SemanticGraph, cleanup: DisplayCleanupId, t: DisplayCleanupTarget,
    reason: Seq<char>)
    requires
        first_cleanup_premises(old, cleanup, t, reason),
    ensures
        old.display_cleanup_audit() is Ok,
        cleanup_revokes(old, t),
        0 <= target_capability_index(old, t) < old.display_capabilities@.len(),
        active_display_capability_is(t.display_capability, t.display_capability_generation)(
            old.display_capabilities@[target_capability_index(old, t)]),
        first_match(old.capabilities@, capability_id_is(
            old.display_capabilities@[target_capability_index(old, t)].capability)) is Some,
        ({
            let k = first_match(old.capabilities@, capability_id_is(
                old.display_capabilities@[target_capability_index(old, t)].capability))->0;
            !old.capabilities@[k].revoked
        }),
        ({
            let dc = old.display_capabilities@[target_capability_index(old, t)];
            dc.owner_store == t.owner_store && dc.owner_store_generation == t.owner_store_generation
                && dc.display == t.display && dc.display_generation == t.display_generation
                && dc.framebuffer == t.framebuffer && dc.framebuffer_generation == t.framebuffer_generation
        }),
        first_match(old.display_capabilities@, display_capability_is(t.display_capability,
            t.display_capability_generation)) == Some(target_capability_index(old, t)),
        any_match(old.stores@, crate::lookup2::store_is(t.owner_store, t.owner_store_generation)),
        cleanup != 0 && reason.len() != 0 && t.owner_store_generation != 0 && t.display_capability_generation != 0
            && t.display_generation != 0 && t.framebuffer_generation != 0,
{
    assert(old.graph_audit() is Ok);
    let c = target_capability_index(old, t);
    lemma_first_match_facts(old.display_capabilities@, active_display_capability_is(t.display_capability,
        t.display_capability_generation));
    let dc = old.display_capabilities@[c];
    lemma_first_match_facts(old.capabilities@, capability_id_is(dc.capability));
    lemma_first_match_facts(old.stores@, crate::lookup2::store_is(t.owner_store, t.owner_store_generation));
    lemma_first_match_facts(old.display_capabilities@, display_capability_is(t.display_capability,
        t.display_capability_generation));
    let rc = first_match(old.display_capabilities@, display_capability_is(t.display_capability,
        t.display_capability_generation))->0;
    assert(display_capability_is(t.display_capability, t.display_capability_generation)(old.display_capabilities@[c]));
    if rc < c {
        assert(!(old.display_capabilities@[rc].id == old.display_capabilities@[c].id
            && old.display_capabilities@[rc].generation == old.display_capabilities@[c].generation));
    } else if rc > c {
        assert(!display_capability_is(t.display_capability, t.display_capability_generation)(
            old.display_capabilities@[c]));
    }
}

proof fn lemma_earlier_cleanup_still_passes(old: SemanticGraph, new: SemanticGraph, cleanup: DisplayCleanupId,
    t: DisplayCleanupTarget, reason: Seq<char>, note: Seq<char>, j: int)
    requires
        first_cleanup_premises(old, cleanup, t, reason),
        cleaned_display(old, new, cleanup, t, reason, note),
        0 <= j < old.display_cleanups@.len(),
        old.display_cleanup_fault(old.display_cleanups@[j]) is None,
    ensures
        new.display_cleanup_fault(old.display_cleanups@[j]) is None,
{
    lemma_first_cleanup_facts(old, cleanup, t, reason);
    let r = old.display_cleanups@[j];
    let c = target_capability_index(old, t);
    lemma_display_capability_lookup_kept(old, new, t, r.display_capability, r.display_capability_generation);
    lemma_first_match_facts(old.display_capabilities@, display_capability_is(r.display_capability,
        r.display_capability_generation));
    let rc = first_match(old.display_capabilities@, display_capability_is(r.display_capability,
        r.display_capability_generation))->0;
    if rc == c {
        assert(old.display_capabilities@[c].state == DisplayCapabilityState::Revoked);
    }
    assert(new.display_capabilities@[rc] == old.display_capabilities@[rc]);
    lemma_effects_kept(old, new, cleanup, t, reason, note, r);
    lemma_has_event_extends(old.event_log.events@, new.event_log.events@, r.started_at_event,
        cleanup_started_event(r));
    lemma_has_event_extends(old.event_log.events@, new.event_log.events@, r.completed_at_event,
        cleanup_completed_event(r));
}

proof fn lemma_new_cleanup_passes(old: SemanticGraph, new: SemanticGraph, cleanup: DisplayCleanupId,
    t: DisplayCleanupTarget, reason: Seq<char>, note: Seq<char>)
    requires
        first_cleanup_premises(old, cleanup, t, reason),
        cleaned_display(old, new, cleanup, t, reason, note),
    ensures
        new.display_cleanup_fault(new.display_cleanups@.last()) is None,
{
    lemma_first_cleanup_facts(old, cleanup, t, reason);
    let r = new.display_cleanups@.last();
    let c = target_capability_index(old, t);
    lemma_display_capability_lookup_kept(old, new, t, t.display_capability, t.display_capability_generation);
    lemma_new_effects_in_place(old, new, cleanup, t, reason, note);
    let rv_event = (old.event_log.next_event_id + 1) as u64;
    let expected = cleanup_steps(t, r.unmapped_framebuffer_mappings@.len() == 0,
        r.released_framebuffer_window_leases@.len() == 0, true, old.event_log.next_event_id, rv_event);
    assert(r.steps@ == expected);
    assert forall|i: int| 0 <= i < 3 implies step_matches(#[trigger] r.steps@[i], r, i) by {
        assert(r.steps@[i] == expected[i]);
        assert(expected[i].event.unwrap_or(0) != 0);
    }
    let oe = old.event_log.events@;
    let ne = new.event_log.events@;
    assert(ne[oe.len() as int].id == r.started_at_event);
    assert(ne[ne.len() - 1].id == r.completed_at_event);
    assert(has_event_spec(ne, r.started_at_event, cleanup_started_event(r)));
    assert(has_event_spec(ne, r.completed_at_event, cleanup_completed_event(r)));
}

/// Facts about a cleanup of `t` requested again after an earlier one completed: the target's
/// display capability is already revoked, so nothing is revoked this time.
proof fn lemma_repeat_cleanup_facts(old: SemanticGraph, cleanup: DisplayCleanupId, t: DisplayCleanupTarget,
    reason: Seq<char>, a: int)
    requires
        display_capability_generations_unique(old.display_capabilities@),
        old.display_cleanup_audit() is Ok,
        old.display_cleanup_verdict(cleanup, t, reason) is Ok,
        0 <= a < old.display_cleanups@.len(),
        completed_cleanup_of(t)(old.display_cleanups@[a]),
    ensures
        !cleanup_revokes(old, t),
        first_match(old.display_capabilities@, display_capability_is(t.display_capability,
            t.display_capability_generation)) is Some,
        ({
            let rc = first_match(old.display_capabilities@, display_capability_is(t.display_capability,
                t.display_capability_generation))->0;
            let dc = old.display_capabilities@[rc];
            &&& 0 <= rc < old.display_capabilities@.len()
            &&& dc.state == DisplayCapabilityState::Revoked
            &&& dc.owner_store == t.owner_store && dc.owner_store_generation == t.owner_store_generation
            &&& dc.display == t.display && dc.display_generation == t.display_generation
            &&& dc.framebuffer == t.framebuffer && dc.framebuffer_generation == t.framebuffer_generation
        }),
        any_match(old.stores@, crate::lookup2::store_is(t.owner_store, t.owner_store_generation)),
        cleanup != 0 && reason.len() != 0 && t.owner_store_generation != 0 && t.display_capability_generation != 0
            && t.display_generation != 0 && t.framebuffer_generation != 0,
{
    let faults = Seq::new(old.display_cleanups@.len(), |i: int| old.display_cleanup_fault(old.display_cleanups@[i]));
    lemma_first_failure_ok_all(faults);
    assert(faults[a] is None);
    let r = old.display_cleanups@[a];
    lemma_first_match_facts(old.display_capabilities@, display_capability_is(t.display_capability,
        t.display_capability_generation));
    let rc = first_match(old.display_capabilities@, display_capability_is(t.display_capability,
        t.display_capability_generation))->0;
    lemma_first_match_facts(old.display_capabilities@, active_display_capability_is(t.display_capability,
        t.display_capability_generation));
    if first_match(old.display_capabilities@, active_display_capability_is(t.display_capability,
        t.display_capability_generation)) is Some {
        let c = first_match(old.display_capabilities@, active_display_capability_is(t.display_capability,
            t.display_capability_generation))->0;
        assert(display_capability_is(t.display_capability, t.display_capability_generation)(old.display_capabilities@[c]));
        if rc < c {
            assert(!(old.display_capabilities@[rc].id == old.display_capabilities@[c].id
                && old.display_capabilities@[rc].generation == old.display_capabilities@[c].generation));
        } else if rc > c {
            assert(!display_capability_is(t.display_capability, t.display_capability_generation)(
                old.display_capabilities@[c]));
        }
        assert(old.display_capabilities@[c].state == DisplayCapabilityState::Revoked);
    }
    lemma_first_match_facts(old.stores@, crate::lookup2::store_is(t.owner_store, t.owner_store_generation));
}

proof fn lemma_repeat_cleanup_passes(old: SemanticGraph, new: SemanticGraph, cleanup: DisplayCleanupId,
    t: DisplayCleanupTarget, reason: Seq<char>, note: Seq<char>, a: int)
    requires
        display_capability_generations_unique(old.display_capabilities@),
        old.display_cleanup_audit() is Ok,
        old.event_log.next_event_id != 0,
        old.display_cleanup_verdict(cleanup, t, reason) is Ok,
        0 <= a < old.display_cleanups@.len(),
        completed_cleanup_of(t)(old.display_cleanups@[a]),
        cleaned_display(old, new, cleanup, t, reason, note),
    ensures
        new.display_cleanup_fault(new.display_cleanups@.last()) is None,
{
    lemma_repeat_cleanup_facts(old, cleanup, t, reason, a);
    let r = new.display_cleanups@.last();
    let mappings = r.unmapped_framebuffer_mappings@;
    let leases = r.released_framebuffer_window_leases@;
    lemma_cleanup_leaves_nothing_held(old, new, cleanup, t, reason, note);
    assert forall|j: int| 0 <= j < mappings.len() implies !new.mapping_effect_missing()(#[trigger] mappings[j]) by {
        let i = choose|i: int| 0 <= i < old.framebuffer_mappings@.len()
            && mapping_in_target(old.framebuffer_mappings@[i], t)
            && #[trigger] mappings[j] == mapping_ref(old.framebuffer_mappings@[i]);
        assert(new.framebuffer_mappings@[i] == unmapped_under(old.framebuffer_mappings@, t)[i]);
        assert(unmapped_mapping_is(mappings[j])(new.framebuffer_mappings@[i]));
    }
    lemma_first_match_none(mappings, new.mapping_effect_missing());
    assert forall|j: int| 0 <= j < leases.len() implies !new.lease_effect_missing()(#[trigger] leases[j]) by {
        let i = choose|i: int| 0 <= i < old.framebuffer_window_leases@.len()
            && lease_in_target(old.framebuffer_window_leases@[i], t)
            && #[trigger] leases[j] == lease_ref(old.framebuffer_window_leases@[i]);
        assert(new.framebuffer_window_leases@[i] == released_under(old.framebuffer_window_leases@, t)[i]);
        assert(released_lease_is(leases[j])(new.framebuffer_window_leases@[i]));
    }
    lemma_first_match_none(leases, new.lease_effect_missing());
    lemma_first_match_none(r.revoked_display_capabilities@, new.display_capability_effect_missing());
    let news = Seq::new(r.revoked_capabilities@.len(), |i: int| new.capability_effect_fault(r.id, r.revoked_capabilities@[i]));
    lemma_first_failure_ok(news);
    assert(new.cleanup_effects_fault(r) is None);
    let expected = cleanup_steps(t, r.unmapped_framebuffer_mappings@.len() == 0,
        r.released_framebuffer_window_leases@.len() == 0, false, old.event_log.next_event_id,
        old.event_log.next_event_id);
    assert(r.steps@ == expected);
    assert forall|i: int| 0 <= i < 3 implies step_matches(#[trigger] r.steps@[i], r, i) by {
        assert(r.steps@[i] == expected[i]);
        assert(expected[i].event.unwrap_or(0) != 0);
    }
    let oe = old.event_log.events@;
    let ne = new.event_log.events@;
    assert(ne[oe.len() as int].id == r.started_at_event);
    assert(ne[ne.len() - 1].id == r.completed_at_event);
    assert(has_event_spec(ne, r.started_at_event, cleanup_started_event(r)));
    assert(has_event_spec(ne, r.completed_at_event, cleanup_completed_event(r)));
}

proof fn lemma_earlier_cleanup_survives_repeat(old: SemanticGraph, new: SemanticGraph, cleanup: DisplayCleanupId,
    t: DisplayCleanupTarget, reason: Seq<char>, note: Seq<char>, a: int, j: int)
    requires
        display_capability_generations_unique(old.display_capabilities@),
        old.display_cleanup_audit() is Ok,
        old.display_cleanup_verdict(cleanup, t, reason) is Ok,
        0 <= a < old.display_cleanups@.len(),
        completed_cleanup_of(t)(old.display_cleanups@[a]),
        cleaned_display(old, new, cleanup, t, reason, note),
        0 <= j < old.display_cleanups@.len(),
        old.display_cleanup_fault(old.display_cleanups@[j]) is None,
    ensures
        new.display_cleanup_fault(old.display_cleanups@[j]) is None,
{
    lemma_repeat_cleanup_facts(old, cleanup, t, reason, a);
    let r = old.display_cleanups@[j];
    lemma_effects_kept(old, new, cleanup, t, reason, note, r);
    lemma_has_event_extends(old.event_log.events@, new.event_log.events@, r.started_at_event,
        cleanup_started_event(r));
    lemma_has_event_extends(old.event_log.events@, new.event_log.events@, r.completed_at_event,
        cleanup_completed_event(r));
}

/// Cleaning up a display keeps the display cleanup audit clean: the new cleanup record, with
/// its steps, effects and events, passes the audit, and so does every cleanup recorded
/// before it. This holds where display capabilities are unique by id and generation and the
/// event log hands out nonzero ids.
pub proof fn lemma_cleanup_display_keeps_audit(
    old: SemanticGraph,
    new: SemanticGraph,
    cleanup: DisplayCleanupId,
    t: DisplayCleanupTarget,
    reason: Seq<char>,
    note: Seq<char>,
)
    requires
        old.display_cleanup_audit() is Ok,
        display_capability_generations_unique(old.display_capabilities@),
        old.event_log.next_event_id != 0,
        old.display_cleanup_verdict(cleanup, t, reason) is Ok,
        cleaned_display(old, new, cleanup, t, reason, note),
    ensures
        new.display_cleanup_audit() is Ok,
{
    let n = old.display_cleanups@.len();
    let olds = Seq::new(n, |i: int| old.display_cleanup_fault(old.display_cleanups@[i]));
    let news = Seq::new(n + 1, |i: int| new.display_cleanup_fault(new.display_cleanups@[i]));
    lemma_first_failure_ok_all(olds);
    let repeat = any_match(old.display_cleanups@, completed_cleanup_of(t));
    let a = choose|a: int| 0 <= a < old.display_cleanups@.len() && #[trigger] completed_cleanup_of(t)(old.display_cleanups@[a]);
    if !repeat {
        lemma_first_cleanup_facts(old, cleanup, t, reason);
    }
    assert forall|j: int| 0 <= j < news.len() implies (#[trigger] news[j]) is None by {
        if j < n {
            assert(new.display_cleanups@[j] == old.display_cleanups@[j]) by {
                assert(new.display_cleanups@.subrange(0, n as int)[j] == old.display_cleanups@[j]);
            }
            assert(olds[j] is None);
            if repeat {
                lemma_earlier_cleanup_survives_repeat(old, new, cleanup, t, reason, note, a, j);
            } else {
                lemma_earlier_cleanup_still_passes(old, new, cleanup, t, reason, note, j);
            }
        } else {
            if repeat {
                lemma_repeat_cleanup_passes(old, new, cleanup, t, reason, note, a);
            } else {
                lemma_new_cleanup_passes(old, new, cleanup, t, reason, note);
            }
        }
    }
    lemma_first_failure_ok(news);
}

} // verus!
