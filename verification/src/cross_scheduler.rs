use vstd::prelude::*;
use crate::base::{HartEventAttributionRecord, HartRecord, RunnableQueueRecord, SchedulerDecisionRecord};
use crate::errors::SemanticInvariantError;
use crate::events::{appended_event, appended_one, has_event_spec, EventDomain, EventKind};
use crate::graph::{SemanticGraph, Table};
use crate::search::{
    any_match, exists_match, find_first, first_failure, first_match, lemma_first_failure_at,
    lemma_first_failure_ok, max_of, max_u64, saturating_succ, str_eq, succ_saturating,
};
use crate::types::{
    ActivationId, CrossHartSchedulerDecisionId, CrossHartSchedulerDecisionState, EventId,
    Generation, HartId, HartState, RunnableQueueId, RunnableQueueState, SchedulerDecisionId,
    SchedulerDecisionState,
};

verus! {

/// A scheduler decision taken on one hart for a queue owned by another.
pub struct CrossHartSchedulerDecisionRecord {
    pub id: CrossHartSchedulerDecisionId,
    pub scheduler_decision: SchedulerDecisionId,
    pub scheduler_decision_generation: Generation,
    pub deciding_hart: HartId,
    pub deciding_hart_generation: Generation,
    pub target_hart: HartId,
    pub target_hart_generation: Generation,
    pub queue: RunnableQueueId,
    pub queue_generation: Generation,
    pub queue_owner_hart_generation: Generation,
    pub selected_activation: ActivationId,
    pub selected_activation_generation: Generation,
    pub generation: Generation,
    pub state: CrossHartSchedulerDecisionState,
    pub decided_at_event: EventId,
    pub reason: String,
    pub note: String,
}

pub open spec fn cross_decision_id_is(id: CrossHartSchedulerDecisionId) -> spec_fn(CrossHartSchedulerDecisionRecord) -> bool {
    |r: CrossHartSchedulerDecisionRecord| r.id == id
}

pub open spec fn recorded_scheduler_decision_is(id: SchedulerDecisionId, generation: Generation) -> spec_fn(SchedulerDecisionRecord) -> bool {
    |r: SchedulerDecisionRecord| r.id == id && r.generation == generation && r.state == SchedulerDecisionState::Recorded
}

pub open spec fn kept_scheduler_decision_is(id: SchedulerDecisionId, generation: Generation) -> spec_fn(SchedulerDecisionRecord) -> bool {
    |r: SchedulerDecisionRecord| r.id == id && r.generation == generation && r.state != SchedulerDecisionState::Dropped
}

pub open spec fn hart_is(id: HartId, generation: Generation) -> spec_fn(HartRecord) -> bool {
    |h: HartRecord| h.id == id && h.generation == generation
}

pub open spec fn hart_id_is(id: HartId) -> spec_fn(HartRecord) -> bool {
    |h: HartRecord| h.id == id
}

pub open spec fn active_runnable_queue_is(id: RunnableQueueId, generation: Generation) -> spec_fn(RunnableQueueRecord) -> bool {
    |q: RunnableQueueRecord| q.id == id && q.generation == generation && q.state == RunnableQueueState::Active
}

pub open spec fn runnable_queue_id_is(id: RunnableQueueId) -> spec_fn(RunnableQueueRecord) -> bool {
    |q: RunnableQueueRecord| q.id == id
}

/// A hart in one of these states cannot take part in a scheduler decision.
pub open spec fn hart_inactive(state: HartState) -> bool {
    state == HartState::Offline || state == HartState::Faulted || state == HartState::Parked
}

pub fn is_hart_inactive(state: HartState) -> (r: bool)
    ensures
        r == hart_inactive(state),
{
    match state {
        HartState::Offline | HartState::Faulted | HartState::Parked => true,
        _ => false,
    }
}

/// The attribution label given to the deciding hart's side of a cross-hart decision.
pub open spec fn source_attribution_label() -> Seq<char> {
    "CrossHartSchedulerDecisionSourceRecorded"@
}

/// The attribution label given to the target hart's side of a cross-hart decision.
pub open spec fn target_attribution_label() -> Seq<char> {
    "CrossHartSchedulerDecisionTargetRecorded"@
}

/// The deciding hart's attribution of cross-hart decision `c`.
pub open spec fn source_attribution_of(c: CrossHartSchedulerDecisionRecord) -> spec_fn(HartEventAttributionRecord) -> bool {
    |a: HartEventAttributionRecord| a.event == c.decided_at_event && a.hart == c.deciding_hart
        && a.hart_generation == c.deciding_hart_generation && a.event_kind@ == source_attribution_label()
}

/// The target hart's attribution of cross-hart decision `c`, naming the selected activation.
pub open spec fn target_attribution_of(c: CrossHartSchedulerDecisionRecord) -> spec_fn(HartEventAttributionRecord) -> bool {
    |a: HartEventAttributionRecord| a.event == c.decided_at_event && a.hart == c.target_hart
        && a.hart_generation == c.target_hart_generation && a.event_kind@ == target_attribution_label()
        && a.activation == Some(c.selected_activation)
        && a.activation_generation == Some(c.selected_activation_generation)
}

/// The event that records cross-hart decision `c`.
pub open spec fn cross_decision_event(c: CrossHartSchedulerDecisionRecord) -> EventKind {
    EventKind::CrossHartSchedulerDecisionRecorded {
        cross_decision: c.id,
        scheduler_decision: c.scheduler_decision,
        scheduler_decision_generation: c.scheduler_decision_generation,
        deciding_hart: c.deciding_hart,
        deciding_hart_generation: c.deciding_hart_generation,
        target_hart: c.target_hart,
        target_hart_generation: c.target_hart_generation,
        queue: c.queue,
        queue_generation: c.queue_generation,
        activation: c.selected_activation,
        activation_generation: c.selected_activation_generation,
        generation: c.generation,
    }
}

impl SemanticGraph {
    /// Why recording this cross-hart decision would be refused, if it would; otherwise the
    /// positions of the base decision and of the queue it drew from.
    pub open spec fn cross_hart_scheduler_decision_verdict(
        &self,
        cross_decision: CrossHartSchedulerDecisionId,
        scheduler_decision: SchedulerDecisionId,
        scheduler_decision_generation: Generation,
        deciding_hart: HartId,
        deciding_hart_generation: Generation,
        target_hart: HartId,
        target_hart_generation: Generation,
        reason: Seq<char>,
    ) -> Result<(int, int), &'static str> {
        if cross_decision == 0 {
            Err("cross-hart scheduler decision id=0 is invalid")
        } else if reason.len() == 0 {
            Err("cross-hart scheduler decision reason is empty")
        } else if deciding_hart == target_hart {
            Err("cross-hart scheduler decision requires distinct harts")
        } else if any_match(self.cross_hart_scheduler_decisions@, cross_decision_id_is(cross_decision)) {
            Err("cross-hart scheduler decision already exists")
        } else {
            match first_match(self.scheduler_decisions@, recorded_scheduler_decision_is(scheduler_decision, scheduler_decision_generation)) {
                None => Err("cross-hart scheduler decision base decision is missing"),
                Some(s) => match first_match(self.harts@, hart_is(deciding_hart, deciding_hart_generation)) {
                    None => Err("cross-hart scheduler decision deciding hart generation is missing"),
                    Some(h) => if hart_inactive(self.harts@[h].state) {
                        Err("cross-hart scheduler decision deciding hart is inactive")
                    } else {
                        match first_match(self.harts@, hart_is(target_hart, target_hart_generation)) {
                            None => Err("cross-hart scheduler decision target hart generation is missing"),
                            Some(t) => if hart_inactive(self.harts@[t].state) {
                                Err("cross-hart scheduler decision target hart is inactive")
                            } else {
                                let d = self.scheduler_decisions@[s];
                                match first_match(self.runnable_queues@, active_runnable_queue_is(d.queue, d.queue_generation)) {
                                    None => Err("cross-hart scheduler decision queue generation is missing"),
                                    Some(q) => {
                                        let queue = self.runnable_queues@[q];
                                        if queue.owner_hart != Some(target_hart) || queue.owner_hart_generation is None
                                            || queue.owner_hart_generation->0 > target_hart_generation {
                                            Err("cross-hart scheduler decision queue owner mismatch")
                                        } else {
                                            Ok((s, q))
                                        }
                                    },
                                }
                            },
                        }
                    },
                },
            }
        }
    }

    /// What an audit finds wrong with cross-hart decision `c`, if anything.
    pub open spec fn cross_hart_scheduler_decision_fault(&self, c: CrossHartSchedulerDecisionRecord) -> Option<SemanticInvariantError> {
        if c.id == 0 || c.generation == 0 || c.scheduler_decision == 0 || c.scheduler_decision_generation == 0
            || c.deciding_hart == 0 || c.target_hart == 0 || c.deciding_hart == c.target_hart
            || c.queue == 0 || c.queue_generation == 0 || c.queue_owner_hart_generation == 0
            || c.selected_activation == 0 || c.selected_activation_generation == 0
            || c.state != CrossHartSchedulerDecisionState::Recorded {
            Some(SemanticInvariantError::CrossHartSchedulerDecisionInvalid { cross_decision: c.id })
        } else {
            let missing_decision = SemanticInvariantError::CrossHartSchedulerDecisionMissingDecision {
                cross_decision: c.id,
                decision: c.scheduler_decision,
            };
            match first_match(self.scheduler_decisions@, kept_scheduler_decision_is(c.scheduler_decision, c.scheduler_decision_generation)) {
                None => Some(missing_decision),
                Some(s) => {
                    let d = self.scheduler_decisions@[s];
                    if d.queue != c.queue || d.queue_generation != c.queue_generation
                        || d.selected_activation != c.selected_activation
                        || d.selected_activation_generation != c.selected_activation_generation {
                        Some(missing_decision)
                    } else {
                        match first_match(self.harts@, hart_id_is(c.deciding_hart)) {
                            None => Some(SemanticInvariantError::CrossHartSchedulerDecisionMissingHart { cross_decision: c.id, hart: c.deciding_hart }),
                            Some(h) => if self.harts@[h].generation < c.deciding_hart_generation {
                                Some(SemanticInvariantError::CrossHartSchedulerDecisionHartGenerationMismatch { cross_decision: c.id, hart: c.deciding_hart })
                            } else {
                                match first_match(self.harts@, hart_id_is(c.target_hart)) {
                                    None => Some(SemanticInvariantError::CrossHartSchedulerDecisionMissingHart { cross_decision: c.id, hart: c.target_hart }),
                                    Some(t) => if self.harts@[t].generation < c.target_hart_generation {
                                        Some(SemanticInvariantError::CrossHartSchedulerDecisionHartGenerationMismatch { cross_decision: c.id, hart: c.target_hart })
                                    } else {
                                        let owner_mismatch = SemanticInvariantError::CrossHartSchedulerDecisionQueueOwnerMismatch {
                                            cross_decision: c.id,
                                            queue: c.queue,
                                        };
                                        match first_match(self.runnable_queues@, runnable_queue_id_is(c.queue)) {
                                            None => Some(owner_mismatch),
                                            Some(q) => {
                                                let queue = self.runnable_queues@[q];
                                                if queue.generation < c.queue_generation
                                                    || (queue.generation == c.queue_generation
                                                        && (queue.owner_hart != Some(c.target_hart)
                                                            || queue.owner_hart_generation != Some(c.queue_owner_hart_generation)
                                                            || c.queue_owner_hart_generation > c.target_hart_generation)) {
                                                    Some(owner_mismatch)
                                                } else if !has_event_spec(self.event_log.events@, c.decided_at_event, cross_decision_event(c)) {
                                                    Some(SemanticInvariantError::CrossHartSchedulerDecisionMissingEvent { cross_decision: c.id })
                                                } else if !any_match(self.hart_event_attributions@, source_attribution_of(c))
                                                    || !any_match(self.hart_event_attributions@, target_attribution_of(c)) {
                                                    Some(SemanticInvariantError::CrossHartSchedulerDecisionMissingHartEventAttribution {
                                                        cross_decision: c.id,
                                                        event: c.decided_at_event,
                                                    })
                                                } else {
                                                    None
                                                }
                                            },
                                        }
                                    },
                                }
                            },
                        }
                    }
                },
            }
        }
    }

    /// Audit verdict of the cross-hart decision table.
    pub open spec fn cross_hart_scheduler_audit(&self) -> Result<(), SemanticInvariantError> {
        first_failure(Seq::new(self.cross_hart_scheduler_decisions@.len(),
            |i: int| self.cross_hart_scheduler_decision_fault(self.cross_hart_scheduler_decisions@[i])))
    }

    fn find_recorded_scheduler_decision(&self, id: SchedulerDecisionId, generation: Generation) -> (r: Option<usize>)
        ensures
            crate::search::opt_index(r) == first_match(self.scheduler_decisions@, recorded_scheduler_decision_is(id, generation)),
    {
        find_first(
            &self.scheduler_decisions,
            |x: &SchedulerDecisionRecord| -> (b: bool)
                ensures b == recorded_scheduler_decision_is(id, generation)(*x)
            { x.id == id && x.generation == generation && x.state == SchedulerDecisionState::Recorded },
            Ghost(recorded_scheduler_decision_is(id, generation)),
        )
    }

    pub(crate) fn find_hart(&self, id: HartId, generation: Generation) -> (r: Option<usize>)
        ensures
            crate::search::opt_index(r) == first_match(self.harts@, hart_is(id, generation)),
    {
        find_first(
            &self.harts,
            |x: &HartRecord| -> (b: bool)
                ensures b == hart_is(id, generation)(*x)
            { x.id == id && x.generation == generation },
            Ghost(hart_is(id, generation)),
        )
    }

    pub(crate) fn find_active_runnable_queue(&self, id: RunnableQueueId, generation: Generation) -> (r: Option<usize>)
        ensures
            crate::search::opt_index(r) == first_match(self.runnable_queues@, active_runnable_queue_is(id, generation)),
    {
        find_first(
            &self.runnable_queues,
            |x: &RunnableQueueRecord| -> (b: bool)
                ensures b == active_runnable_queue_is(id, generation)(*x)
            { x.id == id && x.generation == generation && x.state == RunnableQueueState::Active },
            Ghost(active_runnable_queue_is(id, generation)),
        )
    }

    pub fn validate_cross_hart_scheduler_decision(
        &self,
        cross_decision: CrossHartSchedulerDecisionId,
        scheduler_decision: SchedulerDecisionId,
        scheduler_decision_generation: Generation,
        deciding_hart: HartId,
        deciding_hart_generation: Generation,
        target_hart: HartId,
        target_hart_generation: Generation,
        reason: &str,
    ) -> (r: Result<(usize, usize), &'static str>)
        ensures
            match r {
                Ok((s, q)) => self.cross_hart_scheduler_decision_verdict(cross_decision, scheduler_decision,
                    scheduler_decision_generation, deciding_hart, deciding_hart_generation, target_hart,
                    target_hart_generation, reason@) == Ok::<(int, int), &'static str>((s as int, q as int)),
                Err(e) => self.cross_hart_scheduler_decision_verdict(cross_decision, scheduler_decision,
                    scheduler_decision_generation, deciding_hart, deciding_hart_generation, target_hart,
                    target_hart_generation, reason@) == Err::<(int, int), &'static str>(e),
            },
            r matches Ok((s, q)) ==> s < self.scheduler_decisions@.len() && q < self.runnable_queues@.len(),
    {
        if cross_decision == 0 {
            return Err("cross-hart scheduler decision id=0 is invalid");
        }
        if reason.is_empty() {
            return Err("cross-hart scheduler decision reason is empty");
        }
        if deciding_hart == target_hart {
            return Err("cross-hart scheduler decision requires distinct harts");
        }
        if exists_match(
            &self.cross_hart_scheduler_decisions,
            |r: &CrossHartSchedulerDecisionRecord| -> (b: bool)
                ensures b == cross_decision_id_is(cross_decision)(*r)
            { r.id == cross_decision },
            Ghost(cross_decision_id_is(cross_decision)),
        ) {
            return Err("cross-hart scheduler decision already exists");
        }
        let Some(s) = self.find_recorded_scheduler_decision(scheduler_decision, scheduler_decision_generation) else {
            return Err("cross-hart scheduler decision base decision is missing");
        };
        let Some(h) = self.find_hart(deciding_hart, deciding_hart_generation) else {
            return Err("cross-hart scheduler decision deciding hart generation is missing");
        };
        if is_hart_inactive(self.harts[h].state) {
            return Err("cross-hart scheduler decision deciding hart is inactive");
        }
        let Some(t) = self.find_hart(target_hart, target_hart_generation) else {
            return Err("cross-hart scheduler decision target hart generation is missing");
        };
        if is_hart_inactive(self.harts[t].state) {
            return Err("cross-hart scheduler decision target hart is inactive");
        }
        let d = &self.scheduler_decisions[s];
        let Some(q) = self.find_active_runnable_queue(d.queue, d.queue_generation) else {
            return Err("cross-hart scheduler decision queue generation is missing");
        };
        let queue = &self.runnable_queues[q];
        let owner_generation_too_new = match queue.owner_hart_generation {
            None => true,
            Some(generation) => generation > target_hart_generation,
        };
        if queue.owner_hart != Some(target_hart) || owner_generation_too_new {
            return Err("cross-hart scheduler decision queue owner mismatch");
        }
        Ok((s, q))
    }
    /// Attributes `event` to a hart generation under the label `event_kind`; returns the id
    /// the attribution was given.
    pub fn push_hart_event_attribution(
        &mut self,
        hart: HartId,
        hart_generation: Generation,
        event: EventId,
        event_kind: &str,
        activation: Option<ActivationId>,
        activation_generation: Option<Generation>,
        note: &str,
    ) -> (id: crate::types::HartEventAttributionId)
        ensures
            id == old(self).next_hart_event_attribution_id,
            pushed_hart_event_attribution(*old(self), *final(self), hart, hart_generation, event,
                event_kind@, activation, activation_generation, note@),
    {
        let id = self.next_hart_event_attribution_id;
        self.next_hart_event_attribution_id = succ_saturating(id);
        self.hart_event_attributions.push(HartEventAttributionRecord {
            id,
            hart,
            hart_generation,
            event,
            event_kind: event_kind.to_owned(),
            activation,
            activation_generation,
            note: note.to_owned(),
        });
        proof {
            assert(self.hart_event_attributions@.subrange(0, old(self).hart_event_attributions@.len() as int)
                =~= old(self).hart_event_attributions@);
        }
        id
    }

    /// Records a cross-hart decision when the graph accepts it, and attributes its event to
    /// both harts; returns whether it did.
    pub fn record_cross_hart_scheduler_decision_with_id(
        &mut self,
        cross_decision: CrossHartSchedulerDecisionId,
        scheduler_decision: SchedulerDecisionId,
        scheduler_decision_generation: Generation,
        deciding_hart: HartId,
        deciding_hart_generation: Generation,
        target_hart: HartId,
        target_hart_generation: Generation,
        reason: &str,
        note: &str,
    ) -> (ok: bool)
        requires
            old(self).event_log.next_event_id < u64::MAX,
            cross_decision < u64::MAX,
        ensures
            ok == (old(self).cross_hart_scheduler_decision_verdict(cross_decision, scheduler_decision,
                scheduler_decision_generation, deciding_hart, deciding_hart_generation, target_hart,
                target_hart_generation, reason@) is Ok),
            !ok ==> *final(self) == *old(self),
            ok ==> recorded_cross_hart_scheduler_decision(*old(self), *final(self), cross_decision,
                scheduler_decision, scheduler_decision_generation, deciding_hart, deciding_hart_generation,
                target_hart, target_hart_generation, reason@, note@),
    {
        let Ok((s, q)) = self.validate_cross_hart_scheduler_decision(cross_decision, scheduler_decision,
            scheduler_decision_generation, deciding_hart, deciding_hart_generation, target_hart,
            target_hart_generation, reason) else {
            return false;
        };
        let d = &self.scheduler_decisions[s];
        let (queue, queue_generation, activation, activation_generation) =
            (d.queue, d.queue_generation, d.selected_activation, d.selected_activation_generation);
        let Some(queue_owner_hart_generation) = self.runnable_queues[q].owner_hart_generation else {
            return false;
        };
        self.next_cross_hart_scheduler_decision_id = max_of(self.next_cross_hart_scheduler_decision_id, cross_decision + 1);
        let event = self.event_log.push(
            EventDomain::Scheduler,
            EventKind::CrossHartSchedulerDecisionRecorded {
                cross_decision,
                scheduler_decision,
                scheduler_decision_generation,
                deciding_hart,
                deciding_hart_generation,
                target_hart,
                target_hart_generation,
                queue,
                queue_generation,
                activation,
                activation_generation,
                generation: 1,
            },
        );
        self.cross_hart_scheduler_decisions.push(CrossHartSchedulerDecisionRecord {
            id: cross_decision,
            scheduler_decision,
            scheduler_decision_generation,
            deciding_hart,
            deciding_hart_generation,
            target_hart,
            target_hart_generation,
            queue,
            queue_generation,
            queue_owner_hart_generation,
            selected_activation: activation,
            selected_activation_generation: activation_generation,
            generation: 1,
            state: CrossHartSchedulerDecisionState::Recorded,
            decided_at_event: event,
            reason: reason.to_owned(),
            note: note.to_owned(),
        });
        let ghost mid1 = *self;
        proof {
            assert(self.cross_hart_scheduler_decisions@.subrange(0, old(self).cross_hart_scheduler_decisions@.len() as int)
                =~= old(self).cross_hart_scheduler_decisions@);
        }
        let _ = self.push_hart_event_attribution(deciding_hart, deciding_hart_generation, event,
            "CrossHartSchedulerDecisionSourceRecorded", None, None, note);
        let ghost mid2 = *self;
        let _ = self.push_hart_event_attribution(target_hart, target_hart_generation, event,
            "CrossHartSchedulerDecisionTargetRecorded", Some(activation), Some(activation_generation), note);
        proof {
            assert(cross_decision_attributed(mid1, mid2, *self, note@));
        }
        true
    }

    pub fn cross_hart_scheduler_decisions(&self) -> (r: &[CrossHartSchedulerDecisionRecord])
        ensures
            r@ == self.cross_hart_scheduler_decisions@,
    {
        self.cross_hart_scheduler_decisions.as_slice()
    }

    pub fn cross_hart_scheduler_decision_count(&self) -> (r: usize)
        ensures
            r == self.cross_hart_scheduler_decisions@.len(),
    {
        self.cross_hart_scheduler_decisions.len()
    }

    fn cross_hart_scheduler_decision_fault_of(&self, c: &CrossHartSchedulerDecisionRecord) -> (f: Option<SemanticInvariantError>)
        ensures
            f == self.cross_hart_scheduler_decision_fault(*c),
    {
        if c.id == 0 || c.generation == 0 || c.scheduler_decision == 0 || c.scheduler_decision_generation == 0
            || c.deciding_hart == 0 || c.target_hart == 0 || c.deciding_hart == c.target_hart
            || c.queue == 0 || c.queue_generation == 0 || c.queue_owner_hart_generation == 0
            || c.selected_activation == 0 || c.selected_activation_generation == 0
            || c.state != CrossHartSchedulerDecisionState::Recorded {
            return Some(SemanticInvariantError::CrossHartSchedulerDecisionInvalid { cross_decision: c.id });
        }
        let missing_decision = SemanticInvariantError::CrossHartSchedulerDecisionMissingDecision {
            cross_decision: c.id,
            decision: c.scheduler_decision,
        };
        let (sd, sdg) = (c.scheduler_decision, c.scheduler_decision_generation);
        let Some(s) = find_first(
            &self.scheduler_decisions,
            |x: &SchedulerDecisionRecord| -> (b: bool)
                ensures b == kept_scheduler_decision_is(sd, sdg)(*x)
            { x.id == sd && x.generation == sdg && x.state != SchedulerDecisionState::Dropped },
            Ghost(kept_scheduler_decision_is(sd, sdg)),
        ) else {
            return Some(missing_decision);
        };
        let d = &self.scheduler_decisions[s];
        if d.queue != c.queue || d.queue_generation != c.queue_generation
            || d.selected_activation != c.selected_activation
            || d.selected_activation_generation != c.selected_activation_generation {
            return Some(missing_decision);
        }
        let deciding = c.deciding_hart;
        let Some(h) = find_first(
            &self.harts,
            |x: &HartRecord| -> (b: bool)
                ensures b == hart_id_is(deciding)(*x)
            { x.id == deciding },
            Ghost(hart_id_is(deciding)),
        ) else {
            return Some(SemanticInvariantError::CrossHartSchedulerDecisionMissingHart { cross_decision: c.id, hart: c.deciding_hart });
        };
        if self.harts[h].generation < c.deciding_hart_generation {
            return Some(SemanticInvariantError::CrossHartSchedulerDecisionHartGenerationMismatch { cross_decision: c.id, hart: c.deciding_hart });
        }
        let target = c.target_hart;
        let Some(t) = find_first(
            &self.harts,
            |x: &HartRecord| -> (b: bool)
                ensures b == hart_id_is(target)(*x)
            { x.id == target },
            Ghost(hart_id_is(target)),
        ) else {
            return Some(SemanticInvariantError::CrossHartSchedulerDecisionMissingHart { cross_decision: c.id, hart: c.target_hart });
        };
        if self.harts[t].generation < c.target_hart_generation {
            return Some(SemanticInvariantError::CrossHartSchedulerDecisionHartGenerationMismatch { cross_decision: c.id, hart: c.target_hart });
        }
        let owner_mismatch = SemanticInvariantError::CrossHartSchedulerDecisionQueueOwnerMismatch {
            cross_decision: c.id,
            queue: c.queue,
        };
        let queue_id = c.queue;
        let Some(q) = find_first(
            &self.runnable_queues,
            |x: &RunnableQueueRecord| -> (b: bool)
                ensures b == runnable_queue_id_is(queue_id)(*x)
            { x.id == queue_id },
            Ghost(runnable_queue_id_is(queue_id)),
        ) else {
            return Some(owner_mismatch);
        };
        let queue = &self.runnable_queues[q];
        if queue.generation < c.queue_generation
            || (queue.generation == c.queue_generation
                && (queue.owner_hart != Some(c.target_hart)
                    || queue.owner_hart_generation != Some(c.queue_owner_hart_generation)
                    || c.queue_owner_hart_generation > c.target_hart_generation)) {
            return Some(owner_mismatch);
        }
        let recorded = EventKind::CrossHartSchedulerDecisionRecorded {
            cross_decision: c.id,
            scheduler_decision: c.scheduler_decision,
            scheduler_decision_generation: c.scheduler_decision_generation,
            deciding_hart: c.deciding_hart,
            deciding_hart_generation: c.deciding_hart_generation,
            target_hart: c.target_hart,
            target_hart_generation: c.target_hart_generation,
            queue: c.queue,
            queue_generation: c.queue_generation,
            activation: c.selected_activation,
            activation_generation: c.selected_activation_generation,
            generation: c.generation,
        };
        if !self.event_log.has_event(c.decided_at_event, recorded) {
            return Some(SemanticInvariantError::CrossHartSchedulerDecisionMissingEvent { cross_decision: c.id });
        }
        let (event, dh, dhg, th, thg) = (c.decided_at_event, c.deciding_hart, c.deciding_hart_generation,
            c.target_hart, c.target_hart_generation);
        let (act, actg) = (c.selected_activation, c.selected_activation_generation);
        let source = exists_match(
            &self.hart_event_attributions,
            |a: &HartEventAttributionRecord| -> (b: bool)
                ensures b == source_attribution_of(*c)(*a)
            {
                a.event == event && a.hart == dh && a.hart_generation == dhg
                    && str_eq(a.event_kind.as_str(), "CrossHartSchedulerDecisionSourceRecorded")
            },
            Ghost(source_attribution_of(*c)),
        );
        let target_found = exists_match(
            &self.hart_event_attributions,
            |a: &HartEventAttributionRecord| -> (b: bool)
                ensures b == target_attribution_of(*c)(*a)
            {
                a.event == event && a.hart == th && a.hart_generation == thg
                    && str_eq(a.event_kind.as_str(), "CrossHartSchedulerDecisionTargetRecorded")
                    && a.activation == Some(act) && a.activation_generation == Some(actg)
            },
            Ghost(target_attribution_of(*c)),
        );
        if !source || !target_found {
            return Some(SemanticInvariantError::CrossHartSchedulerDecisionMissingHartEventAttribution {
                cross_decision: c.id,
                event: c.decided_at_event,
            });
        }
        None
    }

    /// Audits every cross-hart decision; the first fault found is returned.
    pub fn check_cross_hart_scheduler_invariants(&self) -> (r: Result<(), SemanticInvariantError>)
        ensures
            r == self.cross_hart_scheduler_audit(),
    {
        let ghost faults = Seq::new(self.cross_hart_scheduler_decisions@.len(),
            |i: int| self.cross_hart_scheduler_decision_fault(self.cross_hart_scheduler_decisions@[i]));
        let mut i: usize = 0;
        while i < self.cross_hart_scheduler_decisions.len()
            invariant
                i <= self.cross_hart_scheduler_decisions@.len(),
                faults == Seq::new(self.cross_hart_scheduler_decisions@.len(),
                    |i: int| self.cross_hart_scheduler_decision_fault(self.cross_hart_scheduler_decisions@[i])),
                forall|j: int| 0 <= j < i ==> (#[trigger] faults[j]) is None,
            decreases self.cross_hart_scheduler_decisions@.len() - i,
        {
            if let Some(e) = self.cross_hart_scheduler_decision_fault_of(&self.cross_hart_scheduler_decisions[i]) {
                proof { lemma_first_failure_at(faults, i as int); }
                return Err(e);
            }
            i += 1;
        }
        proof { lemma_first_failure_ok(faults); }
        Ok(())
    }
}

/// `new` is `old` with one more hart event attribution, carrying these values and the id
/// `old` was about to hand out.
pub open spec fn pushed_hart_event_attribution(
    old: SemanticGraph,
    new: SemanticGraph,
    hart: HartId,
    hart_generation: Generation,
    event: EventId,
    event_kind: Seq<char>,
    activation: Option<ActivationId>,
    activation_generation: Option<Generation>,
    note: Seq<char>,
) -> bool {
    let a = new.hart_event_attributions@.last();
    &&& new.agrees_except(&old, set![Table::HartEventAttributions])
    &&& appended_one(old.hart_event_attributions@, new.hart_event_attributions@)
    &&& a.id == old.next_hart_event_attribution_id && a.hart == hart && a.hart_generation == hart_generation
    &&& a.event == event && a.event_kind@ == event_kind && a.activation == activation
    &&& a.activation_generation == activation_generation && a.note@ == note
    &&& new.next_hart_event_attribution_id == saturating_succ(old.next_hart_event_attribution_id)
}

/// From `mid1`, where the last cross-hart decision was just recorded, `new` adds its source
/// attribution and then its target attribution, with `mid2` the graph between them.
pub open spec fn cross_decision_attributed(mid1: SemanticGraph, mid2: SemanticGraph, new: SemanticGraph, note: Seq<char>) -> bool {
    let c = mid1.cross_hart_scheduler_decisions@.last();
    &&& pushed_hart_event_attribution(mid1, mid2, c.deciding_hart, c.deciding_hart_generation,
        c.decided_at_event, source_attribution_label(), None, None, note)
    &&& pushed_hart_event_attribution(mid2, new, c.target_hart, c.target_hart_generation,
        c.decided_at_event, target_attribution_label(), Some(c.selected_activation),
        Some(c.selected_activation_generation), note)
}

/// `new` is `old` after recording the cross-hart decision and attributing its event to both
/// harts; the base decision and queue are those the verdict found.
pub open spec fn recorded_cross_hart_scheduler_decision(
    old: SemanticGraph,
    new: SemanticGraph,
    cross_decision: CrossHartSchedulerDecisionId,
    scheduler_decision: SchedulerDecisionId,
    scheduler_decision_generation: Generation,
    deciding_hart: HartId,
    deciding_hart_generation: Generation,
    target_hart: HartId,
    target_hart_generation: Generation,
    reason: Seq<char>,
    note: Seq<char>,
) -> bool {
    let at = old.cross_hart_scheduler_decision_verdict(cross_decision, scheduler_decision,
        scheduler_decision_generation, deciding_hart, deciding_hart_generation, target_hart,
        target_hart_generation, reason)->Ok_0;
    let d = old.scheduler_decisions@[at.0];
    let queue = old.runnable_queues@[at.1];
    let c = new.cross_hart_scheduler_decisions@.last();
    &&& exists|mid1: SemanticGraph, mid2: SemanticGraph| {
        &&& #[trigger] cross_decision_attributed(mid1, mid2, new, note)
        &&& mid1.agrees_except(&old, set![Table::EventLog, Table::CrossHartSchedulerDecisions])
        &&& appended_one(old.cross_hart_scheduler_decisions@, mid1.cross_hart_scheduler_decisions@)
        &&& appended_event(old.event_log, mid1.event_log, EventDomain::Scheduler, cross_decision_event(c))
        &&& mid1.cross_hart_scheduler_decisions@.last() == c
    }
    &&& c.id == cross_decision && c.scheduler_decision == scheduler_decision
    &&& c.scheduler_decision_generation == scheduler_decision_generation
    &&& c.deciding_hart == deciding_hart && c.deciding_hart_generation == deciding_hart_generation
    &&& c.target_hart == target_hart && c.target_hart_generation == target_hart_generation
    &&& c.queue == d.queue && c.queue_generation == d.queue_generation
    &&& Some(c.queue_owner_hart_generation) == queue.owner_hart_generation
    &&& c.selected_activation == d.selected_activation
    &&& c.selected_activation_generation == d.selected_activation_generation
    &&& c.generation == 1 && c.state == CrossHartSchedulerDecisionState::Recorded
    &&& c.decided_at_event == old.event_log.next_event_id
    &&& c.reason@ == reason && c.note@ == note
    &&& new.next_cross_hart_scheduler_decision_id
        == max_u64(old.next_cross_hart_scheduler_decision_id, (cross_decision + 1) as u64)
}

/// A hart generation of `g` with this id exists and can take part in scheduling (it is neither
/// offline, faulted nor parked).
pub open spec fn has_working_hart(g: SemanticGraph, hart: HartId, generation: Generation) -> bool {
    exists|h: int| 0 <= h < g.harts@.len() && (#[trigger] g.harts@[h]).id == hart && g.harts@[h].generation == generation
        && g.harts@[h].state != HartState::Offline && g.harts@[h].state != HartState::Faulted
        && g.harts@[h].state != HartState::Parked
}

/// When a cross-hart scheduler decision is accepted (`validate_cross_hart_scheduler_decision`
/// accepts and the recorder records it exactly then), its id is new and nonzero, a reason is given,
/// the two harts differ and both generations can take part in scheduling, and the named scheduler
/// decision generation is recorded for an active runnable queue generation owned by the target
/// hart at a generation no later than the target's.
pub proof fn lemma_accepted_cross_hart_decision_targets_queue_owner(
    g: SemanticGraph,
    cross_decision: CrossHartSchedulerDecisionId,
    scheduler_decision: SchedulerDecisionId,
    scheduler_decision_generation: Generation,
    deciding_hart: HartId,
    deciding_hart_generation: Generation,
    target_hart: HartId,
    target_hart_generation: Generation,
    reason: Seq<char>,
)
    requires
        g.cross_hart_scheduler_decision_verdict(cross_decision, scheduler_decision, scheduler_decision_generation,
            deciding_hart, deciding_hart_generation, target_hart, target_hart_generation, reason) is Ok,
    ensures
        cross_decision != 0,
        reason.len() > 0,
        deciding_hart != target_hart,
        forall|i: int| 0 <= i < g.cross_hart_scheduler_decisions@.len()
            ==> (#[trigger] g.cross_hart_scheduler_decisions@[i]).id != cross_decision,
        has_working_hart(g, deciding_hart, deciding_hart_generation),
        has_working_hart(g, target_hart, target_hart_generation),
        exists|s: int, q: int| #![trigger g.scheduler_decisions@[s], g.runnable_queues@[q]]
            0 <= s < g.scheduler_decisions@.len() && 0 <= q < g.runnable_queues@.len() && {
            let d = g.scheduler_decisions@[s];
            let queue = g.runnable_queues@[q];
            &&& d.id == scheduler_decision && d.generation == scheduler_decision_generation
            &&& d.state == SchedulerDecisionState::Recorded
            &&& queue.id == d.queue && queue.generation == d.queue_generation
            &&& queue.state == RunnableQueueState::Active
            &&& queue.owner_hart == Some(target_hart)
            &&& queue.owner_hart_generation is Some && queue.owner_hart_generation->Some_0 <= target_hart_generation
        },
{
    assert forall|i: int| 0 <= i < g.cross_hart_scheduler_decisions@.len()
        implies (#[trigger] g.cross_hart_scheduler_decisions@[i]).id != cross_decision by {
        if g.cross_hart_scheduler_decisions@[i].id == cross_decision {
            assert(cross_decision_id_is(cross_decision)(g.cross_hart_scheduler_decisions@[i]));
        }
    }
    crate::search::lemma_first_match_facts(g.scheduler_decisions@, recorded_scheduler_decision_is(scheduler_decision,
        scheduler_decision_generation));
    let s = first_match(g.scheduler_decisions@, recorded_scheduler_decision_is(scheduler_decision,
        scheduler_decision_generation))->0;
    let d = g.scheduler_decisions@[s];
    assert(recorded_scheduler_decision_is(scheduler_decision, scheduler_decision_generation)(d));
    crate::search::lemma_first_match_facts(g.harts@, hart_is(deciding_hart, deciding_hart_generation));
    let h = first_match(g.harts@, hart_is(deciding_hart, deciding_hart_generation))->0;
    assert(hart_is(deciding_hart, deciding_hart_generation)(g.harts@[h]));
    crate::search::lemma_first_match_facts(g.harts@, hart_is(target_hart, target_hart_generation));
    let t = first_match(g.harts@, hart_is(target_hart, target_hart_generation))->0;
    assert(hart_is(target_hart, target_hart_generation)(g.harts@[t]));
    crate::search::lemma_first_match_facts(g.runnable_queues@, active_runnable_queue_is(d.queue, d.queue_generation));
    let q = first_match(g.runnable_queues@, active_runnable_queue_is(d.queue, d.queue_generation))->0;
    assert(active_runnable_queue_is(d.queue, d.queue_generation)(g.runnable_queues@[q]));
}

} // verus!
