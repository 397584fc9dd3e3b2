use vstd::prelude::*;
use crate::base::{ActivationContextRecord, IpiEventRecord, RuntimeActivationRecord, SavedContextRecord, TimerInterruptRecord};
use crate::graph::SemanticGraph;
use crate::scheduler_preflight::available_hart_is;
use crate::search::{any_match, exists_match, find_first, first_match, lemma_first_match_facts};
use crate::types::{
    ActivationContextId, ActivationContextState, ActivationId, Generation, HartId, HartState, IpiEventId,
    RuntimeActivationState, SavedContextId, TimerInterruptId, PreemptionId, PreemptionState, RunnableQueueId,
    RunnableQueueState, StoreId, StoreState, TaskState,
};
use crate::base::{HartRecord, PreemptionRecord, RunnableQueueRecord, StoreRecord, TaskRecord};
use crate::activation_preflight::{live_store_is, owner_store_verdict, queued_anywhere, task_is};
use crate::activation_wait_preflight::unqueued_running_activation_is;
use crate::wait_preflight::{active_activation_is, context_id_is, live_context_of};

verus! {

/// A saved context with this id.
pub open spec fn saved_context_id_is(id: SavedContextId) -> spec_fn(SavedContextRecord) -> bool {
    |c: SavedContextRecord| c.id == id
}

/// An activation context of this id and generation that has not been dropped.
pub open spec fn live_context_is(id: ActivationContextId, generation: Generation) -> spec_fn(ActivationContextRecord) -> bool {
    |c: ActivationContextRecord| c.id == id && c.generation == generation && c.state != ActivationContextState::Dropped
}

/// A timer interrupt with this id or this epoch.
pub open spec fn timer_interrupt_clashes(id: TimerInterruptId, timer_epoch: u64) -> spec_fn(TimerInterruptRecord) -> bool {
    |t: TimerInterruptRecord| t.id == id || t.timer_epoch == timer_epoch
}

/// A timer interrupt at this epoch or a later one.
pub open spec fn timer_epoch_at_least(timer_epoch: u64) -> spec_fn(TimerInterruptRecord) -> bool {
    |t: TimerInterruptRecord| t.timer_epoch >= timer_epoch
}

/// An ipi event with this id.
pub open spec fn ipi_event_id_is(id: IpiEventId) -> spec_fn(IpiEventRecord) -> bool {
    |e: IpiEventRecord| e.id == id
}

impl SemanticGraph {
    /// Whether register state may be captured into a new saved context of a live activation
    /// context generation that holds none yet.
    pub open spec fn capture_saved_context_verdict(
        &self,
        saved_context: SavedContextId,
        context: ActivationContextId,
        context_generation: Generation,
        pc: u64,
        sp: u64,
    ) -> Result<(), &'static str> {
        if saved_context == 0 {
            Err("saved context id=0 is invalid")
        } else if pc == 0 || sp == 0 {
            Err("saved context requires nonzero pc and sp")
        } else if any_match(self.saved_contexts@, saved_context_id_is(saved_context)) {
            Err("saved context already exists")
        } else {
            match first_match(self.activation_contexts@, live_context_is(context, context_generation)) {
                None => Err("activation context generation is missing or dropped"),
                Some(i) => if self.activation_contexts@[i].current_saved_context is Some {
                    Err("activation context already has saved context")
                } else {
                    Ok(())
                },
            }
        }
    }

    /// Whether a timer interrupt may be recorded: its id and epoch are nonzero and unused, its
    /// epoch is later than every recorded one, its hart generation can take work, and a target
    /// activation, when named with its generation, has neither exited nor died.
    pub open spec fn timer_interrupt_verdict(
        &self,
        interrupt: TimerInterruptId,
        timer_epoch: u64,
        hart: HartId,
        hart_generation: Generation,
        target_activation: Option<ActivationId>,
        target_activation_generation: Option<Generation>,
    ) -> Result<(), &'static str> {
        if interrupt == 0 {
            Err("timer interrupt id=0 is invalid")
        } else if timer_epoch == 0 {
            Err("timer interrupt epoch=0 is invalid")
        } else if any_match(self.timer_interrupts@, timer_interrupt_clashes(interrupt, timer_epoch)) {
            Err("timer interrupt already exists")
        } else if any_match(self.timer_interrupts@, timer_epoch_at_least(timer_epoch)) {
            Err("timer interrupt epoch must be monotonic")
        } else if !any_match(self.harts@, available_hart_is(hart, hart_generation)) {
            Err("timer interrupt hart generation is missing or inactive")
        } else {
            match (target_activation, target_activation_generation) {
                (Some(a), Some(g)) => if any_match(self.runtime_activations@, active_activation_is(a, g)) {
                    Ok(())
                } else {
                    Err("timer interrupt target activation generation is missing or inactive")
                },
                (Some(_), None) => Err("timer interrupt target activation generation is required"),
                (None, Some(_)) => Err("timer interrupt target activation is required"),
                (None, None) => Ok(()),
            }
        }
    }

    /// Whether an ipi may be recorded between two distinct hart generations that can take work.
    pub open spec fn ipi_event_verdict(
        &self,
        ipi: IpiEventId,
        source_hart: HartId,
        source_hart_generation: Generation,
        target_hart: HartId,
        target_hart_generation: Generation,
        reason: Seq<char>,
    ) -> Result<(), &'static str> {
        if ipi == 0 {
            Err("ipi event id=0 is invalid")
        } else if reason.len() == 0 {
            Err("ipi event reason is empty")
        } else if source_hart == target_hart {
            Err("ipi source and target harts must differ")
        } else if any_match(self.ipi_events@, ipi_event_id_is(ipi)) {
            Err("ipi event already exists")
        } else if !any_match(self.harts@, available_hart_is(source_hart, source_hart_generation)) {
            Err("ipi source hart generation is missing or inactive")
        } else if !any_match(self.harts@, available_hart_is(target_hart, target_hart_generation)) {
            Err("ipi target hart generation is missing or inactive")
        } else {
            Ok(())
        }
    }

    fn has_available_hart(&self, hart: HartId, generation: Generation) -> (b: bool)
        ensures
            b == any_match(self.harts@, available_hart_is(hart, generation)),
    {
        exists_match(
            &self.harts,
            |x: &HartRecord| -> (b: bool)
                ensures b == available_hart_is(hart, generation)(*x)
            { x.id == hart && x.generation == generation && x.state != HartState::Offline
                && x.state != HartState::Faulted },
            Ghost(available_hart_is(hart, generation)),
        )
    }

    pub(crate) fn check_capture_saved_context(
        &self,
        saved_context: SavedContextId,
        context: ActivationContextId,
        context_generation: Generation,
        pc: u64,
        sp: u64,
    ) -> (r: Result<(), &'static str>)
        ensures
            r == self.capture_saved_context_verdict(saved_context, context, context_generation, pc, sp),
    {
        if saved_context == 0 {
            return Err("saved context id=0 is invalid");
        }
        if pc == 0 || sp == 0 {
            return Err("saved context requires nonzero pc and sp");
        }
        if exists_match(
            &self.saved_contexts,
            |c: &SavedContextRecord| -> (b: bool)
                ensures b == saved_context_id_is(saved_context)(*c)
            { c.id == saved_context },
            Ghost(saved_context_id_is(saved_context)),
        ) {
            return Err("saved context already exists");
        }
        let Some(i) = find_first(
            &self.activation_contexts,
            |c: &ActivationContextRecord| -> (b: bool)
                ensures b == live_context_is(context, context_generation)(*c)
            { c.id == context && c.generation == context_generation && c.state != ActivationContextState::Dropped },
            Ghost(live_context_is(context, context_generation)),
        ) else {
            return Err("activation context generation is missing or dropped");
        };
        if self.activation_contexts[i].current_saved_context.is_some() {
            Err("activation context already has saved context")
        } else {
            Ok(())
        }
    }

    pub(crate) fn check_timer_interrupt(
        &self,
        interrupt: TimerInterruptId,
        timer_epoch: u64,
        hart: HartId,
        hart_generation: Generation,
        target_activation: Option<ActivationId>,
        target_activation_generation: Option<Generation>,
    ) -> (r: Result<(), &'static str>)
        ensures
            r == self.timer_interrupt_verdict(interrupt, timer_epoch, hart, hart_generation, target_activation,
                target_activation_generation),
    {
        if interrupt == 0 {
            return Err("timer interrupt id=0 is invalid");
        }
        if timer_epoch == 0 {
            return Err("timer interrupt epoch=0 is invalid");
        }
        if exists_match(
            &self.timer_interrupts,
            |t: &TimerInterruptRecord| -> (b: bool)
                ensures b == timer_interrupt_clashes(interrupt, timer_epoch)(*t)
            { t.id == interrupt || t.timer_epoch == timer_epoch },
            Ghost(timer_interrupt_clashes(interrupt, timer_epoch)),
        ) {
            return Err("timer interrupt already exists");
        }
        if exists_match(
            &self.timer_interrupts,
            |t: &TimerInterruptRecord| -> (b: bool)
                ensures b == timer_epoch_at_least(timer_epoch)(*t)
            { t.timer_epoch >= timer_epoch },
            Ghost(timer_epoch_at_least(timer_epoch)),
        ) {
            return Err("timer interrupt epoch must be monotonic");
        }
        if !self.has_available_hart(hart, hart_generation) {
            return Err("timer interrupt hart generation is missing or inactive");
        }
        match (target_activation, target_activation_generation) {
            (Some(a), Some(g)) => if exists_match(
                &self.runtime_activations,
                |x: &RuntimeActivationRecord| -> (b: bool)
                    ensures b == active_activation_is(a, g)(*x)
                { x.id == a && x.generation == g && x.state != RuntimeActivationState::Dead
                    && x.state != RuntimeActivationState::Exited },
                Ghost(active_activation_is(a, g)),
            ) {
                Ok(())
            } else {
                Err("timer interrupt target activation generation is missing or inactive")
            },
            (Some(_), None) => Err("timer interrupt target activation generation is required"),
            (None, Some(_)) => Err("timer interrupt target activation is required"),
            (None, None) => Ok(()),
        }
    }

    pub(crate) fn check_ipi_event(
        &self,
        ipi: IpiEventId,
        source_hart: HartId,
        source_hart_generation: Generation,
        target_hart: HartId,
        target_hart_generation: Generation,
        reason: &str,
    ) -> (r: Result<(), &'static str>)
        ensures
            r == self.ipi_event_verdict(ipi, source_hart, source_hart_generation, target_hart, target_hart_generation,
                reason@),
    {
        if ipi == 0 {
            return Err("ipi event id=0 is invalid");
        }
        if reason.unicode_len() == 0 {
            return Err("ipi event reason is empty");
        }
        if source_hart == target_hart {
            return Err("ipi source and target harts must differ");
        }
        if exists_match(
            &self.ipi_events,
            |e: &IpiEventRecord| -> (b: bool)
                ensures b == ipi_event_id_is(ipi)(*e)
            { e.id == ipi },
            Ghost(ipi_event_id_is(ipi)),
        ) {
            return Err("ipi event already exists");
        }
        if !self.has_available_hart(source_hart, source_hart_generation) {
            return Err("ipi source hart generation is missing or inactive");
        }
        if !self.has_available_hart(target_hart, target_hart_generation) {
            return Err("ipi target hart generation is missing or inactive");
        }
        Ok(())
    }
}

/// A preemption with this id.
pub open spec fn preemption_id_is(id: PreemptionId) -> spec_fn(PreemptionRecord) -> bool {
    |p: PreemptionRecord| p.id == id
}

/// An applied preemption of this id and generation.
pub open spec fn applied_preemption_is(id: PreemptionId, generation: Generation) -> spec_fn(PreemptionRecord) -> bool {
    |p: PreemptionRecord| p.id == id && p.generation == generation && p.state == PreemptionState::Applied
}

/// An active runnable queue with this id (of any generation).
pub open spec fn active_queue_with_id(id: RunnableQueueId) -> spec_fn(RunnableQueueRecord) -> bool {
    |q: RunnableQueueRecord| q.id == id && q.state == RunnableQueueState::Active
}

/// A timer interrupt of this id and generation.
pub open spec fn timer_interrupt_is(id: TimerInterruptId, generation: Generation) -> spec_fn(TimerInterruptRecord) -> bool {
    |t: TimerInterruptRecord| t.id == id && t.generation == generation
}

/// A task state from which a task can no longer be scheduled.
pub open spec fn unschedulable(state: TaskState) -> bool {
    state == TaskState::Pending || state == TaskState::Cancelled || state == TaskState::Faulted
        || state == TaskState::Exited
}

impl SemanticGraph {
    /// Whether a timer interrupt may preempt a running activation generation onto an active
    /// queue: the preemption id is new and nonzero, the activation is on no queue, the timer
    /// interrupt generation targets exactly that activation generation, and the activation's
    /// task can still be scheduled and its store (if any) lives.
    pub open spec fn preempt_activation_verdict(
        &self,
        preemption: PreemptionId,
        activation: ActivationId,
        activation_generation: Generation,
        timer_interrupt: TimerInterruptId,
        timer_interrupt_generation: Generation,
        queue: RunnableQueueId,
    ) -> Result<(), &'static str> {
        if preemption == 0 {
            Err("preemption id=0 is invalid")
        } else if any_match(self.preemptions@, preemption_id_is(preemption)) {
            Err("preemption already exists")
        } else if !any_match(self.runnable_queues@, active_queue_with_id(queue)) {
            Err("preemption queue is missing or inactive")
        } else if queued_anywhere(self.runnable_queues@, activation) {
            Err("activation already queued")
        } else {
            match first_match(self.timer_interrupts@, timer_interrupt_is(timer_interrupt, timer_interrupt_generation)) {
                None => Err("preemption timer interrupt generation is missing"),
                Some(t) => {
                    let timer = self.timer_interrupts@[t];
                    if timer.target_activation != Some(activation)
                        || timer.target_activation_generation != Some(activation_generation) {
                        Err("preemption timer target does not match activation generation")
                    } else {
                        match first_match(self.runtime_activations@, unqueued_running_activation_is(activation,
                            activation_generation)) {
                            None => Err("preemption target activation generation is not running"),
                            Some(k) => {
                                let a = self.runtime_activations@[k];
                                match first_match(self.tasks@, task_is(a.owner_task, a.owner_task_generation)) {
                                    None => Err("preemption owner task generation is missing"),
                                    Some(i) => if unschedulable(self.tasks@[i].state) {
                                        Err("preemption owner task is not runnable")
                                    } else {
                                        owner_store_verdict(self.stores@, a.owner_store, a.owner_store_generation,
                                            "preemption owner store generation is required",
                                            "preemption owner store generation is missing or dead")
                                    },
                                }
                            },
                        }
                    }
                },
            }
        }
    }

    /// Whether the context of a preempted activation may be saved into a new activation
    /// context and saved context: both ids are new and nonzero, pc and sp are nonzero, the
    /// preemption generation was applied, and the activation (at its generation after the
    /// preemption) lives, has no live context, and has its owners.
    pub open spec fn save_preempted_context_verdict(
        &self,
        context: ActivationContextId,
        saved_context: SavedContextId,
        preemption: PreemptionId,
        preemption_generation: Generation,
        pc: u64,
        sp: u64,
    ) -> Result<(), &'static str> {
        if context == 0 || saved_context == 0 {
            Err("preempted context requires nonzero context ids")
        } else if pc == 0 || sp == 0 {
            Err("preempted context requires nonzero pc and sp")
        } else if any_match(self.activation_contexts@, context_id_is(context)) {
            Err("activation context already exists")
        } else if any_match(self.saved_contexts@, saved_context_id_is(saved_context)) {
            Err("saved context already exists")
        } else {
            match first_match(self.preemptions@, applied_preemption_is(preemption, preemption_generation)) {
                None => Err("preemption generation is missing"),
                Some(p) => {
                    let pr = self.preemptions@[p];
                    match first_match(self.runtime_activations@, active_activation_is(pr.activation,
                        pr.activation_generation_after)) {
                        None => Err("preempted activation generation is missing or dead"),
                        Some(k) => {
                            let a = self.runtime_activations@[k];
                            if any_match(self.activation_contexts@, live_context_of(a.id)) {
                                Err("activation already has live context")
                            } else if !any_match(self.tasks@, task_is(a.owner_task, a.owner_task_generation)) {
                                Err("preempted activation owner task generation is missing")
                            } else {
                                owner_store_verdict(self.stores@, a.owner_store, a.owner_store_generation,
                                    "preempted activation owner store generation is required",
                                    "preempted activation owner store generation is missing or dead")
                            }
                        },
                    }
                },
            }
        }
    }

    fn check_activation_owner_store(
        &self,
        a: &RuntimeActivationRecord,
        required: &'static str,
        missing: &'static str,
    ) -> (r: Result<(), &'static str>)
        ensures
            r == owner_store_verdict(self.stores@, a.owner_store, a.owner_store_generation, required, missing),
    {
        match a.owner_store {
            None => Ok(()),
            Some(store) => match a.owner_store_generation {
                None => Err(required),
                Some(generation) => if exists_match(
                    &self.stores,
                    |s: &StoreRecord| -> (b: bool)
                        ensures b == live_store_is(store, generation)(*s)
                    { s.id == store && s.generation == generation && s.state != StoreState::Dead },
                    Ghost(live_store_is(store, generation)),
                ) {
                    Ok(())
                } else {
                    Err(missing)
                },
            },
        }
    }

    fn find_task(&self, id: u64, generation: Generation) -> (r: Option<usize>)
        ensures
            crate::search::opt_index(r) == first_match(self.tasks@, task_is(id, generation)),
    {
        find_first(
            &self.tasks,
            |t: &TaskRecord| -> (b: bool)
                ensures b == task_is(id, generation)(*t)
            { t.id == id && t.generation == generation },
            Ghost(task_is(id, generation)),
        )
    }

    pub(crate) fn check_preempt_activation(
        &self,
        preemption: PreemptionId,
        activation: ActivationId,
        activation_generation: Generation,
        timer_interrupt: TimerInterruptId,
        timer_interrupt_generation: Generation,
        queue: RunnableQueueId,
    ) -> (r: Result<(), &'static str>)
        ensures
            r == self.preempt_activation_verdict(preemption, activation, activation_generation, timer_interrupt,
                timer_interrupt_generation, queue),
    {
        if preemption == 0 {
            return Err("preemption id=0 is invalid");
        }
        if exists_match(
            &self.preemptions,
            |p: &PreemptionRecord| -> (b: bool)
                ensures b == preemption_id_is(preemption)(*p)
            { p.id == preemption },
            Ghost(preemption_id_is(preemption)),
        ) {
            return Err("preemption already exists");
        }
        if !exists_match(
            &self.runnable_queues,
            |q: &RunnableQueueRecord| -> (b: bool)
                ensures b == active_queue_with_id(queue)(*q)
            { q.id == queue && q.state == RunnableQueueState::Active },
            Ghost(active_queue_with_id(queue)),
        ) {
            return Err("preemption queue is missing or inactive");
        }
        if self.queued_in_any_runnable_queue(activation) {
            return Err("activation already queued");
        }
        let Some(t) = find_first(
            &self.timer_interrupts,
            |x: &TimerInterruptRecord| -> (b: bool)
                ensures b == timer_interrupt_is(timer_interrupt, timer_interrupt_generation)(*x)
            { x.id == timer_interrupt && x.generation == timer_interrupt_generation },
            Ghost(timer_interrupt_is(timer_interrupt, timer_interrupt_generation)),
        ) else {
            return Err("preemption timer interrupt generation is missing");
        };
        let timer = &self.timer_interrupts[t];
        if timer.target_activation != Some(activation) || timer.target_activation_generation != Some(activation_generation) {
            return Err("preemption timer target does not match activation generation");
        }
        let Some(k) = find_first(
            &self.runtime_activations,
            |a: &RuntimeActivationRecord| -> (b: bool)
                ensures b == unqueued_running_activation_is(activation, activation_generation)(*a)
            { a.id == activation && a.generation == activation_generation
                && a.state == RuntimeActivationState::Running && a.runnable_queue.is_none()
                && a.runnable_queue_generation.is_none() },
            Ghost(unqueued_running_activation_is(activation, activation_generation)),
        ) else {
            return Err("preemption target activation generation is not running");
        };
        let a = &self.runtime_activations[k];
        let Some(i) = self.find_task(a.owner_task, a.owner_task_generation) else {
            return Err("preemption owner task generation is missing");
        };
        let state = self.tasks[i].state;
        if state == TaskState::Pending || state == TaskState::Cancelled || state == TaskState::Faulted
            || state == TaskState::Exited {
            return Err("preemption owner task is not runnable");
        }
        self.check_activation_owner_store(a, "preemption owner store generation is required",
            "preemption owner store generation is missing or dead")
    }

    pub(crate) fn check_save_preempted_context(
        &self,
        context: ActivationContextId,
        saved_context: SavedContextId,
        preemption: PreemptionId,
        preemption_generation: Generation,
        pc: u64,
        sp: u64,
    ) -> (r: Result<(), &'static str>)
        ensures
            r == self.save_preempted_context_verdict(context, saved_context, preemption, preemption_generation, pc, sp),
    {
        if context == 0 || saved_context == 0 {
            return Err("preempted context requires nonzero context ids");
        }
        if pc == 0 || sp == 0 {
            return Err("preempted context requires nonzero pc and sp");
        }
        if exists_match(
            &self.activation_contexts,
            |c: &ActivationContextRecord| -> (b: bool)
                ensures b == context_id_is(context)(*c)
            { c.id == context },
            Ghost(context_id_is(context)),
        ) {
            return Err("activation context already exists");
        }
        if exists_match(
            &self.saved_contexts,
            |c: &SavedContextRecord| -> (b: bool)
                ensures b == saved_context_id_is(saved_context)(*c)
            { c.id == saved_context },
            Ghost(saved_context_id_is(saved_context)),
        ) {
            return Err("saved context already exists");
        }
        let Some(p) = find_first(
            &self.preemptions,
            |x: &PreemptionRecord| -> (b: bool)
                ensures b == applied_preemption_is(preemption, preemption_generation)(*x)
            { x.id == preemption && x.generation == preemption_generation && x.state == PreemptionState::Applied },
            Ghost(applied_preemption_is(preemption, preemption_generation)),
        ) else {
            return Err("preemption generation is missing");
        };
        let (pa, pag) = (self.preemptions[p].activation, self.preemptions[p].activation_generation_after);
        let Some(k) = find_first(
            &self.runtime_activations,
            |x: &RuntimeActivationRecord| -> (b: bool)
                ensures b == active_activation_is(pa, pag)(*x)
            { x.id == pa && x.generation == pag && x.state != RuntimeActivationState::Dead
                && x.state != RuntimeActivationState::Exited },
            Ghost(active_activation_is(pa, pag)),
        ) else {
            return Err("preempted activation generation is missing or dead");
        };
        let a = &self.runtime_activations[k];
        let id = a.id;
        if exists_match(
            &self.activation_contexts,
            |c: &ActivationContextRecord| -> (b: bool)
                ensures b == live_context_of(id)(*c)
            { c.activation == id && c.state != ActivationContextState::Dropped },
            Ghost(live_context_of(id)),
        ) {
            return Err("activation already has live context");
        }
        if self.find_task(a.owner_task, a.owner_task_generation).is_none() {
            proof { crate::search::lemma_first_match_facts(self.tasks@, task_is(a.owner_task, a.owner_task_generation)); }
            return Err("preempted activation owner task generation is missing");
        }
        proof { crate::search::lemma_first_match_facts(self.tasks@, task_is(a.owner_task, a.owner_task_generation)); }
        self.check_activation_owner_store(a, "preempted activation owner store generation is required",
            "preempted activation owner store generation is missing or dead")
    }
}

/// When capturing a saved context is accepted, its id is new and nonzero, pc and sp are nonzero,
/// and the named activation context generation exists, is not dropped and holds no saved context.
pub proof fn lemma_accepted_capture_fills_an_empty_context(
    g: SemanticGraph,
    saved_context: SavedContextId,
    context: ActivationContextId,
    context_generation: Generation,
    pc: u64,
    sp: u64,
)
    requires
        g.capture_saved_context_verdict(saved_context, context, context_generation, pc, sp) is Ok,
    ensures
        saved_context != 0 && pc != 0 && sp != 0,
        forall|i: int| 0 <= i < g.saved_contexts@.len() ==> (#[trigger] g.saved_contexts@[i]).id != saved_context,
        exists|c: int| 0 <= c < g.activation_contexts@.len() && (#[trigger] g.activation_contexts@[c]).id == context
            && g.activation_contexts@[c].generation == context_generation
            && g.activation_contexts@[c].state != ActivationContextState::Dropped
            && g.activation_contexts@[c].current_saved_context is None,
{
    assert forall|i: int| 0 <= i < g.saved_contexts@.len() implies (#[trigger] g.saved_contexts@[i]).id != saved_context by {
        if g.saved_contexts@[i].id == saved_context {
            assert(saved_context_id_is(saved_context)(g.saved_contexts@[i]));
        }
    }
    lemma_first_match_facts(g.activation_contexts@, live_context_is(context, context_generation));
    let c = first_match(g.activation_contexts@, live_context_is(context, context_generation))->0;
    assert(live_context_is(context, context_generation)(g.activation_contexts@[c]));
}

/// When a timer interrupt is accepted, its id and epoch are nonzero, no recorded interrupt has
/// its id, and its epoch is later than every recorded epoch; its hart generation exists and is
/// neither offline nor faulted; a target activation is named together with its generation, and
/// that generation has neither exited nor died.
pub proof fn lemma_accepted_timer_interrupt_advances_the_epoch(
    g: SemanticGraph,
    interrupt: TimerInterruptId,
    timer_epoch: u64,
    hart: HartId,
    hart_generation: Generation,
    target_activation: Option<ActivationId>,
    target_activation_generation: Option<Generation>,
)
    requires
        g.timer_interrupt_verdict(interrupt, timer_epoch, hart, hart_generation, target_activation,
            target_activation_generation) is Ok,
    ensures
        interrupt != 0 && timer_epoch != 0,
        forall|i: int| 0 <= i < g.timer_interrupts@.len() ==> (#[trigger] g.timer_interrupts@[i]).id != interrupt
            && g.timer_interrupts@[i].timer_epoch < timer_epoch,
        exists|h: int| 0 <= h < g.harts@.len() && (#[trigger] g.harts@[h]).id == hart
            && g.harts@[h].generation == hart_generation && g.harts@[h].state != HartState::Offline
            && g.harts@[h].state != HartState::Faulted,
        target_activation is Some <==> target_activation_generation is Some,
        target_activation is Some ==> exists|k: int| 0 <= k < g.runtime_activations@.len()
            && (#[trigger] g.runtime_activations@[k]).id == target_activation->Some_0
            && g.runtime_activations@[k].generation == target_activation_generation->Some_0
            && g.runtime_activations@[k].state != RuntimeActivationState::Dead
            && g.runtime_activations@[k].state != RuntimeActivationState::Exited,
{
    assert forall|i: int| 0 <= i < g.timer_interrupts@.len() implies (#[trigger] g.timer_interrupts@[i]).id != interrupt
        && g.timer_interrupts@[i].timer_epoch < timer_epoch by {
        if g.timer_interrupts@[i].id == interrupt || g.timer_interrupts@[i].timer_epoch == timer_epoch {
            assert(timer_interrupt_clashes(interrupt, timer_epoch)(g.timer_interrupts@[i]));
        }
        if g.timer_interrupts@[i].timer_epoch >= timer_epoch {
            assert(timer_epoch_at_least(timer_epoch)(g.timer_interrupts@[i]));
        }
    }
    let h = choose|h: int| 0 <= h < g.harts@.len() && available_hart_is(hart, hart_generation)(#[trigger] g.harts@[h]);
    assert(available_hart_is(hart, hart_generation)(g.harts@[h]));
    if target_activation is Some {
        let a = target_activation->Some_0;
        let ag = target_activation_generation->Some_0;
        let k = choose|k: int| 0 <= k < g.runtime_activations@.len() && active_activation_is(a, ag)(#[trigger] g.runtime_activations@[k]);
        assert(active_activation_is(a, ag)(g.runtime_activations@[k]));
    }
}

/// When an ipi is accepted, its id is new and nonzero, a reason is given, and it goes between two
/// distinct hart generations that both exist and are neither offline nor faulted.
pub proof fn lemma_accepted_ipi_joins_two_available_harts(
    g: SemanticGraph,
    ipi: IpiEventId,
    source_hart: HartId,
    source_hart_generation: Generation,
    target_hart: HartId,
    target_hart_generation: Generation,
    reason: Seq<char>,
)
    requires
        g.ipi_event_verdict(ipi, source_hart, source_hart_generation, target_hart, target_hart_generation, reason) is Ok,
    ensures
        ipi != 0 && reason.len() > 0 && source_hart != target_hart,
        forall|i: int| 0 <= i < g.ipi_events@.len() ==> (#[trigger] g.ipi_events@[i]).id != ipi,
        exists|h: int| 0 <= h < g.harts@.len() && (#[trigger] g.harts@[h]).id == source_hart
            && g.harts@[h].generation == source_hart_generation && g.harts@[h].state != HartState::Offline
            && g.harts@[h].state != HartState::Faulted,
        exists|h: int| 0 <= h < g.harts@.len() && (#[trigger] g.harts@[h]).id == target_hart
            && g.harts@[h].generation == target_hart_generation && g.harts@[h].state != HartState::Offline
            && g.harts@[h].state != HartState::Faulted,
{
    assert forall|i: int| 0 <= i < g.ipi_events@.len() implies (#[trigger] g.ipi_events@[i]).id != ipi by {
        if g.ipi_events@[i].id == ipi {
            assert(ipi_event_id_is(ipi)(g.ipi_events@[i]));
        }
    }
    let h = choose|h: int| 0 <= h < g.harts@.len() && available_hart_is(source_hart, source_hart_generation)(#[trigger] g.harts@[h]);
    assert(available_hart_is(source_hart, source_hart_generation)(g.harts@[h]));
    let t = choose|t: int| 0 <= t < g.harts@.len() && available_hart_is(target_hart, target_hart_generation)(#[trigger] g.harts@[t]);
    assert(available_hart_is(target_hart, target_hart_generation)(g.harts@[t]));
}

/// When a preemption is accepted, its id is new and nonzero, an active queue has the named id, no
/// queue holds the activation, the timer interrupt generation targets exactly that activation
/// generation, and the activation generation is running on no queue with an owner task generation
/// that exists and is not pending, cancelled, faulted or exited.
pub proof fn lemma_accepted_preemption_follows_its_timer(
    g: SemanticGraph,
    preemption: PreemptionId,
    activation: ActivationId,
    activation_generation: Generation,
    timer_interrupt: TimerInterruptId,
    timer_interrupt_generation: Generation,
    queue: RunnableQueueId,
)
    requires
        g.preempt_activation_verdict(preemption, activation, activation_generation, timer_interrupt,
            timer_interrupt_generation, queue) is Ok,
    ensures
        preemption != 0,
        forall|i: int| 0 <= i < g.preemptions@.len() ==> (#[trigger] g.preemptions@[i]).id != preemption,
        exists|q: int| 0 <= q < g.runnable_queues@.len() && (#[trigger] g.runnable_queues@[q]).id == queue
            && g.runnable_queues@[q].state == RunnableQueueState::Active,
        forall|q: int, e: int| #![trigger g.runnable_queues@[q].entries@[e]]
            0 <= q < g.runnable_queues@.len() && 0 <= e < g.runnable_queues@[q].entries@.len()
            ==> g.runnable_queues@[q].entries@[e].activation != activation,
        exists|t: int| 0 <= t < g.timer_interrupts@.len() && (#[trigger] g.timer_interrupts@[t]).id == timer_interrupt
            && g.timer_interrupts@[t].generation == timer_interrupt_generation
            && g.timer_interrupts@[t].target_activation == Some(activation)
            && g.timer_interrupts@[t].target_activation_generation == Some(activation_generation),
        exists|k: int, i: int| #![trigger g.runtime_activations@[k], g.tasks@[i]]
            0 <= k < g.runtime_activations@.len() && 0 <= i < g.tasks@.len() && {
            let a = g.runtime_activations@[k];
            let task = g.tasks@[i];
            &&& a.id == activation && a.generation == activation_generation
            &&& a.state == RuntimeActivationState::Running && a.runnable_queue is None
            &&& task.id == a.owner_task && task.generation == a.owner_task_generation
            &&& task.state != TaskState::Pending && task.state != TaskState::Cancelled
            &&& task.state != TaskState::Faulted && task.state != TaskState::Exited
        },
{
    assert forall|i: int| 0 <= i < g.preemptions@.len() implies (#[trigger] g.preemptions@[i]).id != preemption by {
        if g.preemptions@[i].id == preemption {
            assert(preemption_id_is(preemption)(g.preemptions@[i]));
        }
    }
    let q = choose|q: int| 0 <= q < g.runnable_queues@.len() && active_queue_with_id(queue)(#[trigger] g.runnable_queues@[q]);
    assert(active_queue_with_id(queue)(g.runnable_queues@[q]));
    assert forall|q: int, e: int| #![trigger g.runnable_queues@[q].entries@[e]]
        0 <= q < g.runnable_queues@.len() && 0 <= e < g.runnable_queues@[q].entries@.len()
        implies g.runnable_queues@[q].entries@[e].activation != activation by {
        if g.runnable_queues@[q].entries@[e].activation == activation {
            assert(crate::scheduler_preflight::entry_for_activation(activation)(g.runnable_queues@[q].entries@[e]));
            assert(any_match(g.runnable_queues@[q].entries@, crate::scheduler_preflight::entry_for_activation(activation)));
        }
    }
    lemma_first_match_facts(g.timer_interrupts@, timer_interrupt_is(timer_interrupt, timer_interrupt_generation));
    let t = first_match(g.timer_interrupts@, timer_interrupt_is(timer_interrupt, timer_interrupt_generation))->0;
    assert(timer_interrupt_is(timer_interrupt, timer_interrupt_generation)(g.timer_interrupts@[t]));
    lemma_first_match_facts(g.runtime_activations@, unqueued_running_activation_is(activation, activation_generation));
    let k = first_match(g.runtime_activations@, unqueued_running_activation_is(activation, activation_generation))->0;
    let a = g.runtime_activations@[k];
    assert(unqueued_running_activation_is(activation, activation_generation)(a));
    lemma_first_match_facts(g.tasks@, task_is(a.owner_task, a.owner_task_generation));
    let i = first_match(g.tasks@, task_is(a.owner_task, a.owner_task_generation))->0;
    assert(task_is(a.owner_task, a.owner_task_generation)(g.tasks@[i]));
}

/// When saving a preempted context is accepted, both ids are new and nonzero, pc and sp are
/// nonzero, the preemption generation was applied, and the activation at its generation after the
/// preemption has neither exited nor died and has no live context.
pub proof fn lemma_accepted_preempted_save_is_fresh(
    g: SemanticGraph,
    context: ActivationContextId,
    saved_context: SavedContextId,
    preemption: PreemptionId,
    preemption_generation: Generation,
    pc: u64,
    sp: u64,
)
    requires
        g.save_preempted_context_verdict(context, saved_context, preemption, preemption_generation, pc, sp) is Ok,
    ensures
        context != 0 && saved_context != 0 && pc != 0 && sp != 0,
        forall|i: int| 0 <= i < g.activation_contexts@.len() ==> (#[trigger] g.activation_contexts@[i]).id != context,
        forall|i: int| 0 <= i < g.saved_contexts@.len() ==> (#[trigger] g.saved_contexts@[i]).id != saved_context,
        exists|p: int| 0 <= p < g.preemptions@.len() && {
            let pr = #[trigger] g.preemptions@[p];
            &&& pr.id == preemption && pr.generation == preemption_generation
            &&& pr.state == PreemptionState::Applied
            &&& exists|k: int| 0 <= k < g.runtime_activations@.len() && (#[trigger] g.runtime_activations@[k]).id == pr.activation
                && g.runtime_activations@[k].generation == pr.activation_generation_after
                && g.runtime_activations@[k].state != RuntimeActivationState::Dead
                && g.runtime_activations@[k].state != RuntimeActivationState::Exited
            &&& forall|c: int| 0 <= c < g.activation_contexts@.len() && (#[trigger] g.activation_contexts@[c]).activation == pr.activation
                ==> g.activation_contexts@[c].state == ActivationContextState::Dropped
        },
{
    assert forall|i: int| 0 <= i < g.activation_contexts@.len() implies (#[trigger] g.activation_contexts@[i]).id != context by {
        if g.activation_contexts@[i].id == context {
            assert(context_id_is(context)(g.activation_contexts@[i]));
        }
    }
    assert forall|i: int| 0 <= i < g.saved_contexts@.len() implies (#[trigger] g.saved_contexts@[i]).id != saved_context by {
        if g.saved_contexts@[i].id == saved_context {
            assert(saved_context_id_is(saved_context)(g.saved_contexts@[i]));
        }
    }
    lemma_first_match_facts(g.preemptions@, applied_preemption_is(preemption, preemption_generation));
    let p = first_match(g.preemptions@, applied_preemption_is(preemption, preemption_generation))->0;
    let pr = g.preemptions@[p];
    assert(applied_preemption_is(preemption, preemption_generation)(pr));
    lemma_first_match_facts(g.runtime_activations@, active_activation_is(pr.activation, pr.activation_generation_after));
    let k = first_match(g.runtime_activations@, active_activation_is(pr.activation, pr.activation_generation_after))->0;
    let a = g.runtime_activations@[k];
    assert(active_activation_is(pr.activation, pr.activation_generation_after)(a));
    assert forall|c: int| 0 <= c < g.activation_contexts@.len() && (#[trigger] g.activation_contexts@[c]).activation == pr.activation
        implies g.activation_contexts@[c].state == ActivationContextState::Dropped by {
        if g.activation_contexts@[c].state != ActivationContextState::Dropped {
            assert(live_context_of(a.id)(g.activation_contexts@[c]));
        }
    }
}

} // verus!
