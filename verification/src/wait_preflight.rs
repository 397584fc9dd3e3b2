use vstd::prelude::*;
use crate::base::{ActivationContextRecord, IoWaitRecord, IrqEventRecord, RuntimeActivationRecord, SocketWaitRecord, WaitRecord};
use crate::lookup2::pending_wait_is;
use crate::graph::SemanticGraph;
use crate::search::{any_match, exists_match, find_first, first_match, lemma_first_match_facts};
use crate::types::{
    ActivationContextId, ActivationContextState, ActivationId, Generation, IoWaitId, IoWaitState,
    RuntimeActivationState, SemanticWaitKind, SocketWaitId, SocketWaitState, WaitCancelReason, ContractObjectKind,
    IrqEventId, IrqEventState, WaitState,
};

verus! {

/// A pending socket wait of this id and generation that a readiness report can resolve: the
/// report carries a sequence, and a readable wait also some bytes.
pub open spec fn resolvable_socket_wait(id: SocketWaitId, generation: Generation, ready_sequence: u64, byte_len: u64) -> spec_fn(SocketWaitRecord) -> bool {
    |w: SocketWaitRecord| w.id == id && w.generation == generation && w.state == SocketWaitState::Pending
        && ready_sequence > 0 && (w.wait_kind != SemanticWaitKind::SocketReadable || byte_len > 0)
}

/// A pending socket wait of this id and generation.
pub open spec fn pending_socket_wait_is(id: SocketWaitId, generation: Generation) -> spec_fn(SocketWaitRecord) -> bool {
    |w: SocketWaitRecord| w.id == id && w.generation == generation && w.state == SocketWaitState::Pending
}

/// A pending io wait of this id and generation.
pub open spec fn pending_io_wait_is(id: IoWaitId, generation: Generation) -> spec_fn(IoWaitRecord) -> bool {
    |w: IoWaitRecord| w.id == id && w.generation == generation && w.state == IoWaitState::Pending
}

/// An activation context with this id (in any state).
pub open spec fn context_id_is(id: ActivationContextId) -> spec_fn(ActivationContextRecord) -> bool {
    |c: ActivationContextRecord| c.id == id
}

/// A context of this activation (of any generation) that has not been dropped.
pub open spec fn live_context_of(activation: ActivationId) -> spec_fn(ActivationContextRecord) -> bool {
    |c: ActivationContextRecord| c.activation == activation && c.state != ActivationContextState::Dropped
}

/// A runtime activation of this id and generation that has neither exited nor died.
pub open spec fn active_activation_is(id: ActivationId, generation: Generation) -> spec_fn(RuntimeActivationRecord) -> bool {
    |a: RuntimeActivationRecord| a.id == id && a.generation == generation
        && a.state != RuntimeActivationState::Dead && a.state != RuntimeActivationState::Exited
}

/// The reasons for which a socket wait may be cancelled.
pub open spec fn socket_cancel_reason(reason: WaitCancelReason) -> bool {
    reason == WaitCancelReason::CloseFd || reason == WaitCancelReason::StoreFault
        || reason == WaitCancelReason::CapabilityRevoked || reason == WaitCancelReason::DeviceFault
        || reason == WaitCancelReason::ResourceDropped || reason == WaitCancelReason::GenerationMismatch
}

/// The reasons for which an io wait may be cancelled.
pub open spec fn io_cancel_reason(reason: WaitCancelReason) -> bool {
    reason == WaitCancelReason::DeviceFault || reason == WaitCancelReason::CapabilityRevoked
        || reason == WaitCancelReason::ResourceDropped || reason == WaitCancelReason::GenerationMismatch
}

fn is_socket_cancel_reason(reason: WaitCancelReason) -> (b: bool)
    ensures
        b == socket_cancel_reason(reason),
{
    reason == WaitCancelReason::CloseFd || reason == WaitCancelReason::StoreFault
        || reason == WaitCancelReason::CapabilityRevoked || reason == WaitCancelReason::DeviceFault
        || reason == WaitCancelReason::ResourceDropped || reason == WaitCancelReason::GenerationMismatch
}

fn is_io_cancel_reason(reason: WaitCancelReason) -> (b: bool)
    ensures
        b == io_cancel_reason(reason),
{
    reason == WaitCancelReason::DeviceFault || reason == WaitCancelReason::CapabilityRevoked
        || reason == WaitCancelReason::ResourceDropped || reason == WaitCancelReason::GenerationMismatch
}

impl SemanticGraph {
    /// Whether a readiness report may resolve a socket wait generation.
    pub open spec fn socket_wait_resolution_verdict(
        &self,
        socket_wait: SocketWaitId,
        socket_wait_generation: Generation,
        ready_sequence: u64,
        byte_len: u64,
    ) -> Result<(), &'static str> {
        if any_match(self.socket_waits@, resolvable_socket_wait(socket_wait, socket_wait_generation, ready_sequence, byte_len)) {
            Ok(())
        } else {
            Err("socket wait is not pending or readiness is empty")
        }
    }

    /// Whether a socket wait generation may be cancelled for `reason`.
    pub open spec fn socket_wait_cancellation_verdict(
        &self,
        socket_wait: SocketWaitId,
        socket_wait_generation: Generation,
        reason: WaitCancelReason,
    ) -> Result<(), &'static str> {
        if any_match(self.socket_waits@, pending_socket_wait_is(socket_wait, socket_wait_generation))
            && socket_cancel_reason(reason) {
            Ok(())
        } else {
            Err("socket wait is not pending or cancel reason is not socket-visible")
        }
    }

    /// Whether an io wait generation may be cancelled for `reason`.
    pub open spec fn io_wait_cancellation_verdict(
        &self,
        io_wait: IoWaitId,
        io_wait_generation: Generation,
        reason: WaitCancelReason,
    ) -> Result<(), &'static str> {
        if !io_cancel_reason(reason) {
            Err("io wait cancellation reason is not an io reason")
        } else if any_match(self.io_waits@, pending_io_wait_is(io_wait, io_wait_generation)) {
            Ok(())
        } else {
            Err("io wait generation is missing or not pending")
        }
    }

    /// Whether a register context may be created for an activation generation: the id is
    /// nonzero and unused, the activation has no live context, and it has neither exited nor died.
    pub open spec fn activation_context_verdict(
        &self,
        context: ActivationContextId,
        activation: ActivationId,
        activation_generation: Generation,
    ) -> Result<(), &'static str> {
        if context == 0 {
            Err("activation context id=0 is invalid")
        } else if any_match(self.activation_contexts@, context_id_is(context)) {
            Err("activation context already exists")
        } else if any_match(self.activation_contexts@, live_context_of(activation)) {
            Err("activation already has a live context")
        } else if any_match(self.runtime_activations@, active_activation_is(activation, activation_generation)) {
            Ok(())
        } else {
            Err("activation generation is missing or inactive")
        }
    }

    pub(crate) fn check_socket_wait_resolution(
        &self,
        socket_wait: SocketWaitId,
        socket_wait_generation: Generation,
        ready_sequence: u64,
        byte_len: u64,
    ) -> (r: Result<(), &'static str>)
        ensures
            r == self.socket_wait_resolution_verdict(socket_wait, socket_wait_generation, ready_sequence, byte_len),
    {
        if exists_match(
            &self.socket_waits,
            |w: &SocketWaitRecord| -> (b: bool)
                ensures b == resolvable_socket_wait(socket_wait, socket_wait_generation, ready_sequence, byte_len)(*w)
            { w.id == socket_wait && w.generation == socket_wait_generation && w.state == SocketWaitState::Pending
                && ready_sequence > 0 && (w.wait_kind != SemanticWaitKind::SocketReadable || byte_len > 0) },
            Ghost(resolvable_socket_wait(socket_wait, socket_wait_generation, ready_sequence, byte_len)),
        ) {
            Ok(())
        } else {
            Err("socket wait is not pending or readiness is empty")
        }
    }

    pub(crate) fn check_socket_wait_cancellation(
        &self,
        socket_wait: SocketWaitId,
        socket_wait_generation: Generation,
        reason: WaitCancelReason,
    ) -> (r: Result<(), &'static str>)
        ensures
            r == self.socket_wait_cancellation_verdict(socket_wait, socket_wait_generation, reason),
    {
        if exists_match(
            &self.socket_waits,
            |w: &SocketWaitRecord| -> (b: bool)
                ensures b == pending_socket_wait_is(socket_wait, socket_wait_generation)(*w)
            { w.id == socket_wait && w.generation == socket_wait_generation && w.state == SocketWaitState::Pending },
            Ghost(pending_socket_wait_is(socket_wait, socket_wait_generation)),
        ) && is_socket_cancel_reason(reason) {
            Ok(())
        } else {
            Err("socket wait is not pending or cancel reason is not socket-visible")
        }
    }

    pub(crate) fn check_io_wait_cancellation(
        &self,
        io_wait: IoWaitId,
        io_wait_generation: Generation,
        reason: WaitCancelReason,
    ) -> (r: Result<(), &'static str>)
        ensures
            r == self.io_wait_cancellation_verdict(io_wait, io_wait_generation, reason),
    {
        if !is_io_cancel_reason(reason) {
            return Err("io wait cancellation reason is not an io reason");
        }
        if exists_match(
            &self.io_waits,
            |w: &IoWaitRecord| -> (b: bool)
                ensures b == pending_io_wait_is(io_wait, io_wait_generation)(*w)
            { w.id == io_wait && w.generation == io_wait_generation && w.state == IoWaitState::Pending },
            Ghost(pending_io_wait_is(io_wait, io_wait_generation)),
        ) {
            Ok(())
        } else {
            Err("io wait generation is missing or not pending")
        }
    }

    pub(crate) fn check_activation_context(
        &self,
        context: ActivationContextId,
        activation: ActivationId,
        activation_generation: Generation,
    ) -> (r: Result<(), &'static str>)
        ensures
            r == self.activation_context_verdict(context, activation, activation_generation),
    {
        if context == 0 {
            return Err("activation context id=0 is invalid");
        }
        if exists_match(
            &self.activation_contexts,
            |c: &ActivationContextRecord| -> (b: bool)
                ensures b == context_id_is(context)(*c)
            { c.id == context },
            Ghost(context_id_is(context)),
        ) {
            return Err("activation context already exists");
        }
        if exists_match(
            &self.activation_contexts,
            |c: &ActivationContextRecord| -> (b: bool)
                ensures b == live_context_of(activation)(*c)
            { c.activation == activation && c.state != ActivationContextState::Dropped },
            Ghost(live_context_of(activation)),
        ) {
            return Err("activation already has a live context");
        }
        if exists_match(
            &self.runtime_activations,
            |a: &RuntimeActivationRecord| -> (b: bool)
                ensures b == active_activation_is(activation, activation_generation)(*a)
            { a.id == activation && a.generation == activation_generation
                && a.state != RuntimeActivationState::Dead && a.state != RuntimeActivationState::Exited },
            Ghost(active_activation_is(activation, activation_generation)),
        ) {
            Ok(())
        } else {
            Err("activation generation is missing or inactive")
        }
    }
}

/// A recorded interrupt of this id and generation.
pub open spec fn recorded_irq_is(id: IrqEventId, generation: Generation) -> spec_fn(IrqEventRecord) -> bool {
    |e: IrqEventRecord| e.id == id && e.generation == generation && e.state == IrqEventState::Recorded
}

impl SemanticGraph {
    /// Whether an interrupt may resolve an io wait generation: the wait is pending, the interrupt
    /// was recorded, a wait blocked on an interrupt line names the interrupt's line generation,
    /// the wait token is pending, and the interrupt is attributed to the wait's device and
    /// driver generations.
    pub open spec fn io_wait_resolution_verdict(
        &self,
        io_wait: IoWaitId,
        io_wait_generation: Generation,
        irq_event: IrqEventId,
        irq_event_generation: Generation,
    ) -> Result<(), &'static str> {
        match first_match(self.io_waits@, pending_io_wait_is(io_wait, io_wait_generation)) {
            None => Err("io wait generation is missing or not pending"),
            Some(i) => {
                let r = self.io_waits@[i];
                match first_match(self.irq_events@, recorded_irq_is(irq_event, irq_event_generation)) {
                    None => Err("io wait irq event generation is missing"),
                    Some(j) => {
                        let irq = self.irq_events@[j];
                        if r.blocker.kind == ContractObjectKind::IrqLineObject
                            && (r.blocker.id != irq.irq_line || r.blocker.generation != irq.irq_line_generation) {
                            Err("io wait irq line attribution mismatch")
                        } else if !any_match(self.waits@, pending_wait_is(r.wait, r.wait_generation)) {
                            Err("io wait token generation is missing or not pending")
                        } else if irq.device == r.device && irq.device_generation == r.device_generation
                            && irq.driver_store == r.driver_store
                            && irq.driver_store_generation == r.driver_store_generation {
                            Ok(())
                        } else {
                            Err("io wait irq event attribution mismatch")
                        }
                    },
                }
            },
        }
    }

    pub(crate) fn check_io_wait_resolution(
        &self,
        io_wait: IoWaitId,
        io_wait_generation: Generation,
        irq_event: IrqEventId,
        irq_event_generation: Generation,
    ) -> (r: Result<(), &'static str>)
        ensures
            r == self.io_wait_resolution_verdict(io_wait, io_wait_generation, irq_event, irq_event_generation),
    {
        let Some(i) = find_first(
            &self.io_waits,
            |w: &IoWaitRecord| -> (b: bool)
                ensures b == pending_io_wait_is(io_wait, io_wait_generation)(*w)
            { w.id == io_wait && w.generation == io_wait_generation && w.state == IoWaitState::Pending },
            Ghost(pending_io_wait_is(io_wait, io_wait_generation)),
        ) else {
            return Err("io wait generation is missing or not pending");
        };
        let Some(j) = find_first(
            &self.irq_events,
            |e: &IrqEventRecord| -> (b: bool)
                ensures b == recorded_irq_is(irq_event, irq_event_generation)(*e)
            { e.id == irq_event && e.generation == irq_event_generation && e.state == IrqEventState::Recorded },
            Ghost(recorded_irq_is(irq_event, irq_event_generation)),
        ) else {
            return Err("io wait irq event generation is missing");
        };
        let r = &self.io_waits[i];
        let irq = &self.irq_events[j];
        if r.blocker.kind == ContractObjectKind::IrqLineObject
            && (r.blocker.id != irq.irq_line || r.blocker.generation != irq.irq_line_generation) {
            return Err("io wait irq line attribution mismatch");
        }
        let (w, wg) = (r.wait, r.wait_generation);
        if !exists_match(
            &self.waits,
            |x: &WaitRecord| -> (b: bool)
                ensures b == pending_wait_is(w, wg)(*x)
            { x.id == w && x.generation == wg && x.state == WaitState::Pending },
            Ghost(pending_wait_is(w, wg)),
        ) {
            return Err("io wait token generation is missing or not pending");
        }
        if irq.device == r.device && irq.device_generation == r.device_generation && irq.driver_store == r.driver_store
            && irq.driver_store_generation == r.driver_store_generation {
            Ok(())
        } else {
            Err("io wait irq event attribution mismatch")
        }
    }
}

/// When resolving a socket wait is accepted, a pending socket wait of the named generation
/// exists, the readiness report carries a nonzero sequence, and a readable wait gets some bytes.
pub proof fn lemma_accepted_socket_readiness_is_not_empty(
    g: SemanticGraph,
    socket_wait: SocketWaitId,
    socket_wait_generation: Generation,
    ready_sequence: u64,
    byte_len: u64,
)
    requires
        g.socket_wait_resolution_verdict(socket_wait, socket_wait_generation, ready_sequence, byte_len) is Ok,
    ensures
        ready_sequence > 0,
        exists|i: int| 0 <= i < g.socket_waits@.len() && (#[trigger] g.socket_waits@[i]).id == socket_wait
            && g.socket_waits@[i].generation == socket_wait_generation
            && g.socket_waits@[i].state == SocketWaitState::Pending
            && (g.socket_waits@[i].wait_kind == SemanticWaitKind::SocketReadable ==> byte_len > 0),
{
    let i = choose|i: int| 0 <= i < g.socket_waits@.len()
        && resolvable_socket_wait(socket_wait, socket_wait_generation, ready_sequence, byte_len)(#[trigger] g.socket_waits@[i]);
    assert(resolvable_socket_wait(socket_wait, socket_wait_generation, ready_sequence, byte_len)(g.socket_waits@[i]));
}

/// When cancelling a socket wait is accepted, a pending socket wait of the named generation exists
/// and the reason is one a socket can see.
pub proof fn lemma_accepted_socket_cancellation_is_pending(
    g: SemanticGraph,
    socket_wait: SocketWaitId,
    socket_wait_generation: Generation,
    reason: WaitCancelReason,
)
    requires
        g.socket_wait_cancellation_verdict(socket_wait, socket_wait_generation, reason) is Ok,
    ensures
        reason == WaitCancelReason::CloseFd || reason == WaitCancelReason::StoreFault
            || reason == WaitCancelReason::CapabilityRevoked || reason == WaitCancelReason::DeviceFault
            || reason == WaitCancelReason::ResourceDropped || reason == WaitCancelReason::GenerationMismatch,
        exists|i: int| 0 <= i < g.socket_waits@.len() && (#[trigger] g.socket_waits@[i]).id == socket_wait
            && g.socket_waits@[i].generation == socket_wait_generation
            && g.socket_waits@[i].state == SocketWaitState::Pending,
{
    let i = choose|i: int| 0 <= i < g.socket_waits@.len()
        && pending_socket_wait_is(socket_wait, socket_wait_generation)(#[trigger] g.socket_waits@[i]);
    assert(pending_socket_wait_is(socket_wait, socket_wait_generation)(g.socket_waits@[i]));
}

/// When cancelling an io wait is accepted, the reason is a device fault, a revoked capability, a
/// dropped resource or a generation mismatch, and a pending io wait of the named generation exists.
pub proof fn lemma_accepted_io_cancellation_is_pending(
    g: SemanticGraph,
    io_wait: IoWaitId,
    io_wait_generation: Generation,
    reason: WaitCancelReason,
)
    requires
        g.io_wait_cancellation_verdict(io_wait, io_wait_generation, reason) is Ok,
    ensures
        reason == WaitCancelReason::DeviceFault || reason == WaitCancelReason::CapabilityRevoked
            || reason == WaitCancelReason::ResourceDropped || reason == WaitCancelReason::GenerationMismatch,
        exists|i: int| 0 <= i < g.io_waits@.len() && (#[trigger] g.io_waits@[i]).id == io_wait
            && g.io_waits@[i].generation == io_wait_generation && g.io_waits@[i].state == IoWaitState::Pending,
{
    let i = choose|i: int| 0 <= i < g.io_waits@.len() && pending_io_wait_is(io_wait, io_wait_generation)(#[trigger] g.io_waits@[i]);
    assert(pending_io_wait_is(io_wait, io_wait_generation)(g.io_waits@[i]));
}

/// When an interrupt is accepted as resolving an io wait, the io wait generation is pending, the
/// interrupt generation is recorded and attributed to the wait's device and driver generations, a
/// wait blocked on an interrupt line names the interrupt's line generation, and the wait token is
/// pending.
pub proof fn lemma_accepted_io_resolution_is_attributed(
    g: SemanticGraph,
    io_wait: IoWaitId,
    io_wait_generation: Generation,
    irq_event: IrqEventId,
    irq_event_generation: Generation,
)
    requires
        g.io_wait_resolution_verdict(io_wait, io_wait_generation, irq_event, irq_event_generation) is Ok,
    ensures
        exists|i: int, j: int| #![trigger g.io_waits@[i], g.irq_events@[j]]
            0 <= i < g.io_waits@.len() && 0 <= j < g.irq_events@.len() && {
            let r = g.io_waits@[i];
            let irq = g.irq_events@[j];
            &&& r.id == io_wait && r.generation == io_wait_generation && r.state == IoWaitState::Pending
            &&& irq.id == irq_event && irq.generation == irq_event_generation && irq.state == IrqEventState::Recorded
            &&& irq.device == r.device && irq.device_generation == r.device_generation
            &&& irq.driver_store == r.driver_store && irq.driver_store_generation == r.driver_store_generation
            &&& r.blocker.kind == ContractObjectKind::IrqLineObject ==> r.blocker.id == irq.irq_line
                && r.blocker.generation == irq.irq_line_generation
            &&& exists|k: int| 0 <= k < g.waits@.len() && (#[trigger] g.waits@[k]).id == r.wait
                && g.waits@[k].generation == r.wait_generation && g.waits@[k].state == WaitState::Pending
        },
{
    lemma_first_match_facts(g.io_waits@, pending_io_wait_is(io_wait, io_wait_generation));
    let i = first_match(g.io_waits@, pending_io_wait_is(io_wait, io_wait_generation))->0;
    let r = g.io_waits@[i];
    assert(pending_io_wait_is(io_wait, io_wait_generation)(r));
    lemma_first_match_facts(g.irq_events@, recorded_irq_is(irq_event, irq_event_generation));
    let j = first_match(g.irq_events@, recorded_irq_is(irq_event, irq_event_generation))->0;
    assert(recorded_irq_is(irq_event, irq_event_generation)(g.irq_events@[j]));
    let k = choose|k: int| 0 <= k < g.waits@.len() && pending_wait_is(r.wait, r.wait_generation)(#[trigger] g.waits@[k]);
    assert(pending_wait_is(r.wait, r.wait_generation)(g.waits@[k]));
}

/// When creating an activation context is accepted, its id is new and nonzero, the activation has
/// no live context, and the activation generation exists and has neither exited nor died.
pub proof fn lemma_accepted_context_is_the_only_live_one(
    g: SemanticGraph,
    context: ActivationContextId,
    activation: ActivationId,
    activation_generation: Generation,
)
    requires
        g.activation_context_verdict(context, activation, activation_generation) is Ok,
    ensures
        context != 0,
        forall|i: int| 0 <= i < g.activation_contexts@.len() ==> (#[trigger] g.activation_contexts@[i]).id != context
            && (g.activation_contexts@[i].activation == activation
                ==> g.activation_contexts@[i].state == ActivationContextState::Dropped),
        exists|k: int| 0 <= k < g.runtime_activations@.len() && (#[trigger] g.runtime_activations@[k]).id == activation
            && g.runtime_activations@[k].generation == activation_generation
            && g.runtime_activations@[k].state != RuntimeActivationState::Dead
            && g.runtime_activations@[k].state != RuntimeActivationState::Exited,
{
    assert forall|i: int| 0 <= i < g.activation_contexts@.len() implies (#[trigger] g.activation_contexts@[i]).id != context
        && (g.activation_contexts@[i].activation == activation
            ==> g.activation_contexts@[i].state == ActivationContextState::Dropped) by {
        if g.activation_contexts@[i].id == context {
            assert(context_id_is(context)(g.activation_contexts@[i]));
        }
        if g.activation_contexts@[i].activation == activation
            && g.activation_contexts@[i].state != ActivationContextState::Dropped {
            assert(live_context_of(activation)(g.activation_contexts@[i]));
        }
    }
    let k = choose|k: int| 0 <= k < g.runtime_activations@.len()
        && active_activation_is(activation, activation_generation)(#[trigger] g.runtime_activations@[k]);
    assert(active_activation_is(activation, activation_generation)(g.runtime_activations@[k]));
}

} // verus!
