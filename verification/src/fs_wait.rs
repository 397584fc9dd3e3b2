use vstd::prelude::*;
use crate::base::{FileHandleCapabilityRecord, StoreRecord, WaitRecord};
use crate::block_wait::refs_contain;
use crate::errors::SemanticInvariantError;
use crate::events::{appended_event, appended_one, has_event_spec, EventDomain, EventKind};
use crate::graph::{SemanticGraph, Table};
use crate::lookup2::{
    allowed_file_handle_capability_is, directory_object_is, file_handle_capability_is,
    file_object_is, pending_fs_wait_is, pending_wait_is, store_is, wait_is,
};
use crate::search::{
    any_match, exists_match, first_failure, first_match, lemma_first_failure_at,
    lemma_first_failure_ok, max_of, max_u64, saturating_succ, str_eq, succ_saturating,
};
use crate::waits::{cancelled_wait_token, resolved_wait_token};
use crate::types::{
    ContractObjectRef, DirectoryObjectId, DirectoryObjectState, EventId, FileHandleCapabilityId,
    FileHandleCapabilityState, FileObjectId, FileObjectState, FsWaitId, FsWaitOperation,
    FsWaitState, Generation, SemanticWaitKind, StoreId, StoreState, WaitCancelReason, WaitId,
    WaitState,
};

verus! {

/// A store waiting for a file handle to become readable or writable.
pub struct FsWaitRecord {
    pub id: FsWaitId,
    pub wait: WaitId,
    pub wait_generation: Generation,
    pub owner_store: StoreId,
    pub owner_store_generation: Generation,
    pub file_object: FileObjectId,
    pub file_object_generation: Generation,
    pub directory_object: DirectoryObjectId,
    pub directory_object_generation: Generation,
    pub file_handle_capability: FileHandleCapabilityId,
    pub file_handle_capability_generation: Generation,
    pub operation: String,
    pub blocker: ContractObjectRef,
    pub sequence: u64,
    pub byte_len: u64,
    pub generation: Generation,
    pub state: FsWaitState,
    pub created_at_event: EventId,
    pub completed_at_event: Option<EventId>,
    pub cancel_reason: Option<WaitCancelReason>,
    pub note: String,
}

pub open spec fn fs_wait_id_is(id: FsWaitId) -> spec_fn(FsWaitRecord) -> bool {
    |r: FsWaitRecord| r.id == id
}

/// A live (not dead) store with this id and generation.
pub open spec fn live_store_is(id: StoreId, generation: Generation) -> spec_fn(StoreRecord) -> bool {
    |r: StoreRecord| r.id == id && r.generation == generation && r.state != StoreState::Dead
}

/// A pending fs wait already holds this wait token generation.
pub open spec fn pending_fs_wait_on_token(wait: WaitId, generation: Generation) -> spec_fn(FsWaitRecord) -> bool {
    |r: FsWaitRecord| r.wait == wait && r.wait_generation == generation && r.state == FsWaitState::Pending
}

/// A pending fs wait already covers this store, capability, operation and sequence.
pub open spec fn pending_fs_wait_for(
    store: StoreId,
    store_generation: Generation,
    capability: FileHandleCapabilityId,
    capability_generation: Generation,
    operation: Seq<char>,
    sequence: u64,
) -> spec_fn(FsWaitRecord) -> bool {
    |r: FsWaitRecord| r.owner_store == store && r.owner_store_generation == store_generation
        && r.file_handle_capability == capability
        && r.file_handle_capability_generation == capability_generation
        && r.operation@ == operation && r.sequence == sequence && r.state == FsWaitState::Pending
}

/// Another pending fs wait (id other than `id`) holds the same wait token generation.
pub open spec fn rival_fs_wait_on_token(id: FsWaitId, wait: WaitId, generation: Generation) -> spec_fn(FsWaitRecord) -> bool {
    |r: FsWaitRecord| r.id != id && r.wait == wait && r.wait_generation == generation
        && r.state == FsWaitState::Pending
}

/// The operation named by `op`, with the kind of wait token it needs, if it is one of the two.
pub open spec fn fs_operation(op: Seq<char>) -> Option<(FsWaitOperation, SemanticWaitKind)> {
    if op == "read"@ {
        Some((FsWaitOperation::Read, SemanticWaitKind::FdReadable))
    } else if op == "write"@ {
        Some((FsWaitOperation::Write, SemanticWaitKind::FdWritable))
    } else {
        None
    }
}

pub fn parse_fs_operation(op: &str) -> (r: Option<(FsWaitOperation, SemanticWaitKind)>)
    ensures
        r == fs_operation(op@),
{
    if str_eq(op, "read") {
        Some((FsWaitOperation::Read, SemanticWaitKind::FdReadable))
    } else if str_eq(op, "write") {
        Some((FsWaitOperation::Write, SemanticWaitKind::FdWritable))
    } else {
        None
    }
}

/// The reasons for which an fs wait may be cancelled.
pub open spec fn fs_cancel_reason(reason: WaitCancelReason) -> bool {
    reason == WaitCancelReason::CloseFd || reason == WaitCancelReason::StoreFault
        || reason == WaitCancelReason::CapabilityRevoked || reason == WaitCancelReason::ResourceDropped
        || reason == WaitCancelReason::GenerationMismatch
}

pub fn is_fs_cancel_reason(reason: WaitCancelReason) -> (r: bool)
    ensures
        r == fs_cancel_reason(reason),
{
    match reason {
        WaitCancelReason::CloseFd | WaitCancelReason::StoreFault | WaitCancelReason::CapabilityRevoked
        | WaitCancelReason::ResourceDropped | WaitCancelReason::GenerationMismatch => true,
        _ => false,
    }
}

/// The event that records the creation of `r`, whose operation is `op`.
pub open spec fn fs_wait_created_event(r: FsWaitRecord, op: FsWaitOperation) -> EventKind {
    EventKind::FsWaitCreated {
        fs_wait: r.id,
        wait: r.wait,
        wait_generation: r.wait_generation,
        owner_store: r.owner_store,
        owner_store_generation: r.owner_store_generation,
        file_object: r.file_object,
        file_object_generation: r.file_object_generation,
        directory_object: r.directory_object,
        directory_object_generation: r.directory_object_generation,
        file_handle_capability: r.file_handle_capability,
        file_handle_capability_generation: r.file_handle_capability_generation,
        operation: op,
        blocker: r.blocker,
        sequence: r.sequence,
        byte_len: r.byte_len,
        generation: r.generation,
    }
}

/// The event that records how `r` ended, given its state.
pub open spec fn fs_wait_end_event(r: FsWaitRecord) -> EventKind {
    if r.state == FsWaitState::Resolved {
        EventKind::FsWaitResolved {
            fs_wait: r.id,
            wait: r.wait,
            wait_generation: r.wait_generation,
            generation: r.generation,
        }
    } else {
        EventKind::FsWaitCancelled {
            fs_wait: r.id,
            wait: r.wait,
            wait_generation: r.wait_generation,
            reason: r.cancel_reason->0,
            generation: r.generation,
        }
    }
}

impl SemanticGraph {
    /// Why the wait token `w` cannot carry an fs wait on capability `cap` with wait kind
    /// `kind`, if it cannot.
    pub open spec fn fs_wait_token_verdict(
        &self,
        w: WaitRecord,
        cap: FileHandleCapabilityRecord,
        kind: SemanticWaitKind,
    ) -> Result<(), &'static str> {
        if w.kind != kind || !w.blockers@.contains(cap.spec_object_ref()) {
            Err("fs wait token does not reference the file handle capability")
        } else if w.owner_store != Some(cap.owner_store)
            || w.owner_store_generation != Some(cap.owner_store_generation) {
            Err("fs wait owner store does not match file handle capability")
        } else if !any_match(self.stores@, live_store_is(cap.owner_store, cap.owner_store_generation)) {
            Err("fs wait owner store generation is missing or dead")
        } else {
            Ok(())
        }
    }

    /// Why creating an fs wait with these values would be refused, if it would; otherwise
    /// the position of the file handle capability it waits on.
    pub open spec fn fs_wait_verdict(
        &self,
        fs_wait: FsWaitId,
        wait: WaitId,
        wait_generation: Generation,
        file_handle_capability: FileHandleCapabilityId,
        file_handle_capability_generation: Generation,
        operation: Seq<char>,
        sequence: u64,
    ) -> Result<int, &'static str> {
        if fs_wait == 0 {
            Err("fs wait id=0 is invalid")
        } else if any_match(self.fs_waits@, fs_wait_id_is(fs_wait)) {
            Err("fs wait already exists")
        } else if wait_generation == 0 || file_handle_capability_generation == 0
            || operation.len() == 0 || sequence == 0 {
            Err("fs wait identity values must be nonzero")
        } else {
            match first_match(self.file_handle_capabilities@,
                allowed_file_handle_capability_is(file_handle_capability, file_handle_capability_generation)) {
                None => Err("fs wait file handle capability generation is missing or not allowed"),
                Some(c) => {
                    let cap = self.file_handle_capabilities@[c];
                    if cap.operation@ != operation {
                        Err("fs wait operation does not match file handle capability")
                    } else {
                        match fs_operation(operation) {
                            None => Err("fs wait operation is unsupported"),
                            Some(op) => match first_match(self.waits@, pending_wait_is(wait, wait_generation)) {
                                None => Err("fs wait token generation is missing or not pending"),
                                Some(k) => {
                                    let token = self.fs_wait_token_verdict(self.waits@[k], cap, op.1);
                                    if token is Err {
                                        Err(token->Err_0)
                                    } else if any_match(self.fs_waits@, pending_fs_wait_on_token(wait, wait_generation)) {
                                        Err("fs wait token already has a pending fs wait")
                                    } else if any_match(self.fs_waits@, pending_fs_wait_for(cap.owner_store,
                                        cap.owner_store_generation, file_handle_capability,
                                        file_handle_capability_generation, operation, sequence)) {
                                        Err("fs wait already pending for file handle operation sequence")
                                    } else if self.graph_audit() is Err {
                                        Err("fs wait requires invariant-clean graph")
                                    } else {
                                        Ok(c)
                                    }
                                },
                            },
                        }
                    }
                },
            }
        }
    }

    /// What an audit finds wrong with the state of fs wait `r`, given its wait token `w`.
    pub open spec fn fs_wait_state_fault(r: FsWaitRecord, w: WaitRecord) -> bool {
        match r.state {
            FsWaitState::Pending => w.state != WaitState::Pending,
            FsWaitState::Resolved => !(w.state == WaitState::Resolved || w.state == WaitState::Consumed)
                || r.cancel_reason is Some,
            FsWaitState::Cancelled => w.state != WaitState::Cancelled || w.cancel_reason != r.cancel_reason
                || r.cancel_reason is None,
        }
    }

    /// What an audit finds wrong with fs wait `r`, if anything.
    pub open spec fn fs_wait_fault(&self, r: FsWaitRecord) -> Option<SemanticInvariantError> {
        let invalid = SemanticInvariantError::FsWaitInvalid { fs_wait: r.id };
        match first_match(self.waits@, wait_is(r.wait, r.wait_generation)) {
            None => Some(SemanticInvariantError::FsWaitMissingWait { fs_wait: r.id, wait: r.wait }),
            Some(k) => match first_match(self.stores@, store_is(r.owner_store, r.owner_store_generation)) {
                None => Some(SemanticInvariantError::FsWaitMissingStore { fs_wait: r.id, store: r.owner_store }),
                Some(s) => match first_match(self.file_objects@, file_object_is(r.file_object, r.file_object_generation)) {
                    None => Some(SemanticInvariantError::FsWaitMissingFileObject { fs_wait: r.id, file_object: r.file_object }),
                    Some(f) => match first_match(self.directory_objects@, directory_object_is(r.directory_object, r.directory_object_generation)) {
                        None => Some(SemanticInvariantError::FsWaitMissingDirectoryObject {
                            fs_wait: r.id,
                            directory_object: r.directory_object,
                        }),
                        Some(d) => match first_match(self.file_handle_capabilities@,
                            file_handle_capability_is(r.file_handle_capability, r.file_handle_capability_generation)) {
                            None => Some(SemanticInvariantError::FsWaitMissingFileHandleCapability {
                                fs_wait: r.id,
                                file_handle_capability: r.file_handle_capability,
                            }),
                            Some(c) => match fs_operation(r.operation@) {
                                None => Some(invalid),
                                Some(op) => {
                                    let w = self.waits@[k];
                                    let dir = self.directory_objects@[d];
                                    let cap = self.file_handle_capabilities@[c];
                                    if r.id == 0 || r.generation == 0 || r.wait_generation == 0
                                        || r.owner_store_generation == 0 || r.file_object_generation == 0
                                        || r.directory_object_generation == 0
                                        || r.file_handle_capability_generation == 0
                                        || r.sequence == 0 || r.byte_len == 0
                                        || self.stores@[s].state == StoreState::Dead
                                        || self.file_objects@[f].state == FileObjectState::Invalidated
                                        || dir.state == DirectoryObjectState::Invalidated
                                        || dir.file_object != r.file_object
                                        || dir.file_object_generation != r.file_object_generation
                                        || cap.owner_store != r.owner_store
                                        || cap.owner_store_generation != r.owner_store_generation
                                        || cap.file_object != r.file_object
                                        || cap.file_object_generation != r.file_object_generation
                                        || cap.directory_object != r.directory_object
                                        || cap.directory_object_generation != r.directory_object_generation
                                        || cap.operation@ != r.operation@
                                        || cap.byte_len != r.byte_len
                                        || cap.state != FileHandleCapabilityState::Allowed
                                        || r.blocker != cap.spec_object_ref()
                                        || w.kind != op.1
                                        || !w.blockers@.contains(r.blocker)
                                        || w.owner_store != Some(r.owner_store)
                                        || w.owner_store_generation != Some(r.owner_store_generation) {
                                        Some(invalid)
                                    } else if r.state == FsWaitState::Pending
                                        && any_match(self.fs_waits@, rival_fs_wait_on_token(r.id, r.wait, r.wait_generation)) {
                                        Some(SemanticInvariantError::FsWaitDuplicateWait { fs_wait: r.id, wait: r.wait })
                                    } else if Self::fs_wait_state_fault(r, w) {
                                        Some(invalid)
                                    } else if !has_event_spec(self.event_log.events@, r.created_at_event, fs_wait_created_event(r, op.0)) {
                                        Some(SemanticInvariantError::FsWaitMissingEvent { fs_wait: r.id, event: r.created_at_event })
                                    } else {
                                        match r.completed_at_event {
                                            None => None,
                                            Some(e) => if r.state != FsWaitState::Pending
                                                && has_event_spec(self.event_log.events@, e, fs_wait_end_event(r)) {
                                                None
                                            } else {
                                                Some(SemanticInvariantError::FsWaitMissingEvent { fs_wait: r.id, event: e })
                                            },
                                        }
                                    }
                                },
                            },
                        },
                    },
                },
            },
        }
    }

    /// Audit verdict of the fs wait table.
    pub open spec fn fs_wait_audit(&self) -> Result<(), SemanticInvariantError> {
        first_failure(Seq::new(self.fs_waits@.len(), |i: int| self.fs_wait_fault(self.fs_waits@[i])))
    }

    fn fs_wait_token_ok(&self, k: usize, c: usize, kind: SemanticWaitKind) -> (r: Result<(), &'static str>)
        requires
            k < self.waits@.len(),
            c < self.file_handle_capabilities@.len(),
        ensures
            r == self.fs_wait_token_verdict(self.waits@[k as int], self.file_handle_capabilities@[c as int], kind),
    {
        let w = &self.waits[k];
        let cap = &self.file_handle_capabilities[c];
        if w.kind != kind || !refs_contain(&w.blockers, cap.object_ref()) {
            return Err("fs wait token does not reference the file handle capability");
        }
        if w.owner_store != Some(cap.owner_store) || w.owner_store_generation != Some(cap.owner_store_generation) {
            return Err("fs wait owner store does not match file handle capability");
        }
        let (store, store_generation) = (cap.owner_store, cap.owner_store_generation);
        if !exists_match(
            &self.stores,
            |s: &StoreRecord| -> (b: bool)
                ensures b == live_store_is(store, store_generation)(*s)
            { s.id == store && s.generation == store_generation && s.state != StoreState::Dead },
            Ghost(live_store_is(store, store_generation)),
        ) {
            return Err("fs wait owner store generation is missing or dead");
        }
        Ok(())
    }

    pub fn validate_fs_wait(
        &self,
        fs_wait: FsWaitId,
        wait: WaitId,
        wait_generation: Generation,
        file_handle_capability: FileHandleCapabilityId,
        file_handle_capability_generation: Generation,
        operation: &str,
        sequence: u64,
    ) -> (r: Result<usize, &'static str>)
        ensures
            match r {
                Ok(c) => self.fs_wait_verdict(fs_wait, wait, wait_generation, file_handle_capability,
                    file_handle_capability_generation, operation@, sequence) == Ok::<int, &'static str>(c as int),
                Err(e) => self.fs_wait_verdict(fs_wait, wait, wait_generation, file_handle_capability,
                    file_handle_capability_generation, operation@, sequence) == Err::<int, &'static str>(e),
            },
            r matches Ok(c) ==> c < self.file_handle_capabilities@.len(),
    {
        if fs_wait == 0 {
            return Err("fs wait id=0 is invalid");
        }
        if exists_match(
            &self.fs_waits,
            |r: &FsWaitRecord| -> (b: bool)
                ensures b == fs_wait_id_is(fs_wait)(*r)
            { r.id == fs_wait },
            Ghost(fs_wait_id_is(fs_wait)),
        ) {
            return Err("fs wait already exists");
        }
        if wait_generation == 0 || file_handle_capability_generation == 0 || operation.is_empty() || sequence == 0 {
            return Err("fs wait identity values must be nonzero");
        }
        let Some(c) = self.find_allowed_file_handle_capability(file_handle_capability, file_handle_capability_generation) else {
            return Err("fs wait file handle capability generation is missing or not allowed");
        };
        if !str_eq(self.file_handle_capabilities[c].operation.as_str(), operation) {
            return Err("fs wait operation does not match file handle capability");
        }
        let Some((_, kind)) = parse_fs_operation(operation) else {
            return Err("fs wait operation is unsupported");
        };
        let Some(k) = self.find_pending_wait(wait, wait_generation) else {
            return Err("fs wait token generation is missing or not pending");
        };
        if let Err(e) = self.fs_wait_token_ok(k, c, kind) {
            return Err(e);
        }
        if exists_match(
            &self.fs_waits,
            |r: &FsWaitRecord| -> (b: bool)
                ensures b == pending_fs_wait_on_token(wait, wait_generation)(*r)
            { r.wait == wait && r.wait_generation == wait_generation && r.state == FsWaitState::Pending },
            Ghost(pending_fs_wait_on_token(wait, wait_generation)),
        ) {
            return Err("fs wait token already has a pending fs wait");
        }
        let (store, store_generation) = (self.file_handle_capabilities[c].owner_store,
            self.file_handle_capabilities[c].owner_store_generation);
        if exists_match(
            &self.fs_waits,
            |r: &FsWaitRecord| -> (b: bool)
                ensures b == pending_fs_wait_for(store, store_generation, file_handle_capability,
                    file_handle_capability_generation, operation@, sequence)(*r)
            {
                r.owner_store == store && r.owner_store_generation == store_generation
                    && r.file_handle_capability == file_handle_capability
                    && r.file_handle_capability_generation == file_handle_capability_generation
                    && str_eq(r.operation.as_str(), operation) && r.sequence == sequence
                    && r.state == FsWaitState::Pending
            },
            Ghost(pending_fs_wait_for(store, store_generation, file_handle_capability,
                file_handle_capability_generation, operation@, sequence)),
        ) {
            return Err("fs wait already pending for file handle operation sequence");
        }
        if self.check_invariants().is_err() {
            return Err("fs wait requires invariant-clean graph");
        }
        Ok(c)
    }

    /// Creates an fs wait when the graph accepts it; returns whether it did.
    pub fn record_fs_wait_with_id(
        &mut self,
        fs_wait: FsWaitId,
        wait: WaitId,
        wait_generation: Generation,
        file_handle_capability: FileHandleCapabilityId,
        file_handle_capability_generation: Generation,
        operation: &str,
        sequence: u64,
        note: &str,
    ) -> (ok: bool)
        requires
            old(self).event_log.next_event_id < u64::MAX,
        ensures
            ok == (old(self).fs_wait_verdict(fs_wait, wait, wait_generation, file_handle_capability,
                file_handle_capability_generation, operation@, sequence) is Ok),
            !ok ==> *final(self) == *old(self),
            ok ==> recorded_fs_wait(*old(self), *final(self), fs_wait, wait, wait_generation,
                file_handle_capability, file_handle_capability_generation, operation@, sequence, note@),
    {
        let Ok(c) = self.validate_fs_wait(fs_wait, wait, wait_generation, file_handle_capability,
            file_handle_capability_generation, operation, sequence) else {
            return false;
        };
        let Some((op, _)) = parse_fs_operation(operation) else {
            return false;
        };
        let cap = &self.file_handle_capabilities[c];
        let (owner_store, owner_store_generation, file_object, file_object_generation) =
            (cap.owner_store, cap.owner_store_generation, cap.file_object, cap.file_object_generation);
        let (directory_object, directory_object_generation, byte_len) =
            (cap.directory_object, cap.directory_object_generation, cap.byte_len);
        let blocker = cap.object_ref();
        let generation: u64 = 1;
        self.next_fs_wait_id = max_of(self.next_fs_wait_id, succ_saturating(fs_wait));
        let created_at_event = self.event_log.push(
            EventDomain::Block,
            EventKind::FsWaitCreated {
                fs_wait,
                wait,
                wait_generation,
                owner_store,
                owner_store_generation,
                file_object,
                file_object_generation,
                directory_object,
                directory_object_generation,
                file_handle_capability,
                file_handle_capability_generation,
                operation: op,
                blocker,
                sequence,
                byte_len,
                generation,
            },
        );
        self.fs_waits.push(FsWaitRecord {
            id: fs_wait,
            wait,
            wait_generation,
            owner_store,
            owner_store_generation,
            file_object,
            file_object_generation,
            directory_object,
            directory_object_generation,
            file_handle_capability,
            file_handle_capability_generation,
            operation: operation.to_owned(),
            blocker,
            sequence,
            byte_len,
            generation,
            state: FsWaitState::Pending,
            created_at_event,
            completed_at_event: None,
            cancel_reason: None,
            note: note.to_owned(),
        });
        proof {
            assert(self.fs_waits@.subrange(0, old(self).fs_waits@.len() as int) =~= old(self).fs_waits@);
        }
        true
    }

    /// Why resolving an fs wait would be refused, if it would; otherwise the positions of
    /// the fs wait and of its wait token.
    pub open spec fn resolve_fs_wait_verdict(&self, fs_wait: FsWaitId, fs_wait_generation: Generation) -> Option<(int, int)> {
        match first_match(self.fs_waits@, pending_fs_wait_is(fs_wait, fs_wait_generation)) {
            None => None,
            Some(i) => {
                let r = self.fs_waits@[i];
                match first_match(self.waits@, pending_wait_is(r.wait, r.wait_generation)) {
                    None => None,
                    Some(k) => Some((i, k)),
                }
            },
        }
    }

    /// Resolves a pending fs wait and its wait token; returns whether it did.
    pub fn resolve_fs_wait(&mut self, fs_wait: FsWaitId, fs_wait_generation: Generation, note: &str) -> (ok: bool)
        requires
            old(self).event_log.next_event_id < u64::MAX - 1,
        ensures
            ok == (old(self).resolve_fs_wait_verdict(fs_wait, fs_wait_generation) is Some),
            !ok ==> *final(self) == *old(self),
            ok ==> resolved_fs_wait(*old(self), *final(self), note@,
                old(self).resolve_fs_wait_verdict(fs_wait, fs_wait_generation)->0),
    {
        let Some(index) = self.find_pending_fs_wait(fs_wait, fs_wait_generation) else {
            return false;
        };
        let (wait, wait_generation) = (self.fs_waits[index].wait, self.fs_waits[index].wait_generation);
        if self.find_pending_wait(wait, wait_generation).is_none() {
            return false;
        }
        let k = self.resolve_wait_token(wait, wait_generation);
        let ghost mid = *self;
        let completed_at_event = self.event_log.push(
            EventDomain::Block,
            EventKind::FsWaitResolved { fs_wait, wait, wait_generation, generation: fs_wait_generation },
        );
        self.fs_waits[index].state = FsWaitState::Resolved;
        self.fs_waits[index].completed_at_event = Some(completed_at_event);
        self.fs_waits[index].note = note.to_owned();
        proof {
            assert(mid.fs_waits == old(self).fs_waits);
            assert(old(self).resolve_fs_wait_verdict(fs_wait, fs_wait_generation) == Some((index as int, k as int)));
            let r = old(self).fs_waits@[index as int];
            let n = self.fs_waits@[index as int];
            assert(n == (FsWaitRecord {
                state: FsWaitState::Resolved,
                completed_at_event: n.completed_at_event,
                note: n.note,
                ..r
            }));
            assert(resolved_fs_wait_through(*old(self), mid, *self, (index as int, k as int)));
        }
        true
    }

    /// Why cancelling an fs wait would be refused, if it would; otherwise the positions of
    /// the fs wait and of its wait token.
    pub open spec fn cancel_fs_wait_verdict(
        &self,
        fs_wait: FsWaitId,
        fs_wait_generation: Generation,
        reason: WaitCancelReason,
    ) -> Option<(int, int)> {
        if !fs_cancel_reason(reason) {
            None
        } else {
            self.resolve_fs_wait_verdict(fs_wait, fs_wait_generation)
        }
    }

    /// Cancels a pending fs wait and its wait token for a file-system reason; returns whether it did.
    pub fn cancel_fs_wait(
        &mut self,
        fs_wait: FsWaitId,
        fs_wait_generation: Generation,
        errno: i32,
        reason: WaitCancelReason,
        note: &str,
    ) -> (ok: bool)
        requires
            old(self).event_log.next_event_id < u64::MAX - 1,
        ensures
            ok == (old(self).cancel_fs_wait_verdict(fs_wait, fs_wait_generation, reason) is Some),
            !ok ==> *final(self) == *old(self),
            ok ==> cancelled_fs_wait(*old(self), *final(self), errno, reason, note@,
                old(self).cancel_fs_wait_verdict(fs_wait, fs_wait_generation, reason)->0),
    {
        if !is_fs_cancel_reason(reason) {
            return false;
        }
        let Some(index) = self.find_pending_fs_wait(fs_wait, fs_wait_generation) else {
            return false;
        };
        let (wait, wait_generation) = (self.fs_waits[index].wait, self.fs_waits[index].wait_generation);
        if self.find_pending_wait(wait, wait_generation).is_none() {
            return false;
        }
        let k = self.cancel_wait_token(wait, wait_generation, errno, reason);
        let ghost mid = *self;
        let completed_at_event = self.event_log.push(
            EventDomain::Block,
            EventKind::FsWaitCancelled { fs_wait, wait, wait_generation, reason, generation: fs_wait_generation },
        );
        self.fs_waits[index].state = FsWaitState::Cancelled;
        self.fs_waits[index].completed_at_event = Some(completed_at_event);
        self.fs_waits[index].cancel_reason = Some(reason);
        self.fs_waits[index].note = note.to_owned();
        proof {
            assert(mid.fs_waits == old(self).fs_waits);
            assert(old(self).cancel_fs_wait_verdict(fs_wait, fs_wait_generation, reason) == Some((index as int, k as int)));
            let r = old(self).fs_waits@[index as int];
            let n = self.fs_waits@[index as int];
            assert(n == (FsWaitRecord {
                state: FsWaitState::Cancelled,
                completed_at_event: n.completed_at_event,
                cancel_reason: Some(reason),
                note: n.note,
                ..r
            }));
            assert(cancelled_fs_wait_through(*old(self), mid, *self, errno, reason, (index as int, k as int)));
        }
        true
    }

    pub fn fs_waits(&self) -> (r: &[FsWaitRecord])
        ensures
            r@ == self.fs_waits@,
    {
        self.fs_waits.as_slice()
    }

    pub fn fs_wait_count(&self) -> (r: usize)
        ensures
            r == self.fs_waits@.len(),
    {
        self.fs_waits.len()
    }

    fn fs_wait_fault_of(&self, r: &FsWaitRecord) -> (f: Option<SemanticInvariantError>)
        ensures
            f == self.fs_wait_fault(*r),
    {
        let invalid = SemanticInvariantError::FsWaitInvalid { fs_wait: r.id };
        let Some(k) = self.find_wait(r.wait, r.wait_generation) else {
            return Some(SemanticInvariantError::FsWaitMissingWait { fs_wait: r.id, wait: r.wait });
        };
        let Some(s) = self.find_store(r.owner_store, r.owner_store_generation) else {
            return Some(SemanticInvariantError::FsWaitMissingStore { fs_wait: r.id, store: r.owner_store });
        };
        let Some(f) = self.find_file_object(r.file_object, r.file_object_generation) else {
            return Some(SemanticInvariantError::FsWaitMissingFileObject { fs_wait: r.id, file_object: r.file_object });
        };
        let Some(d) = self.find_directory_object(r.directory_object, r.directory_object_generation) else {
            return Some(SemanticInvariantError::FsWaitMissingDirectoryObject {
                fs_wait: r.id,
                directory_object: r.directory_object,
            });
        };
        let Some(c) = self.find_file_handle_capability(r.file_handle_capability, r.file_handle_capability_generation) else {
            return Some(SemanticInvariantError::FsWaitMissingFileHandleCapability {
                fs_wait: r.id,
                file_handle_capability: r.file_handle_capability,
            });
        };
        let Some((op, kind)) = parse_fs_operation(r.operation.as_str()) else {
            return Some(invalid);
        };
        let w = &self.waits[k];
        let dir = &self.directory_objects[d];
        let cap = &self.file_handle_capabilities[c];
        if r.id == 0 || r.generation == 0 || r.wait_generation == 0
            || r.owner_store_generation == 0 || r.file_object_generation == 0
            || r.directory_object_generation == 0
            || r.file_handle_capability_generation == 0
            || r.sequence == 0 || r.byte_len == 0
            || self.stores[s].state == StoreState::Dead
            || self.file_objects[f].state == FileObjectState::Invalidated
            || dir.state == DirectoryObjectState::Invalidated
            || dir.file_object != r.file_object
            || dir.file_object_generation != r.file_object_generation
            || cap.owner_store != r.owner_store
            || cap.owner_store_generation != r.owner_store_generation
            || cap.file_object != r.file_object
            || cap.file_object_generation != r.file_object_generation
            || cap.directory_object != r.directory_object
            || cap.directory_object_generation != r.directory_object_generation
            || !str_eq(cap.operation.as_str(), r.operation.as_str())
            || cap.byte_len != r.byte_len
            || cap.state != FileHandleCapabilityState::Allowed
            || r.blocker != cap.object_ref()
            || w.kind != kind
            || !refs_contain(&w.blockers, r.blocker)
            || w.owner_store != Some(r.owner_store)
            || w.owner_store_generation != Some(r.owner_store_generation) {
            return Some(invalid);
        }
        let (id, wait, wait_generation) = (r.id, r.wait, r.wait_generation);
        if r.state == FsWaitState::Pending && exists_match(
            &self.fs_waits,
            |o: &FsWaitRecord| -> (b: bool)
                ensures b == rival_fs_wait_on_token(id, wait, wait_generation)(*o)
            { o.id != id && o.wait == wait && o.wait_generation == wait_generation && o.state == FsWaitState::Pending },
            Ghost(rival_fs_wait_on_token(id, wait, wait_generation)),
        ) {
            return Some(SemanticInvariantError::FsWaitDuplicateWait { fs_wait: r.id, wait: r.wait });
        }
        let state_fault = match r.state {
            FsWaitState::Pending => w.state != WaitState::Pending,
            FsWaitState::Resolved => !(w.state == WaitState::Resolved || w.state == WaitState::Consumed)
                || r.cancel_reason.is_some(),
            FsWaitState::Cancelled => w.state != WaitState::Cancelled || w.cancel_reason != r.cancel_reason
                || r.cancel_reason.is_none(),
        };
        if state_fault {
            return Some(invalid);
        }
        let created = EventKind::FsWaitCreated {
            fs_wait: r.id,
            wait: r.wait,
            wait_generation: r.wait_generation,
            owner_store: r.owner_store,
            owner_store_generation: r.owner_store_generation,
            file_object: r.file_object,
            file_object_generation: r.file_object_generation,
            directory_object: r.directory_object,
            directory_object_generation: r.directory_object_generation,
            file_handle_capability: r.file_handle_capability,
            file_handle_capability_generation: r.file_handle_capability_generation,
            operation: op,
            blocker: r.blocker,
            sequence: r.sequence,
            byte_len: r.byte_len,
            generation: r.generation,
        };
        if !self.event_log.has_event(r.created_at_event, created) {
            return Some(SemanticInvariantError::FsWaitMissingEvent { fs_wait: r.id, event: r.created_at_event });
        }
        if let Some(e) = r.completed_at_event {
            let found = match r.state {
                FsWaitState::Resolved => self.event_log.has_event(e, EventKind::FsWaitResolved {
                    fs_wait: r.id,
                    wait: r.wait,
                    wait_generation: r.wait_generation,
                    generation: r.generation,
                }),
                FsWaitState::Cancelled => self.event_log.has_event(e, EventKind::FsWaitCancelled {
                    fs_wait: r.id,
                    wait: r.wait,
                    wait_generation: r.wait_generation,
                    reason: r.cancel_reason.unwrap(),
                    generation: r.generation,
                }),
                FsWaitState::Pending => false,
            };
            if !found {
                return Some(SemanticInvariantError::FsWaitMissingEvent { fs_wait: r.id, event: e });
            }
        }
        None
    }

    /// Audits every fs wait; the first fault found is returned.
    pub fn check_fs_wait_invariants(&self) -> (r: Result<(), SemanticInvariantError>)
        ensures
            r == self.fs_wait_audit(),
    {
        let ghost faults = Seq::new(self.fs_waits@.len(), |i: int| self.fs_wait_fault(self.fs_waits@[i]));
        let mut i: usize = 0;
        while i < self.fs_waits.len()
            invariant
                i <= self.fs_waits@.len(),
                faults == Seq::new(self.fs_waits@.len(), |i: int| self.fs_wait_fault(self.fs_waits@[i])),
                forall|j: int| 0 <= j < i ==> (#[trigger] faults[j]) is None,
            decreases self.fs_waits@.len() - i,
        {
            if let Some(e) = self.fs_wait_fault_of(&self.fs_waits[i]) {
                proof { lemma_first_failure_at(faults, i as int); }
                return Err(e);
            }
            i += 1;
        }
        proof { lemma_first_failure_ok(faults); }
        Ok(())
    }
}

/// `new` is `old` after recording the fs wait; the capability it waits on is the one the
/// verdict found.
pub open spec fn recorded_fs_wait(
    old: SemanticGraph,
    new: SemanticGraph,
    fs_wait: FsWaitId,
    wait: WaitId,
    wait_generation: Generation,
    file_handle_capability: FileHandleCapabilityId,
    file_handle_capability_generation: Generation,
    operation: Seq<char>,
    sequence: u64,
    note: Seq<char>,
) -> bool {
    let r = new.fs_waits@.last();
    let parsed = fs_operation(operation)->0;
    let cap = old.file_handle_capabilities@[old.fs_wait_verdict(fs_wait, wait, wait_generation,
        file_handle_capability, file_handle_capability_generation, operation, sequence)->Ok_0];
    &&& new.agrees_except(&old, set![Table::EventLog, Table::FsWaits])
    &&& appended_one(old.fs_waits@, new.fs_waits@)
    &&& r.id == fs_wait && r.wait == wait && r.wait_generation == wait_generation
    &&& r.owner_store == cap.owner_store && r.owner_store_generation == cap.owner_store_generation
    &&& r.file_object == cap.file_object && r.file_object_generation == cap.file_object_generation
    &&& r.directory_object == cap.directory_object
    &&& r.directory_object_generation == cap.directory_object_generation
    &&& r.file_handle_capability == file_handle_capability
    &&& r.file_handle_capability_generation == file_handle_capability_generation
    &&& r.operation@ == operation && r.blocker == cap.spec_object_ref()
    &&& r.sequence == sequence && r.byte_len == cap.byte_len
    &&& r.generation == 1 && r.state == FsWaitState::Pending
    &&& r.created_at_event == old.event_log.next_event_id && r.completed_at_event is None
    &&& r.cancel_reason is None && r.note@ == note
    &&& appended_event(old.event_log, new.event_log, EventDomain::Block,
        fs_wait_created_event(r, parsed.0))
    &&& new.next_fs_wait_id == max_u64(old.next_fs_wait_id, saturating_succ(fs_wait))
}

/// The two steps of resolving an fs wait, with `mid` the graph between them.
pub open spec fn resolved_fs_wait_through(old: SemanticGraph, mid: SemanticGraph, new: SemanticGraph, at: (int, int)) -> bool {
    let r = old.fs_waits@[at.0];
    &&& resolved_wait_token(old, mid, at.1)
    &&& new.agrees_except(&mid, set![Table::EventLog, Table::FsWaits])
    &&& appended_event(mid.event_log, new.event_log, EventDomain::Block, EventKind::FsWaitResolved {
        fs_wait: r.id,
        wait: r.wait,
        wait_generation: r.wait_generation,
        generation: r.generation,
    })
    &&& new.fs_waits@[at.0].completed_at_event == Some(mid.event_log.next_event_id)
}

/// `new` is `old` after resolving the fs wait at position `at.0`, whose wait token is at `at.1`.
pub open spec fn resolved_fs_wait(old: SemanticGraph, new: SemanticGraph, note: Seq<char>, at: (int, int)) -> bool {
    let r = old.fs_waits@[at.0];
    let n = new.fs_waits@[at.0];
    &&& exists|mid: SemanticGraph| #[trigger] resolved_fs_wait_through(old, mid, new, at)
    &&& new.fs_waits@.len() == old.fs_waits@.len()
    &&& forall|j: int| 0 <= j < old.fs_waits@.len() && j != at.0 ==> new.fs_waits@[j] == old.fs_waits@[j]
    &&& n == (FsWaitRecord {
        state: FsWaitState::Resolved,
        completed_at_event: n.completed_at_event,
        note: n.note,
        ..r
    })
    &&& n.note@ == note
}

/// The two steps of cancelling an fs wait, with `mid` the graph between them.
pub open spec fn cancelled_fs_wait_through(
    old: SemanticGraph,
    mid: SemanticGraph,
    new: SemanticGraph,
    errno: i32,
    reason: WaitCancelReason,
    at: (int, int),
) -> bool {
    let r = old.fs_waits@[at.0];
    &&& cancelled_wait_token(old, mid, at.1, errno, reason)
    &&& new.agrees_except(&mid, set![Table::EventLog, Table::FsWaits])
    &&& appended_event(mid.event_log, new.event_log, EventDomain::Block, EventKind::FsWaitCancelled {
        fs_wait: r.id,
        wait: r.wait,
        wait_generation: r.wait_generation,
        reason,
        generation: r.generation,
    })
    &&& new.fs_waits@[at.0].completed_at_event == Some(mid.event_log.next_event_id)
}

/// `new` is `old` after cancelling the fs wait at position `at.0` (whose wait token is at
/// `at.1`) for `reason` with `errno`.
pub open spec fn cancelled_fs_wait(
    old: SemanticGraph,
    new: SemanticGraph,
    errno: i32,
    reason: WaitCancelReason,
    note: Seq<char>,
    at: (int, int),
) -> bool {
    let r = old.fs_waits@[at.0];
    let n = new.fs_waits@[at.0];
    &&& exists|mid: SemanticGraph| #[trigger] cancelled_fs_wait_through(old, mid, new, errno, reason, at)
    &&& new.fs_waits@.len() == old.fs_waits@.len()
    &&& forall|j: int| 0 <= j < old.fs_waits@.len() && j != at.0 ==> new.fs_waits@[j] == old.fs_waits@[j]
    &&& n == (FsWaitRecord {
        state: FsWaitState::Cancelled,
        completed_at_event: n.completed_at_event,
        cancel_reason: Some(reason),
        note: n.note,
        ..r
    })
    &&& n.note@ == note
}

/// When an fs wait is accepted (`validate_fs_wait` accepts and `record_fs_wait_with_id`
/// records it exactly then), its id is new and nonzero, its sequence is nonzero, its operation
/// is "read" or "write", the named file handle capability generation is allowed for exactly that
/// operation, its owner store generation is live, and the named wait token generation is pending,
/// owned by that store generation, lists the capability among its blockers and waits for
/// readability on a read and writability on a write; no pending fs wait holds that token.
pub proof fn lemma_accepted_fs_wait_matches_capability(
    g: SemanticGraph,
    fs_wait: FsWaitId,
    wait: WaitId,
    wait_generation: Generation,
    file_handle_capability: FileHandleCapabilityId,
    file_handle_capability_generation: Generation,
    operation: Seq<char>,
    sequence: u64,
)
    requires
        g.fs_wait_verdict(fs_wait, wait, wait_generation, file_handle_capability, file_handle_capability_generation,
            operation, sequence) is Ok,
    ensures
        fs_wait != 0,
        sequence != 0,
        operation == "read"@ || operation == "write"@,
        forall|i: int| 0 <= i < g.fs_waits@.len() ==> (#[trigger] g.fs_waits@[i]).id != fs_wait,
        exists|c: int, k: int| #![trigger g.file_handle_capabilities@[c], g.waits@[k]]
            0 <= c < g.file_handle_capabilities@.len() && 0 <= k < g.waits@.len() && {
            let cap = g.file_handle_capabilities@[c];
            let w = g.waits@[k];
            &&& cap.id == file_handle_capability && cap.generation == file_handle_capability_generation
            &&& cap.state == FileHandleCapabilityState::Allowed && cap.operation@ == operation
            &&& w.id == wait && w.generation == wait_generation && w.state == WaitState::Pending
            &&& w.owner_store == Some(cap.owner_store) && w.owner_store_generation == Some(cap.owner_store_generation)
            &&& w.blockers@.contains(cap.spec_object_ref())
            &&& w.kind == (if operation == "read"@ { SemanticWaitKind::FdReadable } else { SemanticWaitKind::FdWritable })
            &&& exists|s: int| 0 <= s < g.stores@.len() && (#[trigger] g.stores@[s]).id == cap.owner_store
                && g.stores@[s].generation == cap.owner_store_generation && g.stores@[s].state != StoreState::Dead
        },
        forall|i: int| 0 <= i < g.fs_waits@.len() && (#[trigger] g.fs_waits@[i]).state == FsWaitState::Pending
            ==> !(g.fs_waits@[i].wait == wait && g.fs_waits@[i].wait_generation == wait_generation),
{
    assert forall|i: int| 0 <= i < g.fs_waits@.len() implies (#[trigger] g.fs_waits@[i]).id != fs_wait by {
        if g.fs_waits@[i].id == fs_wait {
            assert(fs_wait_id_is(fs_wait)(g.fs_waits@[i]));
        }
    }
    crate::search::lemma_first_match_facts(g.file_handle_capabilities@,
        allowed_file_handle_capability_is(file_handle_capability, file_handle_capability_generation));
    let c = first_match(g.file_handle_capabilities@,
        allowed_file_handle_capability_is(file_handle_capability, file_handle_capability_generation))->0;
    let cap = g.file_handle_capabilities@[c];
    assert(allowed_file_handle_capability_is(file_handle_capability, file_handle_capability_generation)(cap));
    crate::search::lemma_first_match_facts(g.waits@, pending_wait_is(wait, wait_generation));
    let k = first_match(g.waits@, pending_wait_is(wait, wait_generation))->0;
    assert(pending_wait_is(wait, wait_generation)(g.waits@[k]));
    let op = fs_operation(operation)->Some_0;
    assert(g.fs_wait_token_verdict(g.waits@[k], cap, op.1) is Ok);
    let s = choose|s: int| 0 <= s < g.stores@.len() && live_store_is(cap.owner_store, cap.owner_store_generation)(#[trigger] g.stores@[s]);
    assert(live_store_is(cap.owner_store, cap.owner_store_generation)(g.stores@[s]));
    assert forall|i: int| 0 <= i < g.fs_waits@.len() && (#[trigger] g.fs_waits@[i]).state == FsWaitState::Pending
        implies !(g.fs_waits@[i].wait == wait && g.fs_waits@[i].wait_generation == wait_generation) by {
        if g.fs_waits@[i].wait == wait && g.fs_waits@[i].wait_generation == wait_generation {
            assert(pending_fs_wait_on_token(wait, wait_generation)(g.fs_waits@[i]));
        }
    }
}

/// When `resolve_fs_wait` resolves an fs wait (exactly when `resolve_fs_wait_verdict` gives
/// positions), it is the named pending generation and its wait token is pending.
pub proof fn lemma_fs_wait_resolves_only_when_pending(g: SemanticGraph, fs_wait: FsWaitId, fs_wait_generation: Generation)
    requires
        g.resolve_fs_wait_verdict(fs_wait, fs_wait_generation) is Some,
    ensures
        ({
            let (i, k) = g.resolve_fs_wait_verdict(fs_wait, fs_wait_generation)->Some_0;
            let r = g.fs_waits@[i];
            &&& 0 <= i < g.fs_waits@.len() && 0 <= k < g.waits@.len()
            &&& r.id == fs_wait && r.generation == fs_wait_generation && r.state == FsWaitState::Pending
            &&& g.waits@[k].id == r.wait && g.waits@[k].generation == r.wait_generation
            &&& g.waits@[k].state == WaitState::Pending
        }),
{
    crate::search::lemma_first_match_facts(g.fs_waits@, pending_fs_wait_is(fs_wait, fs_wait_generation));
    let i = first_match(g.fs_waits@, pending_fs_wait_is(fs_wait, fs_wait_generation))->0;
    let r = g.fs_waits@[i];
    assert(pending_fs_wait_is(fs_wait, fs_wait_generation)(r));
    crate::search::lemma_first_match_facts(g.waits@, pending_wait_is(r.wait, r.wait_generation));
    let k = first_match(g.waits@, pending_wait_is(r.wait, r.wait_generation))->0;
    assert(pending_wait_is(r.wait, r.wait_generation)(g.waits@[k]));
}

/// When `cancel_fs_wait` cancels an fs wait (exactly when `cancel_fs_wait_verdict` gives
/// positions), the reason is a closed fd, a store fault, a revoked capability, a dropped resource
/// or a generation mismatch, and the fs wait is the named pending generation with a pending token.
pub proof fn lemma_fs_wait_cancels_only_for_file_reasons(
    g: SemanticGraph,
    fs_wait: FsWaitId,
    fs_wait_generation: Generation,
    reason: WaitCancelReason,
)
    requires
        g.cancel_fs_wait_verdict(fs_wait, fs_wait_generation, reason) is Some,
    ensures
        reason == WaitCancelReason::CloseFd || reason == WaitCancelReason::StoreFault
            || reason == WaitCancelReason::CapabilityRevoked || reason == WaitCancelReason::ResourceDropped
            || reason == WaitCancelReason::GenerationMismatch,
        g.cancel_fs_wait_verdict(fs_wait, fs_wait_generation, reason) == g.resolve_fs_wait_verdict(fs_wait,
            fs_wait_generation),
{
}

} // verus!
