use vstd::prelude::*;
use crate::base::{SemanticTransactionRecord, StoreRecord};
use crate::events::{label_views, log_extends, EventDomain, EventKind};
use crate::graph::{SemanticGraph, Table};
use crate::lookup2::store_is;
use crate::events::appended_event;
use crate::search::{any_match, exists_match, find_first, first_match, lemma_first_match_facts, max_of, max_u64, saturating_succ, succ_saturating};
use crate::types::{Generation, StoreId, TransactionId, TransactionState};

verus! {

/// A transaction with this id (in any state).
pub open spec fn transaction_id_is(id: TransactionId) -> spec_fn(SemanticTransactionRecord) -> bool {
    |t: SemanticTransactionRecord| t.id == id
}

/// A begun (not yet committed) transaction with this id.
pub open spec fn begun_transaction_is(id: TransactionId) -> spec_fn(SemanticTransactionRecord) -> bool {
    |t: SemanticTransactionRecord| t.id == id && t.state == TransactionState::Begun
}

/// The label of the cleanup transaction begun for `reason`.
pub open spec fn cleanup_label(reason: Seq<char>) -> Seq<char> {
    "cleanup:"@ + reason
}

/// `new` is `old` with one more event of this domain and kind, whose text is `texts`.
pub open spec fn appended_labeled_event(
    old: SemanticGraph,
    new: SemanticGraph,
    domain: EventDomain,
    kind: EventKind,
    texts: Seq<Seq<char>>,
) -> bool {
    let e = new.event_log.events@.last();
    &&& new.event_log.next_event_id == old.event_log.next_event_id + 1
    &&& new.event_log.events@.len() == old.event_log.events@.len() + 1
    &&& log_extends(old.event_log.events@, new.event_log.events@)
    &&& e.id == old.event_log.next_event_id
    &&& e.domain == domain
    &&& e.kind == kind
    &&& label_views(e.labels@) == texts
}

/// `new` is `old` with a cleanup transaction of `store` begun under id `cleanup`: a begun
/// transaction record labelled after the reason, the id counter moved past `cleanup`, and the
/// beginning logged as a command.
pub open spec fn began_cleanup(
    old: SemanticGraph,
    new: SemanticGraph,
    cleanup: TransactionId,
    store: StoreId,
    generation: Generation,
    reason: Seq<char>,
) -> bool {
    let t = new.transactions@.last();
    &&& new.agrees_except(&old, set![Table::EventLog, Table::Transactions])
    &&& new.transactions@.len() == old.transactions@.len() + 1
    &&& new.transactions@.drop_last() == old.transactions@
    &&& t.id == cleanup && t.label@ == cleanup_label(reason) && t.store == Some(store) && t.task is None
    &&& t.state == TransactionState::Begun && t.generation == generation
    &&& new.next_transaction_id == max_u64(old.next_transaction_id, saturating_succ(cleanup))
    &&& appended_labeled_event(old, new, EventDomain::Command,
        EventKind::TransactionBegan { transaction: cleanup, store: Some(store), task: None },
        seq![cleanup_label(reason)])
}

impl SemanticGraph {
    /// Whether a cleanup transaction may begin: the id is unused and the store generation exists.
    pub open spec fn begin_cleanup_verdict(&self, cleanup: TransactionId, store: StoreId, generation: Generation) -> Result<(), &'static str> {
        if any_match(self.transactions@, transaction_id_is(cleanup)) {
            Err("cleanup transaction id already exists")
        } else if any_match(self.stores@, store_is(store, generation)) {
            Ok(())
        } else {
            Err("cleanup target store generation is missing")
        }
    }

    /// Whether a cleanup step may be applied: the cleanup transaction has begun and is open.
    pub open spec fn cleanup_step_verdict(&self, cleanup: TransactionId) -> Result<(), &'static str> {
        if any_match(self.transactions@, begun_transaction_is(cleanup)) {
            Ok(())
        } else {
            Err("cleanup transaction is not active")
        }
    }

    pub(crate) fn check_begin_cleanup(&self, cleanup: TransactionId, store: StoreId, generation: Generation) -> (r: Result<(), &'static str>)
        ensures
            r == self.begin_cleanup_verdict(cleanup, store, generation),
    {
        if exists_match(
            &self.transactions,
            |t: &SemanticTransactionRecord| -> (b: bool)
                ensures b == transaction_id_is(cleanup)(*t)
            { t.id == cleanup },
            Ghost(transaction_id_is(cleanup)),
        ) {
            return Err("cleanup transaction id already exists");
        }
        if exists_match(
            &self.stores,
            |x: &StoreRecord| -> (b: bool)
                ensures b == store_is(store, generation)(*x)
            { x.id == store && x.generation == generation },
            Ghost(store_is(store, generation)),
        ) {
            Ok(())
        } else {
            Err("cleanup target store generation is missing")
        }
    }

    pub(crate) fn check_cleanup_step(&self, cleanup: TransactionId) -> (r: Result<(), &'static str>)
        ensures
            r == self.cleanup_step_verdict(cleanup),
    {
        if exists_match(
            &self.transactions,
            |t: &SemanticTransactionRecord| -> (b: bool)
                ensures b == begun_transaction_is(cleanup)(*t)
            { t.id == cleanup && t.state == TransactionState::Begun },
            Ghost(begun_transaction_is(cleanup)),
        ) {
            Ok(())
        } else {
            Err("cleanup transaction is not active")
        }
    }

    /// Begins a cleanup transaction of a store generation under id `cleanup`, labelled
    /// `cleanup:` followed by the reason, and logs it.
    pub fn begin_cleanup_transaction(&mut self, cleanup: TransactionId, store: StoreId, generation: Generation, reason: &str)
        requires
            old(self).event_log.next_event_id < u64::MAX,
        ensures
            began_cleanup(*old(self), *final(self), cleanup, store, generation, reason@),
    {
        self.next_transaction_id = max_of(self.next_transaction_id, succ_saturating(cleanup));
        let mut label = "cleanup:".to_owned();
        label.append(reason);
        let text = label.clone();
        self.transactions.push(SemanticTransactionRecord {
            id: cleanup,
            label,
            store: Some(store),
            task: None,
            state: TransactionState::Begun,
            generation,
        });
        let mut texts: Vec<String> = Vec::new();
        texts.push(text);
        let ghost v = texts@;
        self.event_log.push_labeled(
            EventDomain::Command,
            EventKind::TransactionBegan { transaction: cleanup, store: Some(store), task: None },
            texts,
        );
        proof {
            assert(label_views(v) =~= seq![cleanup_label(reason@)]);
            assert(self.transactions@.drop_last() =~= old(self).transactions@);
        }
    }

    /// Logs a step of a cleanup transaction: the step and its target's summary as text, with
    /// the generation of the target that was observed.
    pub fn record_cleanup_step(&mut self, cleanup: TransactionId, step: &str, target: &str, observed_generation: Generation)
        requires
            old(self).event_log.next_event_id < u64::MAX,
        ensures
            final(self).agrees_except(old(self), set![Table::EventLog]),
            appended_labeled_event(*old(self), *final(self), EventDomain::Command,
                EventKind::CleanupStepApplied { cleanup, observed_generation }, seq![step@, target@]),
    {
        let mut texts: Vec<String> = Vec::new();
        texts.push(step.to_owned());
        texts.push(target.to_owned());
        let ghost v = texts@;
        self.event_log.push_labeled(
            EventDomain::Command,
            EventKind::CleanupStepApplied { cleanup, observed_generation },
            texts,
        );
        proof { assert(label_views(v) =~= seq![step@, target@]); }
    }
}

/// `new` is `old` with the transaction at position `k` committed and the commit logged as a
/// command.
pub open spec fn committed_transaction(old: SemanticGraph, new: SemanticGraph, k: int) -> bool {
    let t = old.transactions@[k];
    &&& 0 <= k < old.transactions@.len()
    &&& new.agrees_except(&old, set![Table::EventLog, Table::Transactions])
    &&& new.transactions@ == old.transactions@.update(k, SemanticTransactionRecord { state: TransactionState::Committed, ..t })
    &&& appended_event(old.event_log, new.event_log, EventDomain::Command,
        EventKind::TransactionCommitted { transaction: t.id })
}

impl SemanticGraph {
    /// Commits the first begun transaction with id `cleanup` and logs the commit; returns whether
    /// there was one (nothing changes when there is none).
    pub fn commit_transaction(&mut self, cleanup: TransactionId) -> (committed: bool)
        requires
            old(self).event_log.next_event_id < u64::MAX,
        ensures
            committed == any_match(old(self).transactions@, begun_transaction_is(cleanup)),
            match first_match(old(self).transactions@, begun_transaction_is(cleanup)) {
                Some(k) => committed_transaction(*old(self), *final(self), k),
                None => *final(self) == *old(self),
            },
    {
        let found = find_first(
            &self.transactions,
            |t: &SemanticTransactionRecord| -> (b: bool)
                ensures b == begun_transaction_is(cleanup)(*t)
            { t.id == cleanup && t.state == TransactionState::Begun },
            Ghost(begun_transaction_is(cleanup)),
        );
        proof { lemma_first_match_facts(self.transactions@, begun_transaction_is(cleanup)); }
        let Some(k) = found else {
            return false;
        };
        self.transactions[k].state = TransactionState::Committed;
        proof {
            let t = old(self).transactions@[k as int];
            assert(self.transactions@ =~= old(self).transactions@.update(k as int,
                SemanticTransactionRecord { state: TransactionState::Committed, ..t }));
        }
        self.event_log.push(EventDomain::Command, EventKind::TransactionCommitted { transaction: cleanup });
        true
    }
}

} // verus!
