use vstd::prelude::*;
use crate::base::{BlockRequestObjectRecord, WaitRecord};
use crate::block_wait::{
    block_wait_created_event, block_wait_end_event, pending_block_wait_on_request, pending_block_wait_on_token,
    recorded_block_wait, rival_block_wait_on_request, rival_block_wait_on_token,
};
use crate::events::lemma_has_event_extends;
use crate::graph::SemanticGraph;
use crate::lookup2::{pending_wait_is, request_is, submitted_request_is, wait_is};
use crate::search::{first_match, lemma_first_failure_ok, lemma_first_failure_ok_all, lemma_first_match_facts};
use crate::types::{BlockRequestObjectId, BlockWaitId, Generation, WaitId};

verus! {

/// No two wait tokens share an id and a generation.
pub open spec fn wait_generations_unique(s: Seq<WaitRecord>) -> bool {
    forall|i: int, j: int| 0 <= i < j < s.len()
        ==> !((#[trigger] s[i]).id == (#[trigger] s[j]).id && s[i].generation == s[j].generation)
}

/// No two block requests share an id and a generation.
pub open spec fn request_generations_unique(s: Seq<BlockRequestObjectRecord>) -> bool {
    forall|i: int, j: int| 0 <= i < j < s.len()
        ==> !((#[trigger] s[i]).id == (#[trigger] s[j]).id && s[i].generation == s[j].generation)
}

/// Every block request names nonzero generations and carries a nonzero sequence and length.
pub open spec fn requests_well_formed(s: Seq<BlockRequestObjectRecord>) -> bool {
    forall|i: int| 0 <= i < s.len() ==> {
        let r = #[trigger] s[i];
        r.block_device_generation != 0 && r.block_range_generation != 0 && r.sequence != 0 && r.byte_len != 0
    }
}

proof fn lemma_unique_wait_lookup(s: Seq<WaitRecord>, id: WaitId, generation: Generation)
    requires
        wait_generations_unique(s),
        first_match(s, pending_wait_is(id, generation)) is Some,
    ensures
        first_match(s, wait_is(id, generation)) == first_match(s, pending_wait_is(id, generation)),
{
    lemma_first_match_facts(s, pending_wait_is(id, generation));
    lemma_first_match_facts(s, wait_is(id, generation));
    let k = first_match(s, pending_wait_is(id, generation))->0;
    let a = first_match(s, wait_is(id, generation))->0;
    assert(wait_is(id, generation)(s[k]));
    if a < k {
        assert(!(s[a].id == s[k].id && s[a].generation == s[k].generation));
    } else if a > k {
        assert(!wait_is(id, generation)(s[k]));
    }
}

proof fn lemma_unique_request_lookup(s: Seq<BlockRequestObjectRecord>, id: BlockRequestObjectId, generation: Generation)
    requires
        request_generations_unique(s),
        first_match(s, submitted_request_is(id, generation)) is Some,
    ensures
        first_match(s, request_is(id, generation)) == first_match(s, submitted_request_is(id, generation)),
{
    lemma_first_match_facts(s, submitted_request_is(id, generation));
    lemma_first_match_facts(s, request_is(id, generation));
    let k = first_match(s, submitted_request_is(id, generation))->0;
    let a = first_match(s, request_is(id, generation))->0;
    assert(request_is(id, generation)(s[k]));
    if a < k {
        assert(!(s[a].id == s[k].id && s[a].generation == s[k].generation));
    } else if a > k {
        assert(!request_is(id, generation)(s[k]));
    }
}

/// Creating a block wait keeps the block wait audit clean, where wait tokens and block
/// requests are unique by id and generation and block requests are well formed.
pub proof fn lemma_record_block_wait_keeps_audit(
    old: SemanticGraph,
    new: SemanticGraph,
    block_wait: BlockWaitId,
    wait: WaitId,
    wait_generation: Generation,
    block_request: BlockRequestObjectId,
    block_request_generation: Generation,
    note: Seq<char>,
)
    requires
        old.block_wait_audit() is Ok,
        wait_generations_unique(old.waits@),
        request_generations_unique(old.block_request_objects@),
        requests_well_formed(old.block_request_objects@),
        old.block_wait_verdict(block_wait, wait, wait_generation, block_request, block_request_generation) is Ok,
        recorded_block_wait(old, new, block_wait, wait, wait_generation, block_request, block_request_generation, note),
    ensures
        new.block_wait_audit() is Ok,
{
    let n = old.block_waits@.len();
    let olds = Seq::new(n, |i: int| old.block_wait_fault(old.block_waits@[i]));
    let news = Seq::new(n + 1, |i: int| new.block_wait_fault(new.block_waits@[i]));
    lemma_first_failure_ok_all(olds);
    lemma_first_match_facts(old.waits@, pending_wait_is(wait, wait_generation));
    lemma_first_match_facts(old.block_request_objects@, submitted_request_is(block_request, block_request_generation));
    lemma_unique_wait_lookup(old.waits@, wait, wait_generation);
    lemma_unique_request_lookup(old.block_request_objects@, block_request, block_request_generation);
    let last = new.block_waits@[n as int];
    assert forall|i: int| 0 <= i < n implies #[trigger] new.block_waits@[i] == old.block_waits@[i] by {
        assert(new.block_waits@.subrange(0, n as int)[i] == old.block_waits@[i]);
    }
    assert forall|j: int| 0 <= j < news.len() implies (#[trigger] news[j]) is None by {
        if j < n {
            let r = old.block_waits@[j];
            assert(olds[j] is None);
            if r.state == crate::types::BlockWaitState::Pending {
                lemma_first_match_facts(new.block_waits@, rival_block_wait_on_token(r.id, r.wait, r.wait_generation));
                assert forall|m: int| 0 <= m < new.block_waits@.len()
                    implies !rival_block_wait_on_token(r.id, r.wait, r.wait_generation)(#[trigger] new.block_waits@[m]) by {
                    if m == n && rival_block_wait_on_token(r.id, r.wait, r.wait_generation)(last) {
                        assert(pending_block_wait_on_token(wait, wait_generation)(old.block_waits@[j]));
                    }
                }
                assert forall|m: int| 0 <= m < new.block_waits@.len()
                    implies !rival_block_wait_on_request(r.id, r.block_request, r.block_request_generation)(#[trigger] new.block_waits@[m]) by {
                    if m == n && rival_block_wait_on_request(r.id, r.block_request, r.block_request_generation)(last) {
                        assert(pending_block_wait_on_request(block_request, block_request_generation)(old.block_waits@[j]));
                    }
                }
            }
            lemma_has_event_extends(old.event_log.events@, new.event_log.events@, r.created_at_event,
                block_wait_created_event(r));
            if r.completed_at_event is Some && r.state != crate::types::BlockWaitState::Pending {
                lemma_has_event_extends(old.event_log.events@, new.event_log.events@, r.completed_at_event->0,
                    block_wait_end_event(r));
            }
        } else {
            let q = first_match(old.block_request_objects@, submitted_request_is(block_request, block_request_generation))->0;
            assert(old.block_request_objects@[q].block_device_generation != 0);
            assert forall|m: int| 0 <= m < new.block_waits@.len()
                implies !rival_block_wait_on_token(block_wait, wait, wait_generation)(#[trigger] new.block_waits@[m]) by {
                if m < n && rival_block_wait_on_token(block_wait, wait, wait_generation)(old.block_waits@[m]) {
                    assert(pending_block_wait_on_token(wait, wait_generation)(old.block_waits@[m]));
                }
            }
            assert forall|m: int| 0 <= m < new.block_waits@.len()
                implies !rival_block_wait_on_request(block_wait, block_request, block_request_generation)(#[trigger] new.block_waits@[m]) by {
                if m < n && rival_block_wait_on_request(block_wait, block_request, block_request_generation)(old.block_waits@[m]) {
                    assert(pending_block_wait_on_request(block_request, block_request_generation)(old.block_waits@[m]));
                }
            }
            let e = new.event_log.events@.len() - 1;
            assert(new.event_log.events@[e].id == last.created_at_event);
        }
    }
    lemma_first_failure_ok(news);
}

} // verus!
