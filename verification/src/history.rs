//! Laws of the contract over whole operation histories.
//!
//! An [`Event`] is one call into the contract together with the facts the
//! host supplied for it (the resolved caller, the balance-oracle response).
//! [`run`] folds a sequence of events over a starting state, so the lemmas
//! here speak about every reachable state, not just about single calls.

use vstd::prelude::*;

use crate::account::AccountV;
use crate::errors::VoteError;
use crate::host::oracle_weight;
use crate::ledger::{ledger_has, lemma_ledger_push, VoteRecordV};
use crate::state::{
    lemma_add_proposal_preserves_inv, lemma_close_proposal_preserves_inv,
    lemma_vote_preserves_inv, spec_accept_admin, spec_add_proposal, spec_cancel_admin_proposal,
    spec_close_proposal, spec_propose_admin, spec_vote, StateV,
};

verus! {

/// One call into the contract, with the host-supplied facts it ran under.
pub enum Event {
    Propose { caller: AccountV, new_admin: AccountV },
    Accept { caller: AccountV },
    Cancel { caller: AccountV },
    Add { caller: AccountV, description: Seq<u8> },
    Close { caller: AccountV, proposal_id: u32 },
    Cast { caller: AccountV, response: Option<u64>, proposal_id: u32, vote_yes: bool },
}

/// The state after one call; a rejected call leaves the state unchanged.
pub open spec fn step(s: StateV, e: Event) -> StateV {
    match e {
        Event::Propose { caller, new_admin } => spec_propose_admin(s, caller, new_admin).0,
        Event::Accept { caller } => spec_accept_admin(s, caller).0,
        Event::Cancel { caller } => spec_cancel_admin_proposal(s, caller).0,
        Event::Add { caller, description } => spec_add_proposal(s, caller, description).0,
        Event::Close { caller, proposal_id } => spec_close_proposal(s, caller, proposal_id).0,
        Event::Cast { caller, response, proposal_id, vote_yes } => spec_vote(
            s,
            caller,
            response,
            proposal_id,
            vote_yes,
        ).0,
    }
}

/// The state after a whole sequence of calls, applied in order.
pub open spec fn run(s: StateV, events: Seq<Event>) -> StateV
    decreases events.len(),
{
    if events.len() == 0 {
        s
    } else {
        step(run(s, events.drop_last()), events.last())
    }
}

/// Whether the event is a successful admin nomination in state `s`.
pub open spec fn sets_pending(s: StateV, e: Event) -> bool {
    match e {
        Event::Propose { caller, new_admin } => spec_propose_admin(s, caller, new_admin).1 is Ok,
        _ => false,
    }
}

/// Whether the event is a successful accept or cancel in state `s`; these
/// are exactly the calls that clear a pending admin nomination.
pub open spec fn clears_pending(s: StateV, e: Event) -> bool {
    match e {
        Event::Accept { caller } => spec_accept_admin(s, caller).1 is Ok,
        Event::Cancel { caller } => spec_cancel_admin_proposal(s, caller).1 is Ok,
        _ => false,
    }
}

/// Every single call preserves well-formedness.
pub proof fn lemma_step_preserves_inv(s: StateV, e: Event)
    requires
        s.inv(),
    ensures
        step(s, e).inv(),
{
    match e {
        Event::Propose { .. } => {
        },
        Event::Accept { .. } => {
        },
        Event::Cancel { .. } => {
        },
        Event::Add { caller, description } => {
            lemma_add_proposal_preserves_inv(s, caller, description);
        },
        Event::Close { caller, proposal_id } => {
            lemma_close_proposal_preserves_inv(s, caller, proposal_id);
        },
        Event::Cast { caller, response, proposal_id, vote_yes } => {
            lemma_vote_preserves_inv(s, caller, response, proposal_id, vote_yes);
        },
    }
}

/// Well-formedness holds in every reachable state. In particular, after any
/// sequence of calls the proposal ids are exactly 0, 1, 2, ... in order, the
/// ledger never holds two votes for the same (proposal, account) pair, and
/// only external accounts appear in it.
pub proof fn lemma_run_preserves_inv(s: StateV, events: Seq<Event>)
    requires
        s.inv(),
    ensures
        run(s, events).inv(),
    decreases events.len(),
{
    if events.len() > 0 {
        lemma_run_preserves_inv(s, events.drop_last());
        lemma_step_preserves_inv(run(s, events.drop_last()), events.last());
    }
}

/// In a well-formed state, proposal `i` carries id `i`, so ids are strictly
/// increasing with no gaps.
pub proof fn lemma_proposal_ids_sequential(s: StateV)
    requires
        s.inv(),
    ensures
        forall|i: int| 0 <= i < s.proposals.len() ==> (#[trigger] s.proposals[i]).id == i,
        forall|i: int, j: int|
            0 <= i < j < s.proposals.len() ==> (#[trigger] s.proposals[i]).id < (
            #[trigger] s.proposals[j]).id,
{
}

/// In a well-formed state no contract account appears in the vote ledger.
pub proof fn lemma_no_contract_voters(s: StateV)
    requires
        s.inv(),
    ensures
        forall|k: int| 0 <= k < s.votes.len() ==> !((#[trigger] s.votes[k]).voter is Contract),
{
}

/// Proposals that were closed stay closed: position by position, a proposal
/// that was inactive before a call is still inactive after it.
pub open spec fn active_only_falls(pre: StateV, post: StateV) -> bool {
    forall|i: int|
        0 <= i < pre.proposals.len() && i < post.proposals.len() && !(
        #[trigger] pre.proposals[i]).active ==> !(#[trigger] post.proposals[i]).active
}

/// One call never reactivates a proposal and never removes one.
pub proof fn lemma_step_active_only_falls(s: StateV, e: Event)
    ensures
        active_only_falls(s, step(s, e)),
        step(s, e).proposals.len() >= s.proposals.len(),
{
}

/// No sequence of calls ever reactivates a proposal: `active` transitions
/// from true to false at most once and never back.
pub proof fn lemma_run_active_only_falls(s: StateV, events: Seq<Event>)
    ensures
        active_only_falls(s, run(s, events)),
        run(s, events).proposals.len() >= s.proposals.len(),
    decreases events.len(),
{
    if events.len() > 0 {
        let mid = run(s, events.drop_last());
        lemma_run_active_only_falls(s, events.drop_last());
        lemma_step_active_only_falls(mid, events.last());
    }
}

/// A second vote by the same account on the same proposal is rejected with
/// [`VoteError::AlreadyVoted`] and changes nothing — whatever balance the
/// oracle reports the second time, as long as it is positive (with a zero
/// balance the earlier check [`VoteError::NoVotingPower`] fires instead).
pub proof fn lemma_revote_rejected(
    s: StateV,
    caller: AccountV,
    response1: Option<u64>,
    response2: Option<u64>,
    proposal_id: u32,
    vote_yes1: bool,
    vote_yes2: bool,
)
    requires
        spec_vote(s, caller, response1, proposal_id, vote_yes1).1 is Ok,
        oracle_weight(response2) != 0,
    ensures
        ({
            let post = spec_vote(s, caller, response1, proposal_id, vote_yes1).0;
            &&& spec_vote(post, caller, response2, proposal_id, vote_yes2).0 == post
            &&& spec_vote(post, caller, response2, proposal_id, vote_yes2).1 == Err::<
                (),
                VoteError,
            >(VoteError::AlreadyVoted)
        }),
{
    let post = spec_vote(s, caller, response1, proposal_id, vote_yes1).0;
    let weight = oracle_weight(response1);
    let r = VoteRecordV { proposal_id, voter: caller, weight };
    lemma_ledger_push(s.votes, r, proposal_id, caller);
    assert(ledger_has(post.votes, proposal_id, caller));
    assert(post.proposals[proposal_id as int].active);
}

/// After a successful vote the sum of the tallies has grown by exactly the
/// recorded weight whenever that sum fits in a `u64`, and in every case it
/// has not shrunk.
pub proof fn lemma_vote_tally(
    s: StateV,
    caller: AccountV,
    response: Option<u64>,
    proposal_id: u32,
    vote_yes: bool,
)
    requires
        spec_vote(s, caller, response, proposal_id, vote_yes).1 is Ok,
    ensures
        ({
            let post = spec_vote(s, caller, response, proposal_id, vote_yes).0;
            let pre_yes = s.proposals[proposal_id as int].yes_votes;
            let pre_no = s.proposals[proposal_id as int].no_votes;
            let post_yes = post.proposals[proposal_id as int].yes_votes;
            let post_no = post.proposals[proposal_id as int].no_votes;
            let weight = oracle_weight(response);
            &&& post_yes + post_no >= pre_yes + pre_no
            &&& pre_yes + pre_no + weight <= u64::MAX ==> post_yes + post_no == pre_yes + pre_no
                + weight
        }),
{
}

/// Whether the `k`-th event is a successful admin nomination after which no
/// later event of the sequence clears the nomination again.
pub open spec fn pending_set_since(s0: StateV, events: Seq<Event>, k: int) -> bool {
    &&& 0 <= k < events.len()
    &&& sets_pending(run(s0, events.take(k)), events[k])
    &&& forall|j: int|
        k < j < events.len() ==> !clears_pending(run(s0, #[trigger] events.take(j)), events[j])
}

/// A call that neither nominates an admin nor accepts or cancels a
/// nomination leaves the pending admin untouched.
pub proof fn lemma_step_pending_preserved(s: StateV, e: Event)
    requires
        !sets_pending(s, e),
        !clears_pending(s, e),
    ensures
        step(s, e).pending_admin == s.pending_admin,
{
}

/// Taking a prefix commutes with dropping the last event.
proof fn lemma_take_of_drop_last(events: Seq<Event>, k: int)
    requires
        0 <= k <= events.len() - 1,
    ensures
        events.take(k) == events.drop_last().take(k),
{
    assert(events.take(k) =~= events.drop_last().take(k));
}

/// A pending admin exists exactly when some admin nomination has succeeded
/// and no later call has accepted or cancelled it. In particular,
/// `pending_admin` is `Some` from a successful `propose_admin` until the
/// matching `accept_admin` or `cancel_admin_proposal`, and `None` otherwise.
pub proof fn lemma_pending_admin_characterization(s0: StateV, events: Seq<Event>)
    requires
        s0.pending_admin is None,
    ensures
        run(s0, events).pending_admin is Some <==> exists|k: int| pending_set_since(s0, events, k),
    decreases events.len(),
{
    if events.len() == 0 {
        assert(forall|k: int| !pending_set_since(s0, events, k));
    } else {
        let n = events.len() - 1;
        let prefix = events.drop_last();
        let e = events.last();
        let mid = run(s0, prefix);
        lemma_pending_admin_characterization(s0, prefix);
        assert(events.take(n) =~= prefix);
        assert(events[n] == e);
        assert forall|k: int| 0 <= k < n implies (pending_set_since(s0, events, k) <==> (
        pending_set_since(s0, prefix, k) && !clears_pending(mid, e))) by {
            lemma_take_of_drop_last(events, k);
            assert forall|j: int| k < j < n implies (clears_pending(
                run(s0, events.take(j)),
                events[j],
            ) == clears_pending(run(s0, prefix.take(j)), prefix[j])) by {
                lemma_take_of_drop_last(events, j);
                assert(events[j] == prefix[j]);
            }
            assert(pending_set_since(s0, events, k) ==> pending_set_since(s0, prefix, k)
                && !clears_pending(mid, e)) by {
                if pending_set_since(s0, events, k) {
                    assert(!clears_pending(run(s0, events.take(n)), events[n]));
                    assert forall|j: int| k < j < prefix.len() implies !clears_pending(
                        run(s0, #[trigger] prefix.take(j)),
                        prefix[j],
                    ) by {
                        assert(!clears_pending(run(s0, events.take(j)), events[j]));
                    }
                }
            }
            assert((pending_set_since(s0, prefix, k) && !clears_pending(mid, e))
                ==> pending_set_since(s0, events, k)) by {
                if pending_set_since(s0, prefix, k) && !clears_pending(mid, e) {
                    assert forall|j: int| k < j < events.len() implies !clears_pending(
                        run(s0, #[trigger] events.take(j)),
                        events[j],
                    ) by {
                        if j < n {
                            assert(!clears_pending(run(s0, prefix.take(j)), prefix[j]));
                        } else {
                            assert(events.take(j) == prefix);
                        }
                    }
                }
            }
        }
        if sets_pending(mid, e) {
            assert(run(s0, events).pending_admin is Some);
            assert(pending_set_since(s0, events, n));
        } else if clears_pending(mid, e) {
            assert(run(s0, events).pending_admin is None);
            assert forall|k: int| !pending_set_since(s0, events, k) by {
                if 0 <= k < n {
                    if pending_set_since(s0, events, k) {
                        assert(!clears_pending(run(s0, events.take(n)), events[n]));
                    }
                } else if k == n {
                    assert(!sets_pending(mid, e));
                }
            }
        } else {
            lemma_step_pending_preserved(mid, e);
            assert(run(s0, events).pending_admin == mid.pending_admin);
            if exists|k: int| pending_set_since(s0, prefix, k) {
                let k = choose|k: int| pending_set_since(s0, prefix, k);
                assert(pending_set_since(s0, events, k));
            }
            if exists|k: int| pending_set_since(s0, events, k) {
                let k = choose|k: int| pending_set_since(s0, events, k);
                if k == n {
                    assert(sets_pending(mid, e));
                } else {
                    assert(pending_set_since(s0, prefix, k));
                }
            }
        }
    }
}

} // verus!
