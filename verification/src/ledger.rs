use vstd::prelude::*;

use crate::account::{Account, AccountV};

verus! {

/// One recorded vote: which proposal, who voted, and the token balance that
/// was recorded as the vote's weight. Entries are immutable once written.
#[derive(Debug)]
pub struct VoteRecord {
    pub proposal_id: u32,
    pub voter: Account,
    pub weight: u64,
}

/// The mathematical value of a [`VoteRecord`].
pub struct VoteRecordV {
    pub proposal_id: u32,
    pub voter: AccountV,
    pub weight: u64,
}

impl View for VoteRecord {
    type V = VoteRecordV;

    open spec fn view(&self) -> VoteRecordV {
        VoteRecordV { proposal_id: self.proposal_id, voter: self.voter@, weight: self.weight }
    }
}

/// Whether the ledger holds a vote by `voter` on proposal `proposal_id`.
pub open spec fn ledger_has(l: Seq<VoteRecordV>, proposal_id: u32, voter: AccountV) -> bool {
    exists|k: int|
        0 <= k < l.len() && (#[trigger] l[k]).proposal_id == proposal_id && l[k].voter == voter
}

/// The weight the ledger records for `voter` on proposal `proposal_id`, or 0
/// when no such vote exists. When several entries match, the latest one
/// decides; a well-formed ledger never holds two matching entries.
pub open spec fn ledger_weight(l: Seq<VoteRecordV>, proposal_id: u32, voter: AccountV) -> u64
    decreases l.len(),
{
    if l.len() == 0 {
        0
    } else if l.last().proposal_id == proposal_id && l.last().voter == voter {
        l.last().weight
    } else {
        ledger_weight(l.drop_last(), proposal_id, voter)
    }
}

/// No two ledger entries concern the same (proposal, account) pair.
pub open spec fn ledger_distinct(l: Seq<VoteRecordV>) -> bool {
    forall|j: int, k: int|
        0 <= j < k < l.len() ==> !((#[trigger] l[j]).proposal_id == (#[trigger] l[k]).proposal_id
            && l[j].voter == l[k].voter)
}

/// A pair that the ledger does not mention carries weight 0.
pub proof fn lemma_ledger_weight_absent(l: Seq<VoteRecordV>, proposal_id: u32, voter: AccountV)
    requires
        !ledger_has(l, proposal_id, voter),
    ensures
        ledger_weight(l, proposal_id, voter) == 0,
    decreases l.len(),
{
    if l.len() > 0 {
        assert(!(l.last().proposal_id == proposal_id && l.last().voter == voter)) by {
            assert(l[l.len() - 1] == l.last());
        }
        assert(!ledger_has(l.drop_last(), proposal_id, voter)) by {
            if ledger_has(l.drop_last(), proposal_id, voter) {
                let k = choose|k: int|
                    0 <= k < l.drop_last().len() && (#[trigger] l.drop_last()[k]).proposal_id
                        == proposal_id && l.drop_last()[k].voter == voter;
                assert(l[k] == l.drop_last()[k]);
            }
        }
        lemma_ledger_weight_absent(l.drop_last(), proposal_id, voter);
    }
}

/// In a ledger without duplicate pairs, the weight of a pair is the weight
/// stored at any entry that matches it.
pub proof fn lemma_ledger_weight_at(l: Seq<VoteRecordV>, proposal_id: u32, voter: AccountV, k: int)
    requires
        ledger_distinct(l),
        0 <= k < l.len(),
        l[k].proposal_id == proposal_id,
        l[k].voter == voter,
    ensures
        ledger_weight(l, proposal_id, voter) == l[k].weight,
    decreases l.len(),
{
    if k == l.len() - 1 {
        assert(l.last() == l[k]);
    } else {
        assert(l.last() == l[l.len() - 1]);
        assert(!(l.last().proposal_id == proposal_id && l.last().voter == voter));
        assert(ledger_distinct(l.drop_last())) by {
            assert(forall|j1: int, k1: int|
                0 <= j1 < k1 < l.drop_last().len() ==> l.drop_last()[j1] == l[j1]
                    && l.drop_last()[k1] == l[k1]);
        }
        assert(l.drop_last()[k] == l[k]);
        lemma_ledger_weight_at(l.drop_last(), proposal_id, voter, k);
    }
}

/// Appending a record changes exactly the weight of its own pair.
pub proof fn lemma_ledger_push(l: Seq<VoteRecordV>, r: VoteRecordV, proposal_id: u32, voter: AccountV)
    ensures
        ledger_has(l.push(r), proposal_id, voter) == (ledger_has(l, proposal_id, voter) || (
        r.proposal_id == proposal_id && r.voter == voter)),
        ledger_weight(l.push(r), proposal_id, voter) == if r.proposal_id == proposal_id && r.voter
            == voter {
            r.weight
        } else {
            ledger_weight(l, proposal_id, voter)
        },
{
    let l2 = l.push(r);
    assert(l2.last() == r);
    assert(l2.drop_last() =~= l);
    if ledger_has(l, proposal_id, voter) {
        let k = choose|k: int|
            0 <= k < l.len() && (#[trigger] l[k]).proposal_id == proposal_id && l[k].voter == voter;
        assert(l2[k] == l[k]);
    }
    if ledger_has(l2, proposal_id, voter) && !(r.proposal_id == proposal_id && r.voter == voter) {
        let k = choose|k: int|
            0 <= k < l2.len() && (#[trigger] l2[k]).proposal_id == proposal_id && l2[k].voter
                == voter;
        assert(k < l.len());
        assert(l[k] == l2[k]);
    }
}

/// Scans the ledger for a vote by `voter` on `proposal_id`.
pub fn ledger_contains(l: &Vec<VoteRecord>, proposal_id: u32, voter: &Account) -> (r: bool)
    ensures
        r == ledger_has(l@.map_values(|x: VoteRecord| x@), proposal_id, voter@),
{
    let ghost lv = l@.map_values(|x: VoteRecord| x@);
    let mut k: usize = 0;
    while k < l.len()
        invariant
            lv == l@.map_values(|x: VoteRecord| x@),
            k <= lv.len(),
            lv.len() == l@.len(),
            forall|j: int|
                0 <= j < k ==> !((#[trigger] lv[j]).proposal_id == proposal_id && lv[j].voter
                    == voter@),
        decreases l@.len() - k,
    {
        if l[k].proposal_id == proposal_id && l[k].voter == *voter {
            proof {
                assert(lv[k as int] == l@[k as int]@);
            }
            return true;
        }
        proof {
            assert(lv[k as int] == l@[k as int]@);
        }
        k = k + 1;
    }
    false
}

/// Scans the ledger for the recorded weight of `voter` on `proposal_id`;
/// returns 0 when the pair never voted.
pub fn ledger_lookup_weight(l: &Vec<VoteRecord>, proposal_id: u32, voter: &Account) -> (r: u64)
    requires
        ledger_distinct(l@.map_values(|x: VoteRecord| x@)),
    ensures
        r == ledger_weight(l@.map_values(|x: VoteRecord| x@), proposal_id, voter@),
{
    let ghost lv = l@.map_values(|x: VoteRecord| x@);
    let mut k: usize = 0;
    while k < l.len()
        invariant
            lv == l@.map_values(|x: VoteRecord| x@),
            ledger_distinct(lv),
            k <= lv.len(),
            lv.len() == l@.len(),
            forall|j: int|
                0 <= j < k ==> !((#[trigger] lv[j]).proposal_id == proposal_id && lv[j].voter
                    == voter@),
        decreases l@.len() - k,
    {
        if l[k].proposal_id == proposal_id && l[k].voter == *voter {
            proof {
                assert(lv[k as int] == l@[k as int]@);
                lemma_ledger_weight_at(lv, proposal_id, voter@, k as int);
            }
            return l[k].weight;
        }
        proof {
            assert(lv[k as int] == l@[k as int]@);
        }
        k = k + 1;
    }
    proof {
        assert(!ledger_has(lv, proposal_id, voter@));
        lemma_ledger_weight_absent(lv, proposal_id, voter@);
    }
    0
}

} // verus!
