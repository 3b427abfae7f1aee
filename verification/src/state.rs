use vstd::prelude::*;

use crate::account::{Account, AccountV, copy_bytes, spec_zeroed_bytes, zeroed_bytes, CONTRACT_ID_BYTES};
use crate::errors::VoteError;
use crate::host::oracle_weight;
use crate::ledger::{
    ledger_contains, ledger_distinct, ledger_has, ledger_lookup_weight, ledger_weight,
    VoteRecord, VoteRecordV,
};
use crate::proposal::{Proposal, ProposalV, MAX_DESCRIPTION_BYTES, MAX_PROPOSALS};

verus! {

/// The mathematical value of the whole contract state.
#[verifier::ext_equal]
pub struct StateV {
    pub admin: AccountV,
    pub pending_admin: Option<AccountV>,
    pub token_contract: Seq<u8>,
    pub proposals: Seq<ProposalV>,
    pub votes: Seq<VoteRecordV>,
    pub next_proposal_id: u32,
}

impl StateV {
    /// Well-formedness of the contract state. It holds of the initial state
    /// and is preserved by every operation:
    /// - ids are the positions: proposal `i` carries id `i`, and
    ///   `next_proposal_id` counts the proposals ever created;
    /// - the registry holds at most [`MAX_PROPOSALS`] proposals;
    /// - every description is at most [`MAX_DESCRIPTION_BYTES`] bytes long;
    /// - every ledger entry concerns an existing proposal;
    /// - only external accounts appear in the ledger;
    /// - no (proposal, account) pair appears twice in the ledger.
    pub open spec fn inv(self) -> bool {
        &&& self.next_proposal_id == self.proposals.len()
        &&& self.proposals.len() <= MAX_PROPOSALS
        &&& forall|i: int| 0 <= i < self.proposals.len() ==> (#[trigger] self.proposals[i]).id == i
        &&& forall|i: int|
            0 <= i < self.proposals.len() ==> (#[trigger] self.proposals[i]).description.len()
                <= MAX_DESCRIPTION_BYTES
        &&& forall|k: int|
            0 <= k < self.votes.len() ==> (#[trigger] self.votes[k]).proposal_id
                < self.proposals.len()
        &&& forall|k: int| 0 <= k < self.votes.len() ==> (#[trigger] self.votes[k]).voter is External
        &&& ledger_distinct(self.votes)
    }
}

/// The state of a freshly initialized contract: the given admin and token
/// contract, no pending transfer, no proposals, no votes.
pub open spec fn initial_state(admin: AccountV, token_contract: Seq<u8>) -> StateV {
    StateV {
        admin,
        pending_admin: None,
        token_contract,
        proposals: Seq::empty(),
        votes: Seq::empty(),
        next_proposal_id: 0,
    }
}

/// Saturating addition on `u64`: the exact sum, clamped to `u64::MAX`.
pub open spec fn sat_add_u64(a: u64, b: u64) -> u64 {
    if a + b > u64::MAX {
        u64::MAX
    } else {
        (a + b) as u64
    }
}

/// Nominating a new admin: only the current admin may nominate, and not
/// itself; a successful nomination overwrites any earlier pending one.
pub open spec fn spec_propose_admin(s: StateV, caller: AccountV, new_admin: AccountV) -> (StateV, Result<
    (),
    VoteError,
>) {
    if caller != s.admin {
        (s, Err(VoteError::NotAdmin))
    } else if new_admin == s.admin {
        (s, Err(VoteError::CannotProposeSelf))
    } else {
        ((StateV { pending_admin: Some(new_admin), ..s }), Ok(()))
    }
}

/// Accepting the admin role: only the nominated pending admin may accept;
/// acceptance installs the caller as admin and clears the nomination.
pub open spec fn spec_accept_admin(s: StateV, caller: AccountV) -> (StateV, Result<(), VoteError>) {
    match s.pending_admin {
        None => (s, Err(VoteError::NoPendingTransfer)),
        Some(pending) => if pending != caller {
            (s, Err(VoteError::NotPendingAdmin))
        } else {
            ((StateV { admin: caller, pending_admin: None, ..s }), Ok(()))
        },
    }
}

/// Cancelling a pending admin transfer: only the current admin may cancel,
/// and only while a nomination is pending.
pub open spec fn spec_cancel_admin_proposal(s: StateV, caller: AccountV) -> (StateV, Result<
    (),
    VoteError,
>) {
    if caller != s.admin {
        (s, Err(VoteError::NotAdmin))
    } else if s.pending_admin is None {
        (s, Err(VoteError::NoPendingTransfer))
    } else {
        ((StateV { pending_admin: None, ..s }), Ok(()))
    }
}

/// Creating a proposal: only the admin may create one, the registry must
/// have room, and the description must fit the byte bound. The new proposal
/// takes the next sequential id, starts active with empty tallies, and the
/// result reports its id.
pub open spec fn spec_add_proposal(s: StateV, caller: AccountV, description: Seq<u8>) -> (StateV, Result<
    u32,
    VoteError,
>) {
    if caller != s.admin {
        (s, Err(VoteError::NotAdmin))
    } else if s.proposals.len() >= MAX_PROPOSALS {
        (s, Err(VoteError::MaxProposalsReached))
    } else if description.len() > MAX_DESCRIPTION_BYTES {
        (s, Err(VoteError::DescriptionTooLong))
    } else {
        let id = s.next_proposal_id;
        (
            (StateV {
                proposals: s.proposals.push(
                    ProposalV { id, description, yes_votes: 0, no_votes: 0, active: true },
                ),
                next_proposal_id: (id + 1) as u32,
                ..s
            }),
            Ok(id),
        )
    }
}

/// Closing a proposal: only the admin may close, and the proposal must
/// exist. Closing an already-closed proposal succeeds and changes nothing.
pub open spec fn spec_close_proposal(s: StateV, caller: AccountV, proposal_id: u32) -> (StateV, Result<
    (),
    VoteError,
>) {
    if caller != s.admin {
        (s, Err(VoteError::NotAdmin))
    } else if proposal_id >= s.proposals.len() {
        (s, Err(VoteError::ProposalNotFound))
    } else {
        (
            (StateV {
                proposals: s.proposals.update(
                    proposal_id as int,
                    (ProposalV { active: false, ..s.proposals[proposal_id as int] }),
                ),
                ..s
            }),
            Ok(()),
        )
    }
}

/// Casting a vote. The checks run in this order: the caller must be an
/// external account, the oracle-reported balance (a failed oracle call counts
/// as 0) must be positive, the proposal must exist and be active, and the
/// caller must not have voted on it before. Only when every check passes is
/// the vote recorded: one ledger entry with the reported balance as weight,
/// and that weight added, saturating, to the chosen tally.
pub open spec fn spec_vote(
    s: StateV,
    caller: AccountV,
    response: Option<u64>,
    proposal_id: u32,
    vote_yes: bool,
) -> (StateV, Result<(), VoteError>) {
    let weight = oracle_weight(response);
    if !(caller is External) {
        (s, Err(VoteError::ContractsCannotVote))
    } else if weight == 0 {
        (s, Err(VoteError::NoVotingPower))
    } else if proposal_id >= s.proposals.len() {
        (s, Err(VoteError::ProposalNotFound))
    } else if !s.proposals[proposal_id as int].active {
        (s, Err(VoteError::ProposalNotActive))
    } else if ledger_has(s.votes, proposal_id, caller) {
        (s, Err(VoteError::AlreadyVoted))
    } else {
        let p = s.proposals[proposal_id as int];
        let p2 = if vote_yes {
            ProposalV { yes_votes: sat_add_u64(p.yes_votes, weight), ..p }
        } else {
            ProposalV { no_votes: sat_add_u64(p.no_votes, weight), ..p }
        };
        (
            (StateV {
                proposals: s.proposals.update(proposal_id as int, p2),
                votes: s.votes.push(
                    VoteRecordV { proposal_id, voter: caller, weight },
                ),
                ..s
            }),
            Ok(()),
        )
    }
}

/// Creating a proposal preserves well-formedness.
pub proof fn lemma_add_proposal_preserves_inv(s: StateV, caller: AccountV, description: Seq<u8>)
    requires
        s.inv(),
    ensures
        spec_add_proposal(s, caller, description).0.inv(),
{
    let post = spec_add_proposal(s, caller, description).0;
    if caller == s.admin && s.proposals.len() < MAX_PROPOSALS && description.len()
        <= MAX_DESCRIPTION_BYTES {
        assert(forall|i: int|
            0 <= i < s.proposals.len() ==> post.proposals[i] == s.proposals[i]);
        assert(post.proposals[s.proposals.len() as int].id == s.proposals.len());
    }
}

/// Closing a proposal preserves well-formedness.
pub proof fn lemma_close_proposal_preserves_inv(s: StateV, caller: AccountV, proposal_id: u32)
    requires
        s.inv(),
    ensures
        spec_close_proposal(s, caller, proposal_id).0.inv(),
{
    let post = spec_close_proposal(s, caller, proposal_id).0;
    if caller == s.admin && proposal_id < s.proposals.len() {
        assert(forall|i: int|
            0 <= i < post.proposals.len() && i != proposal_id ==> post.proposals[i]
                == s.proposals[i]);
        assert(post.proposals[proposal_id as int].id == proposal_id);
        assert(post.proposals[proposal_id as int].description
            == s.proposals[proposal_id as int].description);
    }
}

/// Casting a vote preserves well-formedness.
pub proof fn lemma_vote_preserves_inv(
    s: StateV,
    caller: AccountV,
    response: Option<u64>,
    proposal_id: u32,
    vote_yes: bool,
)
    requires
        s.inv(),
    ensures
        spec_vote(s, caller, response, proposal_id, vote_yes).0.inv(),
{
    let post = spec_vote(s, caller, response, proposal_id, vote_yes).0;
    let weight = oracle_weight(response);
    if caller is External && weight != 0 && proposal_id < s.proposals.len()
        && s.proposals[proposal_id as int].active && !ledger_has(s.votes, proposal_id, caller) {
        let r = VoteRecordV { proposal_id, voter: caller, weight };
        assert(forall|i: int|
            0 <= i < post.proposals.len() && i != proposal_id ==> post.proposals[i]
                == s.proposals[i]);
        assert(post.proposals[proposal_id as int].id == proposal_id);
        assert(post.proposals[proposal_id as int].description
            == s.proposals[proposal_id as int].description);
        assert(forall|k: int| 0 <= k < s.votes.len() ==> post.votes[k] == s.votes[k]);
        assert(post.votes[s.votes.len() as int] == r);
        assert(ledger_distinct(post.votes)) by {
            assert forall|j: int, k: int| 0 <= j < k < post.votes.len() implies !((
            #[trigger] post.votes[j]).proposal_id == (#[trigger] post.votes[k]).proposal_id
                && post.votes[j].voter == post.votes[k].voter) by {
                if k == s.votes.len() as int {
                    if post.votes[j].proposal_id == r.proposal_id && post.votes[j].voter
                        == r.voter {
                        assert(ledger_has(s.votes, proposal_id, caller));
                    }
                }
            }
        }
    }
}

/// The governance contract state: admin custody, the proposal registry, and
/// the vote ledger. All mutation goes through the operations below, each of
/// which either fully applies or, on a rejected precondition, leaves the
/// state exactly as it was.
pub struct VoteContract {
    admin: Account,
    pending_admin: Option<Account>,
    token_contract: Vec<u8>,
    proposals: Vec<Proposal>,
    votes: Vec<VoteRecord>,
    next_proposal_id: u32,
}

impl View for VoteContract {
    type V = StateV;

    closed spec fn view(&self) -> StateV {
        StateV {
            admin: self.admin@,
            pending_admin: match self.pending_admin {
                Some(a) => Some(a@),
                None => None,
            },
            token_contract: self.token_contract@,
            proposals: self.proposals@.map_values(|p: Proposal| p@),
            votes: self.votes@.map_values(|r: VoteRecord| r@),
            next_proposal_id: self.next_proposal_id,
        }
    }
}

impl VoteContract {
    /// Well-formedness of the contract; see [`StateV::inv`].
    pub open spec fn wf(&self) -> bool {
        self@.inv()
    }

    /// A contract in its pre-initialization placeholder state: the all-zero
    /// contract account as admin, the all-zero token contract id, and empty
    /// registry and ledger.
    pub fn new() -> (r: VoteContract)
        ensures
            r@ == initial_state(
                AccountV::Contract(spec_zeroed_bytes(CONTRACT_ID_BYTES as nat)),
                spec_zeroed_bytes(CONTRACT_ID_BYTES as nat),
            ),
            r.wf(),
    {
        let r = VoteContract {
            admin: Account::Contract(zeroed_bytes(CONTRACT_ID_BYTES)),
            pending_admin: None,
            token_contract: zeroed_bytes(CONTRACT_ID_BYTES),
            proposals: Vec::new(),
            votes: Vec::new(),
            next_proposal_id: 0,
        };
        proof {
            assert(r@.proposals =~= Seq::<ProposalV>::empty());
            assert(r@.votes =~= Seq::<VoteRecordV>::empty());
            assert(r@ =~= initial_state(
                AccountV::Contract(spec_zeroed_bytes(CONTRACT_ID_BYTES as nat)),
                spec_zeroed_bytes(CONTRACT_ID_BYTES as nat),
            ));
        }
        r
    }

    /// Initializes the contract with its admin and the token contract whose
    /// balances weigh the votes. Initialization happens exactly once, before
    /// any proposal exists.
    pub fn init(&mut self, admin: Account, token_contract: Vec<u8>)
        requires
            old(self)@.proposals.len() == 0,
            old(self)@.votes.len() == 0,
        ensures
            final(self)@ == initial_state(admin@, token_contract@),
            final(self).wf(),
    {
        self.admin = admin;
        self.token_contract = token_contract;
        self.pending_admin = None;
        self.next_proposal_id = 0;
        proof {
            assert(self@.proposals =~= Seq::<ProposalV>::empty());
            assert(self@.votes =~= Seq::<VoteRecordV>::empty());
            assert(self@ =~= initial_state(admin@, token_contract@));
        }
    }

    /// Nominates `new_admin` for the two-step admin transfer; see
    /// [`spec_propose_admin`].
    pub fn propose_admin(&mut self, caller: &Account, new_admin: &Account) -> (r: Result<
        (),
        VoteError,
    >)
        requires
            old(self).wf(),
        ensures
            final(self).wf(),
            final(self)@ == spec_propose_admin(old(self)@, caller@, new_admin@).0,
            r == spec_propose_admin(old(self)@, caller@, new_admin@).1,
            r is Ok <==> caller@ == old(self)@.admin && new_admin@ != old(self)@.admin,
    {
        if !(*caller == self.admin) {
            return Err(VoteError::NotAdmin);
        }
        if *new_admin == self.admin {
            return Err(VoteError::CannotProposeSelf);
        }
        self.pending_admin = Some(new_admin.clone());
        proof {
            assert(self@ =~= spec_propose_admin(old(self)@, caller@, new_admin@).0);
        }
        Ok(())
    }

    /// Completes a pending admin transfer; see [`spec_accept_admin`].
    pub fn accept_admin(&mut self, caller: &Account) -> (r: Result<(), VoteError>)
        requires
            old(self).wf(),
        ensures
            final(self).wf(),
            final(self)@ == spec_accept_admin(old(self)@, caller@).0,
            r == spec_accept_admin(old(self)@, caller@).1,
            r is Ok <==> old(self)@.pending_admin == Some(caller@),
    {
        let pending_matches = match &self.pending_admin {
            None => {
                return Err(VoteError::NoPendingTransfer);
            },
            Some(pending) => *pending == *caller,
        };
        if !pending_matches {
            return Err(VoteError::NotPendingAdmin);
        }
        self.admin = caller.clone();
        self.pending_admin = None;
        proof {
            assert(self@ =~= spec_accept_admin(old(self)@, caller@).0);
        }
        Ok(())
    }

    /// Cancels a pending admin transfer; see [`spec_cancel_admin_proposal`].
    pub fn cancel_admin_proposal(&mut self, caller: &Account) -> (r: Result<(), VoteError>)
        requires
            old(self).wf(),
        ensures
            final(self).wf(),
            final(self)@ == spec_cancel_admin_proposal(old(self)@, caller@).0,
            r == spec_cancel_admin_proposal(old(self)@, caller@).1,
            r is Ok <==> caller@ == old(self)@.admin && old(self)@.pending_admin is Some,
    {
        if !(*caller == self.admin) {
            return Err(VoteError::NotAdmin);
        }
        if self.pending_admin.is_none() {
            return Err(VoteError::NoPendingTransfer);
        }
        self.pending_admin = None;
        proof {
            assert(self@ =~= spec_cancel_admin_proposal(old(self)@, caller@).0);
        }
        Ok(())
    }

    /// The pending admin, if a transfer is in progress.
    pub fn pending_admin(&self) -> (r: Option<Account>)
        ensures
            match r {
                Some(a) => self@.pending_admin == Some(a@),
                None => self@.pending_admin is None,
            },
    {
        match &self.pending_admin {
            None => None,
            Some(a) => Some(a.clone()),
        }
    }

    /// Creates a proposal and returns its id; see [`spec_add_proposal`].
    pub fn add_proposal(&mut self, caller: &Account, description: Vec<u8>) -> (r: Result<
        u32,
        VoteError,
    >)
        requires
            old(self).wf(),
        ensures
            final(self).wf(),
            final(self)@ == spec_add_proposal(old(self)@, caller@, description@).0,
            r == spec_add_proposal(old(self)@, caller@, description@).1,
            r is Ok <==> (caller@ == old(self)@.admin && old(self)@.proposals.len() < MAX_PROPOSALS
                && description@.len() <= MAX_DESCRIPTION_BYTES),
    {
        if !(*caller == self.admin) {
            return Err(VoteError::NotAdmin);
        }
        if self.proposals.len() >= MAX_PROPOSALS {
            return Err(VoteError::MaxProposalsReached);
        }
        if description.len() > MAX_DESCRIPTION_BYTES {
            return Err(VoteError::DescriptionTooLong);
        }
        let id = self.next_proposal_id;
        self.next_proposal_id = id + 1;
        let ghost d = description@;
        self.proposals.push(
            Proposal { id, description, yes_votes: 0, no_votes: 0, active: true },
        );
        proof {
            assert(self@.proposals =~= old(self)@.proposals.push(
                ProposalV { id, description: d, yes_votes: 0, no_votes: 0, active: true },
            ));
            assert(self@ =~= spec_add_proposal(old(self)@, caller@, d).0);
            lemma_add_proposal_preserves_inv(old(self)@, caller@, d);
        }
        Ok(id)
    }

    /// Closes the proposal with the given id; see [`spec_close_proposal`].
    pub fn close_proposal(&mut self, caller: &Account, proposal_id: u32) -> (r: Result<
        (),
        VoteError,
    >)
        requires
            old(self).wf(),
        ensures
            final(self).wf(),
            final(self)@ == spec_close_proposal(old(self)@, caller@, proposal_id).0,
            r == spec_close_proposal(old(self)@, caller@, proposal_id).1,
            r is Ok <==> (caller@ == old(self)@.admin && proposal_id < old(self)@.proposals.len()),
    {
        if !(*caller == self.admin) {
            return Err(VoteError::NotAdmin);
        }
        let idx = proposal_id as usize;
        if idx >= self.proposals.len() {
            return Err(VoteError::ProposalNotFound);
        }
        let p = &mut self.proposals[idx];
        p.active = false;
        proof {
            assert(self@.proposals =~= spec_close_proposal(old(self)@, caller@, proposal_id)
                .0.proposals);
            assert(self@ =~= spec_close_proposal(old(self)@, caller@, proposal_id).0);
            lemma_close_proposal_preserves_inv(old(self)@, caller@, proposal_id);
        }
        Ok(())
    }

    /// Casts the caller's vote on a proposal, weighted by the token balance
    /// the oracle reported for the caller; see [`spec_vote`].
    pub fn vote(
        &mut self,
        caller: &Account,
        response: Option<u64>,
        proposal_id: u32,
        vote_yes: bool,
    ) -> (r: Result<(), VoteError>)
        requires
            old(self).wf(),
        ensures
            final(self).wf(),
            final(self)@ == spec_vote(old(self)@, caller@, response, proposal_id, vote_yes).0,
            r == spec_vote(old(self)@, caller@, response, proposal_id, vote_yes).1,
            r is Ok <==> (caller@ is External && oracle_weight(response) != 0 && proposal_id
                < old(self)@.proposals.len() && old(self)@.proposals[proposal_id as int].active
                && !ledger_has(old(self)@.votes, proposal_id, caller@)),
    {
        let weight = match response {
            Some(balance) => balance,
            None => 0,
        };
        let is_external = match caller {
            Account::External(_) => true,
            Account::Contract(_) => false,
        };
        if !is_external {
            return Err(VoteError::ContractsCannotVote);
        }
        if weight == 0 {
            return Err(VoteError::NoVotingPower);
        }
        let idx = proposal_id as usize;
        if idx >= self.proposals.len() {
            return Err(VoteError::ProposalNotFound);
        }
        if !self.proposals[idx].active {
            return Err(VoteError::ProposalNotActive);
        }
        if ledger_contains(&self.votes, proposal_id, caller) {
            return Err(VoteError::AlreadyVoted);
        }
        self.votes.push(VoteRecord { proposal_id, voter: caller.clone(), weight });
        let p = &mut self.proposals[idx];
        if vote_yes {
            p.yes_votes = sat_add(p.yes_votes, weight);
        } else {
            p.no_votes = sat_add(p.no_votes, weight);
        }
        proof {
            assert(self@.votes =~= old(self)@.votes.push(
                VoteRecordV { proposal_id, voter: caller@, weight },
            ));
            assert(self@.proposals =~= spec_vote(
                old(self)@,
                caller@,
                response,
                proposal_id,
                vote_yes,
            ).0.proposals);
            assert(self@ =~= spec_vote(old(self)@, caller@, response, proposal_id, vote_yes).0);
            lemma_vote_preserves_inv(old(self)@, caller@, response, proposal_id, vote_yes);
        }
        Ok(())
    }

    /// The proposal with the given id, if it exists.
    pub fn get_proposal(&self, proposal_id: u32) -> (r: Option<Proposal>)
        requires
            self.wf(),
        ensures
            match r {
                Some(p) => proposal_id < self@.proposals.len() && p@ == self@.proposals[proposal_id as int],
                None => proposal_id >= self@.proposals.len(),
            },
    {
        let idx = proposal_id as usize;
        if idx < self.proposals.len() {
            Some(self.proposals[idx].clone())
        } else {
            None
        }
    }

    /// All proposals, in order of creation.
    pub fn get_all_proposals(&self) -> (r: Vec<Proposal>)
        ensures
            r@.len() == self@.proposals.len(),
            forall|i: int| 0 <= i < r@.len() ==> (#[trigger] r@[i])@ == self@.proposals[i],
    {
        let mut r: Vec<Proposal> = Vec::new();
        let mut i: usize = 0;
        while i < self.proposals.len()
            invariant
                i <= self.proposals@.len(),
                r@.len() == i,
                self@.proposals.len() == self.proposals@.len(),
                forall|j: int| 0 <= j < i ==> (#[trigger] r@[j])@ == self@.proposals[j],
            decreases self.proposals@.len() - i,
        {
            r.push(self.proposals[i].clone());
            i = i + 1;
        }
        r
    }

    /// How many proposals have been created.
    pub fn proposal_count(&self) -> (r: u32)
        requires
            self.wf(),
        ensures
            r == self@.proposals.len(),
    {
        self.proposals.len() as u32
    }

    /// Whether `caller` has voted on the proposal with the given id. Reads
    /// never fail: an unknown proposal simply has no votes.
    pub fn has_voted(&self, caller: &Account, proposal_id: u32) -> (r: bool)
        ensures
            r == ledger_has(self@.votes, proposal_id, caller@),
    {
        ledger_contains(&self.votes, proposal_id, caller)
    }

    /// Whether the external account with the given public key has voted on
    /// the proposal with the given id.
    pub fn has_account_voted(&self, public_key: &Vec<u8>, proposal_id: u32) -> (r: bool)
        ensures
            r == ledger_has(self@.votes, proposal_id, AccountV::External(public_key@)),
    {
        let account = Account::External(copy_bytes(public_key));
        ledger_contains(&self.votes, proposal_id, &account)
    }

    /// The weight `caller` cast on the proposal with the given id, or 0 if
    /// it has not voted there.
    pub fn get_vote_weight(&self, caller: &Account, proposal_id: u32) -> (r: u64)
        requires
            self.wf(),
        ensures
            r == ledger_weight(self@.votes, proposal_id, caller@),
    {
        ledger_lookup_weight(&self.votes, proposal_id, caller)
    }

    /// The weight the external account with the given public key cast on the
    /// proposal with the given id, or 0 if it has not voted there.
    pub fn get_account_vote_weight(&self, public_key: &Vec<u8>, proposal_id: u32) -> (r: u64)
        requires
            self.wf(),
        ensures
            r == ledger_weight(self@.votes, proposal_id, AccountV::External(public_key@)),
    {
        let account = Account::External(copy_bytes(public_key));
        ledger_lookup_weight(&self.votes, proposal_id, &account)
    }

    /// The current admin account.
    pub fn admin(&self) -> (r: Account)
        ensures
            r@ == self@.admin,
    {
        self.admin.clone()
    }

    /// Whether `caller` is the current admin.
    pub fn is_admin(&self, caller: &Account) -> (r: bool)
        ensures
            r == (caller@ == self@.admin),
    {
        *caller == self.admin
    }

    /// The id of the token contract whose balances weigh the votes.
    pub fn token_contract(&self) -> (r: Vec<u8>)
        ensures
            r@ == self@.token_contract,
    {
        copy_bytes(&self.token_contract)
    }
}

/// Saturating addition on `u64` values.
fn sat_add(a: u64, b: u64) -> (r: u64)
    ensures
        r == sat_add_u64(a, b),
{
    if a > u64::MAX - b {
        u64::MAX
    } else {
        a + b
    }
}

} // verus!
