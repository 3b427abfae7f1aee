//! End-to-end scenarios for the governance state machine: the proposal
//! lifecycle, weighted voting, double-vote prevention, admin custody, and
//! each error variant.

use vote_contract::host::{balance_from_oracle, resolve_caller};
use vote_contract::proposal::MAX_PROPOSALS;
use vote_contract::{Account, VoteContract, VoteError};

fn mock_key(seed: u8) -> Vec<u8> {
    let mut bytes = vec![0u8; 96];
    for (i, b) in bytes.iter_mut().enumerate() {
        *b = seed.wrapping_add(i as u8);
    }
    bytes
}

fn admin_account() -> Account {
    Account::External(mock_key(1))
}

fn setup() -> VoteContract {
    let mut contract = VoteContract::new();
    contract.init(admin_account(), vec![7u8; 32]);
    contract
}

// ==================== Proposal Lifecycle ====================

#[test]
fn scenario_vote_on_closed_proposal_fails() {
    let mut contract = setup();
    let admin = admin_account();

    let id = contract.add_proposal(&admin, b"Upgrade protocol".to_vec());
    assert_eq!(id, Ok(0));
    assert_eq!(contract.close_proposal(&admin, 0), Ok(()));

    let funded_voter = Account::External(mock_key(2));
    let result = contract.vote(&funded_voter, Some(500), 0, true);
    assert_eq!(result, Err(VoteError::ProposalNotActive));
    assert!(!contract.has_voted(&funded_voter, 0));
}

#[test]
fn scenario_close_proposal_is_idempotent() {
    let mut contract = setup();
    let admin = admin_account();

    contract.add_proposal(&admin, b"close me twice".to_vec()).unwrap();
    assert_eq!(contract.close_proposal(&admin, 0), Ok(()));
    assert_eq!(contract.close_proposal(&admin, 0), Ok(()));
    assert!(!contract.get_proposal(0).unwrap().active);
}

#[test]
fn scenario_closed_proposal_stays_closed() {
    let mut contract = setup();
    let admin = admin_account();
    let voter = Account::External(mock_key(2));

    contract.add_proposal(&admin, b"first".to_vec()).unwrap();
    contract.close_proposal(&admin, 0).unwrap();

    // Later activity never reactivates a closed proposal.
    contract.add_proposal(&admin, b"second".to_vec()).unwrap();
    contract.vote(&voter, Some(100), 1, true).unwrap();
    contract.propose_admin(&admin, &voter).unwrap();
    assert!(!contract.get_proposal(0).unwrap().active);
    assert!(contract.get_proposal(1).unwrap().active);
}

#[test]
fn scenario_close_unknown_proposal_fails() {
    let mut contract = setup();
    let admin = admin_account();

    assert_eq!(contract.close_proposal(&admin, 3), Err(VoteError::ProposalNotFound));
}

#[test]
fn scenario_proposal_ids_are_sequential() {
    let mut contract = setup();
    let admin = admin_account();

    assert_eq!(contract.add_proposal(&admin, b"a".to_vec()), Ok(0));
    assert_eq!(contract.add_proposal(&admin, b"b".to_vec()), Ok(1));
    assert_eq!(contract.add_proposal(&admin, b"c".to_vec()), Ok(2));

    let proposals = contract.get_all_proposals();
    assert_eq!(proposals.len(), 3);
    for (i, p) in proposals.iter().enumerate() {
        assert_eq!(p.id, i as u32);
        assert!(p.active);
        assert_eq!(p.yes_votes, 0);
        assert_eq!(p.no_votes, 0);
    }
    assert_eq!(proposals[1].description, b"b".to_vec());
}

#[test]
fn scenario_description_at_byte_limit_is_accepted() {
    let mut contract = setup();
    let admin = admin_account();

    assert_eq!(contract.add_proposal(&admin, vec![b'x'; 256]), Ok(0));
    assert_eq!(
        contract.add_proposal(&admin, vec![b'x'; 257]),
        Err(VoteError::DescriptionTooLong)
    );
    assert_eq!(contract.proposal_count(), 1);
}

#[test]
fn scenario_max_proposals_reached() {
    let mut contract = setup();
    let admin = admin_account();

    for i in 0..MAX_PROPOSALS {
        assert_eq!(contract.add_proposal(&admin, b"p".to_vec()), Ok(i as u32));
    }
    assert_eq!(
        contract.add_proposal(&admin, b"one too many".to_vec()),
        Err(VoteError::MaxProposalsReached)
    );
    assert_eq!(contract.proposal_count(), 100);
}

#[test]
fn scenario_non_admin_cannot_add_proposal() {
    let mut contract = setup();
    let outsider = Account::External(mock_key(9));

    assert_eq!(
        contract.add_proposal(&outsider, b"not allowed".to_vec()),
        Err(VoteError::NotAdmin)
    );
    assert_eq!(contract.proposal_count(), 0);
}

#[test]
fn scenario_non_admin_cannot_close_proposal() {
    let mut contract = setup();
    let admin = admin_account();
    let outsider = Account::External(mock_key(9));

    contract.add_proposal(&admin, b"stays open".to_vec()).unwrap();
    assert_eq!(contract.close_proposal(&outsider, 0), Err(VoteError::NotAdmin));
    assert!(contract.get_proposal(0).unwrap().active);
}

// ==================== Voting ====================

#[test]
fn scenario_weighted_vote_and_revote() {
    let mut contract = setup();
    let admin = admin_account();
    let voter_key = mock_key(2);
    let voter = Account::External(voter_key.clone());

    contract.add_proposal(&admin, b"p0".to_vec()).unwrap();
    contract.add_proposal(&admin, b"p1".to_vec()).unwrap();

    assert_eq!(contract.vote(&voter, Some(500), 1, true), Ok(()));
    let p = contract.get_proposal(1).unwrap();
    assert_eq!(p.yes_votes, 500);
    assert_eq!(p.no_votes, 0);
    assert!(contract.has_voted(&voter, 1));
    assert!(contract.has_account_voted(&voter_key, 1));
    assert_eq!(contract.get_vote_weight(&voter, 1), 500);
    assert_eq!(contract.get_account_vote_weight(&voter_key, 1), 500);

    // The same account voting again fails and the tallies stay put,
    // whatever its balance is by then.
    assert_eq!(contract.vote(&voter, Some(800), 1, false), Err(VoteError::AlreadyVoted));
    let p = contract.get_proposal(1).unwrap();
    assert_eq!(p.yes_votes, 500);
    assert_eq!(p.no_votes, 0);
    assert_eq!(contract.get_vote_weight(&voter, 1), 500);

    // The other proposal saw none of it.
    assert!(!contract.has_voted(&voter, 0));
    assert_eq!(contract.get_vote_weight(&voter, 0), 0);
}

#[test]
fn scenario_tallies_accumulate_by_weight() {
    let mut contract = setup();
    let admin = admin_account();
    let yes1 = Account::External(mock_key(2));
    let yes2 = Account::External(mock_key(3));
    let no1 = Account::External(mock_key(4));

    contract.add_proposal(&admin, b"budget".to_vec()).unwrap();

    assert_eq!(contract.vote(&yes1, Some(100), 0, true), Ok(()));
    assert_eq!(contract.vote(&yes2, Some(200), 0, true), Ok(()));
    assert_eq!(contract.vote(&no1, Some(50), 0, false), Ok(()));

    let p = contract.get_proposal(0).unwrap();
    assert_eq!(p.yes_votes, 300);
    assert_eq!(p.no_votes, 50);
}

#[test]
fn scenario_tallies_saturate_instead_of_wrapping() {
    let mut contract = setup();
    let admin = admin_account();
    let whale1 = Account::External(mock_key(2));
    let whale2 = Account::External(mock_key(3));

    contract.add_proposal(&admin, b"overflow".to_vec()).unwrap();

    assert_eq!(contract.vote(&whale1, Some(u64::MAX), 0, true), Ok(()));
    assert_eq!(contract.vote(&whale2, Some(2), 0, true), Ok(()));

    let p = contract.get_proposal(0).unwrap();
    assert_eq!(p.yes_votes, u64::MAX);
    assert_eq!(p.no_votes, 0);
    // The individual weights are still recorded exactly.
    assert_eq!(contract.get_vote_weight(&whale1, 0), u64::MAX);
    assert_eq!(contract.get_vote_weight(&whale2, 0), 2);
}

#[test]
fn scenario_zero_balance_cannot_vote() {
    let mut contract = setup();
    let admin = admin_account();
    let broke = Account::External(mock_key(4));

    contract.add_proposal(&admin, b"p".to_vec()).unwrap();

    assert_eq!(contract.vote(&broke, Some(0), 0, true), Err(VoteError::NoVotingPower));
    assert!(!contract.has_voted(&broke, 0));
    assert_eq!(contract.get_proposal(0).unwrap().yes_votes, 0);
}

#[test]
fn scenario_unreachable_oracle_counts_as_zero_balance() {
    let mut contract = setup();
    let admin = admin_account();
    let voter = Account::External(mock_key(2));

    contract.add_proposal(&admin, b"p".to_vec()).unwrap();

    assert_eq!(balance_from_oracle(None), 0);
    assert_eq!(balance_from_oracle(Some(42)), 42);
    assert_eq!(contract.vote(&voter, None, 0, true), Err(VoteError::NoVotingPower));
    assert!(!contract.has_voted(&voter, 0));
}

#[test]
fn scenario_contracts_cannot_vote() {
    let mut contract = setup();
    let admin = admin_account();
    let machine = Account::Contract(vec![5u8; 32]);

    contract.add_proposal(&admin, b"p".to_vec()).unwrap();

    assert_eq!(contract.vote(&machine, Some(1000), 0, true), Err(VoteError::ContractsCannotVote));
    assert!(!contract.has_voted(&machine, 0));
}

#[test]
fn scenario_vote_on_unknown_proposal_fails() {
    let mut contract = setup();
    let voter = Account::External(mock_key(2));

    assert_eq!(contract.vote(&voter, Some(500), 5, true), Err(VoteError::ProposalNotFound));
}

// ==================== Admin Custody ====================

#[test]
fn scenario_two_step_admin_transfer() {
    let mut contract = setup();
    let admin = admin_account();
    let heir = Account::External(mock_key(8));

    assert_eq!(contract.propose_admin(&admin, &heir), Ok(()));
    assert_eq!(contract.pending_admin(), Some(heir.clone()));
    assert_eq!(contract.accept_admin(&heir), Ok(()));
    assert_eq!(contract.admin(), heir);
    assert!(contract.pending_admin().is_none());
}

#[test]
fn scenario_wrong_account_cannot_accept_transfer() {
    let mut contract = setup();
    let admin = admin_account();
    let nominee = Account::External(mock_key(8));
    let impostor = Account::External(mock_key(9));

    assert_eq!(contract.propose_admin(&admin, &nominee), Ok(()));
    assert_eq!(contract.accept_admin(&impostor), Err(VoteError::NotPendingAdmin));
    assert_eq!(contract.admin(), admin);
    assert_eq!(contract.pending_admin(), Some(nominee));
}

#[test]
fn scenario_admin_cannot_propose_self() {
    let mut contract = setup();
    let admin = admin_account();

    assert_eq!(contract.propose_admin(&admin, &admin), Err(VoteError::CannotProposeSelf));
    assert!(contract.pending_admin().is_none());
}

#[test]
fn scenario_non_admin_cannot_propose_admin() {
    let mut contract = setup();
    let outsider = Account::External(mock_key(9));
    let nominee = Account::External(mock_key(8));

    assert_eq!(contract.propose_admin(&outsider, &nominee), Err(VoteError::NotAdmin));
    assert!(contract.pending_admin().is_none());
}

#[test]
fn scenario_accept_without_pending_transfer_fails() {
    let mut contract = setup();
    let someone = Account::External(mock_key(8));

    assert_eq!(contract.accept_admin(&someone), Err(VoteError::NoPendingTransfer));
}

#[test]
fn scenario_cancel_admin_proposal() {
    let mut contract = setup();
    let admin = admin_account();
    let nominee = Account::External(mock_key(8));

    assert_eq!(contract.cancel_admin_proposal(&admin), Err(VoteError::NoPendingTransfer));
    assert_eq!(contract.propose_admin(&admin, &nominee), Ok(()));
    assert_eq!(contract.cancel_admin_proposal(&admin), Ok(()));
    assert!(contract.pending_admin().is_none());
    assert_eq!(contract.admin(), admin);
}

#[test]
fn scenario_new_nomination_overwrites_old_one() {
    let mut contract = setup();
    let admin = admin_account();
    let first = Account::External(mock_key(8));
    let second = Account::External(mock_key(9));

    assert_eq!(contract.propose_admin(&admin, &first), Ok(()));
    assert_eq!(contract.propose_admin(&admin, &second), Ok(()));
    assert_eq!(contract.pending_admin(), Some(second.clone()));
    assert_eq!(contract.accept_admin(&first), Err(VoteError::NotPendingAdmin));
    assert_eq!(contract.accept_admin(&second), Ok(()));
    assert_eq!(contract.admin(), second);
}

#[test]
fn scenario_is_admin() {
    let contract = setup();
    let admin = admin_account();
    let outsider = Account::External(mock_key(9));

    assert!(contract.is_admin(&admin));
    assert!(!contract.is_admin(&outsider));
}

// ==================== Caller Resolution ====================

#[test]
fn scenario_direct_call_resolves_to_external_account() {
    let key = mock_key(2);
    let resolved = resolve_caller(1, Some(key.clone()), None);
    assert_eq!(resolved, Ok(Account::External(key)));
}

#[test]
fn scenario_nested_call_resolves_to_contract_account() {
    let id = vec![5u8; 32];
    let resolved = resolve_caller(2, None, Some(id.clone()));
    assert_eq!(resolved, Ok(Account::Contract(id)));
}

#[test]
fn scenario_shielded_caller_fails_loudly() {
    assert_eq!(resolve_caller(1, None, None), Err(VoteError::CallerIdentityUnavailable));
    assert_eq!(resolve_caller(2, None, None), Err(VoteError::CallerIdentityUnavailable));
}

// ==================== Accounts ====================

#[test]
fn scenario_account_equality_is_structural() {
    let key = mock_key(2);
    assert_eq!(Account::External(key.clone()), Account::External(key.clone()));
    assert_ne!(Account::External(key.clone()), Account::Contract(key.clone()));
    assert_ne!(Account::External(key), Account::External(mock_key(3)));
}

#[test]
fn scenario_account_ordering_within_variant_is_lexicographic() {
    let a = Account::External(vec![1, 2, 3]);
    let b = Account::External(vec![1, 2, 4]);
    let prefix = Account::External(vec![1, 2]);
    assert!(a < b);
    assert!(prefix < a);
    assert!(Account::Contract(vec![0]) > Account::External(vec![255]));
}

#[test]
fn scenario_default_account_is_zero_key_external() {
    assert_eq!(Account::default(), Account::External(vec![0u8; 96]));
}

#[test]
fn scenario_error_messages_match() {
    assert_eq!(VoteError::NotAdmin.message(), "Caller is not admin");
    assert_eq!(VoteError::AlreadyVoted.message(), "Already voted on this proposal");
    assert_eq!(
        VoteError::CallerIdentityUnavailable.message(),
        "Shielded transactions not supported"
    );
}
