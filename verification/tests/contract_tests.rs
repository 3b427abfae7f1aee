use vote_contract::proposal::{MAX_DESCRIPTION_BYTES, MAX_PROPOSALS};
use vote_contract::{Account, Proposal, VoteContract, VoteError};

fn mock_key(seed: u8) -> Vec<u8> {
    let mut bytes = vec![0u8; 96];
    for (i, b) in bytes.iter_mut().enumerate() {
        *b = seed.wrapping_add(i as u8);
    }
    bytes
}

fn create_test_contract(admin_key: Vec<u8>, token_id: Vec<u8>) -> VoteContract {
    let mut contract = VoteContract::new();
    contract.init(Account::External(admin_key), token_id);
    contract
}

// ==================== Proposal Tests ====================

#[test]
fn test_proposal_structure() {
    let proposal = Proposal {
        id: 0,
        description: b"Test proposal".to_vec(),
        yes_votes: 100,
        no_votes: 50,
        active: true,
    };

    assert_eq!(proposal.id, 0);
    assert_eq!(proposal.description, b"Test proposal".to_vec());
    assert_eq!(proposal.yes_votes, 100);
    assert_eq!(proposal.no_votes, 50);
    assert!(proposal.active);
}

#[test]
fn test_proposal_default() {
    let proposal = Proposal::default();

    assert_eq!(proposal.id, 0);
    assert_eq!(proposal.description, Vec::<u8>::new());
    assert_eq!(proposal.yes_votes, 0);
    assert_eq!(proposal.no_votes, 0);
    assert!(!proposal.active);
}

// ==================== Account Tests ====================

#[test]
fn test_account_external() {
    let pk = mock_key(1);
    let account = Account::External(pk);

    match account {
        Account::External(_) => (),
        Account::Contract(_) => panic!("Expected External account"),
    }
}

#[test]
fn test_account_contract() {
    let contract_id = vec![1u8; 32];
    let account = Account::Contract(contract_id.clone());

    match account {
        Account::Contract(id) => assert_eq!(id, contract_id),
        Account::External(_) => panic!("Expected Contract account"),
    }
}

#[test]
fn test_account_ordering() {
    let pk1 = mock_key(1);
    let pk2 = mock_key(2);
    let contract_id = vec![1u8; 32];

    let ext1 = Account::External(pk1);
    let ext2 = Account::External(pk2);
    let contract = Account::Contract(contract_id);

    // External accounts should come before contract accounts
    assert!(ext1 < contract);
    assert!(ext2 < contract);
}

// ==================== VoteContract State Tests ====================

#[test]
fn test_contract_init() {
    let admin_pk = mock_key(1);
    let token_id = vec![2u8; 32];

    let mut contract = VoteContract::new();

    contract.init(Account::External(admin_pk.clone()), token_id.clone());

    assert_eq!(contract.admin(), Account::External(admin_pk));
    assert_eq!(contract.token_contract(), token_id);
    assert!(contract.pending_admin().is_none());
    assert_eq!(contract.proposal_count(), 0);
}

#[test]
fn test_get_proposal_returns_none_for_nonexistent() {
    let admin_pk = mock_key(1);
    let token_id = vec![2u8; 32];
    let contract = create_test_contract(admin_pk, token_id);

    assert!(contract.get_proposal(0).is_none());
    assert!(contract.get_proposal(999).is_none());
}

#[test]
fn lib_test_get_all_proposals_empty() {
    let admin_pk = mock_key(1);
    let token_id = vec![2u8; 32];
    let contract = create_test_contract(admin_pk, token_id);

    let proposals = contract.get_all_proposals();
    assert!(proposals.is_empty());
}

#[test]
fn test_proposal_count_empty() {
    let admin_pk = mock_key(1);
    let token_id = vec![2u8; 32];
    let contract = create_test_contract(admin_pk, token_id);

    assert_eq!(contract.proposal_count(), 0);
}

#[test]
fn test_admin_getter() {
    let admin_pk = mock_key(1);
    let token_id = vec![2u8; 32];
    let contract = create_test_contract(admin_pk.clone(), token_id);

    assert_eq!(contract.admin(), Account::External(admin_pk));
}

#[test]
fn test_token_contract_getter() {
    let admin_pk = mock_key(1);
    let token_id = vec![2u8; 32];
    let contract = create_test_contract(admin_pk, token_id.clone());

    assert_eq!(contract.token_contract(), token_id);
}

#[test]
fn test_pending_admin_initially_none() {
    let admin_pk = mock_key(1);
    let token_id = vec![2u8; 32];
    let contract = create_test_contract(admin_pk, token_id);

    assert!(contract.pending_admin().is_none());
}

// ==================== Has Account Voted Tests ====================

#[test]
fn test_has_account_voted_false_no_proposal() {
    let admin_pk = mock_key(1);
    let voter_pk = mock_key(2);
    let token_id = vec![2u8; 32];
    let contract = create_test_contract(admin_pk, token_id);

    // No proposal exists, should return false
    assert!(!contract.has_account_voted(&voter_pk, 0));
}

#[test]
fn test_get_account_vote_weight_zero_no_vote() {
    let admin_pk = mock_key(1);
    let voter_pk = mock_key(2);
    let token_id = vec![2u8; 32];
    let contract = create_test_contract(admin_pk, token_id);

    // No vote cast, should return 0
    assert_eq!(contract.get_account_vote_weight(&voter_pk, 0), 0);
}

// ==================== Constants Tests ====================

#[test]
fn test_max_proposal_description_length() {
    assert_eq!(MAX_DESCRIPTION_BYTES, 256);
}

#[test]
fn test_max_proposals() {
    assert_eq!(MAX_PROPOSALS, 100);
}

// ==================== Error Message Tests ====================

#[test]
fn test_error_messages_defined() {
    assert!(!VoteError::NotAdmin.message().is_empty());
    assert!(!VoteError::ProposalNotFound.message().is_empty());
    assert!(!VoteError::AlreadyVoted.message().is_empty());
    assert!(!VoteError::NoVotingPower.message().is_empty());
    assert!(!VoteError::ProposalNotActive.message().is_empty());
    assert!(!VoteError::ContractsCannotVote.message().is_empty());
}
