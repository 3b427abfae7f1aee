use vstd::prelude::*;

verus! {

/// Why an operation was rejected.
///
/// Every variant names exactly one precondition failure. A rejected
/// operation leaves the contract state unchanged, so callers can retry
/// after fixing the named condition.
#[derive(Clone, Copy, Debug, PartialEq, Eq, Structural)]
pub enum VoteError {
    /// The caller is not the current admin.
    NotAdmin,
    /// The admin tried to nominate itself as the new admin.
    CannotProposeSelf,
    /// The caller is not the nominated pending admin.
    NotPendingAdmin,
    /// There is no pending admin transfer to accept or cancel.
    NoPendingTransfer,
    /// The proposal registry already holds its maximum number of proposals.
    MaxProposalsReached,
    /// The proposal description exceeds the byte limit.
    DescriptionTooLong,
    /// No proposal with the given id exists.
    ProposalNotFound,
    /// Contract accounts are not allowed to vote.
    ContractsCannotVote,
    /// The voter's token balance is zero, so the vote would carry no weight.
    NoVotingPower,
    /// The proposal exists but has been closed.
    ProposalNotActive,
    /// The account has already voted on this proposal.
    AlreadyVoted,
    /// The host could not produce a concrete caller identity.
    CallerIdentityUnavailable,
}

impl VoteError {
    /// A short human-readable message for the error.
    pub fn message(&self) -> (r: &'static str)
        ensures
            r@.len() > 0,
    {
        match self {
            VoteError::NotAdmin => {
                proof {
                    reveal_strlit("Caller is not admin");
                }
                "Caller is not admin"
            },
            VoteError::CannotProposeSelf => {
                proof {
                    reveal_strlit("Cannot propose self as new admin");
                }
                "Cannot propose self as new admin"
            },
            VoteError::NotPendingAdmin => {
                proof {
                    reveal_strlit("Caller is not pending admin");
                }
                "Caller is not pending admin"
            },
            VoteError::NoPendingTransfer => {
                proof {
                    reveal_strlit("No pending admin transfer");
                }
                "No pending admin transfer"
            },
            VoteError::MaxProposalsReached => {
                proof {
                    reveal_strlit("Maximum proposals reached");
                }
                "Maximum proposals reached"
            },
            VoteError::DescriptionTooLong => {
                proof {
                    reveal_strlit("Description too long");
                }
                "Description too long"
            },
            VoteError::ProposalNotFound => {
                proof {
                    reveal_strlit("Proposal not found");
                }
                "Proposal not found"
            },
            VoteError::ContractsCannotVote => {
                proof {
                    reveal_strlit("Contracts cannot vote");
                }
                "Contracts cannot vote"
            },
            VoteError::NoVotingPower => {
                proof {
                    reveal_strlit("No tokens to vote with");
                }
                "No tokens to vote with"
            },
            VoteError::ProposalNotActive => {
                proof {
                    reveal_strlit("Proposal is not active");
                }
                "Proposal is not active"
            },
            VoteError::AlreadyVoted => {
                proof {
                    reveal_strlit("Already voted on this proposal");
                }
                "Already voted on this proposal"
            },
            VoteError::CallerIdentityUnavailable => {
                proof {
                    reveal_strlit("Shielded transactions not supported");
                }
                "Shielded transactions not supported"
            },
        }
    }
}

} // verus!
