use vstd::prelude::*;

use crate::account::copy_bytes;

verus! {

/// Maximum number of proposals the registry may ever hold.
pub const MAX_PROPOSALS: usize = 100;

/// Maximum length of a proposal description, in bytes.
pub const MAX_DESCRIPTION_BYTES: usize = 256;

/// A votable item: a bounded description together with its running yes/no
/// tallies. Ids are assigned sequentially starting at 0 and never reused.
#[derive(Debug)]
pub struct Proposal {
    pub id: u32,
    pub description: Vec<u8>,
    pub yes_votes: u64,
    pub no_votes: u64,
    pub active: bool,
}

/// The mathematical value of a [`Proposal`].
pub struct ProposalV {
    pub id: u32,
    pub description: Seq<u8>,
    pub yes_votes: u64,
    pub no_votes: u64,
    pub active: bool,
}

impl View for Proposal {
    type V = ProposalV;

    open spec fn view(&self) -> ProposalV {
        ProposalV {
            id: self.id,
            description: self.description@,
            yes_votes: self.yes_votes,
            no_votes: self.no_votes,
            active: self.active,
        }
    }
}

impl Clone for Proposal {
    /// Cloning keeps every field.
    fn clone(&self) -> (r: Self)
        ensures
            r@ == self@,
    {
        Proposal {
            id: self.id,
            description: copy_bytes(&self.description),
            yes_votes: self.yes_votes,
            no_votes: self.no_votes,
            active: self.active,
        }
    }
}

impl Default for Proposal {
    /// An empty, inactive proposal with id 0 and no recorded votes.
    fn default() -> (r: Self)
        ensures
            r@ == (ProposalV {
                id: 0,
                description: Seq::empty(),
                yes_votes: 0,
                no_votes: 0,
                active: false,
            }),
    {
        let r = Proposal { id: 0, description: Vec::new(), yes_votes: 0, no_votes: 0, active: false };
        proof {
            assert(r@.description =~= Seq::<u8>::empty());
        }
        r
    }
}

} // verus!
