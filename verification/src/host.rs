use vstd::prelude::*;

use crate::account::{Account, AccountV};
use crate::errors::VoteError;

verus! {

/// The vote weight derived from a balance-oracle response: the reported
/// balance, or 0 when the oracle call failed. An unreachable oracle can only
/// deny voting power, never forge it.
pub open spec fn oracle_weight(response: Option<u64>) -> u64 {
    match response {
        Some(balance) => balance,
        None => 0,
    }
}

/// Turns a balance-oracle response into a vote weight; a failed oracle call
/// degrades to a zero balance rather than to an error.
pub fn balance_from_oracle(response: Option<u64>) -> (r: u64)
    ensures
        r == oracle_weight(response),
{
    match response {
        Some(balance) => balance,
        None => 0,
    }
}

/// Resolves the caller's identity from the host's view of the call stack.
///
/// A call at depth 1 came directly from a user, so the caller is the external
/// account of the transaction sender; a deeper call arrived through another
/// contract, so the caller is the immediately calling contract. When the host
/// cannot produce the needed identity, resolution fails loudly instead of
/// defaulting.
pub fn resolve_caller(
    callstack_depth: usize,
    public_sender: Option<Vec<u8>>,
    immediate_caller: Option<Vec<u8>>,
) -> (r: Result<Account, VoteError>)
    requires
        callstack_depth >= 1,
    ensures
        callstack_depth == 1 ==> (match public_sender {
            Some(key) => r matches Ok(a) && a@ == AccountV::External(key@),
            None => r == Err::<Account, VoteError>(VoteError::CallerIdentityUnavailable),
        }),
        callstack_depth > 1 ==> (match immediate_caller {
            Some(id) => r matches Ok(a) && a@ == AccountV::Contract(id@),
            None => r == Err::<Account, VoteError>(VoteError::CallerIdentityUnavailable),
        }),
{
    if callstack_depth == 1 {
        match public_sender {
            Some(key) => Ok(Account::External(key)),
            None => Err(VoteError::CallerIdentityUnavailable),
        }
    } else {
        match immediate_caller {
            Some(id) => Ok(Account::Contract(id)),
            None => Err(VoteError::CallerIdentityUnavailable),
        }
    }
}

} // verus!
