//! The token balance adapter: one balance query over the two shapes that
//! token contracts answer, and the weight that a reply earns.

use vstd::prelude::*;
use crate::error::GovernanceError;
use crate::identity::{Address, Identity, TokenAbiKind};
use crate::sqrt::{floor_sqrt, integer_sqrt};

verus! {

/// A balance query, ready to be sent to a token contract.
#[derive(Clone, Copy, Debug, PartialEq, Eq)]
pub enum BalanceQuery {
    /// Ask the contract `token` for the balance of the account `owner`.
    ByOwner { token: [u8; 32], owner: Identity },
    /// Ask the contract `token` for the balance held at `address`.
    ByAddress { token: [u8; 32], address: Address },
}

/// What came back from a token contract.
#[derive(Clone, Copy, Debug, PartialEq, Eq, Structural)]
pub enum BalanceReply {
    /// The contract answered with this balance.
    Balance(u64),
    /// The contract rejected the query.
    Rejected,
}

/// The query that asks the token behind `token_reference` for `voter`'s
/// balance, or the reason why none can be made.
pub open spec fn spec_balance_query(
    voter: Identity,
    token_reference: Address,
    kind: TokenAbiKind,
) -> Result<BalanceQuery, GovernanceError> {
    match token_reference {
        Address::Contract(token) => match kind {
            TokenAbiKind::BalanceByOwner => Ok(BalanceQuery::ByOwner { token, owner: voter }),
            TokenAbiKind::BalanceByAddress => Ok(
                BalanceQuery::ByAddress { token, address: Address::Account(voter) },
            ),
            TokenAbiKind::Unrecognized => Err(GovernanceError::InvalidTokenAbi),
        },
        _ => Err(GovernanceError::InvalidTokenReference),
    }
}

/// The weight that a reply earns: the floor square root of a positive
/// balance.
pub open spec fn spec_vote_weight(reply: BalanceReply) -> Result<u64, GovernanceError> {
    match reply {
        BalanceReply::Rejected => Err(GovernanceError::TokenQueryFailed),
        BalanceReply::Balance(balance) => if balance == 0 {
            Err(GovernanceError::NoTokens)
        } else {
            Ok(floor_sqrt(balance as nat) as u64)
        },
    }
}

/// Shapes the balance query for `voter`. A reference that is no contract
/// is refused first, then a kind without a query shape.
pub fn balance_query(voter: Identity, token_reference: Address, kind: TokenAbiKind) -> (query:
    Result<BalanceQuery, GovernanceError>)
    ensures
        query == spec_balance_query(voter, token_reference, kind),
{
    match token_reference {
        Address::Contract(token) => match kind {
            TokenAbiKind::BalanceByOwner => Ok(BalanceQuery::ByOwner { token, owner: voter }),
            TokenAbiKind::BalanceByAddress => Ok(
                BalanceQuery::ByAddress { token, address: Address::Account(voter) },
            ),
            TokenAbiKind::Unrecognized => Err(GovernanceError::InvalidTokenAbi),
        },
        _ => Err(GovernanceError::InvalidTokenReference),
    }
}

/// Turns a token contract's reply into a vote weight. A rejected query and
/// an empty balance earn none.
pub fn vote_weight(reply: BalanceReply) -> (weight: Result<u64, GovernanceError>)
    ensures
        weight == spec_vote_weight(reply),
        weight matches Ok(w) ==> w >= 1,
{
    match reply {
        BalanceReply::Rejected => Err(GovernanceError::TokenQueryFailed),
        BalanceReply::Balance(balance) => {
            if balance == 0 {
                Err(GovernanceError::NoTokens)
            } else {
                let w = integer_sqrt(balance);
                assert(w >= 1) by (nonlinear_arith)
                    requires
                        balance >= 1,
                        balance < (w + 1) * (w + 1),
                ;
                Ok(w)
            }
        },
    }
}

/// Two to the power 64: the weight of one limb position.
pub open spec fn limb_base() -> nat {
    0x1_0000_0000_0000_0000
}

/// The number that little-endian 64-bit limbs spell.
pub open spec fn limbs_value(limbs: Seq<u64>) -> nat
    decreases limbs.len(),
{
    if limbs.len() == 0 {
        0
    } else {
        limbs[0] as nat + limb_base() * limbs_value(limbs.skip(1))
    }
}

/// What a wide balance counts as: itself where it fits in 64 bits, the
/// largest 64-bit number where it does not.
pub open spec fn saturated(value: nat) -> u64 {
    if value <= u64::MAX {
        value as u64
    } else {
        u64::MAX
    }
}

proof fn lemma_limbs_zero_tail(limbs: Seq<u64>)
    requires
        forall|j: int| 0 <= j < limbs.len() ==> limbs[j] == 0,
    ensures
        limbs_value(limbs) == 0,
    decreases limbs.len(),
{
    if limbs.len() > 0 {
        lemma_limbs_zero_tail(limbs.skip(1));
        assert(limb_base() * 0 == 0);
    }
}

proof fn lemma_limbs_nonzero(limbs: Seq<u64>, j: int)
    requires
        0 <= j < limbs.len(),
        limbs[j] != 0,
    ensures
        limbs_value(limbs) >= 1,
        j >= 1 ==> limbs_value(limbs) >= limb_base(),
    decreases limbs.len(),
{
    let tail = limbs.skip(1);
    if j >= 1 {
        assert(tail[j - 1] == limbs[j]);
        lemma_limbs_nonzero(tail, j - 1);
        let t = limbs_value(tail);
        assert(limb_base() * t >= limb_base()) by (nonlinear_arith)
            requires
                t >= 1,
        ;
    } else {
        let t = limbs_value(tail);
        assert(limb_base() * t >= 0) by (nonlinear_arith);
    }
}

/// Narrows a balance given as little-endian 64-bit limbs to 64 bits. A
/// balance too large for 64 bits counts as the largest 64-bit number, so
/// that a holder is never taken for empty-handed.
pub fn balance_from_limbs(limbs: &[u64]) -> (balance: u64)
    ensures
        balance == saturated(limbs_value(limbs@)),
        balance == 0 <==> limbs_value(limbs@) == 0,
{
    if limbs.len() == 0 {
        return 0;
    }
    let mut i: usize = 1;
    while i < limbs.len()
        invariant
            1 <= i <= limbs.len(),
            forall|j: int| 1 <= j < i ==> limbs[j] == 0,
        decreases limbs.len() - i,
    {
        if limbs[i] != 0 {
            proof {
                lemma_limbs_nonzero(limbs@, i as int);
            }
            return u64::MAX;
        }
        i = i + 1;
    }
    proof {
        let tail = limbs@.skip(1);
        assert forall|j: int| 0 <= j < tail.len() implies tail[j] == 0 by {
            assert(tail[j] == limbs@[j + 1]);
        }
        lemma_limbs_zero_tail(tail);
        assert(limb_base() * 0 == 0);
    }
    limbs[0]
}

} // verus!
