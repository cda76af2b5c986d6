//! The decisions of the engine, from the rows that a request touches to a
//! verdict. They read no table and keep nothing, so that a host which
//! holds the rows elsewhere decides as the engine does.

use vstd::prelude::*;
use crate::error::GovernanceError;
use crate::identity::Identity;
use crate::records::{DAOStruct, Proposal};
use crate::token::{balance_query, spec_balance_query, BalanceQuery};

verus! {

/// Why `requester` may not open a proposal, given the organisation's row
/// if there is one: the organisation must exist, and `requester` must be
/// its creator.
pub open spec fn spec_check_proposal(dao: Option<DAOStruct>, requester: Identity) -> Result<
    (),
    GovernanceError,
> {
    match dao {
        None => Err(GovernanceError::DAONotFound),
        Some(dao) => dao.spec_check_creator(requester),
    }
}

/// The balance query that a vote calls for, or the first reason, in the
/// order of the checks, why the vote is refused before any balance is read:
/// the proposal exists, the window is open at `now`, the voter has no vote
/// on it, the organisation exists, its token reference is a contract, its
/// token kind has a query shape.
pub open spec fn spec_check_vote(
    proposal: Option<Proposal>,
    already_voted: bool,
    dao: Option<DAOStruct>,
    voter: Identity,
    now: u64,
) -> Result<BalanceQuery, GovernanceError> {
    match proposal {
        None => Err(GovernanceError::ProposalNotFound),
        Some(proposal) => match proposal.spec_check_window(now) {
            Err(e) => Err(e),
            Ok(_) => if already_voted {
                Err(GovernanceError::AlreadyVoted)
            } else {
                match dao {
                    None => Err(GovernanceError::DAONotFound),
                    Some(dao) => spec_balance_query(
                        voter,
                        dao.token_reference,
                        dao.token_abi_kind,
                    ),
                }
            },
        },
    }
}

/// Decides whether `requester` may open a proposal in the organisation
/// whose row, if any, is `dao`.
pub fn check_proposal(dao: Option<&DAOStruct>, requester: &Identity) -> (verdict: Result<
    (),
    GovernanceError,
>)
    ensures
        verdict == spec_check_proposal(
            match dao {
                Some(d) => Some(*d),
                None => None,
            },
            *requester,
        ),
{
    match dao {
        None => Err(GovernanceError::DAONotFound),
        Some(dao) => dao.check_creator(requester),
    }
}

/// Runs the checks that come before a balance is read, on the rows that
/// the vote touches, and shapes the balance query.
pub fn check_vote(
    proposal: Option<&Proposal>,
    already_voted: bool,
    dao: Option<&DAOStruct>,
    voter: Identity,
    now: u64,
) -> (query: Result<BalanceQuery, GovernanceError>)
    ensures
        query == spec_check_vote(
            match proposal {
                Some(p) => Some(*p),
                None => None,
            },
            already_voted,
            match dao {
                Some(d) => Some(*d),
                None => None,
            },
            voter,
            now,
        ),
{
    let proposal = match proposal {
        None => {
            return Err(GovernanceError::ProposalNotFound);
        },
        Some(proposal) => proposal,
    };
    match proposal.check_window(now) {
        Err(e) => {
            return Err(e);
        },
        Ok(_) => {},
    }
    if already_voted {
        return Err(GovernanceError::AlreadyVoted);
    }
    match dao {
        None => Err(GovernanceError::DAONotFound),
        Some(dao) => balance_query(voter, dao.token_reference, dao.token_abi_kind),
    }
}

} // verus!
