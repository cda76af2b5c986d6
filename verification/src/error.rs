//! Why an operation was refused.

use vstd::prelude::*;

verus! {

/// Every failure is final for the invocation that met it.
#[derive(Clone, Copy, Debug, PartialEq, Eq, Structural)]
pub enum GovernanceError {
    /// No organisation is registered under the given id.
    DAONotFound,
    /// No proposal of the given organisation has the given id.
    ProposalNotFound,
    /// The voter already has a vote on record for this proposal.
    AlreadyVoted,
    /// The proposal's window has not opened yet.
    VotingNotStarted,
    /// The proposal's window has closed.
    VotingEnded,
    /// Only the organisation's creator may open proposals.
    NotDAOCreator,
    /// The organisation's token reference names nothing that can be called.
    InvalidTokenReference,
    /// The organisation's token kind has no query shape.
    InvalidTokenAbi,
    /// The voter holds no tokens.
    NoTokens,
    /// The token contract rejected the balance query.
    TokenQueryFailed,
    /// The storage substrate itself failed.
    StorageFault,
}

impl GovernanceError {
    /// The numeric code under which the failure is reported to a host.
    pub open spec fn spec_code(self) -> u16 {
        match self {
            GovernanceError::AlreadyVoted => 1,
            GovernanceError::InvalidTokenReference => 2,
            GovernanceError::NoTokens => 3,
            GovernanceError::InvalidTokenAbi => 4,
            GovernanceError::DAONotFound => 5,
            GovernanceError::ProposalNotFound => 6,
            GovernanceError::VotingNotStarted => 7,
            GovernanceError::VotingEnded => 8,
            GovernanceError::NotDAOCreator => 9,
            GovernanceError::TokenQueryFailed => 10,
            GovernanceError::StorageFault => 11,
        }
    }

    /// Whether the failure is a fault of the infrastructure rather than a
    /// rejection by a governance rule.
    pub open spec fn spec_is_infrastructure(self) -> bool {
        self == GovernanceError::StorageFault
    }

    /// The numeric code under which the failure is reported to a host.
    pub fn code(&self) -> (c: u16)
        ensures
            c == self.spec_code(),
            1 <= c <= 11,
    {
        match self {
            GovernanceError::AlreadyVoted => 1,
            GovernanceError::InvalidTokenReference => 2,
            GovernanceError::NoTokens => 3,
            GovernanceError::InvalidTokenAbi => 4,
            GovernanceError::DAONotFound => 5,
            GovernanceError::ProposalNotFound => 6,
            GovernanceError::VotingNotStarted => 7,
            GovernanceError::VotingEnded => 8,
            GovernanceError::NotDAOCreator => 9,
            GovernanceError::TokenQueryFailed => 10,
            GovernanceError::StorageFault => 11,
        }
    }

    /// Whether the failure is a fault of the infrastructure rather than a
    /// rejection by a governance rule.
    pub fn is_infrastructure(&self) -> (b: bool)
        ensures
            b == self.spec_is_infrastructure(),
    {
        match self {
            GovernanceError::StorageFault => true,
            _ => false,
        }
    }
}

/// Distinct failures are reported under distinct codes.
pub proof fn law_codes_distinct(a: GovernanceError, b: GovernanceError)
    requires
        a.spec_code() == b.spec_code(),
    ensures
        a == b,
{
}

} // verus!
