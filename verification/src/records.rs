//! The stored entities: organisations, proposals and votes.

use vstd::prelude::*;
use crate::error::GovernanceError;
use crate::identity::{Address, Identity, TokenAbiKind};

verus! {

/// A registered organisation.
#[derive(Clone, Debug, PartialEq, Eq)]
pub struct DAOStruct {
    pub dao_id: u64,
    /// Opaque label given at registration.
    pub name: String,
    /// The token contract that weighs this organisation's votes.
    pub token_reference: Address,
    /// The query shape that the token contract answers.
    pub token_abi_kind: TokenAbiKind,
    /// Who registered the organisation; the only identity that may open
    /// proposals in it.
    pub creator: Identity,
    /// How many distinct identities have voted in this organisation.
    pub member_count: u64,
}

/// A time-bounded decision item of one organisation.
#[derive(Clone, Debug, PartialEq, Eq)]
pub struct Proposal {
    pub dao_id: u64,
    pub proposal_id: u64,
    /// First instant at which a vote is accepted.
    pub start_time: u64,
    /// Last instant at which a vote is accepted.
    pub end_time: u64,
    pub creator: Identity,
    /// Opaque metadata.
    pub title: String,
    /// Opaque metadata.
    pub description: String,
}

/// What a vote is filed under.
#[derive(Clone, Copy, Debug, PartialEq, Eq)]
pub struct VoteKey {
    pub dao_id: u64,
    pub proposal_id: u64,
    pub voter: Identity,
}

/// What is kept of a vote.
#[derive(Clone, Copy, Debug, PartialEq, Eq, Structural)]
pub struct VoteRecord {
    pub choice: bool,
    pub weight: u64,
}

/// What a successful vote hands back; it doubles as the payload of any
/// notification about the vote.
#[derive(Clone, Copy, Debug, PartialEq, Eq)]
pub struct VoteReceipt {
    pub dao_id: u64,
    pub proposal_id: u64,
    pub voter: Identity,
    pub choice: bool,
    pub weight: u64,
}

impl DAOStruct {
    /// The record of an organisation that `requester` registers under
    /// `dao_id`: nobody has voted in it yet.
    pub open spec fn spec_register(
        dao_id: u64,
        name: String,
        token_reference: Address,
        token_abi_kind: TokenAbiKind,
        requester: Identity,
    ) -> DAOStruct {
        DAOStruct {
            dao_id,
            name,
            token_reference,
            token_abi_kind,
            creator: requester,
            member_count: 0,
        }
    }

    /// Why `requester` may not open a proposal here: only the creator may.
    pub open spec fn spec_check_creator(self, requester: Identity) -> Result<
        (),
        GovernanceError,
    > {
        if self.creator == requester {
            Ok(())
        } else {
            Err(GovernanceError::NotDAOCreator)
        }
    }

    /// The member count after a vote was recorded here: one more where the
    /// voter was no member before, the same where the voter was.
    pub open spec fn spec_count_after_vote(self, already_member: bool) -> u64 {
        if already_member {
            self.member_count
        } else {
            (self.member_count + 1) as u64
        }
    }

    /// The record after a vote was recorded here.
    pub open spec fn spec_after_vote(self, already_member: bool) -> DAOStruct {
        DAOStruct { member_count: self.spec_count_after_vote(already_member), ..self }
    }

    /// Builds the record of an organisation that `requester` registers
    /// under `dao_id`, with no members.
    pub fn register(
        dao_id: u64,
        name: String,
        token_reference: Address,
        token_abi_kind: TokenAbiKind,
        requester: Identity,
    ) -> (dao: DAOStruct)
        ensures
            dao == DAOStruct::spec_register(
                dao_id,
                name,
                token_reference,
                token_abi_kind,
                requester,
            ),
    {
        DAOStruct {
            dao_id,
            name,
            token_reference,
            token_abi_kind,
            creator: requester,
            member_count: 0,
        }
    }

    /// Counts the members after a vote was recorded here: a voter who was
    /// no member before is counted, one who was is not counted again.
    pub fn count_after_vote(&self, already_member: bool) -> (count: u64)
        requires
            already_member || self.member_count < u64::MAX,
        ensures
            count == self.spec_count_after_vote(already_member),
            count == if already_member {
                self.member_count as int
            } else {
                self.member_count + 1
            },
    {
        if already_member {
            self.member_count
        } else {
            self.member_count + 1
        }
    }

    /// Refuses everyone but the creator.
    pub fn check_creator(&self, requester: &Identity) -> (verdict: Result<(), GovernanceError>)
        ensures
            verdict == self.spec_check_creator(*requester),
    {
        if self.creator == *requester {
            Ok(())
        } else {
            Err(GovernanceError::NotDAOCreator)
        }
    }
}

impl Proposal {
    /// Whether a vote cast at `now` falls inside the window, both ends
    /// included.
    pub open spec fn is_open_at(self, now: u64) -> bool {
        self.start_time <= now <= self.end_time
    }

    /// The proposal that `requester` opens at `now` for `voting_duration`.
    pub open spec fn spec_open(
        dao_id: u64,
        proposal_id: u64,
        title: String,
        description: String,
        voting_duration: u64,
        requester: Identity,
        now: u64,
    ) -> Proposal {
        Proposal {
            dao_id,
            proposal_id,
            start_time: now,
            end_time: (now + voting_duration) as u64,
            creator: requester,
            title,
            description,
        }
    }

    /// Why a vote cast at `now` is out of the window, if it is.
    pub open spec fn spec_check_window(self, now: u64) -> Result<(), GovernanceError> {
        if now < self.start_time {
            Err(GovernanceError::VotingNotStarted)
        } else if now > self.end_time {
            Err(GovernanceError::VotingEnded)
        } else {
            Ok(())
        }
    }

    /// Builds the proposal that `requester` opens at `now`: the window
    /// starts at `now` and ends `voting_duration` later.
    pub fn open(
        dao_id: u64,
        proposal_id: u64,
        title: String,
        description: String,
        voting_duration: u64,
        requester: Identity,
        now: u64,
    ) -> (proposal: Proposal)
        requires
            now + voting_duration <= u64::MAX,
        ensures
            proposal == Proposal::spec_open(
                dao_id,
                proposal_id,
                title,
                description,
                voting_duration,
                requester,
                now,
            ),
            proposal.start_time == now,
            proposal.end_time == now + voting_duration,
    {
        Proposal {
            dao_id,
            proposal_id,
            start_time: now,
            end_time: now + voting_duration,
            creator: requester,
            title,
            description,
        }
    }

    /// Admits a vote cast at `now` only inside the window, both ends
    /// included.
    pub fn check_window(&self, now: u64) -> (verdict: Result<(), GovernanceError>)
        ensures
            verdict == self.spec_check_window(now),
            verdict is Ok <==> self.is_open_at(now),
    {
        if now < self.start_time {
            Err(GovernanceError::VotingNotStarted)
        } else if now > self.end_time {
            Err(GovernanceError::VotingEnded)
        } else {
            Ok(())
        }
    }
}

} // verus!
