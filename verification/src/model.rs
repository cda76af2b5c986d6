//! The mathematical state of the engine, and each operation as a function
//! on it.

use vstd::prelude::*;
use crate::error::GovernanceError;
use crate::identity::{Address, Identity, TokenAbiKind};
use crate::records::{DAOStruct, Proposal, VoteKey, VoteRecord};
use crate::rules::{spec_check_proposal, spec_check_vote};
use crate::token::{spec_vote_weight, BalanceQuery, BalanceReply};

verus! {

/// The tables of the engine.
///
/// Organisations and proposals are numbered in the order of their creation,
/// so an id is a position. Votes are a map: a key holds at most one record.
pub ghost struct GovernanceView {
    pub daos: Seq<DAOStruct>,
    pub proposals: Seq<Proposal>,
    pub votes: Map<VoteKey, VoteRecord>,
}

impl GovernanceView {
    /// The state before anything was registered.
    pub open spec fn empty() -> GovernanceView {
        GovernanceView { daos: Seq::empty(), proposals: Seq::empty(), votes: Map::empty() }
    }

    /// The organisation registered under `dao_id`, if any.
    pub open spec fn dao(self, dao_id: u64) -> Option<DAOStruct> {
        if dao_id < self.daos.len() {
            Some(self.daos[dao_id as int])
        } else {
            None
        }
    }

    /// The proposal `proposal_id` of the organisation `dao_id`, if any.
    pub open spec fn proposal(self, dao_id: u64, proposal_id: u64) -> Option<Proposal> {
        if proposal_id < self.proposals.len() && self.proposals[proposal_id as int].dao_id
            == dao_id {
            Some(self.proposals[proposal_id as int])
        } else {
            None
        }
    }

    /// Whether a vote is on record under `key`.
    pub open spec fn has_voted(self, key: VoteKey) -> bool {
        self.votes.dom().contains(key)
    }

    /// The recorded weight under `key`, zero where none is recorded.
    pub open spec fn weight_of(self, key: VoteKey) -> u64 {
        if self.votes.dom().contains(key) {
            self.votes[key].weight
        } else {
            0
        }
    }

    /// The identities with a vote on record in the organisation `dao_id`,
    /// on whichever proposal.
    pub open spec fn voters(self, dao_id: u64) -> Set<Identity> {
        Set::new(
            |v: Identity|
                exists|k: VoteKey| #[trigger]
                    self.votes.dom().contains(k) && k.dao_id == dao_id && k.voter == v,
        )
    }

    /// Whether `voter` has ever voted in the organisation `dao_id`.
    pub open spec fn is_member(self, dao_id: u64, voter: Identity) -> bool {
        self.voters(dao_id).contains(voter)
    }

    /// What holds of every state that the operations can reach.
    pub open spec fn valid(self) -> bool {
        &&& self.daos.len() <= u64::MAX
        &&& self.proposals.len() <= u64::MAX
        &&& forall|i: int| 0 <= i < self.daos.len() ==> (#[trigger] self.daos[i]).dao_id == i
        &&& forall|j: int|
            0 <= j < self.proposals.len() ==> {
                &&& (#[trigger] self.proposals[j]).proposal_id == j
                &&& self.proposals[j].dao_id < self.daos.len()
                &&& self.proposals[j].creator
                    == self.daos[self.proposals[j].dao_id as int].creator
                &&& self.proposals[j].start_time <= self.proposals[j].end_time
            }
        &&& self.votes.dom().finite()
        &&& forall|k: VoteKey| #[trigger]
            self.votes.dom().contains(k) ==> {
                &&& self.proposal(k.dao_id, k.proposal_id) is Some
                &&& self.votes[k].weight >= 1
            }
        &&& forall|d: u64|
            d < self.daos.len() ==> {
                &&& (#[trigger] self.voters(d)).finite()
                &&& self.daos[d as int].member_count == self.voters(d).len()
            }
    }

    /// The state after an organisation was registered. Its id is the number
    /// of organisations registered before it.
    pub open spec fn with_dao(
        self,
        name: String,
        token_reference: Address,
        token_abi_kind: TokenAbiKind,
        requester: Identity,
    ) -> GovernanceView {
        GovernanceView {
            daos: self.daos.push(
                DAOStruct::spec_register(
                    self.daos.len() as u64,
                    name,
                    token_reference,
                    token_abi_kind,
                    requester,
                ),
            ),
            ..self
        }
    }

    /// Why `requester` may not open a proposal in `dao_id`, if anything
    /// stands against it.
    pub open spec fn proposal_refusal(self, dao_id: u64, requester: Identity) -> Option<
        GovernanceError,
    > {
        match spec_check_proposal(self.dao(dao_id), requester) {
            Ok(_) => None,
            Err(e) => Some(e),
        }
    }

    /// The state after `requester` opened a proposal at `now`. Its id is
    /// the number of proposals opened before it, in any organisation.
    pub open spec fn with_proposal(
        self,
        dao_id: u64,
        title: String,
        description: String,
        voting_duration: u64,
        requester: Identity,
        now: u64,
    ) -> GovernanceView {
        GovernanceView {
            proposals: self.proposals.push(
                Proposal::spec_open(
                    dao_id,
                    self.proposals.len() as u64,
                    title,
                    description,
                    voting_duration,
                    requester,
                    now,
                ),
            ),
            ..self
        }
    }

    /// The balance query that a vote under `key` at `now` calls for, or the
    /// first reason, in the order of the checks, why the vote is refused
    /// before any balance is read.
    pub open spec fn query_outcome(self, key: VoteKey, now: u64) -> Result<
        BalanceQuery,
        GovernanceError,
    > {
        spec_check_vote(
            self.proposal(key.dao_id, key.proposal_id),
            self.has_voted(key),
            self.dao(key.dao_id),
            key.voter,
            now,
        )
    }

    /// The weight with which a vote under `key` at `now` is recorded when
    /// the token contract answered `reply`, or the reason why it is refused.
    pub open spec fn vote_outcome(self, key: VoteKey, now: u64, reply: BalanceReply) -> Result<
        u64,
        GovernanceError,
    > {
        match self.query_outcome(key, now) {
            Err(e) => Err(e),
            Ok(_) => spec_vote_weight(reply),
        }
    }

    /// The state after a vote was recorded under `key`. A first vote in the
    /// organisation makes the voter a member.
    pub open spec fn with_vote(self, key: VoteKey, choice: bool, weight: u64) -> GovernanceView {
        let d = key.dao_id as int;
        GovernanceView {
            daos: self.daos.update(
                d,
                self.daos[d].spec_after_vote(self.is_member(key.dao_id, key.voter)),
            ),
            votes: self.votes.insert(key, VoteRecord { choice, weight }),
            ..self
        }
    }
}

} // verus!
