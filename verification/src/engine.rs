//! The engine: the tables in memory, and the operations on them.
//!
//! The clock, the caller's identity and the token contract are the host's.
//! Each operation takes what the host supplied as plain values.

use vstd::prelude::*;
use crate::error::GovernanceError;
use crate::identity::{Address, Identity, TokenAbiKind};
use crate::invariants::{
    lemma_empty_valid,
    lemma_with_dao_valid,
    lemma_with_proposal_valid,
    lemma_with_vote_valid,
};
use crate::model::GovernanceView;
use crate::records::{DAOStruct, Proposal, VoteKey, VoteReceipt, VoteRecord};
use crate::rules::{check_proposal, check_vote};
use crate::token::{vote_weight, BalanceQuery, BalanceReply};

verus! {

/// One row of the vote table.
struct VoteEntry {
    key: VoteKey,
    record: VoteRecord,
}

/// The state of the engine. Organisations and proposals are stored at the
/// position that is their id; votes are stored in the order they were cast.
pub struct Governance {
    daos: Vec<DAOStruct>,
    proposals: Vec<Proposal>,
    votes: Vec<VoteEntry>,
}

/// The map that a sequence of rows spells, later rows over earlier ones.
spec fn votes_map(rows: Seq<VoteEntry>) -> Map<VoteKey, VoteRecord>
    decreases rows.len(),
{
    if rows.len() == 0 {
        Map::empty()
    } else {
        votes_map(rows.drop_last()).insert(rows.last().key, rows.last().record)
    }
}

/// No key stands in two rows.
spec fn distinct_keys(rows: Seq<VoteEntry>) -> bool {
    forall|i: int, j: int| 0 <= i < j < rows.len() ==> rows[i].key != rows[j].key
}

proof fn lemma_votes_map_dom(rows: Seq<VoteEntry>)
    ensures
        votes_map(rows).dom().finite(),
        forall|k: VoteKey|
            votes_map(rows).dom().contains(k) <==> exists|i: int|
                0 <= i < rows.len() && (#[trigger] rows[i]).key == k,
    decreases rows.len(),
{
    if rows.len() > 0 {
        let front = rows.drop_last();
        lemma_votes_map_dom(front);
        assert forall|k: VoteKey|
            votes_map(rows).dom().contains(k) <==> exists|i: int|
                0 <= i < rows.len() && (#[trigger] rows[i]).key == k by {
            if votes_map(rows).dom().contains(k) {
                if k == rows.last().key {
                    assert(rows[rows.len() - 1].key == k);
                } else {
                    let i = choose|i: int| 0 <= i < front.len() && (#[trigger] front[i]).key == k;
                    assert(rows[i].key == k);
                }
            }
            if exists|i: int| 0 <= i < rows.len() && (#[trigger] rows[i]).key == k {
                let i = choose|i: int| 0 <= i < rows.len() && (#[trigger] rows[i]).key == k;
                if i < rows.len() - 1 {
                    assert(front[i].key == k);
                }
            }
        }
    }
}

proof fn lemma_votes_map_at(rows: Seq<VoteEntry>, i: int)
    requires
        distinct_keys(rows),
        0 <= i < rows.len(),
    ensures
        votes_map(rows).dom().contains(rows[i].key),
        votes_map(rows)[rows[i].key] == rows[i].record,
    decreases rows.len(),
{
    let front = rows.drop_last();
    if i < rows.len() - 1 {
        assert(front[i] == rows[i]);
        lemma_votes_map_at(front, i);
    }
}

impl View for Governance {
    type V = GovernanceView;

    closed spec fn view(&self) -> GovernanceView {
        GovernanceView {
            daos: self.daos@,
            proposals: self.proposals@,
            votes: votes_map(self.votes@),
        }
    }
}

impl Governance {
    /// The state is valid, no vote key is stored twice, and no organisation
    /// counts more members than votes were cast.
    pub closed spec fn wf(&self) -> bool {
        &&& self@.valid()
        &&& distinct_keys(self.votes@)
        &&& forall|d: int|
            0 <= d < self.daos.len() ==> (#[trigger] self.daos[d]).member_count
                <= self.votes.len()
    }

    /// A well-formed engine is in a valid state.
    pub proof fn lemma_wf_valid(&self)
        requires
            self.wf(),
        ensures
            self@.valid(),
    {
    }
}

/// Sets up the engine with empty tables.
pub fn init() -> (state: Governance)
    ensures
        state.wf(),
        state@ == GovernanceView::empty(),
{
    let state = Governance { daos: Vec::new(), proposals: Vec::new(), votes: Vec::new() };
    proof {
        lemma_empty_valid();
        assert(state@.daos =~= GovernanceView::empty().daos);
        assert(state@.proposals =~= GovernanceView::empty().proposals);
        assert(state@.votes =~= GovernanceView::empty().votes);
    }
    state
}

/// Registers an organisation for `requester` against a token contract and
/// returns its id. Registration itself refuses nothing: a token reference
/// or kind that cannot be queried shows when the first vote is cast.
pub fn create_dao(
    state: &mut Governance,
    name: String,
    token_reference: Address,
    token_abi_kind: TokenAbiKind,
    requester: Identity,
) -> (dao_id: u64)
    requires
        old(state).wf(),
    ensures
        final(state).wf(),
        dao_id == old(state)@.daos.len(),
        final(state)@ == old(state)@.with_dao(name, token_reference, token_abi_kind, requester),
        final(state)@.dao(dao_id) == Some(
            DAOStruct::spec_register(dao_id, name, token_reference, token_abi_kind, requester),
        ),
{
    let dao_id: u64 = state.daos.len() as u64;
    let dao = DAOStruct::register(dao_id, name, token_reference, token_abi_kind, requester);
    state.daos.push(dao);
    proof {
        let s = old(state)@;
        let t = s.with_dao(name, token_reference, token_abi_kind, requester);
        assert(state.daos.len() == old(state).daos.len() + 1);
        lemma_with_dao_valid(s, name, token_reference, token_abi_kind, requester);
        assert(state@.daos =~= t.daos);
        assert(state@ == t);
    }
    dao_id
}

/// Looks an organisation up.
pub fn get_dao(state: &Governance, dao_id: u64) -> (found: Result<&DAOStruct, GovernanceError>)
    requires
        state.wf(),
    ensures
        match found {
            Ok(dao) => state@.dao(dao_id) == Some(*dao) && dao.dao_id == dao_id,
            Err(e) => state@.dao(dao_id) is None && e == GovernanceError::DAONotFound,
        },
{
    if dao_id < state.daos.len() as u64 {
        Ok(&state.daos[dao_id as usize])
    } else {
        Err(GovernanceError::DAONotFound)
    }
}

/// Opens a proposal in the organisation `dao_id`, with a window that starts
/// at `now` and ends `voting_duration` later, and returns its id. Only the
/// organisation's creator may; a refusal changes nothing.
pub fn create_proposal(
    state: &mut Governance,
    dao_id: u64,
    title: String,
    description: String,
    voting_duration: u64,
    requester: Identity,
    now: u64,
) -> (opened: Result<u64, GovernanceError>)
    requires
        old(state).wf(),
        now + voting_duration <= u64::MAX,
    ensures
        final(state).wf(),
        match opened {
            Ok(proposal_id) => {
                &&& old(state)@.proposal_refusal(dao_id, requester) is None
                &&& proposal_id == old(state)@.proposals.len()
                &&& final(state)@ == old(state)@.with_proposal(
                    dao_id,
                    title,
                    description,
                    voting_duration,
                    requester,
                    now,
                )
                &&& final(state)@.proposal(dao_id, proposal_id) == Some(
                    Proposal::spec_open(
                        dao_id,
                        proposal_id,
                        title,
                        description,
                        voting_duration,
                        requester,
                        now,
                    ),
                )
            },
            Err(e) => {
                &&& old(state)@.proposal_refusal(dao_id, requester) == Some(e)
                &&& *final(state) == *old(state)
            },
        },
{
    let dao = match get_dao(state, dao_id) {
        Ok(dao) => Some(dao),
        Err(_) => None,
    };
    match check_proposal(dao, &requester) {
        Err(e) => {
            return Err(e);
        },
        Ok(_) => {},
    }
    let proposal_id: u64 = state.proposals.len() as u64;
    let proposal = Proposal::open(
        dao_id,
        proposal_id,
        title,
        description,
        voting_duration,
        requester,
        now,
    );
    state.proposals.push(proposal);
    proof {
        let s = old(state)@;
        let t = s.with_proposal(dao_id, title, description, voting_duration, requester, now);
        assert(state.proposals.len() == old(state).proposals.len() + 1);
        lemma_with_proposal_valid(
            s,
            dao_id,
            title,
            description,
            voting_duration,
            requester,
            now,
        );
        assert(state@.proposals =~= t.proposals);
        assert(state@ == t);
    }
    Ok(proposal_id)
}

/// Looks a proposal of the organisation `dao_id` up.
pub fn get_proposal(state: &Governance, dao_id: u64, proposal_id: u64) -> (found: Result<
    &Proposal,
    GovernanceError,
>)
    requires
        state.wf(),
    ensures
        match found {
            Ok(proposal) => {
                &&& state@.proposal(dao_id, proposal_id) == Some(*proposal)
                &&& proposal.dao_id == dao_id
                &&& proposal.proposal_id == proposal_id
            },
            Err(e) => {
                &&& state@.proposal(dao_id, proposal_id) is None
                &&& e == GovernanceError::ProposalNotFound
            },
        },
{
    if proposal_id < state.proposals.len() as u64 {
        let proposal = &state.proposals[proposal_id as usize];
        if proposal.dao_id == dao_id {
            return Ok(proposal);
        }
    }
    Err(GovernanceError::ProposalNotFound)
}

/// The position of the row filed under `key`, if there is one.
fn find_vote(state: &Governance, key: &VoteKey) -> (found: Option<usize>)
    ensures
        match found {
            Some(i) => i < state.votes.len() && state.votes[i as int].key == *key,
            None => forall|i: int| 0 <= i < state.votes.len() ==> state.votes[i].key != *key,
        },
{
    let mut i: usize = 0;
    while i < state.votes.len()
        invariant
            i <= state.votes.len(),
            forall|j: int| 0 <= j < i ==> state.votes[j].key != *key,
        decreases state.votes.len() - i,
    {
        let row = &state.votes[i];
        if row.key.dao_id == key.dao_id && row.key.proposal_id == key.proposal_id
            && row.key.voter == key.voter {
            return Some(i);
        }
        i = i + 1;
    }
    None
}

/// Whether `voter` has a vote on record for the proposal.
pub fn has_voted(state: &Governance, dao_id: u64, proposal_id: u64, voter: Identity) -> (voted:
    bool)
    requires
        state.wf(),
    ensures
        voted == state@.has_voted(VoteKey { dao_id, proposal_id, voter }),
{
    let key = VoteKey { dao_id, proposal_id, voter };
    let found = find_vote(state, &key);
    proof {
        lemma_votes_map_dom(state.votes@);
    }
    found.is_some()
}

/// The weight recorded for `voter` on the proposal, zero where no vote is
/// on record.
pub fn get_vote_weight(state: &Governance, dao_id: u64, proposal_id: u64, voter: Identity) -> (weight:
    u64)
    requires
        state.wf(),
    ensures
        weight == state@.weight_of(VoteKey { dao_id, proposal_id, voter }),
        weight >= 1 <==> state@.has_voted(VoteKey { dao_id, proposal_id, voter }),
{
    let key = VoteKey { dao_id, proposal_id, voter };
    let found = find_vote(state, &key);
    proof {
        lemma_votes_map_dom(state.votes@);
    }
    match found {
        Some(i) => {
            proof {
                lemma_votes_map_at(state.votes@, i as int);
            }
            state.votes[i].record.weight
        },
        None => 0,
    }
}

/// Whether `voter` has ever voted in the organisation `dao_id`.
pub fn is_member(state: &Governance, dao_id: u64, voter: Identity) -> (member: bool)
    requires
        state.wf(),
    ensures
        member == state@.is_member(dao_id, voter),
{
    let mut i: usize = 0;
    while i < state.votes.len()
        invariant
            i <= state.votes.len(),
            forall|j: int|
                0 <= j < i ==> !((#[trigger] state.votes[j]).key.dao_id == dao_id
                    && state.votes[j].key.voter == voter),
        decreases state.votes.len() - i,
    {
        let row = &state.votes[i];
        if row.key.dao_id == dao_id && row.key.voter == voter {
            proof {
                lemma_votes_map_dom(state.votes@);
                let k = state.votes[i as int].key;
                assert(state@.votes.dom().contains(k));
            }
            return true;
        }
        i = i + 1;
    }
    proof {
        lemma_votes_map_dom(state.votes@);
        if state@.is_member(dao_id, voter) {
            let k = choose|k: VoteKey| #[trigger]
                state@.votes.dom().contains(k) && k.dao_id == dao_id && k.voter == voter;
            let j = choose|j: int|
                0 <= j < state.votes.len() && (#[trigger] state.votes@[j]).key == k;
            assert(state.votes[j].key.dao_id == dao_id);
        }
    }
    false
}

/// Runs the checks that come before a balance is read, in their order, and
/// shapes the balance query that the vote calls for. Nothing is recorded.
pub fn vote_query(
    state: &Governance,
    dao_id: u64,
    proposal_id: u64,
    voter: Identity,
    now: u64,
) -> (query: Result<BalanceQuery, GovernanceError>)
    requires
        state.wf(),
    ensures
        query == state@.query_outcome(VoteKey { dao_id, proposal_id, voter }, now),
{
    let proposal = match get_proposal(state, dao_id, proposal_id) {
        Ok(proposal) => Some(proposal),
        Err(_) => None,
    };
    let already_voted = has_voted(state, dao_id, proposal_id, voter);
    let dao = match get_dao(state, dao_id) {
        Ok(dao) => Some(dao),
        Err(_) => None,
    };
    check_vote(proposal, already_voted, dao, voter, now)
}

/// Casts `voter`'s vote on a proposal at `now`, given the token contract's
/// reply to the balance query that `vote_query` shaped.
///
/// The checks run in a fixed order and the first that fails is reported:
/// the proposal exists, the window is open, the voter has not voted on it,
/// the organisation exists, its token can be queried, the query was
/// answered, the balance is positive. An accepted vote is recorded with
/// the floor square root of the balance as its weight, and a first vote in
/// the organisation makes the voter a member. A refusal changes nothing.
pub fn vote(
    state: &mut Governance,
    dao_id: u64,
    proposal_id: u64,
    choice: bool,
    voter: Identity,
    now: u64,
    reply: BalanceReply,
) -> (cast: Result<VoteReceipt, GovernanceError>)
    requires
        old(state).wf(),
    ensures
        final(state).wf(),
        match cast {
            Ok(receipt) => {
                &&& old(state)@.vote_outcome(VoteKey { dao_id, proposal_id, voter }, now, reply)
                    == Ok::<u64, GovernanceError>(receipt.weight)
                &&& receipt == (VoteReceipt {
                    dao_id,
                    proposal_id,
                    voter,
                    choice,
                    weight: receipt.weight,
                })
                &&& final(state)@ == old(state)@.with_vote(
                    VoteKey { dao_id, proposal_id, voter },
                    choice,
                    receipt.weight,
                )
            },
            Err(e) => {
                &&& old(state)@.vote_outcome(VoteKey { dao_id, proposal_id, voter }, now, reply)
                    == Err::<u64, GovernanceError>(e)
                &&& *final(state) == *old(state)
            },
        },
{
    let key = VoteKey { dao_id, proposal_id, voter };
    match vote_query(state, dao_id, proposal_id, voter, now) {
        Err(e) => {
            return Err(e);
        },
        Ok(_) => {},
    }
    let weight = match vote_weight(reply) {
        Ok(weight) => weight,
        Err(e) => {
            return Err(e);
        },
    };
    let member = is_member(state, dao_id, voter);
    let ghost s = old(state)@;
    proof {
        lemma_votes_map_dom(state.votes@);
        assert(s.proposal(dao_id, proposal_id) is Some);
        assert(dao_id < state.daos.len());
    }
    state.votes.push(VoteEntry { key, record: VoteRecord { choice, weight } });
    assert(state.votes.len() == old(state).votes.len() + 1);
    let count = state.daos[dao_id as usize].count_after_vote(member);
    state.daos[dao_id as usize].member_count = count;
    proof {
        let t = s.with_vote(key, choice, weight);
        lemma_with_vote_valid(s, key, choice, now, reply);
        assert(state.votes@.drop_last() =~= old(state).votes@);
        assert(state@.votes =~= t.votes);
        assert(state@.daos =~= t.daos);
        assert(state@ == t);
        assert(distinct_keys(state.votes@));
    }
    Ok(VoteReceipt { dao_id, proposal_id, voter, choice, weight })
}

} // verus!
