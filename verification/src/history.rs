//! The engine over time: what a run of requests leaves of the records that
//! were there before it.

use vstd::prelude::*;
use crate::error::GovernanceError;
use crate::identity::{Address, Identity, TokenAbiKind};
use crate::invariants::{lemma_with_dao_valid, lemma_with_proposal_valid, lemma_with_vote_valid};
use crate::model::GovernanceView;
use crate::records::{VoteKey, VoteRecord};
use crate::token::BalanceReply;

verus! {

/// One request to the engine, with all that the host supplies for it.
pub ghost enum Request {
    /// Register an organisation.
    RegisterDao {
        name: String,
        token_reference: Address,
        token_abi_kind: TokenAbiKind,
        requester: Identity,
    },
    /// Open a proposal.
    OpenProposal {
        dao_id: u64,
        title: String,
        description: String,
        voting_duration: u64,
        requester: Identity,
        now: u64,
    },
    /// Cast a vote; `reply` is the token contract's answer.
    CastVote { key: VoteKey, choice: bool, now: u64, reply: BalanceReply },
}

/// Whether the engine accepts `request` in the state `s`.
pub open spec fn accepts(s: GovernanceView, request: Request) -> bool {
    match request {
        Request::RegisterDao { .. } => true,
        Request::OpenProposal { dao_id, requester, .. } => s.proposal_refusal(dao_id, requester)
            is None,
        Request::CastVote { key, now, reply, .. } => s.vote_outcome(key, now, reply) is Ok,
    }
}

/// The state after `request`: a refused request changes nothing.
pub open spec fn after(s: GovernanceView, request: Request) -> GovernanceView {
    if !accepts(s, request) {
        s
    } else {
        match request {
            Request::RegisterDao { name, token_reference, token_abi_kind, requester } => s.with_dao(
                name,
                token_reference,
                token_abi_kind,
                requester,
            ),
            Request::OpenProposal {
                dao_id,
                title,
                description,
                voting_duration,
                requester,
                now,
            } => s.with_proposal(dao_id, title, description, voting_duration, requester, now),
            Request::CastVote { key, choice, now, reply } => s.with_vote(
                key,
                choice,
                s.vote_outcome(key, now, reply)->Ok_0,
            ),
        }
    }
}

/// The state after a run of requests, one after the other.
pub open spec fn after_all(s: GovernanceView, requests: Seq<Request>) -> GovernanceView
    decreases requests.len(),
{
    if requests.len() == 0 {
        s
    } else {
        after(after_all(s, requests.drop_last()), requests.last())
    }
}

/// Whether the state leaves room for `request`: the ids and the counter
/// that the request would move on are not at the end of their 64 bits, and
/// a proposal's window ends at a 64-bit instant.
pub open spec fn has_room_for(s: GovernanceView, request: Request) -> bool {
    match request {
        Request::RegisterDao { .. } => s.daos.len() < u64::MAX,
        Request::OpenProposal { voting_duration, now, .. } => s.proposals.len() < u64::MAX && now
            + voting_duration <= u64::MAX,
        Request::CastVote { key, .. } => s.dao(key.dao_id) matches Some(dao) ==> dao.member_count
            < u64::MAX,
    }
}

/// A run of requests, each of which the state before it has room for, takes
/// a valid state to a valid state. So in every state of such a run, each
/// organisation's member count is the number of distinct identities with a
/// vote on record in it.
pub proof fn law_history_stays_valid(s: GovernanceView, requests: Seq<Request>)
    requires
        s.valid(),
        forall|i: int|
            0 <= i < requests.len() ==> has_room_for(
                #[trigger] after_all(s, requests.take(i)),
                requests[i],
            ),
    ensures
        after_all(s, requests).valid(),
        forall|d: u64|
            after_all(s, requests).dao(d) is Some ==> after_all(s, requests).dao(
                d,
            )->Some_0.member_count == (#[trigger] after_all(s, requests).voters(d)).len(),
    decreases requests.len(),
{
    if requests.len() > 0 {
        let front = requests.drop_last();
        assert forall|i: int| 0 <= i < front.len() implies has_room_for(
            #[trigger] after_all(s, front.take(i)),
            front[i],
        ) by {
            assert(front.take(i) =~= requests.take(i));
        }
        law_history_stays_valid(s, front);
        let u = after_all(s, front);
        let last = requests.last();
        assert(requests.take(requests.len() - 1) =~= front);
        assert(has_room_for(after_all(s, requests.take(requests.len() - 1)), last));
        if accepts(u, last) {
            match last {
                Request::RegisterDao { name, token_reference, token_abi_kind, requester } => {
                    lemma_with_dao_valid(u, name, token_reference, token_abi_kind, requester);
                },
                Request::OpenProposal {
                    dao_id,
                    title,
                    description,
                    voting_duration,
                    requester,
                    now,
                } => {
                    lemma_with_proposal_valid(
                        u,
                        dao_id,
                        title,
                        description,
                        voting_duration,
                        requester,
                        now,
                    );
                },
                Request::CastVote { key, choice, now, reply } => {
                    assert(u.proposal(key.dao_id, key.proposal_id) is Some);
                    assert(u.dao(key.dao_id) is Some);
                    lemma_with_vote_valid(u, key, choice, now, reply);
                },
            }
        }
    }
}

/// No run of requests removes or changes a proposal.
pub proof fn law_history_keeps_proposals(
    s: GovernanceView,
    requests: Seq<Request>,
    dao_id: u64,
    proposal_id: u64,
)
    requires
        s.proposal(dao_id, proposal_id) is Some,
    ensures
        after_all(s, requests).proposal(dao_id, proposal_id) == s.proposal(dao_id, proposal_id),
    decreases requests.len(),
{
    if requests.len() > 0 {
        law_history_keeps_proposals(s, requests.drop_last(), dao_id, proposal_id);
    }
}

/// No run of requests removes or changes a recorded vote.
pub proof fn law_history_keeps_votes(s: GovernanceView, requests: Seq<Request>, key: VoteKey)
    requires
        s.has_voted(key),
    ensures
        after_all(s, requests).has_voted(key),
        after_all(s, requests).votes[key] == s.votes[key],
    decreases requests.len(),
{
    if requests.len() > 0 {
        law_history_keeps_votes(s, requests.drop_last(), key);
    }
}

/// At most one vote per organisation, proposal and voter is ever accepted:
/// once one is, then after any run of further requests, whatever they are,
/// every attempt under the same key is refused, the recorded vote is still
/// the first one, and inside the proposal's window the refusal is
/// `AlreadyVoted`.
pub proof fn law_one_vote_ever(
    s: GovernanceView,
    key: VoteKey,
    choice: bool,
    now: u64,
    reply: BalanceReply,
    requests: Seq<Request>,
    later_choice: bool,
    later: u64,
    later_reply: BalanceReply,
)
    requires
        s.vote_outcome(key, now, reply) is Ok,
    ensures
        ({
            let weight = s.vote_outcome(key, now, reply)->Ok_0;
            let t = after_all(s.with_vote(key, choice, weight), requests);
            let attempt = Request::CastVote {
                key,
                choice: later_choice,
                now: later,
                reply: later_reply,
            };
            &&& !accepts(t, attempt)
            &&& after(t, attempt) == t
            &&& t.votes[key] == (VoteRecord { choice, weight })
            &&& t.proposal(key.dao_id, key.proposal_id) == s.proposal(key.dao_id, key.proposal_id)
            &&& s.proposal(key.dao_id, key.proposal_id)->Some_0.is_open_at(later)
                ==> t.vote_outcome(key, later, later_reply) == Err::<u64, GovernanceError>(
                GovernanceError::AlreadyVoted,
            )
        }),
{
    let weight = s.vote_outcome(key, now, reply)->Ok_0;
    let voted = s.with_vote(key, choice, weight);
    assert(voted.proposal(key.dao_id, key.proposal_id) == s.proposal(key.dao_id, key.proposal_id));
    law_history_keeps_votes(voted, requests, key);
    law_history_keeps_proposals(voted, requests, key.dao_id, key.proposal_id);
}

} // verus!
