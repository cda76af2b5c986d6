//! What holds of the engine in every valid state, stated over the model
//! that the operations' contracts speak of.

use vstd::prelude::*;
use crate::error::GovernanceError;
use crate::identity::{Address, Identity, TokenAbiKind};
use crate::model::GovernanceView;
use crate::records::{VoteKey, VoteRecord};
use crate::sqrt::{is_floor_sqrt, lemma_floor_sqrt_exists, lemma_floor_sqrt_positive};
use crate::token::BalanceReply;

verus! {

/// A key with a vote on record never takes a second one: whatever the time
/// and the balance, the attempt is refused, and inside the proposal's
/// window the refusal is `AlreadyVoted`.
pub proof fn law_recorded_vote_is_final(
    s: GovernanceView,
    key: VoteKey,
    now: u64,
    reply: BalanceReply,
)
    requires
        s.valid(),
        s.has_voted(key),
    ensures
        s.vote_outcome(key, now, reply) is Err,
        s.proposal(key.dao_id, key.proposal_id) is Some,
        s.proposal(key.dao_id, key.proposal_id)->Some_0.is_open_at(now) ==> s.vote_outcome(
            key,
            now,
            reply,
        ) == Err::<u64, GovernanceError>(GovernanceError::AlreadyVoted),
{
}

/// After an accepted vote the key has exactly the record of that vote, and
/// every further attempt under the key inside the window is refused with
/// `AlreadyVoted`.
pub proof fn law_second_vote_refused(
    s: GovernanceView,
    key: VoteKey,
    choice: bool,
    now: u64,
    reply: BalanceReply,
    later: u64,
    later_reply: BalanceReply,
)
    requires
        s.valid(),
        s.vote_outcome(key, now, reply) is Ok,
        s.proposal(key.dao_id, key.proposal_id)->Some_0.is_open_at(later),
    ensures
        ({
            let weight = s.vote_outcome(key, now, reply)->Ok_0;
            let t = s.with_vote(key, choice, weight);
            &&& !s.has_voted(key)
            &&& t.has_voted(key)
            &&& t.votes[key] == (VoteRecord { choice, weight })
            &&& t.vote_outcome(key, later, later_reply) == Err::<u64, GovernanceError>(
                GovernanceError::AlreadyVoted,
            )
        }),
{
    let weight = s.vote_outcome(key, now, reply)->Ok_0;
    let t = s.with_vote(key, choice, weight);
    assert(t.proposals == s.proposals);
}

/// Registering an organisation or opening a proposal leaves every recorded
/// vote and every proposal on record as it is.
pub proof fn law_registrations_keep_records(
    s: GovernanceView,
    name: String,
    token_reference: Address,
    token_abi_kind: TokenAbiKind,
    dao_id: u64,
    title: String,
    description: String,
    voting_duration: u64,
    requester: Identity,
    now: u64,
)
    ensures
        s.with_dao(name, token_reference, token_abi_kind, requester).votes == s.votes,
        s.with_dao(name, token_reference, token_abi_kind, requester).proposals == s.proposals,
        s.with_proposal(dao_id, title, description, voting_duration, requester, now).votes
            == s.votes,
        forall|d: u64, p: u64|
            s.proposal(d, p) is Some ==> #[trigger] s.with_proposal(
                dao_id,
                title,
                description,
                voting_duration,
                requester,
                now,
            ).proposal(d, p) == s.proposal(d, p),
{
}

/// A vote by someone else, or on something else, leaves a recorded vote as
/// it is, and every proposal too.
pub proof fn law_votes_persist(
    s: GovernanceView,
    recorded: VoteKey,
    key: VoteKey,
    choice: bool,
    now: u64,
    reply: BalanceReply,
)
    requires
        s.valid(),
        s.has_voted(recorded),
        s.vote_outcome(key, now, reply) is Ok,
    ensures
        ({
            let t = s.with_vote(key, choice, s.vote_outcome(key, now, reply)->Ok_0);
            &&& t.has_voted(recorded)
            &&& t.votes[recorded] == s.votes[recorded]
            &&& t.proposals == s.proposals
        }),
{
}

/// A vote is accepted only inside the window of an existing proposal. Before
/// the window it is refused with `VotingNotStarted`, after it with
/// `VotingEnded`, whatever else holds.
pub proof fn law_window_enforced(s: GovernanceView, key: VoteKey, now: u64, reply: BalanceReply)
    ensures
        s.vote_outcome(key, now, reply) is Ok ==> {
            &&& s.proposal(key.dao_id, key.proposal_id) is Some
            &&& s.proposal(key.dao_id, key.proposal_id)->Some_0.start_time <= now
            &&& now <= s.proposal(key.dao_id, key.proposal_id)->Some_0.end_time
        },
        s.proposal(key.dao_id, key.proposal_id) matches Some(p) && now < p.start_time
            ==> s.vote_outcome(key, now, reply) == Err::<u64, GovernanceError>(
            GovernanceError::VotingNotStarted,
        ),
        s.proposal(key.dao_id, key.proposal_id) matches Some(p) && p.start_time <= now && now
            > p.end_time ==> s.vote_outcome(key, now, reply) == Err::<u64, GovernanceError>(
            GovernanceError::VotingEnded,
        ),
        s.proposal(key.dao_id, key.proposal_id) is None ==> s.vote_outcome(key, now, reply)
            == Err::<u64, GovernanceError>(GovernanceError::ProposalNotFound),
{
}

/// The weight of an accepted vote is the floor square root of a positive
/// balance: its square does not exceed the balance, and the square of the
/// next number does.
pub proof fn law_weight_is_floor_sqrt(
    s: GovernanceView,
    key: VoteKey,
    now: u64,
    reply: BalanceReply,
)
    requires
        s.vote_outcome(key, now, reply) is Ok,
    ensures
        reply is Balance,
        reply->Balance_0 >= 1,
        ({
            let w = s.vote_outcome(key, now, reply)->Ok_0;
            let b = reply->Balance_0;
            &&& w >= 1
            &&& w * w <= b
            &&& b < (w + 1) * (w + 1)
            &&& is_floor_sqrt(b as nat, w as nat)
        }),
{
    let b = reply->Balance_0;
    lemma_floor_sqrt_exists(b as nat);
    lemma_floor_sqrt_positive(b as nat);
}

/// An empty balance never earns a vote: the attempt is refused, and where
/// nothing else stands against it the refusal is `NoTokens`.
pub proof fn law_empty_balance_refused(s: GovernanceView, key: VoteKey, now: u64)
    ensures
        s.vote_outcome(key, now, BalanceReply::Balance(0)) is Err,
        s.query_outcome(key, now) is Ok ==> s.vote_outcome(key, now, BalanceReply::Balance(0))
            == Err::<u64, GovernanceError>(GovernanceError::NoTokens),
{
}

/// An organisation's member count is the number of distinct identities with
/// a vote on record in it, and an identity is a member exactly when it is
/// one of them.
pub proof fn law_member_count_counts_voters(s: GovernanceView, dao_id: u64)
    requires
        s.valid(),
        s.dao(dao_id) is Some,
    ensures
        s.voters(dao_id).finite(),
        s.dao(dao_id)->Some_0.member_count == s.voters(dao_id).len(),
        forall|v: Identity|
            s.is_member(dao_id, v) <==> exists|k: VoteKey| #[trigger]
                s.votes.dom().contains(k) && k.dao_id == dao_id && k.voter == v,
{
    assert(s.voters(dao_id).finite());
}

/// A vote raises the member count of its organisation by one where the
/// voter votes there for the first time, and leaves it where the voter has
/// voted there before, on whichever proposal. Other organisations keep
/// their count.
pub proof fn law_member_counted_once(
    s: GovernanceView,
    key: VoteKey,
    choice: bool,
    now: u64,
    reply: BalanceReply,
    dao_id: u64,
)
    requires
        s.valid(),
        s.vote_outcome(key, now, reply) is Ok,
        s.daos[key.dao_id as int].member_count < u64::MAX,
        s.dao(dao_id) is Some,
    ensures
        ({
            let t = s.with_vote(key, choice, s.vote_outcome(key, now, reply)->Ok_0);
            let before = s.dao(dao_id)->Some_0.member_count;
            let after = t.dao(dao_id)->Some_0.member_count;
            &&& t.dao(dao_id) is Some
            &&& t.is_member(key.dao_id, key.voter)
            &&& after == if dao_id == key.dao_id && !s.is_member(dao_id, key.voter) {
                before + 1
            } else {
                before as int
            }
        }),
{
    let t = s.with_vote(key, choice, s.vote_outcome(key, now, reply)->Ok_0);
    assert(t.votes.dom().contains(key));
}

/// Nobody but an organisation's creator opens a proposal in it: for anyone
/// else the request is refused with `NotDAOCreator`, and every proposal on
/// record was opened by its organisation's creator.
pub proof fn law_creator_gating(s: GovernanceView, dao_id: u64, requester: Identity)
    requires
        s.valid(),
    ensures
        s.dao(dao_id) matches Some(dao) && dao.creator != requester ==> s.proposal_refusal(
            dao_id,
            requester,
        ) == Some(GovernanceError::NotDAOCreator),
        s.dao(dao_id) matches Some(dao) && dao.creator == requester ==> s.proposal_refusal(
            dao_id,
            requester,
        ) is None,
        s.dao(dao_id) is None ==> s.proposal_refusal(dao_id, requester) == Some(
            GovernanceError::DAONotFound,
        ),
        forall|p: u64|
            (#[trigger] s.proposal(dao_id, p)) is Some ==> s.dao(dao_id) is Some && s.proposal(
                dao_id,
                p,
            )->Some_0.creator == s.dao(dao_id)->Some_0.creator,
{
    assert forall|p: u64| (#[trigger] s.proposal(dao_id, p)) is Some implies s.dao(dao_id) is Some
        && s.proposal(dao_id, p)->Some_0.creator == s.dao(dao_id)->Some_0.creator by {
        if s.proposal(dao_id, p) is Some {
            let j = p as int;
            assert(s.proposals[j].dao_id < s.daos.len());
        }
    }
}

} // verus!
