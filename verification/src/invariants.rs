//! Every operation keeps the state valid.

use vstd::prelude::*;
use crate::identity::{Address, Identity, TokenAbiKind};
use crate::model::GovernanceView;
use crate::records::VoteKey;
use crate::sqrt::lemma_floor_sqrt_positive;
use crate::token::BalanceReply;

verus! {

/// The empty state is valid.
pub proof fn lemma_empty_valid()
    ensures
        GovernanceView::empty().valid(),
{
    let s = GovernanceView::empty();
    assert forall|d: u64| d < s.daos.len() implies (#[trigger] s.voters(d)).finite() by {}
}

/// Votes cast in one organisation leave the voters of another as they were.
proof fn lemma_voters_unchanged(s: GovernanceView, t: GovernanceView, dao_id: u64)
    requires
        forall|k: VoteKey|
            k.dao_id == dao_id ==> (s.votes.dom().contains(k) <==> t.votes.dom().contains(k)),
    ensures
        s.voters(dao_id) == t.voters(dao_id),
{
    assert forall|v: Identity| s.voters(dao_id).contains(v) == t.voters(dao_id).contains(
        v,
    ) by {
        if s.voters(dao_id).contains(v) {
            let k = choose|k: VoteKey| #[trigger]
                s.votes.dom().contains(k) && k.dao_id == dao_id && k.voter == v;
            assert(t.votes.dom().contains(k));
        }
        if t.voters(dao_id).contains(v) {
            let k = choose|k: VoteKey| #[trigger]
                t.votes.dom().contains(k) && k.dao_id == dao_id && k.voter == v;
            assert(s.votes.dom().contains(k));
        }
    }
    assert(s.voters(dao_id) =~= t.voters(dao_id));
}

/// A vote adds its voter to the voters of its organisation, and nobody
/// else.
proof fn lemma_voters_grow(s: GovernanceView, t: GovernanceView, key: VoteKey)
    requires
        t.votes.dom() == s.votes.dom().insert(key),
    ensures
        t.voters(key.dao_id) == s.voters(key.dao_id).insert(key.voter),
{
    let d = key.dao_id;
    assert forall|v: Identity| t.voters(d).contains(v) == s.voters(d).insert(
        key.voter,
    ).contains(v) by {
        if t.voters(d).contains(v) {
            let k = choose|k: VoteKey| #[trigger]
                t.votes.dom().contains(k) && k.dao_id == d && k.voter == v;
            if k != key {
                assert(s.votes.dom().contains(k));
            }
        }
        if s.voters(d).contains(v) {
            let k = choose|k: VoteKey| #[trigger]
                s.votes.dom().contains(k) && k.dao_id == d && k.voter == v;
            assert(t.votes.dom().contains(k));
        }
        if v == key.voter {
            assert(t.votes.dom().contains(key));
        }
    }
    assert(t.voters(d) =~= s.voters(d).insert(key.voter));
}

/// Registering an organisation keeps the state valid.
pub proof fn lemma_with_dao_valid(
    s: GovernanceView,
    name: String,
    token_reference: Address,
    token_abi_kind: TokenAbiKind,
    requester: Identity,
)
    requires
        s.valid(),
        s.daos.len() < u64::MAX,
    ensures
        s.with_dao(name, token_reference, token_abi_kind, requester).valid(),
{
    let t = s.with_dao(name, token_reference, token_abi_kind, requester);
    assert forall|k: VoteKey| #[trigger] t.votes.dom().contains(k) implies t.proposal(
        k.dao_id,
        k.proposal_id,
    ) is Some && t.votes[k].weight >= 1 by {
        assert(s.proposal(k.dao_id, k.proposal_id) is Some);
    }
    assert forall|d: u64| d < t.daos.len() implies (#[trigger] t.voters(d)).finite()
        && t.daos[d as int].member_count == t.voters(d).len() by {
        lemma_voters_unchanged(s, t, d);
        if d == s.daos.len() {
            assert forall|v: Identity| !t.voters(d).contains(v) by {
                if t.voters(d).contains(v) {
                    let k = choose|k: VoteKey| #[trigger]
                        t.votes.dom().contains(k) && k.dao_id == d && k.voter == v;
                    assert(s.proposal(k.dao_id, k.proposal_id) is Some);
                }
            }
            assert(t.voters(d) =~= Set::empty());
        } else {
            assert(s.voters(d).finite());
        }
    }
}

/// Opening a proposal as the organisation's creator keeps the state valid.
pub proof fn lemma_with_proposal_valid(
    s: GovernanceView,
    dao_id: u64,
    title: String,
    description: String,
    voting_duration: u64,
    requester: Identity,
    now: u64,
)
    requires
        s.valid(),
        s.proposals.len() < u64::MAX,
        now + voting_duration <= u64::MAX,
        s.proposal_refusal(dao_id, requester) is None,
    ensures
        s.with_proposal(dao_id, title, description, voting_duration, requester, now).valid(),
{
    let t = s.with_proposal(dao_id, title, description, voting_duration, requester, now);
    assert forall|k: VoteKey| #[trigger] t.votes.dom().contains(k) implies t.proposal(
        k.dao_id,
        k.proposal_id,
    ) is Some && t.votes[k].weight >= 1 by {
        assert(s.proposal(k.dao_id, k.proposal_id) is Some);
    }
    assert forall|d: u64| d < t.daos.len() implies (#[trigger] t.voters(d)).finite()
        && t.daos[d as int].member_count == t.voters(d).len() by {
        lemma_voters_unchanged(s, t, d);
        assert(s.voters(d).finite());
    }
}

/// Recording an accepted vote keeps the state valid.
pub proof fn lemma_with_vote_valid(
    s: GovernanceView,
    key: VoteKey,
    choice: bool,
    now: u64,
    reply: BalanceReply,
)
    requires
        s.valid(),
        s.vote_outcome(key, now, reply) is Ok,
        s.daos[key.dao_id as int].member_count < u64::MAX,
    ensures
        s.with_vote(key, choice, s.vote_outcome(key, now, reply)->Ok_0).valid(),
{
    let weight = s.vote_outcome(key, now, reply)->Ok_0;
    let t = s.with_vote(key, choice, weight);
    assert(s.proposal(key.dao_id, key.proposal_id) is Some);
    assert(key.dao_id < s.daos.len());
    assert(weight >= 1) by {
        let balance = reply->Balance_0;
        lemma_floor_sqrt_positive(balance as nat);
    }
    assert(t.daos.len() == s.daos.len());
    assert forall|j: int| 0 <= j < t.proposals.len() implies (#[trigger] t.proposals[j]).creator
        == t.daos[t.proposals[j].dao_id as int].creator by {
        assert(s.proposals[j].creator == s.daos[s.proposals[j].dao_id as int].creator);
    }
    assert forall|k: VoteKey| #[trigger] t.votes.dom().contains(k) implies t.proposal(
        k.dao_id,
        k.proposal_id,
    ) is Some && t.votes[k].weight >= 1 by {
        if k != key {
            assert(s.votes.dom().contains(k));
            assert(s.proposal(k.dao_id, k.proposal_id) is Some);
        }
    }
    assert forall|d: u64| d < t.daos.len() implies (#[trigger] t.voters(d)).finite()
        && t.daos[d as int].member_count == t.voters(d).len() by {
        assert(s.voters(d).finite());
        if d == key.dao_id {
            lemma_voters_grow(s, t, key);
        } else {
            lemma_voters_unchanged(s, t, d);
        }
    }
}

} // verus!
