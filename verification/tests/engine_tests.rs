use casper_dao::engine::{
    create_dao, create_proposal, get_dao, get_proposal, get_vote_weight, has_voted, init,
    is_member, vote, vote_query, Governance,
};
use casper_dao::error::GovernanceError;
use casper_dao::identity::{Address, Identity, TokenAbiKind};
use casper_dao::records::VoteReceipt;
use casper_dao::token::{BalanceQuery, BalanceReply};

fn who(tag: u8) -> Identity {
    Identity { bytes: [tag; 32] }
}

const TOKEN: [u8; 32] = [0xAA; 32];

fn dao_with_proposal(creator: Identity, now: u64, duration: u64) -> (Governance, u64, u64) {
    let mut state: Governance = init();
    let dao_id: u64 = create_dao(
        &mut state,
        String::from("guild"),
        Address::Contract(TOKEN),
        TokenAbiKind::BalanceByOwner,
        creator,
    );
    let proposal_id: u64 = create_proposal(
        &mut state,
        dao_id,
        String::from("title"),
        String::from("description"),
        duration,
        creator,
        now,
    )
    .unwrap();
    (state, dao_id, proposal_id)
}

#[test]
fn scenario_one_proposal_four_attempts() {
    let a: Identity = who(1);
    let v: Identity = who(2);
    let w: Identity = who(3);
    let mut state: Governance = init();
    let dao_id: u64 = create_dao(
        &mut state,
        String::from("guild"),
        Address::Contract(TOKEN),
        TokenAbiKind::BalanceByOwner,
        a,
    );
    let proposal_id: u64 = create_proposal(
        &mut state,
        dao_id,
        String::from("title"),
        String::from("description"),
        100,
        a,
        1000,
    )
    .unwrap();
    let proposal = get_proposal(&state, dao_id, proposal_id).unwrap();
    assert_eq!(proposal.start_time, 1000);
    assert_eq!(proposal.end_time, 1100);

    let receipt: VoteReceipt =
        vote(&mut state, dao_id, proposal_id, true, v, 1050, BalanceReply::Balance(100)).unwrap();
    assert_eq!(receipt.weight, 10);
    assert_eq!(
        receipt,
        VoteReceipt { dao_id, proposal_id, voter: v, choice: true, weight: 10 }
    );

    assert_eq!(
        vote(&mut state, dao_id, proposal_id, true, v, 1060, BalanceReply::Balance(100)),
        Err(GovernanceError::AlreadyVoted)
    );
    assert_eq!(
        vote(&mut state, dao_id, proposal_id, true, w, 1070, BalanceReply::Balance(0)),
        Err(GovernanceError::NoTokens)
    );
    assert_eq!(
        vote(&mut state, dao_id, proposal_id, true, w, 1101, BalanceReply::Balance(50)),
        Err(GovernanceError::VotingEnded)
    );
    assert_eq!(
        vote(&mut state, dao_id, proposal_id, false, v, 1101, BalanceReply::Balance(100)),
        Err(GovernanceError::VotingEnded)
    );
    assert_eq!(get_vote_weight(&state, dao_id, proposal_id, v), 10);
    assert_eq!(get_vote_weight(&state, dao_id, proposal_id, w), 0);
    assert_eq!(get_dao(&state, dao_id).unwrap().member_count, 1);
}

#[test]
fn ids_count_up_from_zero() {
    let mut state: Governance = init();
    let first: u64 = create_dao(
        &mut state,
        String::from("one"),
        Address::Contract(TOKEN),
        TokenAbiKind::BalanceByOwner,
        who(1),
    );
    let second: u64 = create_dao(
        &mut state,
        String::from("two"),
        Address::Other,
        TokenAbiKind::Unrecognized,
        who(2),
    );
    assert_eq!(first, 0);
    assert_eq!(second, 1);
    let opened_first: u64 = create_proposal(
        &mut state, first, String::from("a"), String::from("b"), 5, who(1), 10,
    )
    .unwrap();
    let opened_second: u64 = create_proposal(
        &mut state, second, String::from("c"), String::from("d"), 5, who(2), 10,
    )
    .unwrap();
    let opened_third: u64 = create_proposal(
        &mut state, first, String::from("e"), String::from("f"), 5, who(1), 10,
    )
    .unwrap();
    assert_eq!((opened_first, opened_second, opened_third), (0, 1, 2));
}

#[test]
fn created_dao_is_stored_as_given() {
    let mut state: Governance = init();
    let dao_id: u64 = create_dao(
        &mut state,
        String::from("guild"),
        Address::Contract(TOKEN),
        TokenAbiKind::BalanceByAddress,
        who(4),
    );
    let dao = get_dao(&state, dao_id).unwrap();
    assert_eq!(dao.dao_id, dao_id);
    assert_eq!(dao.name, "guild");
    assert_eq!(dao.token_reference, Address::Contract(TOKEN));
    assert_eq!(dao.token_abi_kind, TokenAbiKind::BalanceByAddress);
    assert_eq!(dao.creator, who(4));
    assert_eq!(dao.member_count, 0);
}

#[test]
fn unknown_dao_is_not_found() {
    let state: Governance = init();
    assert_eq!(get_dao(&state, 0).err(), Some(GovernanceError::DAONotFound));
    let (state, dao_id, _) = dao_with_proposal(who(1), 0, 10);
    assert_eq!(get_dao(&state, dao_id + 1).err(), Some(GovernanceError::DAONotFound));
}

#[test]
fn proposal_in_unknown_dao_is_refused() {
    let mut state: Governance = init();
    assert_eq!(
        create_proposal(&mut state, 3, String::from("t"), String::from("d"), 10, who(1), 0),
        Err(GovernanceError::DAONotFound)
    );
}

#[test]
fn only_the_creator_opens_proposals() {
    let (mut state, dao_id, proposal_id) = dao_with_proposal(who(1), 1000, 100);
    assert_eq!(
        create_proposal(
            &mut state, dao_id, String::from("t"), String::from("d"), 10, who(2), 1000,
        ),
        Err(GovernanceError::NotDAOCreator)
    );
    assert_eq!(
        get_proposal(&state, dao_id, proposal_id + 1).err(),
        Some(GovernanceError::ProposalNotFound)
    );
    let next: u64 = create_proposal(
        &mut state, dao_id, String::from("t"), String::from("d"), 10, who(1), 1000,
    )
    .unwrap();
    assert_eq!(next, proposal_id + 1);
}

#[test]
fn proposal_is_stored_as_given() {
    let mut state: Governance = init();
    let dao_id: u64 = create_dao(
        &mut state,
        String::from("guild"),
        Address::Contract(TOKEN),
        TokenAbiKind::BalanceByOwner,
        who(1),
    );
    let proposal_id: u64 = create_proposal(
        &mut state,
        dao_id,
        String::from("raise||fees"),
        String::from("a_b_c"),
        25,
        who(1),
        7,
    )
    .unwrap();
    let proposal = get_proposal(&state, dao_id, proposal_id).unwrap();
    assert_eq!(proposal.dao_id, dao_id);
    assert_eq!(proposal.proposal_id, proposal_id);
    assert_eq!(proposal.start_time, 7);
    assert_eq!(proposal.end_time, 32);
    assert_eq!(proposal.creator, who(1));
    assert_eq!(proposal.title, "raise||fees");
    assert_eq!(proposal.description, "a_b_c");
}

#[test]
fn proposal_is_found_only_under_its_own_dao() {
    let mut state: Governance = init();
    let first: u64 = create_dao(
        &mut state, String::from("one"), Address::Contract(TOKEN), TokenAbiKind::BalanceByOwner,
        who(1),
    );
    let second: u64 = create_dao(
        &mut state, String::from("two"), Address::Contract(TOKEN), TokenAbiKind::BalanceByOwner,
        who(1),
    );
    let proposal_id: u64 = create_proposal(
        &mut state, first, String::from("t"), String::from("d"), 10, who(1), 0,
    )
    .unwrap();
    assert!(get_proposal(&state, first, proposal_id).is_ok());
    assert_eq!(
        get_proposal(&state, second, proposal_id).err(),
        Some(GovernanceError::ProposalNotFound)
    );
    assert_eq!(
        vote(&mut state, second, proposal_id, true, who(2), 5, BalanceReply::Balance(9)),
        Err(GovernanceError::ProposalNotFound)
    );
}

#[test]
fn vote_on_unknown_proposal_is_refused() {
    let (mut state, dao_id, proposal_id) = dao_with_proposal(who(1), 1000, 100);
    assert_eq!(
        vote(&mut state, dao_id, proposal_id + 1, true, who(2), 1050, BalanceReply::Balance(9)),
        Err(GovernanceError::ProposalNotFound)
    );
}

#[test]
fn window_is_inclusive_at_both_ends() {
    let (mut state, dao_id, proposal_id) = dao_with_proposal(who(1), 1000, 100);
    assert_eq!(
        vote(&mut state, dao_id, proposal_id, true, who(2), 999, BalanceReply::Balance(9)),
        Err(GovernanceError::VotingNotStarted)
    );
    assert!(
        vote(&mut state, dao_id, proposal_id, true, who(2), 1000, BalanceReply::Balance(9)).is_ok()
    );
    assert!(
        vote(&mut state, dao_id, proposal_id, true, who(3), 1100, BalanceReply::Balance(9)).is_ok()
    );
    assert_eq!(
        vote(&mut state, dao_id, proposal_id, true, who(4), 1101, BalanceReply::Balance(9)),
        Err(GovernanceError::VotingEnded)
    );
}

#[test]
fn zero_duration_is_votable_only_at_its_instant() {
    let (mut state, dao_id, proposal_id) = dao_with_proposal(who(1), 500, 0);
    let proposal = get_proposal(&state, dao_id, proposal_id).unwrap();
    assert_eq!((proposal.start_time, proposal.end_time), (500, 500));
    assert_eq!(
        vote(&mut state, dao_id, proposal_id, true, who(2), 501, BalanceReply::Balance(9)),
        Err(GovernanceError::VotingEnded)
    );
    assert_eq!(
        vote(&mut state, dao_id, proposal_id, true, who(2), 499, BalanceReply::Balance(9)),
        Err(GovernanceError::VotingNotStarted)
    );
    assert!(
        vote(&mut state, dao_id, proposal_id, true, who(2), 500, BalanceReply::Balance(9)).is_ok()
    );
}

#[test]
fn window_may_end_at_the_last_instant() {
    let (mut state, dao_id, proposal_id) = dao_with_proposal(who(1), u64::MAX - 5, 5);
    let proposal = get_proposal(&state, dao_id, proposal_id).unwrap();
    assert_eq!(proposal.end_time, u64::MAX);
    assert!(vote(
        &mut state, dao_id, proposal_id, true, who(2), u64::MAX, BalanceReply::Balance(4),
    )
    .is_ok());
}

#[test]
fn second_vote_is_refused_and_changes_nothing() {
    let (mut state, dao_id, proposal_id) = dao_with_proposal(who(1), 1000, 100);
    assert!(
        vote(&mut state, dao_id, proposal_id, true, who(2), 1001, BalanceReply::Balance(16)).is_ok()
    );
    assert_eq!(
        vote(&mut state, dao_id, proposal_id, false, who(2), 1002, BalanceReply::Balance(400)),
        Err(GovernanceError::AlreadyVoted)
    );
    assert_eq!(
        vote(&mut state, dao_id, proposal_id, false, who(2), 1003, BalanceReply::Rejected),
        Err(GovernanceError::AlreadyVoted)
    );
    assert_eq!(get_vote_weight(&state, dao_id, proposal_id, who(2)), 4);
    assert_eq!(get_dao(&state, dao_id).unwrap().member_count, 1);
}

#[test]
fn refused_vote_leaves_no_record() {
    let (mut state, dao_id, proposal_id) = dao_with_proposal(who(1), 1000, 100);
    assert_eq!(
        vote(&mut state, dao_id, proposal_id, true, who(2), 1001, BalanceReply::Balance(0)),
        Err(GovernanceError::NoTokens)
    );
    assert_eq!(
        vote(&mut state, dao_id, proposal_id, true, who(2), 1001, BalanceReply::Rejected),
        Err(GovernanceError::TokenQueryFailed)
    );
    assert!(!has_voted(&state, dao_id, proposal_id, who(2)));
    assert!(!is_member(&state, dao_id, who(2)));
    assert_eq!(get_vote_weight(&state, dao_id, proposal_id, who(2)), 0);
    assert_eq!(get_dao(&state, dao_id).unwrap().member_count, 0);
    assert!(
        vote(&mut state, dao_id, proposal_id, true, who(2), 1001, BalanceReply::Balance(1)).is_ok()
    );
    assert!(has_voted(&state, dao_id, proposal_id, who(2)));
    assert_eq!(get_vote_weight(&state, dao_id, proposal_id, who(2)), 1);
}

#[test]
fn token_reference_that_is_no_contract_refuses_votes() {
    let mut state: Governance = init();
    let dao_id: u64 = create_dao(
        &mut state, String::from("x"), Address::Account(who(9)), TokenAbiKind::BalanceByOwner,
        who(1),
    );
    let proposal_id: u64 = create_proposal(
        &mut state, dao_id, String::from("t"), String::from("d"), 10, who(1), 0,
    )
    .unwrap();
    assert_eq!(
        vote_query(&state, dao_id, proposal_id, who(2), 5),
        Err(GovernanceError::InvalidTokenReference)
    );
    assert_eq!(
        vote(&mut state, dao_id, proposal_id, true, who(2), 5, BalanceReply::Balance(9)),
        Err(GovernanceError::InvalidTokenReference)
    );
}

#[test]
fn unrecognized_token_kind_refuses_votes() {
    let mut state: Governance = init();
    let dao_id: u64 = create_dao(
        &mut state, String::from("x"), Address::Contract(TOKEN), TokenAbiKind::Unrecognized,
        who(1),
    );
    let proposal_id: u64 = create_proposal(
        &mut state, dao_id, String::from("t"), String::from("d"), 10, who(1), 0,
    )
    .unwrap();
    assert_eq!(
        vote(&mut state, dao_id, proposal_id, true, who(2), 5, BalanceReply::Balance(9)),
        Err(GovernanceError::InvalidTokenAbi)
    );
    assert_eq!(
        vote(&mut state, dao_id, proposal_id, true, who(2), 11, BalanceReply::Balance(9)),
        Err(GovernanceError::VotingEnded)
    );
}

#[test]
fn vote_query_takes_the_shape_of_the_dao() {
    let (state, dao_id, proposal_id) = dao_with_proposal(who(1), 1000, 100);
    assert_eq!(
        vote_query(&state, dao_id, proposal_id, who(2), 1000),
        Ok(BalanceQuery::ByOwner { token: TOKEN, owner: who(2) })
    );
    let mut other: Governance = init();
    let dao_id: u64 = create_dao(
        &mut other, String::from("x"), Address::Contract(TOKEN), TokenAbiKind::BalanceByAddress,
        who(1),
    );
    let proposal_id: u64 = create_proposal(
        &mut other, dao_id, String::from("t"), String::from("d"), 10, who(1), 0,
    )
    .unwrap();
    assert_eq!(
        vote_query(&other, dao_id, proposal_id, who(2), 3),
        Ok(BalanceQuery::ByAddress { token: TOKEN, address: Address::Account(who(2)) })
    );
}

#[test]
fn vote_query_reports_the_first_failing_check() {
    let (mut state, dao_id, proposal_id) = dao_with_proposal(who(1), 1000, 100);
    assert_eq!(
        vote_query(&state, dao_id, proposal_id + 7, who(2), 1050),
        Err(GovernanceError::ProposalNotFound)
    );
    assert_eq!(
        vote_query(&state, dao_id, proposal_id, who(2), 10),
        Err(GovernanceError::VotingNotStarted)
    );
    assert_eq!(
        vote_query(&state, dao_id, proposal_id, who(2), 2000),
        Err(GovernanceError::VotingEnded)
    );
    vote(&mut state, dao_id, proposal_id, true, who(2), 1050, BalanceReply::Balance(9)).unwrap();
    assert_eq!(
        vote_query(&state, dao_id, proposal_id, who(2), 1050),
        Err(GovernanceError::AlreadyVoted)
    );
    assert_eq!(
        vote_query(&state, dao_id, proposal_id, who(2), 2000),
        Err(GovernanceError::VotingEnded)
    );
}

#[test]
fn member_is_counted_once_over_many_proposals() {
    let (mut state, dao_id, first) = dao_with_proposal(who(1), 0, 100);
    let second: u64 = create_proposal(
        &mut state, dao_id, String::from("t2"), String::from("d2"), 100, who(1), 0,
    )
    .unwrap();
    let third: u64 = create_proposal(
        &mut state, dao_id, String::from("t3"), String::from("d3"), 100, who(1), 0,
    )
    .unwrap();
    vote(&mut state, dao_id, first, true, who(2), 1, BalanceReply::Balance(4)).unwrap();
    assert_eq!(get_dao(&state, dao_id).unwrap().member_count, 1);
    vote(&mut state, dao_id, second, false, who(2), 2, BalanceReply::Balance(9)).unwrap();
    assert_eq!(get_dao(&state, dao_id).unwrap().member_count, 1);
    vote(&mut state, dao_id, third, true, who(2), 3, BalanceReply::Balance(16)).unwrap();
    assert_eq!(get_dao(&state, dao_id).unwrap().member_count, 1);
    vote(&mut state, dao_id, second, true, who(3), 4, BalanceReply::Balance(25)).unwrap();
    assert_eq!(get_dao(&state, dao_id).unwrap().member_count, 2);
    vote(&mut state, dao_id, first, true, who(1), 5, BalanceReply::Balance(36)).unwrap();
    assert_eq!(get_dao(&state, dao_id).unwrap().member_count, 3);
    assert_eq!(get_vote_weight(&state, dao_id, first, who(2)), 2);
    assert_eq!(get_vote_weight(&state, dao_id, second, who(2)), 3);
    assert_eq!(get_vote_weight(&state, dao_id, third, who(2)), 4);
    assert_eq!(get_vote_weight(&state, dao_id, second, who(3)), 5);
    assert_eq!(get_vote_weight(&state, dao_id, first, who(1)), 6);
    assert_eq!(get_vote_weight(&state, dao_id, third, who(3)), 0);
}

#[test]
fn membership_is_per_dao() {
    let mut state: Governance = init();
    let one: u64 = create_dao(
        &mut state, String::from("one"), Address::Contract(TOKEN), TokenAbiKind::BalanceByOwner,
        who(1),
    );
    let two: u64 = create_dao(
        &mut state, String::from("two"), Address::Contract(TOKEN), TokenAbiKind::BalanceByOwner,
        who(1),
    );
    let p_one: u64 = create_proposal(
        &mut state, one, String::from("t"), String::from("d"), 100, who(1), 0,
    )
    .unwrap();
    let p_two: u64 = create_proposal(
        &mut state, two, String::from("t"), String::from("d"), 100, who(1), 0,
    )
    .unwrap();
    assert!(!is_member(&state, one, who(5)));
    vote(&mut state, one, p_one, true, who(5), 1, BalanceReply::Balance(4)).unwrap();
    assert!(is_member(&state, one, who(5)));
    assert!(!is_member(&state, two, who(5)));
    assert_eq!(get_dao(&state, one).unwrap().member_count, 1);
    assert_eq!(get_dao(&state, two).unwrap().member_count, 0);
    vote(&mut state, two, p_two, true, who(5), 1, BalanceReply::Balance(4)).unwrap();
    assert!(is_member(&state, two, who(5)));
    assert_eq!(get_dao(&state, one).unwrap().member_count, 1);
    assert_eq!(get_dao(&state, two).unwrap().member_count, 1);
}

#[test]
fn weight_of_the_largest_balance() {
    let (mut state, dao_id, proposal_id) = dao_with_proposal(who(1), 0, 100);
    let receipt: VoteReceipt = vote(
        &mut state, dao_id, proposal_id, false, who(2), 1, BalanceReply::Balance(u64::MAX),
    )
    .unwrap();
    assert_eq!(receipt.weight, 4_294_967_295);
    assert!(!receipt.choice);
}
