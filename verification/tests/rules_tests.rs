use casper_dao::error::GovernanceError;
use casper_dao::identity::{Address, Identity, TokenAbiKind};
use casper_dao::records::{DAOStruct, Proposal};
use casper_dao::rules::{check_proposal, check_vote};
use casper_dao::token::BalanceQuery;

fn who(tag: u8) -> Identity {
    Identity { bytes: [tag; 32] }
}

fn sample_dao() -> DAOStruct {
    DAOStruct::register(
        4,
        String::from("guild"),
        Address::Contract([3; 32]),
        TokenAbiKind::BalanceByOwner,
        who(1),
    )
}

fn sample_proposal() -> Proposal {
    Proposal::open(4, 8, String::from("t"), String::from("d"), 100, who(1), 1000)
}

#[test]
fn registered_dao_has_no_members() {
    let dao: DAOStruct = sample_dao();
    assert_eq!(dao.dao_id, 4);
    assert_eq!(dao.creator, who(1));
    assert_eq!(dao.member_count, 0);
    assert_eq!(dao.token_reference, Address::Contract([3; 32]));
}

#[test]
fn opened_proposal_ends_after_its_duration() {
    let proposal: Proposal = sample_proposal();
    assert_eq!(proposal.start_time, 1000);
    assert_eq!(proposal.end_time, 1100);
    assert_eq!(proposal.dao_id, 4);
    assert_eq!(proposal.proposal_id, 8);
    assert_eq!(proposal.creator, who(1));
}

#[test]
fn window_check_names_the_side() {
    let proposal: Proposal = sample_proposal();
    assert_eq!(proposal.check_window(999), Err(GovernanceError::VotingNotStarted));
    assert_eq!(proposal.check_window(0), Err(GovernanceError::VotingNotStarted));
    assert_eq!(proposal.check_window(1000), Ok(()));
    assert_eq!(proposal.check_window(1100), Ok(()));
    assert_eq!(proposal.check_window(1101), Err(GovernanceError::VotingEnded));
    assert_eq!(proposal.check_window(u64::MAX), Err(GovernanceError::VotingEnded));
}

#[test]
fn creator_check_admits_only_the_creator() {
    let dao: DAOStruct = sample_dao();
    assert_eq!(dao.check_creator(&who(1)), Ok(()));
    assert_eq!(dao.check_creator(&who(2)), Err(GovernanceError::NotDAOCreator));
}

#[test]
fn count_after_vote_counts_new_members_only() {
    let mut dao: DAOStruct = sample_dao();
    assert_eq!(dao.count_after_vote(false), 1);
    assert_eq!(dao.count_after_vote(true), 0);
    dao.member_count = 41;
    assert_eq!(dao.count_after_vote(false), 42);
    assert_eq!(dao.count_after_vote(true), 41);
    dao.member_count = u64::MAX;
    assert_eq!(dao.count_after_vote(true), u64::MAX);
}

#[test]
fn proposal_check_needs_an_existing_dao() {
    assert_eq!(check_proposal(None, &who(1)), Err(GovernanceError::DAONotFound));
    let dao: DAOStruct = sample_dao();
    assert_eq!(check_proposal(Some(&dao), &who(1)), Ok(()));
    assert_eq!(check_proposal(Some(&dao), &who(7)), Err(GovernanceError::NotDAOCreator));
}

#[test]
fn vote_check_runs_in_order() {
    let dao: DAOStruct = sample_dao();
    let proposal: Proposal = sample_proposal();
    assert_eq!(
        check_vote(None, true, None, who(2), 5000),
        Err(GovernanceError::ProposalNotFound)
    );
    assert_eq!(
        check_vote(Some(&proposal), true, None, who(2), 5),
        Err(GovernanceError::VotingNotStarted)
    );
    assert_eq!(
        check_vote(Some(&proposal), true, None, who(2), 5000),
        Err(GovernanceError::VotingEnded)
    );
    assert_eq!(
        check_vote(Some(&proposal), true, None, who(2), 1050),
        Err(GovernanceError::AlreadyVoted)
    );
    assert_eq!(
        check_vote(Some(&proposal), false, None, who(2), 1050),
        Err(GovernanceError::DAONotFound)
    );
    assert_eq!(
        check_vote(Some(&proposal), false, Some(&dao), who(2), 1050),
        Ok(BalanceQuery::ByOwner { token: [3; 32], owner: who(2) })
    );
}

#[test]
fn vote_check_reads_the_token_of_the_dao() {
    let proposal: Proposal = sample_proposal();
    let mut dao: DAOStruct = sample_dao();
    dao.token_abi_kind = TokenAbiKind::BalanceByAddress;
    assert_eq!(
        check_vote(Some(&proposal), false, Some(&dao), who(2), 1050),
        Ok(BalanceQuery::ByAddress { token: [3; 32], address: Address::Account(who(2)) })
    );
    dao.token_abi_kind = TokenAbiKind::Unrecognized;
    assert_eq!(
        check_vote(Some(&proposal), false, Some(&dao), who(2), 1050),
        Err(GovernanceError::InvalidTokenAbi)
    );
    dao.token_reference = Address::Other;
    assert_eq!(
        check_vote(Some(&proposal), false, Some(&dao), who(2), 1050),
        Err(GovernanceError::InvalidTokenReference)
    );
}
