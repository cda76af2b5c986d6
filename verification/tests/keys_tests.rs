use casper_dao::identity::Identity;
use casper_dao::keys::{dao_key, member_key, proposal_key, vote_key};
use casper_dao::records::VoteKey;

fn text(bytes: Vec<u8>) -> String {
    String::from_utf8(bytes).unwrap()
}

#[test]
fn dao_key_is_sixteen_hex_digits() {
    assert_eq!(text(dao_key(0)), "0000000000000000");
    assert_eq!(text(dao_key(255)), "00000000000000ff");
    assert_eq!(text(dao_key(0x0123_4567_89ab_cdef)), "0123456789abcdef");
    assert_eq!(text(dao_key(u64::MAX)), "ffffffffffffffff");
}

#[test]
fn proposal_key_is_dao_then_proposal() {
    assert_eq!(text(proposal_key(1, 2)), "00000000000000010000000000000002");
    assert_eq!(text(proposal_key(0x1_0000, 10)), "0000000000010000000000000000000a");
}

#[test]
fn member_key_is_dao_then_voter() {
    let voter: Identity = Identity { bytes: [0xab; 32] };
    let expected: String = format!("{}{}", "0000000000000007", "ab".repeat(32));
    assert_eq!(text(member_key(7, &voter)), expected);
}

#[test]
fn vote_key_is_dao_proposal_voter() {
    let mut bytes: [u8; 32] = [0; 32];
    bytes[0] = 0x01;
    bytes[1] = 0xf0;
    bytes[31] = 0x9c;
    let key: VoteKey = VoteKey { dao_id: 3, proposal_id: 4, voter: Identity { bytes } };
    let expected: String = format!(
        "{}{}{}{}{}",
        "0000000000000003",
        "0000000000000004",
        "01f0",
        "00".repeat(29),
        "9c"
    );
    let made: String = text(vote_key(&key));
    assert_eq!(made.len(), 96);
    assert_eq!(made, expected);
}

#[test]
fn keys_that_a_separator_would_confuse_stay_apart() {
    let voter: Identity = Identity { bytes: [5; 32] };
    let a: VoteKey = VoteKey { dao_id: 1, proposal_id: 11, voter };
    let b: VoteKey = VoteKey { dao_id: 11, proposal_id: 1, voter };
    assert_ne!(vote_key(&a), vote_key(&b));
    assert_ne!(proposal_key(1, 11), proposal_key(11, 1));
    assert_ne!(proposal_key(0x10, 0), proposal_key(0x1, 0));
}

#[test]
fn keys_hold_lower_case_hex_only() {
    let key: VoteKey =
        VoteKey { dao_id: u64::MAX, proposal_id: 0xdead_beef, voter: Identity { bytes: [0xfe; 32] } };
    for c in vote_key(&key) {
        assert!(c.is_ascii_digit() || (b'a'..=b'f').contains(&c));
    }
}
