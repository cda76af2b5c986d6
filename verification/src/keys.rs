//! The text under which a row is filed in a flat key-value store.
//!
//! A key is the row's fields in fixed-width lower-case hexadecimal, one
//! after the other. No separator is needed, so none can collide with what
//! a field holds, and distinct rows get distinct keys.

use vstd::prelude::*;
use crate::identity::Identity;
use crate::records::VoteKey;

verus! {

/// The ASCII code of the hexadecimal digit for `n`, for `n` below 16.
pub open spec fn hex_digit(n: nat) -> u8 {
    if n < 10 {
        (48 + n) as u8
    } else {
        (87 + n) as u8
    }
}

/// Whether `c` is the ASCII code of a lower-case hexadecimal digit.
pub open spec fn is_hex_digit(c: u8) -> bool {
    48 <= c <= 57 || 97 <= c <= 102
}

/// The lowest `width` hexadecimal digits of `n`, most significant first.
pub open spec fn hex_digits(n: nat, width: nat) -> Seq<u8>
    decreases width,
{
    if width == 0 {
        Seq::empty()
    } else {
        hex_digits(n / 16, (width - 1) as nat).push(hex_digit(n % 16))
    }
}

/// What is left of `n` above its lowest `width` hexadecimal digits.
pub open spec fn above_digits(n: nat, width: nat) -> nat
    decreases width,
{
    if width == 0 {
        n
    } else {
        above_digits(n / 16, (width - 1) as nat)
    }
}

/// Two hexadecimal digits for each byte, in order.
pub open spec fn hex_of_bytes(bytes: Seq<u8>) -> Seq<u8>
    decreases bytes.len(),
{
    if bytes.len() == 0 {
        Seq::empty()
    } else {
        hex_of_bytes(bytes.drop_last()) + hex_digits(bytes.last() as nat, 2)
    }
}

/// The key of an organisation: 16 digits.
pub open spec fn spec_dao_key(dao_id: u64) -> Seq<u8> {
    hex_digits(dao_id as nat, 16)
}

/// The key of a proposal: 16 digits for the organisation, 16 for the
/// proposal.
pub open spec fn spec_proposal_key(dao_id: u64, proposal_id: u64) -> Seq<u8> {
    hex_digits(dao_id as nat, 16) + hex_digits(proposal_id as nat, 16)
}

/// The key of a membership: 16 digits for the organisation, 64 for the
/// member.
pub open spec fn spec_member_key(dao_id: u64, voter: Identity) -> Seq<u8> {
    hex_digits(dao_id as nat, 16) + hex_of_bytes(voter.bytes@)
}

/// The key of a vote: 16 digits for the organisation, 16 for the proposal,
/// 64 for the voter.
pub open spec fn spec_vote_key(key: VoteKey) -> Seq<u8> {
    hex_digits(key.dao_id as nat, 16) + hex_digits(key.proposal_id as nat, 16) + hex_of_bytes(
        key.voter.bytes@,
    )
}

/// `width` digits are `width` long, and each is a hexadecimal digit.
pub proof fn lemma_hex_digits_shape(n: nat, width: nat)
    ensures
        hex_digits(n, width).len() == width,
        forall|i: int| 0 <= i < width ==> is_hex_digit(#[trigger] hex_digits(n, width)[i]),
    decreases width,
{
    if width > 0 {
        lemma_hex_digits_shape(n / 16, (width - 1) as nat);
    }
}

/// Numbers with the same lowest digits and the same rest are the same.
pub proof fn lemma_hex_digits_injective(a: nat, b: nat, width: nat)
    requires
        hex_digits(a, width) == hex_digits(b, width),
        above_digits(a, width) == above_digits(b, width),
    ensures
        a == b,
    decreases width,
{
    if width > 0 {
        let fa = hex_digits(a / 16, (width - 1) as nat);
        let fb = hex_digits(b / 16, (width - 1) as nat);
        let da = hex_digit(a % 16);
        let db = hex_digit(b % 16);
        assert(hex_digits(a, width) == fa.push(da));
        assert(hex_digits(b, width) == fb.push(db));
        assert(fa.push(da).last() == da);
        assert(fb.push(db).last() == db);
        assert(fa.push(da).drop_last() =~= fa);
        assert(fb.push(db).drop_last() =~= fb);
        lemma_hex_digits_injective(a / 16, b / 16, (width - 1) as nat);
    }
}

/// A 64-bit number has nothing above its 16 digits.
pub proof fn lemma_u64_fits_16_digits(n: u64)
    ensures
        above_digits(n as nat, 16) == 0,
{
    reveal_with_fuel(above_digits, 17);
}

/// A byte has nothing above its 2 digits.
pub proof fn lemma_u8_fits_2_digits(n: u8)
    ensures
        above_digits(n as nat, 2) == 0,
{
    reveal_with_fuel(above_digits, 3);
}

/// The digits of bytes are twice as many as the bytes, and each is a
/// hexadecimal digit.
pub proof fn lemma_hex_of_bytes_shape(bytes: Seq<u8>)
    ensures
        hex_of_bytes(bytes).len() == 2 * bytes.len(),
        forall|i: int|
            0 <= i < 2 * bytes.len() ==> is_hex_digit(#[trigger] hex_of_bytes(bytes)[i]),
    decreases bytes.len(),
{
    if bytes.len() > 0 {
        lemma_hex_of_bytes_shape(bytes.drop_last());
        lemma_hex_digits_shape(bytes.last() as nat, 2);
    }
}

/// Where two concatenations agree and their second parts are equally long,
/// the parts agree.
proof fn lemma_concat_parts(a: Seq<u8>, b: Seq<u8>, c: Seq<u8>, d: Seq<u8>)
    requires
        a + b == c + d,
        b.len() == d.len(),
    ensures
        a == c,
        b == d,
{
    assert((a + b).len() == a.len() + b.len());
    assert((c + d).len() == c.len() + d.len());
    assert(a.len() == c.len());
    assert((a + b).subrange(0, a.len() as int) =~= a);
    assert((c + d).subrange(0, c.len() as int) =~= c);
    assert((a + b).subrange(a.len() as int, (a + b).len() as int) =~= b);
    assert((c + d).subrange(c.len() as int, (c + d).len() as int) =~= d);
}

/// Equally many bytes with the same digits are the same bytes.
pub proof fn lemma_hex_of_bytes_injective(x: Seq<u8>, y: Seq<u8>)
    requires
        x.len() == y.len(),
        hex_of_bytes(x) == hex_of_bytes(y),
    ensures
        x == y,
    decreases x.len(),
{
    if x.len() > 0 {
        let px = hex_of_bytes(x.drop_last());
        let py = hex_of_bytes(y.drop_last());
        let dx = hex_digits(x.last() as nat, 2);
        let dy = hex_digits(y.last() as nat, 2);
        lemma_hex_digits_shape(x.last() as nat, 2);
        lemma_hex_digits_shape(y.last() as nat, 2);
        lemma_concat_parts(px, dx, py, dy);
        lemma_u8_fits_2_digits(x.last());
        lemma_u8_fits_2_digits(y.last());
        lemma_hex_digits_injective(x.last() as nat, y.last() as nat, 2);
        lemma_hex_of_bytes_injective(x.drop_last(), y.drop_last());
        assert(x =~= x.drop_last().push(x.last()));
        assert(y =~= y.drop_last().push(y.last()));
    } else {
        assert(x =~= y);
    }
}

/// Distinct organisations are filed under distinct keys.
pub proof fn law_dao_keys_distinct(a: u64, b: u64)
    requires
        spec_dao_key(a) == spec_dao_key(b),
    ensures
        a == b,
{
    lemma_u64_fits_16_digits(a);
    lemma_u64_fits_16_digits(b);
    lemma_hex_digits_injective(a as nat, b as nat, 16);
}

/// Distinct proposals are filed under distinct keys.
pub proof fn law_proposal_keys_distinct(dao_a: u64, proposal_a: u64, dao_b: u64, proposal_b: u64)
    requires
        spec_proposal_key(dao_a, proposal_a) == spec_proposal_key(dao_b, proposal_b),
    ensures
        dao_a == dao_b,
        proposal_a == proposal_b,
{
    lemma_hex_digits_shape(proposal_a as nat, 16);
    lemma_hex_digits_shape(proposal_b as nat, 16);
    lemma_concat_parts(
        hex_digits(dao_a as nat, 16),
        hex_digits(proposal_a as nat, 16),
        hex_digits(dao_b as nat, 16),
        hex_digits(proposal_b as nat, 16),
    );
    law_dao_keys_distinct(dao_a, dao_b);
    law_dao_keys_distinct(proposal_a, proposal_b);
}

/// Distinct memberships are filed under distinct keys.
pub proof fn law_member_keys_distinct(dao_a: u64, voter_a: Identity, dao_b: u64, voter_b: Identity)
    requires
        spec_member_key(dao_a, voter_a) == spec_member_key(dao_b, voter_b),
    ensures
        dao_a == dao_b,
        voter_a == voter_b,
{
    lemma_hex_of_bytes_shape(voter_a.bytes@);
    lemma_hex_of_bytes_shape(voter_b.bytes@);
    lemma_concat_parts(
        hex_digits(dao_a as nat, 16),
        hex_of_bytes(voter_a.bytes@),
        hex_digits(dao_b as nat, 16),
        hex_of_bytes(voter_b.bytes@),
    );
    law_dao_keys_distinct(dao_a, dao_b);
    lemma_hex_of_bytes_injective(voter_a.bytes@, voter_b.bytes@);
    assert(voter_a.bytes@ =~= voter_b.bytes@);
    assert(voter_a.bytes == voter_b.bytes);
}

/// Distinct votes are filed under distinct keys: the text of a key gives
/// back the organisation, the proposal and the voter.
pub proof fn law_vote_keys_distinct(a: VoteKey, b: VoteKey)
    requires
        spec_vote_key(a) == spec_vote_key(b),
    ensures
        a == b,
{
    lemma_hex_of_bytes_shape(a.voter.bytes@);
    lemma_hex_of_bytes_shape(b.voter.bytes@);
    lemma_concat_parts(
        spec_proposal_key(a.dao_id, a.proposal_id),
        hex_of_bytes(a.voter.bytes@),
        spec_proposal_key(b.dao_id, b.proposal_id),
        hex_of_bytes(b.voter.bytes@),
    );
    law_proposal_keys_distinct(a.dao_id, a.proposal_id, b.dao_id, b.proposal_id);
    lemma_hex_of_bytes_injective(a.voter.bytes@, b.voter.bytes@);
    assert(a.voter.bytes@ =~= b.voter.bytes@);
    assert(a.voter.bytes == b.voter.bytes);
}

/// A vote key is 96 hexadecimal digits and nothing else, so it is text, and
/// no separator or other sign can occur in it.
pub proof fn law_vote_key_is_hex(key: VoteKey)
    ensures
        spec_vote_key(key).len() == 96,
        forall|i: int| 0 <= i < 96 ==> is_hex_digit(#[trigger] spec_vote_key(key)[i]),
{
    lemma_hex_digits_shape(key.dao_id as nat, 16);
    lemma_hex_digits_shape(key.proposal_id as nat, 16);
    lemma_hex_of_bytes_shape(key.voter.bytes@);
}

/// Appends the lowest `width` hexadecimal digits of `n`.
fn push_hex(out: &mut Vec<u8>, n: u64, width: u8)
    ensures
        final(out)@ == old(out)@ + hex_digits(n as nat, width as nat),
    decreases width,
{
    if width == 0 {
        assert(out@ =~= old(out)@ + hex_digits(n as nat, 0));
    } else {
        push_hex(out, n / 16, width - 1);
        let nibble: u8 = (n % 16) as u8;
        let digit: u8 = if nibble < 10 {
            48 + nibble
        } else {
            87 + nibble
        };
        out.push(digit);
        assert(out@ =~= old(out)@ + hex_digits(n as nat, width as nat));
    }
}

/// Appends two hexadecimal digits for each byte of `id`.
fn push_identity(out: &mut Vec<u8>, id: &Identity)
    ensures
        final(out)@ == old(out)@ + hex_of_bytes(id.bytes@),
{
    let mut i: usize = 0;
    assert(id.bytes@.subrange(0, 0) =~= Seq::<u8>::empty());
    assert(out@ =~= old(out)@ + hex_of_bytes(id.bytes@.subrange(0, 0)));
    while i < 32
        invariant
            i <= 32,
            out@ == old(out)@ + hex_of_bytes(id.bytes@.subrange(0, i as int)),
        decreases 32 - i,
    {
        let ghost before = out@;
        push_hex(out, id.bytes[i] as u64, 2);
        proof {
            let head = id.bytes@.subrange(0, i as int);
            let next = id.bytes@.subrange(0, i + 1);
            assert(next.drop_last() =~= head);
            assert(next.last() == id.bytes[i as int]);
            assert(out@ =~= old(out)@ + hex_of_bytes(next));
        }
        i = i + 1;
    }
    assert(id.bytes@.subrange(0, 32) =~= id.bytes@);
}

/// The key of an organisation.
pub fn dao_key(dao_id: u64) -> (key: Vec<u8>)
    ensures
        key@ == spec_dao_key(dao_id),
        key@.len() == 16,
{
    let mut key: Vec<u8> = Vec::new();
    push_hex(&mut key, dao_id, 16);
    proof {
        lemma_hex_digits_shape(dao_id as nat, 16);
        assert(key@ =~= spec_dao_key(dao_id));
    }
    key
}

/// The key of a proposal.
pub fn proposal_key(dao_id: u64, proposal_id: u64) -> (key: Vec<u8>)
    ensures
        key@ == spec_proposal_key(dao_id, proposal_id),
        key@.len() == 32,
{
    let mut key: Vec<u8> = Vec::new();
    push_hex(&mut key, dao_id, 16);
    push_hex(&mut key, proposal_id, 16);
    proof {
        lemma_hex_digits_shape(dao_id as nat, 16);
        lemma_hex_digits_shape(proposal_id as nat, 16);
        assert(key@ =~= spec_proposal_key(dao_id, proposal_id));
    }
    key
}

/// The key of a membership.
pub fn member_key(dao_id: u64, voter: &Identity) -> (key: Vec<u8>)
    ensures
        key@ == spec_member_key(dao_id, *voter),
        key@.len() == 80,
{
    let mut key: Vec<u8> = Vec::new();
    push_hex(&mut key, dao_id, 16);
    push_identity(&mut key, voter);
    proof {
        lemma_hex_digits_shape(dao_id as nat, 16);
        lemma_hex_of_bytes_shape(voter.bytes@);
        assert(key@ =~= spec_member_key(dao_id, *voter));
    }
    key
}

/// The key of a vote.
pub fn vote_key(key: &VoteKey) -> (text: Vec<u8>)
    ensures
        text@ == spec_vote_key(*key),
        text@.len() == 96,
{
    let mut text: Vec<u8> = Vec::new();
    push_hex(&mut text, key.dao_id, 16);
    push_hex(&mut text, key.proposal_id, 16);
    push_identity(&mut text, &key.voter);
    proof {
        lemma_hex_digits_shape(key.dao_id as nat, 16);
        lemma_hex_digits_shape(key.proposal_id as nat, 16);
        lemma_hex_of_bytes_shape(key.voter.bytes@);
        assert(text@ =~= spec_vote_key(*key));
    }
    text
}

} // verus!
