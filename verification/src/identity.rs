//! Who acts on the ledger, and what a ledger key can name.

use vstd::prelude::*;
use vstd::std_specs::cmp::PartialEqSpecImpl;

verus! {

/// An authenticated account, named by its 32-byte hash.
#[derive(Clone, Copy, Debug, Eq)]
pub struct Identity {
    pub bytes: [u8; 32],
}

impl PartialEq for Identity {
    /// Two identities are the same when all 32 bytes agree.
    fn eq(&self, other: &Identity) -> (same: bool) {
        let mut i: usize = 0;
        while i < 32
            invariant
                i <= 32,
                forall|j: int| 0 <= j < i ==> self.bytes[j] == other.bytes[j],
            decreases 32 - i,
        {
            if self.bytes[i] != other.bytes[i] {
                return false;
            }
            i = i + 1;
        }
        assert(self.bytes@ =~= other.bytes@);
        assert(self.bytes == other.bytes);
        true
    }
}

impl PartialEqSpecImpl for Identity {
    open spec fn obeys_eq_spec() -> bool {
        true
    }

    open spec fn eq_spec(&self, other: &Identity) -> bool {
        self.bytes == other.bytes
    }
}

/// What a ledger key names, as far as governance reads it.
#[derive(Clone, Copy, Debug, PartialEq, Eq)]
pub enum Address {
    /// An account.
    Account(Identity),
    /// A stored contract, named by its 32-byte hash: the only kind of key
    /// that can be called.
    Contract([u8; 32]),
    /// A key of any other kind. It names nothing that answers a call.
    Other,
}

/// The balance-query shape that a token contract answers.
#[derive(Clone, Copy, Debug, PartialEq, Eq, Structural)]
pub enum TokenAbiKind {
    /// The contract looks a balance up by the owner's account identity.
    BalanceByOwner,
    /// The contract looks a balance up by a general address of the holder.
    BalanceByAddress,
    /// A kind that this engine has no query shape for.
    Unrecognized,
}

impl TokenAbiKind {
    /// The kind that a stored tag stands for.
    pub open spec fn of_tag(tag: Seq<char>) -> TokenAbiKind {
        if tag == "u512_owner"@ {
            TokenAbiKind::BalanceByOwner
        } else if tag == "u256_address"@ {
            TokenAbiKind::BalanceByAddress
        } else {
            TokenAbiKind::Unrecognized
        }
    }

    /// The kind that a stored tag, or its absence, stands for: an
    /// organisation stored without a tag has the owner shape.
    pub open spec fn of_stored(tag: Option<Seq<char>>) -> TokenAbiKind {
        match tag {
            None => TokenAbiKind::BalanceByOwner,
            Some(tag) => TokenAbiKind::of_tag(tag),
        }
    }

    /// Reads a stored tag: `"u512_owner"` is the owner shape,
    /// `"u256_address"` the address shape, anything else is unrecognized.
    pub fn from_tag(tag: &str) -> (kind: TokenAbiKind)
        ensures
            kind == TokenAbiKind::of_tag(tag@),
    {
        let given: String = tag.to_owned();
        let owner: String = "u512_owner".to_owned();
        let address: String = "u256_address".to_owned();
        if given == owner {
            TokenAbiKind::BalanceByOwner
        } else if given == address {
            TokenAbiKind::BalanceByAddress
        } else {
            TokenAbiKind::Unrecognized
        }
    }

    /// Reads what is stored as an organisation's tag. Where nothing is
    /// stored, the owner shape is meant.
    pub fn from_stored(tag: Option<&str>) -> (kind: TokenAbiKind)
        ensures
            kind == TokenAbiKind::of_stored(
                match tag {
                    Some(t) => Some(t@),
                    None => None,
                },
            ),
    {
        match tag {
            None => TokenAbiKind::BalanceByOwner,
            Some(tag) => TokenAbiKind::from_tag(tag),
        }
    }
}

} // verus!
