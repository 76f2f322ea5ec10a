//! What the stream operations read of the token accounts they are handed.

use vstd::prelude::*;

verus! {

/// The address of an account.
#[derive(Clone, Copy, Debug, Default, Eq)]
pub struct Pubkey {
    pub bytes: [u8; 32],
}

impl PartialEq for Pubkey {
    fn eq(&self, other: &Pubkey) -> (r: bool) {
        let mut i: usize = 0;
        while i < 32
            invariant
                0 <= i <= 32,
                forall|j: int| 0 <= j < i ==> self.bytes[j] == other.bytes[j],
            decreases 32 - i,
        {
            if self.bytes[i] != other.bytes[i] {
                return false;
            }
            i += 1;
        }
        assert(self.bytes =~= other.bytes);
        true
    }
}

impl vstd::std_specs::cmp::PartialEqSpecImpl for Pubkey {
    open spec fn obeys_eq_spec() -> bool {
        true
    }

    open spec fn eq_spec(&self, other: &Pubkey) -> bool {
        *self == *other
    }
}

/// A token mint.
#[derive(Clone, Copy, Debug, Default)]
pub struct Mint {
    /// The address of the mint.
    pub key: Pubkey,
    /// The account that may mint new tokens, if any.
    pub mint_authority: Option<Pubkey>,
    /// The account that may freeze token accounts, if any.
    pub freeze_authority: Option<Pubkey>,
    /// The number of tokens in circulation.
    pub supply: u64,
    /// The number of decimals of an amount.
    pub decimals: u8,
}

/// A token account.
#[derive(Clone, Copy, Debug, Default)]
pub struct TokenAccount {
    /// The address of the account.
    pub key: Pubkey,
    /// The mint of the tokens it holds.
    pub mint: Pubkey,
    /// The owner of the account.
    pub owner: Pubkey,
    /// The number of tokens it holds.
    pub amount: u64,
    /// An account allowed to spend from it, if any.
    pub delegate: Option<Pubkey>,
    /// An account allowed to close it, if any.
    pub close_authority: Option<Pubkey>,
}

/// Whether an optional key is present and equal to `key`.
pub open spec fn is_key(opt: Option<Pubkey>, key: Pubkey) -> bool {
    opt == Some(key)
}

/// Whether an optional key is present and equal to `key`.
pub fn option_is_key(opt: &Option<Pubkey>, key: &Pubkey) -> (r: bool)
    ensures
        r == is_key(*opt, *key),
{
    match opt {
        Some(k) => *k == *key,
        None => false,
    }
}

} // verus!
