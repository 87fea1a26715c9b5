use vstd::prelude::*;
use crate::key::Key;

verus! {

/// A token type: its total supply and the authorities that govern it.
/// No mint authority means that minting is disabled for good; no freeze
/// authority, that freezing is.
#[derive(Clone, Copy, Debug)]
pub struct Mint {
    pub key: Key,
    pub supply: u64,
    pub mint_authority: Option<Key>,
    pub freeze_authority: Option<Key>,
}

/// One holder's balance of one mint.
#[derive(Clone, Copy, Debug)]
pub struct TokenAccount {
    pub key: Key,
    pub mint: Key,
    pub owner: Key,
    pub balance: u64,
    pub frozen: bool,
}

/// An identity presented to an operation, and whether it signed.
#[derive(Clone, Copy, Debug)]
pub struct Authority {
    pub key: Key,
    pub is_signer: bool,
}

/// A mint as bound to an operation, with its mutability flag.
#[derive(Clone, Copy, Debug)]
pub struct MintBinding {
    pub mint: Mint,
    pub is_writable: bool,
}

/// A token account as bound to an operation, with its mutability flag.
#[derive(Clone, Copy, Debug)]
pub struct AccountBinding {
    pub account: TokenAccount,
    pub is_writable: bool,
}

impl Authority {
    /// The authority signed and is the expected identity.
    pub open spec fn signed_as(self, expected: Option<Key>) -> bool {
        &&& self.is_signer
        &&& expected is Some
        &&& self.key@ == expected.unwrap()@
    }
}

impl TokenAccount {
    pub open spec fn belongs_to(self, mint: Mint) -> bool {
        self.mint@ == mint.key@
    }
}

} // verus!
