//! Authorization and account-relationship checks in front of a fungible-token ledger.
//!
//! Five operations (mint, transfer, burn, freeze, unfreeze) check the accounts
//! bound to them and the authority that signed, and only then apply their
//! change to the mint supply, the balances or the frozen flag.
mod error;
mod instructions;
mod key;
mod laws;
mod ledger;
mod resolver;
mod state;
mod validator;

pub use error::{outcome, ErrorKind, GatewayError, LedgerError};
pub use key::{token_program_key, Key};
pub use ledger::{credit, debit, decrease_supply, increase_supply, set_frozen};
pub use state::{AccountBinding, Authority, Mint, MintBinding, TokenAccount};
pub use resolver::{
    burn_authority_failure, freeze_authority_failure, mint_authority_failure,
    resolve_burn_authority, resolve_freeze_authority, resolve_mint_authority,
    resolve_transfer_authority, transfer_authority_failure,
};
pub use validator::{
    check_linkage, check_program, check_writable, linkage_failure, program_failure,
    writable_failure,
};
pub use instructions::{
    burn_token, burn_token_failure, burnt, fails_if, first_of, freeze_account, freeze_failure,
    mint_token, mint_token_failure, minted, overflow, transfer_token, transfer_token_failure,
    transferred, unfreeze_account, with_frozen, BurnToken, Freeze, MintToken, TransferToken,
    UnFreeze, TRANSFER_AMOUNT,
};
pub use laws::{
    burn_beyond_balance_refused, burn_removes_exactly, freeze_then_thaw, mint_adds_exactly,
    mismatch_refused_first, transfer_moves_fixed_amount,
};
