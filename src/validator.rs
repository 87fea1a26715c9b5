use vstd::prelude::*;
use crate::error::{outcome, GatewayError};
use crate::key::Key;
use crate::state::TokenAccount;

verus! {

pub open spec fn linkage_failure(account: TokenAccount, mint: Key) -> Option<GatewayError> {
    if account.mint@ == mint@ {
        None
    } else {
        Some(GatewayError::MintAccountMismatch)
    }
}

pub open spec fn program_failure(program: Key) -> Option<GatewayError> {
    if program.is_token_program() {
        None
    } else {
        Some(GatewayError::InvalidProgram)
    }
}

pub open spec fn writable_failure(writable: bool) -> Option<GatewayError> {
    if writable {
        None
    } else {
        Some(GatewayError::AccountNotWritable)
    }
}

/// A token account may only be used together with the mint it belongs to.
pub fn check_linkage(account: &TokenAccount, mint: &Key) -> (r: Result<(), GatewayError>)
    ensures
        r == outcome(linkage_failure(*account, *mint)),
{
    if account.mint.same_as(mint) {
        Ok(())
    } else {
        Err(GatewayError::MintAccountMismatch)
    }
}

/// The program that an operation is forwarded to must be the token ledger.
pub fn check_program(program: &Key) -> (r: Result<(), GatewayError>)
    ensures
        r == outcome(program_failure(*program)),
{
    let expected = Key::token_program();
    if program.same_as(&expected) {
        Ok(())
    } else {
        Err(GatewayError::InvalidProgram)
    }
}

/// Every account that an operation changes must be bound as writable.
pub fn check_writable(writable: bool) -> (r: Result<(), GatewayError>)
    ensures
        r == outcome(writable_failure(writable)),
{
    if writable {
        Ok(())
    } else {
        Err(GatewayError::AccountNotWritable)
    }
}

} // verus!
