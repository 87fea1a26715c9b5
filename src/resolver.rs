use vstd::prelude::*;
use crate::error::{outcome, GatewayError};
use crate::key::Key;
use crate::state::{Authority, Mint, TokenAccount};

verus! {

/// Whether `signer` signed and is the identity held in `expected`.
fn signed_as(signer: &Authority, expected: &Option<Key>) -> (r: bool)
    ensures
        r == signer.signed_as(*expected),
{
    match expected {
        Some(k) => signer.is_signer && signer.key.same_as(k),
        None => false,
    }
}

pub open spec fn mint_authority_failure(mint: Mint, signer: Authority) -> Option<GatewayError> {
    if signer.signed_as(mint.mint_authority) {
        None
    } else {
        Some(GatewayError::UnauthorizedMint)
    }
}

pub open spec fn transfer_authority_failure(source: TokenAccount, signer: Authority) -> Option<
    GatewayError,
> {
    if signer.signed_as(Some(source.owner)) {
        None
    } else {
        Some(GatewayError::UnauthorizedTransfer)
    }
}

pub open spec fn burn_authority_failure(mint: Mint, signer: Authority) -> Option<GatewayError> {
    if signer.signed_as(mint.mint_authority) {
        None
    } else {
        Some(GatewayError::UnauthorizedBurn)
    }
}

pub open spec fn freeze_authority_failure(mint: Mint, signer: Authority) -> Option<GatewayError> {
    if mint.freeze_authority is None {
        Some(GatewayError::FreezeAuthorityDisabled)
    } else if signer.signed_as(mint.freeze_authority) {
        None
    } else {
        Some(GatewayError::UnauthorizedFreeze)
    }
}

/// Minting needs the mint's own mint authority as signer.
pub fn resolve_mint_authority(mint: &Mint, signer: &Authority) -> (r: Result<(), GatewayError>)
    ensures
        r == outcome(mint_authority_failure(*mint, *signer)),
{
    if signed_as(signer, &mint.mint_authority) {
        Ok(())
    } else {
        Err(GatewayError::UnauthorizedMint)
    }
}

/// A transfer needs the owner of the source account as signer.
pub fn resolve_transfer_authority(source: &TokenAccount, signer: &Authority) -> (r: Result<
    (),
    GatewayError,
>)
    ensures
        r == outcome(transfer_authority_failure(*source, *signer)),
{
    if signed_as(signer, &Some(source.owner)) {
        Ok(())
    } else {
        Err(GatewayError::UnauthorizedTransfer)
    }
}

/// Burning is gated by the mint's mint authority, not by the account owner.
pub fn resolve_burn_authority(mint: &Mint, signer: &Authority) -> (r: Result<(), GatewayError>)
    ensures
        r == outcome(burn_authority_failure(*mint, *signer)),
{
    if signed_as(signer, &mint.mint_authority) {
        Ok(())
    } else {
        Err(GatewayError::UnauthorizedBurn)
    }
}

/// Freezing and thawing need the mint's freeze authority as signer; a mint
/// without one cannot have its accounts frozen or thawed.
pub fn resolve_freeze_authority(mint: &Mint, signer: &Authority) -> (r: Result<(), GatewayError>)
    ensures
        r == outcome(freeze_authority_failure(*mint, *signer)),
{
    if mint.freeze_authority.is_none() {
        Err(GatewayError::FreezeAuthorityDisabled)
    } else if signed_as(signer, &mint.freeze_authority) {
        Ok(())
    } else {
        Err(GatewayError::UnauthorizedFreeze)
    }
}

} // verus!
