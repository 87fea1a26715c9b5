use vstd::prelude::*;
use crate::error::GatewayError;
use crate::instructions::{
    burn_token_failure, burnt, freeze_failure, mint_token_failure, minted,
    transfer_token_failure, transferred, with_frozen, BurnToken, MintToken, TransferToken,
    TRANSFER_AMOUNT,
};
use crate::key::Key;
use crate::state::{AccountBinding, Authority, MintBinding};

verus! {

/// Minting a positive amount, signed by the mint's own mint authority, raises
/// the supply and the destination balance by exactly that amount; presented by
/// any other identity, it is refused as `UnauthorizedMint` (and a refusal
/// changes nothing, by `mint_token`'s contract). Both hold for accounts that fit
/// together; the first also asks that neither total leaves `u64`.
pub proof fn mint_adds_exactly(ctx: MintToken, amount: u64)
    requires
        amount > 0,
        ctx.token_account.account.belongs_to(ctx.mint.mint),
        ctx.token_program.is_token_program(),
        ctx.mint.is_writable,
        ctx.token_account.is_writable,
    ensures
        ctx.authority.signed_as(ctx.mint.mint.mint_authority)
            && ctx.mint.mint.supply + amount <= u64::MAX
            && ctx.token_account.account.balance + amount <= u64::MAX ==> {
            &&& mint_token_failure(ctx, amount) is None
            &&& minted(ctx, amount).mint.mint.supply == ctx.mint.mint.supply + amount
            &&& minted(ctx, amount).token_account.account.balance
                == ctx.token_account.account.balance + amount
        },
        ctx.mint.mint.mint_authority is None
            || ctx.authority.key@ != ctx.mint.mint.mint_authority.unwrap()@
            ==> mint_token_failure(ctx, amount) == Some(GatewayError::UnauthorizedMint),
{
}

/// A transfer between two accounts of one mint, signed by the source's owner,
/// moves exactly `TRANSFER_AMOUNT` from source to destination when the source
/// is active and holds at least that much; a frozen source is refused as
/// `AccountFrozen` whatever its balance. The accounts must be writable, the
/// program the token ledger, and (for the move) the destination able to hold
/// the amount.
pub proof fn transfer_moves_fixed_amount(ctx: TransferToken)
    requires
        ctx.from.account.mint@ == ctx.to.account.mint@,
        ctx.from_authority.signed_as(Some(ctx.from.account.owner)),
        ctx.token_program.is_token_program(),
        ctx.from.is_writable,
        ctx.to.is_writable,
    ensures
        !ctx.from.account.frozen && ctx.from.account.balance >= TRANSFER_AMOUNT
            && ctx.to.account.balance + TRANSFER_AMOUNT <= u64::MAX ==> {
            &&& transfer_token_failure(ctx) is None
            &&& transferred(ctx).from.account.balance
                == ctx.from.account.balance - TRANSFER_AMOUNT
            &&& transferred(ctx).to.account.balance == ctx.to.account.balance + TRANSFER_AMOUNT
        },
        ctx.from.account.frozen ==> transfer_token_failure(ctx) == Some(
            GatewayError::AccountFrozen,
        ),
{
}

/// Burning more than the source holds is refused as `InsufficientFunds` (so
/// supply and balance stay as they were), once the accounts fit together, the
/// mint authority signed, the amount is positive and the source is active.
pub proof fn burn_beyond_balance_refused(ctx: BurnToken, amount: u64)
    requires
        amount > ctx.from.account.balance,
        ctx.from.account.belongs_to(ctx.mint.mint),
        ctx.token_program.is_token_program(),
        ctx.mint.is_writable,
        ctx.from.is_writable,
        ctx.authority.signed_as(ctx.mint.mint.mint_authority),
        !ctx.from.account.frozen,
    ensures
        burn_token_failure(ctx, amount) == Some(GatewayError::InsufficientFunds),
{
}

/// A successful burn lowers supply and balance by the same amount.
pub proof fn burn_removes_exactly(ctx: BurnToken, amount: u64)
    requires
        burn_token_failure(ctx, amount) is None,
    ensures
        burnt(ctx, amount).mint.mint.supply == ctx.mint.mint.supply - amount,
        burnt(ctx, amount).from.account.balance == ctx.from.account.balance - amount,
{
}

/// Freezing an account and then thawing it with the same bindings succeeds
/// both times and leaves the account active with everything else, its balance
/// included, as it was.
pub proof fn freeze_then_thaw(
    program: Key,
    account: AccountBinding,
    mint: MintBinding,
    authority: Authority,
)
    requires
        freeze_failure(program, account, mint, authority) is None,
    ensures
        freeze_failure(program, with_frozen(account, true), mint, authority) is None,
        with_frozen(with_frozen(account, true), false) == with_frozen(account, false),
        !with_frozen(with_frozen(account, true), false).account.frozen,
        with_frozen(with_frozen(account, true), false).account.balance == account.account.balance,
{
}

/// Whenever a bound token account names another mint than the one bound beside
/// it (for a transfer: the destination another mint than the source), the
/// operation is refused as `MintAccountMismatch`, whatever the authority.
pub proof fn mismatch_refused_first(
    mint_ctx: MintToken,
    transfer_ctx: TransferToken,
    burn_ctx: BurnToken,
    program: Key,
    account: AccountBinding,
    mint: MintBinding,
    authority: Authority,
    amount: u64,
)
    ensures
        !mint_ctx.token_account.account.belongs_to(mint_ctx.mint.mint) ==> mint_token_failure(
            mint_ctx,
            amount,
        ) == Some(GatewayError::MintAccountMismatch),
        transfer_ctx.to.account.mint@ != transfer_ctx.from.account.mint@
            ==> transfer_token_failure(transfer_ctx) == Some(GatewayError::MintAccountMismatch),
        !burn_ctx.from.account.belongs_to(burn_ctx.mint.mint) ==> burn_token_failure(
            burn_ctx,
            amount,
        ) == Some(GatewayError::MintAccountMismatch),
        !account.account.belongs_to(mint.mint) ==> freeze_failure(program, account, mint, authority)
            == Some(GatewayError::MintAccountMismatch),
{
}

} // verus!
