use vstd::prelude::*;
use crate::error::{outcome, GatewayError};
use crate::key::Key;
use crate::ledger::{credit, debit, decrease_supply, increase_supply, set_frozen};
use crate::resolver::{
    burn_authority_failure, freeze_authority_failure, mint_authority_failure,
    resolve_burn_authority, resolve_freeze_authority, resolve_mint_authority,
    resolve_transfer_authority, transfer_authority_failure,
};
use crate::state::{AccountBinding, Authority, Mint, MintBinding, TokenAccount};
use crate::validator::{
    check_linkage, check_program, check_writable, linkage_failure, program_failure,
    writable_failure,
};
use crate::error::LedgerError;

verus! {

/// The fixed quantity that one transfer moves.
pub const TRANSFER_AMOUNT: u64 = 5;

/// Accounts bound to a mint operation.
#[derive(Clone, Copy, Debug)]
pub struct MintToken {
    pub mint: MintBinding,
    pub token_program: Key,
    pub token_account: AccountBinding,
    pub authority: Authority,
}

/// Accounts bound to a transfer.
#[derive(Clone, Copy, Debug)]
pub struct TransferToken {
    pub token_program: Key,
    pub from: AccountBinding,
    pub to: AccountBinding,
    pub from_authority: Authority,
}

/// Accounts bound to a burn.
#[derive(Clone, Copy, Debug)]
pub struct BurnToken {
    pub mint: MintBinding,
    pub token_program: Key,
    pub from: AccountBinding,
    pub authority: Authority,
}

/// Accounts bound to a freeze.
#[derive(Clone, Copy, Debug)]
pub struct Freeze {
    pub token_program: Key,
    pub account: AccountBinding,
    pub mint: MintBinding,
    pub authority: Authority,
}

/// Accounts bound to a thaw.
#[derive(Clone, Copy, Debug)]
pub struct UnFreeze {
    pub token_program: Key,
    pub account: AccountBinding,
    pub mint: MintBinding,
    pub authority: Authority,
}

/// The first of several checks that fails, in order.
pub open spec fn first_of(a: Option<GatewayError>, b: Option<GatewayError>) -> Option<
    GatewayError,
> {
    if a is Some {
        a
    } else {
        b
    }
}

pub open spec fn fails_if(cond: bool, e: GatewayError) -> Option<GatewayError> {
    if cond {
        Some(e)
    } else {
        None
    }
}

pub open spec fn overflow() -> GatewayError {
    GatewayError::Ledger(LedgerError::ArithmeticOverflow)
}

// ---- mint -------------------------------------------------------------------

/// The first check that refuses `mint_token(ctx, amount)`: linkage, program,
/// mutability, authority, amount, then the ledger's own arithmetic.
pub open spec fn mint_token_failure(ctx: MintToken, amount: u64) -> Option<GatewayError> {
    let m = ctx.mint.mint;
    let a = ctx.token_account.account;
    first_of(linkage_failure(a, m.key),
    first_of(program_failure(ctx.token_program),
    first_of(writable_failure(ctx.mint.is_writable && ctx.token_account.is_writable),
    first_of(mint_authority_failure(m, ctx.authority),
    first_of(fails_if(amount == 0, GatewayError::InvalidAmount),
    fails_if(m.supply + amount > u64::MAX || a.balance + amount > u64::MAX, overflow()))))))
}

/// The accounts after `amount` was minted into the destination.
pub open spec fn minted(ctx: MintToken, amount: u64) -> MintToken {
    MintToken {
        mint: MintBinding {
            mint: Mint { supply: (ctx.mint.mint.supply + amount) as u64, ..ctx.mint.mint },
            ..ctx.mint
        },
        token_account: AccountBinding {
            account: TokenAccount {
                balance: (ctx.token_account.account.balance + amount) as u64,
                ..ctx.token_account.account
            },
            ..ctx.token_account
        },
        ..ctx
    }
}

/// Mints `amount` new tokens into the bound token account.
pub fn mint_token(ctx: &mut MintToken, amount: u64) -> (r: Result<(), GatewayError>)
    ensures
        r == outcome(mint_token_failure(*old(ctx), amount)),
        *final(ctx) == if r is Ok { minted(*old(ctx), amount) } else { *old(ctx) },
{
    if let Err(e) = check_linkage(&ctx.token_account.account, &ctx.mint.mint.key) {
        return Err(e);
    }
    if let Err(e) = check_program(&ctx.token_program) {
        return Err(e);
    }
    if let Err(e) = check_writable(ctx.mint.is_writable && ctx.token_account.is_writable) {
        return Err(e);
    }
    if let Err(e) = resolve_mint_authority(&ctx.mint.mint, &ctx.authority) {
        return Err(e);
    }
    if amount == 0 {
        return Err(GatewayError::InvalidAmount);
    }
    let mut mint = ctx.mint.mint;
    if let Err(e) = increase_supply(&mut mint, amount) {
        return Err(GatewayError::Ledger(e));
    }
    let mut account = ctx.token_account.account;
    if let Err(e) = credit(&mut account, amount) {
        return Err(GatewayError::Ledger(e));
    }
    ctx.mint.mint = mint;
    ctx.token_account.account = account;
    Ok(())
}

// ---- transfer ---------------------------------------------------------------

/// The first check that refuses `transfer_token(ctx)`. Only the source's frozen
/// flag matters, and it is tested before the source's balance.
pub open spec fn transfer_token_failure(ctx: TransferToken) -> Option<GatewayError> {
    let s = ctx.from.account;
    let d = ctx.to.account;
    first_of(linkage_failure(d, s.mint),
    first_of(program_failure(ctx.token_program),
    first_of(writable_failure(ctx.from.is_writable && ctx.to.is_writable),
    first_of(transfer_authority_failure(s, ctx.from_authority),
    first_of(fails_if(s.frozen, GatewayError::AccountFrozen),
    first_of(fails_if(s.balance < TRANSFER_AMOUNT, GatewayError::InsufficientFunds),
    fails_if(d.balance + TRANSFER_AMOUNT > u64::MAX, overflow())))))))
}

/// The accounts after the fixed amount moved from source to destination.
pub open spec fn transferred(ctx: TransferToken) -> TransferToken {
    TransferToken {
        from: AccountBinding {
            account: TokenAccount {
                balance: (ctx.from.account.balance - TRANSFER_AMOUNT) as u64,
                ..ctx.from.account
            },
            ..ctx.from
        },
        to: AccountBinding {
            account: TokenAccount {
                balance: (ctx.to.account.balance + TRANSFER_AMOUNT) as u64,
                ..ctx.to.account
            },
            ..ctx.to
        },
        ..ctx
    }
}

/// Moves `TRANSFER_AMOUNT` tokens from the source account to the destination.
pub fn transfer_token(ctx: &mut TransferToken) -> (r: Result<(), GatewayError>)
    ensures
        r == outcome(transfer_token_failure(*old(ctx))),
        *final(ctx) == if r is Ok { transferred(*old(ctx)) } else { *old(ctx) },
{
    if let Err(e) = check_linkage(&ctx.to.account, &ctx.from.account.mint) {
        return Err(e);
    }
    if let Err(e) = check_program(&ctx.token_program) {
        return Err(e);
    }
    if let Err(e) = check_writable(ctx.from.is_writable && ctx.to.is_writable) {
        return Err(e);
    }
    if let Err(e) = resolve_transfer_authority(&ctx.from.account, &ctx.from_authority) {
        return Err(e);
    }
    if ctx.from.account.frozen {
        return Err(GatewayError::AccountFrozen);
    }
    if ctx.from.account.balance < TRANSFER_AMOUNT {
        return Err(GatewayError::InsufficientFunds);
    }
    let mut source = ctx.from.account;
    if let Err(e) = debit(&mut source, TRANSFER_AMOUNT) {
        return Err(GatewayError::Ledger(e));
    }
    let mut destination = ctx.to.account;
    if let Err(e) = credit(&mut destination, TRANSFER_AMOUNT) {
        return Err(GatewayError::Ledger(e));
    }
    ctx.from.account = source;
    ctx.to.account = destination;
    Ok(())
}

// ---- burn -------------------------------------------------------------------

/// The first check that refuses `burn_token(ctx, amount)`. The frozen flag is
/// tested before the balance.
pub open spec fn burn_token_failure(ctx: BurnToken, amount: u64) -> Option<GatewayError> {
    let m = ctx.mint.mint;
    let a = ctx.from.account;
    first_of(linkage_failure(a, m.key),
    first_of(program_failure(ctx.token_program),
    first_of(writable_failure(ctx.mint.is_writable && ctx.from.is_writable),
    first_of(burn_authority_failure(m, ctx.authority),
    first_of(fails_if(amount == 0, GatewayError::InvalidAmount),
    first_of(fails_if(a.frozen, GatewayError::AccountFrozen),
    first_of(fails_if(a.balance < amount, GatewayError::InsufficientFunds),
    fails_if(m.supply < amount, overflow()))))))))
}

/// The accounts after `amount` was burnt from the source.
pub open spec fn burnt(ctx: BurnToken, amount: u64) -> BurnToken {
    BurnToken {
        mint: MintBinding {
            mint: Mint { supply: (ctx.mint.mint.supply - amount) as u64, ..ctx.mint.mint },
            ..ctx.mint
        },
        from: AccountBinding {
            account: TokenAccount {
                balance: (ctx.from.account.balance - amount) as u64,
                ..ctx.from.account
            },
            ..ctx.from
        },
        ..ctx
    }
}

/// Destroys `amount` tokens held by the bound account.
pub fn burn_token(ctx: &mut BurnToken, amount: u64) -> (r: Result<(), GatewayError>)
    ensures
        r == outcome(burn_token_failure(*old(ctx), amount)),
        *final(ctx) == if r is Ok { burnt(*old(ctx), amount) } else { *old(ctx) },
{
    if let Err(e) = check_linkage(&ctx.from.account, &ctx.mint.mint.key) {
        return Err(e);
    }
    if let Err(e) = check_program(&ctx.token_program) {
        return Err(e);
    }
    if let Err(e) = check_writable(ctx.mint.is_writable && ctx.from.is_writable) {
        return Err(e);
    }
    if let Err(e) = resolve_burn_authority(&ctx.mint.mint, &ctx.authority) {
        return Err(e);
    }
    if amount == 0 {
        return Err(GatewayError::InvalidAmount);
    }
    if ctx.from.account.frozen {
        return Err(GatewayError::AccountFrozen);
    }
    if ctx.from.account.balance < amount {
        return Err(GatewayError::InsufficientFunds);
    }
    let mut mint = ctx.mint.mint;
    if let Err(e) = decrease_supply(&mut mint, amount) {
        return Err(GatewayError::Ledger(e));
    }
    let mut account = ctx.from.account;
    if let Err(e) = debit(&mut account, amount) {
        return Err(GatewayError::Ledger(e));
    }
    ctx.mint.mint = mint;
    ctx.from.account = account;
    Ok(())
}

// ---- freeze and thaw --------------------------------------------------------

/// The first check that refuses a freeze or a thaw of `account` under `mint`.
/// Freezing a frozen account, or thawing an active one, is not refused: it
/// changes nothing.
pub open spec fn freeze_failure(
    program: Key,
    account: AccountBinding,
    mint: MintBinding,
    authority: Authority,
) -> Option<GatewayError> {
    first_of(linkage_failure(account.account, mint.mint.key),
    first_of(program_failure(program),
    first_of(writable_failure(account.is_writable),
    freeze_authority_failure(mint.mint, authority))))
}

pub open spec fn with_frozen(account: AccountBinding, frozen: bool) -> AccountBinding {
    AccountBinding { account: TokenAccount { frozen, ..account.account }, ..account }
}

fn check_freeze(
    program: &Key,
    account: &AccountBinding,
    mint: &MintBinding,
    authority: &Authority,
) -> (r: Result<(), GatewayError>)
    ensures
        r == outcome(freeze_failure(*program, *account, *mint, *authority)),
{
    if let Err(e) = check_linkage(&account.account, &mint.mint.key) {
        return Err(e);
    }
    if let Err(e) = check_program(program) {
        return Err(e);
    }
    if let Err(e) = check_writable(account.is_writable) {
        return Err(e);
    }
    resolve_freeze_authority(&mint.mint, authority)
}

/// Marks the bound account as frozen.
pub fn freeze_account(ctx: &mut Freeze) -> (r: Result<(), GatewayError>)
    ensures
        r == outcome(freeze_failure(old(ctx).token_program, old(ctx).account, old(ctx).mint, old(ctx).authority)),
        *final(ctx) == if r is Ok {
            Freeze { account: with_frozen(old(ctx).account, true), ..*old(ctx) }
        } else {
            *old(ctx)
        },
{
    if let Err(e) = check_freeze(&ctx.token_program, &ctx.account, &ctx.mint, &ctx.authority) {
        return Err(e);
    }
    set_frozen(&mut ctx.account.account, true);
    Ok(())
}

/// Marks the bound account as active again.
pub fn unfreeze_account(ctx: &mut UnFreeze) -> (r: Result<(), GatewayError>)
    ensures
        r == outcome(freeze_failure(old(ctx).token_program, old(ctx).account, old(ctx).mint, old(ctx).authority)),
        *final(ctx) == if r is Ok {
            UnFreeze { account: with_frozen(old(ctx).account, false), ..*old(ctx) }
        } else {
            *old(ctx)
        },
{
    if let Err(e) = check_freeze(&ctx.token_program, &ctx.account, &ctx.mint, &ctx.authority) {
        return Err(e);
    }
    set_frozen(&mut ctx.account.account, false);
    Ok(())
}

} // verus!
