use vstd::prelude::*;
use crate::error::LedgerError;
use crate::state::{Mint, TokenAccount};

verus! {

/// Adds `amount` to the balance of `account`.
pub fn credit(account: &mut TokenAccount, amount: u64) -> (r: Result<(), LedgerError>)
    ensures
        r is Ok <==> old(account).balance + amount <= u64::MAX,
        r is Ok ==> *final(account) == (TokenAccount {
            balance: (old(account).balance + amount) as u64,
            ..*old(account)
        }),
        r is Err ==> r == Err::<(), LedgerError>(LedgerError::ArithmeticOverflow)
            && *final(account) == *old(account),
{
    match account.balance.checked_add(amount) {
        Some(b) => {
            account.balance = b;
            Ok(())
        },
        None => Err(LedgerError::ArithmeticOverflow),
    }
}

/// Takes `amount` from the balance of `account`.
pub fn debit(account: &mut TokenAccount, amount: u64) -> (r: Result<(), LedgerError>)
    ensures
        r is Ok <==> amount <= old(account).balance,
        r is Ok ==> *final(account) == (TokenAccount {
            balance: (old(account).balance - amount) as u64,
            ..*old(account)
        }),
        r is Err ==> r == Err::<(), LedgerError>(LedgerError::ArithmeticOverflow)
            && *final(account) == *old(account),
{
    match account.balance.checked_sub(amount) {
        Some(b) => {
            account.balance = b;
            Ok(())
        },
        None => Err(LedgerError::ArithmeticOverflow),
    }
}

/// Raises the supply of `mint` by `amount`.
pub fn increase_supply(mint: &mut Mint, amount: u64) -> (r: Result<(), LedgerError>)
    ensures
        r is Ok <==> old(mint).supply + amount <= u64::MAX,
        r is Ok ==> *final(mint) == (Mint { supply: (old(mint).supply + amount) as u64, ..*old(mint) }),
        r is Err ==> r == Err::<(), LedgerError>(LedgerError::ArithmeticOverflow)
            && *final(mint) == *old(mint),
{
    match mint.supply.checked_add(amount) {
        Some(s) => {
            mint.supply = s;
            Ok(())
        },
        None => Err(LedgerError::ArithmeticOverflow),
    }
}

/// Lowers the supply of `mint` by `amount`.
pub fn decrease_supply(mint: &mut Mint, amount: u64) -> (r: Result<(), LedgerError>)
    ensures
        r is Ok <==> amount <= old(mint).supply,
        r is Ok ==> *final(mint) == (Mint { supply: (old(mint).supply - amount) as u64, ..*old(mint) }),
        r is Err ==> r == Err::<(), LedgerError>(LedgerError::ArithmeticOverflow)
            && *final(mint) == *old(mint),
{
    match mint.supply.checked_sub(amount) {
        Some(s) => {
            mint.supply = s;
            Ok(())
        },
        None => Err(LedgerError::ArithmeticOverflow),
    }
}

/// Sets the frozen flag of `account`.
pub fn set_frozen(account: &mut TokenAccount, frozen: bool)
    ensures
        *final(account) == (TokenAccount { frozen, ..*old(account) }),
{
    account.frozen = frozen;
}

} // verus!
