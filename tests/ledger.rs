use token_contract::{
    credit, debit, decrease_supply, increase_supply, set_frozen, Key, LedgerError, Mint,
    TokenAccount,
};

fn account(balance: u64) -> TokenAccount {
    TokenAccount { key: Key::new([2; 32]), mint: Key::new([1; 32]), owner: Key::new([3; 32]), balance, frozen: false }
}

#[test]
fn credit_and_debit_adjust_the_balance() {
    let mut a = account(10);
    assert_eq!(credit(&mut a, 5), Ok(()));
    assert_eq!(a.balance, 15);
    assert_eq!(debit(&mut a, 15), Ok(()));
    assert_eq!(a.balance, 0);
    assert_eq!(debit(&mut a, 1), Err(LedgerError::ArithmeticOverflow));
    assert_eq!(a.balance, 0);
    let mut full = account(u64::MAX);
    assert_eq!(credit(&mut full, 1), Err(LedgerError::ArithmeticOverflow));
    assert_eq!(full.balance, u64::MAX);
}

#[test]
fn supply_moves_both_ways() {
    let mut m = Mint { key: Key::new([1; 32]), supply: 3, mint_authority: None, freeze_authority: None };
    assert_eq!(increase_supply(&mut m, 4), Ok(()));
    assert_eq!(m.supply, 7);
    assert_eq!(decrease_supply(&mut m, 8), Err(LedgerError::ArithmeticOverflow));
    assert_eq!(decrease_supply(&mut m, 7), Ok(()));
    assert_eq!(m.supply, 0);
}

#[test]
fn set_frozen_sets_only_the_flag() {
    let mut a = account(9);
    set_frozen(&mut a, true);
    assert!(a.frozen);
    assert_eq!(a.balance, 9);
    set_frozen(&mut a, false);
    assert!(!a.frozen);
}
