use staking_contract::account::Account;
use staking_contract::balance_store::BalanceStore;
use staking_contract::ledger::{Ledger, StakeError, StakingContract, Transfer};
use staking_contract::staker_set::StakerSet;

fn acct(n: u8) -> Account {
    let mut bytes = [0u8; 32];
    bytes[31] = n;
    Account::new(bytes)
}

fn sorted(mut v: Vec<Account>) -> Vec<Account> {
    v.sort_by(|x, y| x.bytes.cmp(&y.bytes));
    v
}

fn check_invariant(c: &Ledger, accounts: &[Account]) {
    let stakers = c.staked_addresses();
    for a in accounts {
        assert_eq!(stakers.contains(a), c.staking_position(a) > 0);
    }
}

#[test]
fn stake_twice_then_unstake() {
    let a = acct(1);
    let mut c = Ledger::init();
    assert_eq!(c.stake(&a, 100), Ok(()));
    assert_eq!(c.stake(&a, 50), Ok(()));
    assert_eq!(c.staking_position(&a), 150);
    assert!(c.staked_addresses().contains(&a));
    let t = c.unstake(&a);
    assert_eq!(t, Some(Transfer { to: a, amount: 150 }));
    assert_eq!(c.staking_position(&a), 0);
    assert!(!c.staked_addresses().contains(&a));
}

#[test]
fn two_accounts_then_one_leaves() {
    let a = acct(1);
    let b = acct(2);
    let mut c = Ledger::init();
    assert_eq!(c.stake(&a, 10), Ok(()));
    assert_eq!(c.stake(&b, 10), Ok(()));
    assert_eq!(sorted(c.staked_addresses()), vec![a, b]);
    assert_eq!(c.unstake(&a), Some(Transfer { to: a, amount: 10 }));
    assert_eq!(c.staked_addresses(), vec![b]);
    assert_eq!(c.staking_position(&b), 10);
}

#[test]
fn zero_stake_is_rejected_and_changes_nothing() {
    let a = acct(1);
    let b = acct(2);
    let mut c = Ledger::init();
    assert_eq!(c.stake(&b, 7), Ok(()));
    assert_eq!(c.stake(&a, 0), Err(StakeError::InvalidAmount));
    assert_eq!(c.staking_position(&a), 0);
    assert_eq!(c.staking_position(&b), 7);
    assert_eq!(c.staked_addresses(), vec![b]);
    assert_eq!(c.stake(&b, 0), Err(StakeError::InvalidAmount));
    assert_eq!(c.staking_position(&b), 7);
}

#[test]
fn unstake_with_nothing_staked_is_a_no_op() {
    let a = acct(1);
    let b = acct(2);
    let mut c = Ledger::init();
    assert_eq!(c.unstake(&a), None);
    assert_eq!(c.stake(&b, 3), Ok(()));
    assert_eq!(c.unstake(&a), None);
    assert_eq!(c.staking_position(&a), 0);
    assert_eq!(c.staking_position(&b), 3);
    assert_eq!(c.staked_addresses(), vec![b]);
}

#[test]
fn second_unstake_pays_nothing() {
    let a = acct(4);
    let mut c = Ledger::init();
    assert_eq!(c.stake(&a, 9), Ok(()));
    assert_eq!(c.unstake(&a), Some(Transfer { to: a, amount: 9 }));
    assert_eq!(c.unstake(&a), None);
}

#[test]
fn stakes_add_up() {
    let a = acct(5);
    let mut c = Ledger::init();
    assert_eq!(c.stake(&a, 17), Ok(()));
    assert_eq!(c.stake(&a, 25), Ok(()));
    assert_eq!(c.staking_position(&a), 42);
}

#[test]
fn many_stakes_are_withdrawn_in_full() {
    let a = acct(6);
    let mut c = Ledger::init();
    let payments: [u128; 5] = [1, 2, 3, 1_000_000_000_000_000_000, 5];
    for p in payments {
        assert_eq!(c.stake(&a, p), Ok(()));
    }
    let sum: u128 = payments.iter().sum();
    assert_eq!(c.unstake(&a), Some(Transfer { to: a, amount: sum }));
    assert_eq!(c.staking_position(&a), 0);
    assert!(c.staked_addresses().is_empty());
}

#[test]
fn membership_follows_balance_through_a_history() {
    let accounts = [acct(1), acct(2), acct(3)];
    let mut c = Ledger::init();
    check_invariant(&c, &accounts);
    let _ = c.stake(&accounts[0], 5);
    check_invariant(&c, &accounts);
    let _ = c.stake(&accounts[1], 0);
    check_invariant(&c, &accounts);
    let _ = c.stake(&accounts[1], 8);
    check_invariant(&c, &accounts);
    let _ = c.unstake(&accounts[2]);
    check_invariant(&c, &accounts);
    let _ = c.unstake(&accounts[0]);
    check_invariant(&c, &accounts);
    let _ = c.stake(&accounts[0], 1);
    check_invariant(&c, &accounts);
    assert_eq!(sorted(c.staked_addresses()), vec![accounts[0], accounts[1]]);
}

#[test]
fn overflowing_stake_is_rejected() {
    let a = acct(7);
    let mut c = Ledger::init();
    assert_eq!(c.stake(&a, u128::MAX), Ok(()));
    assert_eq!(c.stake(&a, 1), Err(StakeError::Overflow));
    assert_eq!(c.staking_position(&a), u128::MAX);
    assert_eq!(c.unstake(&a), Some(Transfer { to: a, amount: u128::MAX }));
}

#[test]
fn error_messages() {
    assert_eq!(StakeError::InvalidAmount.message(), "Must pay more than 0");
    assert_eq!(StakeError::Overflow.message(), "Staked amount overflows");
}

#[test]
fn accounts_compare_by_all_bytes() {
    let mut x = [9u8; 32];
    let y = x;
    assert_eq!(Account::new(x), Account::new(y));
    x[0] = 8;
    assert_ne!(Account::new(x), Account::new(y));
    assert_eq!(Account::new(y).to_bytes(), y);
    assert_ne!(Transfer { to: acct(1), amount: 2 }, Transfer { to: acct(1), amount: 3 });
}

#[test]
fn balance_store_add_get_clear() {
    let a = acct(1);
    let b = acct(2);
    let mut s = BalanceStore::new();
    assert_eq!(s.get(&a), 0);
    s.add(&a, 0);
    assert_eq!(s.get(&a), 0);
    s.add(&a, 4);
    s.add(&a, 6);
    s.add(&b, 1);
    assert_eq!(s.get(&a), 10);
    assert_eq!(s.get(&b), 1);
    s.clear(&a);
    assert_eq!(s.get(&a), 0);
    s.clear(&a);
    assert_eq!(s.get(&a), 0);
    assert_eq!(s.get(&b), 1);
}

#[test]
fn staker_set_insert_remove_idempotent() {
    let a = acct(1);
    let b = acct(2);
    let c = acct(3);
    let mut s = StakerSet::new();
    assert!(!s.contains(&a));
    s.insert(&a);
    s.insert(&a);
    s.insert(&b);
    s.insert(&c);
    assert_eq!(s.enumerate().len(), 3);
    s.remove(&a);
    s.remove(&a);
    assert!(!s.contains(&a));
    assert!(s.contains(&b));
    assert_eq!(sorted(s.enumerate()), vec![b, c]);
}
