//! The account store: reads, overwrites and copies.

use yoyo_bet::ids::{derive_authority, AccountId};
use yoyo_bet::ledger::{Account, AccountData, Ledger};

fn id(n: u64) -> AccountId {
    AccountId::new(n, n, n, n)
}

fn wallet(lamports: u64) -> Account {
    Account { owner: id(2), lamports, data: AccountData::Empty { size: 0 } }
}

#[test]
fn missing_account_reads_none() {
    let l = Ledger::new();
    assert!(l.get(&id(7)).is_none());
}

#[test]
fn put_then_get_returns_the_account() {
    let mut l = Ledger::new();
    l.put(id(7), wallet(41));
    let a = l.get(&id(7)).unwrap();
    assert_eq!(a.lamports, 41);
    assert_eq!(a.owner, id(2));
}

#[test]
fn put_overwrites_in_place() {
    let mut l = Ledger::new();
    l.put(id(7), wallet(41));
    l.put(id(8), wallet(42));
    l.put(id(7), wallet(43));
    assert_eq!(l.get(&id(7)).unwrap().lamports, 43);
    assert_eq!(l.get(&id(8)).unwrap().lamports, 42);
}

#[test]
fn duplicate_is_independent() {
    let mut l = Ledger::new();
    l.put(id(7), wallet(41));
    let copy = l.duplicate();
    l.put(id(7), wallet(99));
    assert_eq!(copy.get(&id(7)).unwrap().lamports, 41);
    assert_eq!(l.get(&id(7)).unwrap().lamports, 99);
}

#[test]
fn derived_authority_is_stable_and_distinct() {
    let a = derive_authority(&id(7));
    let b = derive_authority(&id(7));
    assert_eq!(a, b);
    assert_ne!(a, id(7));
    assert_ne!(derive_authority(&id(8)), a);
}
