use erc721::account::AccountId;
use erc721::tables::{BalanceTable, OperatorSet};

fn id(tag: u8) -> AccountId {
    AccountId([tag; 32])
}

#[test]
fn balance_table_keeps_the_last_count() {
    let mut table = BalanceTable::new();
    assert_eq!(table.get(&id(1)), None);
    table.insert(id(1), 3);
    table.insert(id(2), 0);
    assert_eq!(table.get(&id(1)), Some(3));
    assert_eq!(table.get(&id(2)), Some(0));
    assert_eq!(table.get(&id(3)), None);
    table.insert(id(1), 4);
    assert_eq!(table.get(&id(1)), Some(4));
    assert_eq!(table.get(&id(2)), Some(0));
    table.insert(id(2), u32::MAX);
    assert_eq!(table.get(&id(2)), Some(u32::MAX));
    assert_eq!(table.get(&id(1)), Some(4));
}

#[test]
fn operator_set_inserts_and_removes_pairs() {
    let mut set = OperatorSet::new();
    assert!(!set.contains(&id(1), &id(2)));
    set.insert(id(1), id(2));
    set.insert(id(1), id(3));
    set.insert(id(2), id(1));
    assert!(set.contains(&id(1), &id(2)));
    assert!(set.contains(&id(1), &id(3)));
    assert!(set.contains(&id(2), &id(1)));
    assert!(!set.contains(&id(3), &id(1)));
    set.insert(id(1), id(2));
    set.remove(id(1), id(2));
    assert!(!set.contains(&id(1), &id(2)));
    assert!(set.contains(&id(1), &id(3)));
    assert!(set.contains(&id(2), &id(1)));
    set.remove(id(1), id(2));
    set.remove(id(3), id(3));
    assert!(set.contains(&id(1), &id(3)));
    set.remove(id(2), id(1));
    set.remove(id(1), id(3));
    assert!(!set.contains(&id(1), &id(3)));
    assert!(!set.contains(&id(2), &id(1)));
}
