use dank_bytes::drugs::Drug;
use dank_bytes::inventory::{Amount, Cost, Inventory, InventoryError};

#[test]
fn new_ledger_is_empty() {
    let inv = Inventory::new();
    assert_eq!(inv.get_amount(Drug::Weed), None);
    assert_eq!(inv.get_cost(Drug::Weed), None);
    assert!(!inv.has_items());
    let inv = Inventory::default();
    assert!(!inv.has_items());
}

#[test]
fn add_accumulates_and_overwrites_cost() {
    let mut inv = Inventory::new();
    inv.add(Drug::Meth, 5, 100);
    inv.add(Drug::Meth, 3, 90);
    assert_eq!(inv.get_amount(Drug::Meth), Some(8));
    assert_eq!(inv.get_cost(Drug::Meth), Some(90));
    assert!(inv.has_items());
}

#[test]
fn add_of_zero_does_nothing() {
    let mut inv = Inventory::new();
    inv.add(Drug::Lsd, 0, 50);
    assert_eq!(inv.get_amount(Drug::Lsd), None);
    inv.add(Drug::Lsd, 2, 50);
    inv.add(Drug::Lsd, 0, 70);
    assert_eq!(inv.get_cost(Drug::Lsd), Some(50));
}

#[test]
fn remove_within_holding() {
    let mut inv = Inventory::new();
    inv.add(Drug::Cocaine, 10, 60);
    assert_eq!(inv.remove(Drug::Cocaine, 4), Ok(()));
    assert_eq!(inv.get_amount(Drug::Cocaine), Some(6));
    assert_eq!(inv.remove(Drug::Cocaine, 6), Ok(()));
    assert_eq!(inv.get_amount(Drug::Cocaine), Some(0));
    assert_eq!(inv.get_cost(Drug::Cocaine), Some(60));
    assert!(!inv.has_items());
}

#[test]
fn remove_beyond_holding_fails_and_keeps_state() {
    let mut inv = Inventory::new();
    inv.add(Drug::Heroin, 3, 120);
    assert_eq!(inv.remove(Drug::Heroin, 4), Err(InventoryError::InsufficientAmount));
    assert_eq!(inv.get_amount(Drug::Heroin), Some(3));
    assert_eq!(inv.get_cost(Drug::Heroin), Some(120));
}

#[test]
fn remove_without_entry_fails() {
    let mut inv = Inventory::new();
    assert_eq!(inv.remove(Drug::Ecstasy, 1), Err(InventoryError::DrugNotFound));
    assert_eq!(inv.get_amount(Drug::Ecstasy), None);
}

#[test]
fn reset_cost_keeps_quantity() {
    let mut inv = Inventory::new();
    inv.add(Drug::Shrooms, 2, 45);
    inv.reset_cost(Drug::Shrooms);
    assert_eq!(inv.get_amount(Drug::Shrooms), Some(2));
    assert_eq!(inv.get_cost(Drug::Shrooms), Some(0));
    inv.reset_cost(Drug::Weed);
    assert_eq!(inv.get_cost(Drug::Weed), None);
}

#[test]
fn amount_and_cost_wrappers() {
    let mut a = Amount::new(5);
    a.add(3);
    assert_eq!(a.get(), 8);
    assert!(!a.sub(9));
    assert_eq!(a.get(), 8);
    assert!(a.sub(8));
    assert_eq!(a.get(), 0);
    assert_eq!(Cost::new(77).get(), 77);
}
