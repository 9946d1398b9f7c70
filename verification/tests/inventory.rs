use std::collections::HashSet;

use nft_registry::address::Address;
use nft_registry::contract::{prune_auth_lists, retain_absent};
use nft_registry::error::ContractError;
use nft_registry::inventory::{Inventory, InventoryIter};
use nft_registry::address::Grantee;
use nft_registry::approval::{list_token, unlist_token};
use nft_registry::state::{Entry, Ledger};
use nft_registry::table::{Key, Table, Value};
use nft_registry::token::{AuthList, PermissionType};

fn addr(s: &str) -> Address {
    Address::new(s.as_bytes().to_vec())
}

fn contents(inv: &Inventory) -> Vec<u32> {
    (0..inv.count()).map(|i| inv.at(i)).collect()
}

fn drain(it: &mut InventoryIter) -> Vec<u32> {
    let mut out = vec![];
    while let Some(idx) = it.next() {
        out.push(idx);
    }
    out
}

#[test]
fn inventory_insert_is_idempotent() {
    let mut inv = Inventory::new(addr("alice"));
    assert_eq!(inv.count(), 0);
    inv.insert(5);
    inv.insert(3);
    inv.insert(5);
    assert_eq!(contents(&inv), vec![5, 3]);
    assert_eq!(inv.count(), 2);
    assert!(inv.contains(3));
    assert!(!inv.contains(4));
    assert_eq!(inv.find(3), Some(1));
    assert_eq!(inv.find(4), None);
    assert_eq!(inv.owner().bytes, b"alice".to_vec());
}

#[test]
fn inventory_remove_is_idempotent_and_keeps_order() {
    let mut inv = Inventory::new(addr("alice"));
    for i in [1, 2, 3, 4] {
        inv.insert(i);
    }
    inv.remove(2);
    assert_eq!(contents(&inv), vec![1, 3, 4]);
    inv.remove(2);
    inv.remove(9);
    assert_eq!(contents(&inv), vec![1, 3, 4]);
    inv.remove(1);
    inv.remove(4);
    inv.remove(3);
    assert_eq!(inv.count(), 0);
    inv.insert(2);
    assert_eq!(contents(&inv), vec![2]);
}

#[test]
fn inventory_copy_is_independent() {
    let mut inv = Inventory::new(addr("alice"));
    inv.insert(1);
    let mut copy = inv.copy();
    copy.insert(2);
    assert_eq!(contents(&inv), vec![1]);
    assert_eq!(contents(&copy), vec![1, 2]);
}

#[test]
fn inventory_is_loaded_from_and_saved_to_the_ledger() {
    let mut ledger = Ledger::new();
    let mut inv = Inventory::new_or_load(&ledger, &addr("alice"));
    assert_eq!(inv.count(), 0);
    assert_eq!(inv.owner().bytes, b"alice".to_vec());
    inv.insert(4);
    assert!(ledger.inventories.get(&addr("alice")).is_none());
    inv.save(&mut ledger);
    inv.insert(5);
    assert_eq!(contents(&Inventory::new_or_load(&ledger, &addr("alice"))), vec![4]);
    inv.save(&mut ledger);
    assert_eq!(contents(&Inventory::new_or_load(&ledger, &addr("alice"))), vec![4, 5]);
    assert_eq!(ledger.inventories.len(), 1);
    assert_eq!(Inventory::new_or_load(&ledger, &addr("bob")).count(), 0);
}

#[test]
fn cursor_walks_the_inventory_in_order() {
    let mut inv = Inventory::new(addr("alice"));
    for i in [7, 1, 9] {
        inv.insert(i);
    }
    let mut it = InventoryIter::new(&inv);
    assert_eq!(it.next(), Some(7));
    assert_eq!(it.next(), Some(1));
    assert_eq!(it.next(), Some(9));
    assert_eq!(it.next(), None);
    assert_eq!(it.next(), None);
    let empty = Inventory::new(addr("bob"));
    assert_eq!(InventoryIter::new(&empty).next(), None);
}

#[test]
fn cursor_resumes_after_a_member() {
    let mut inv = Inventory::new(addr("alice"));
    for i in [7, 1, 9, 4] {
        inv.insert(i);
    }
    let mut it = InventoryIter::start_after(&inv, 1, ContractError::AdminRequired).unwrap();
    assert_eq!(drain(&mut it), vec![9, 4]);
    let mut it = InventoryIter::start_after(&inv, 7, ContractError::AdminRequired).unwrap();
    assert_eq!(drain(&mut it), vec![1, 9, 4]);
    let mut it = InventoryIter::start_after(&inv, 4, ContractError::AdminRequired).unwrap();
    assert_eq!(drain(&mut it), Vec::<u32>::new());
}

#[test]
fn cursor_fails_where_resume_point_is_no_member() {
    let mut inv = Inventory::new(addr("alice"));
    inv.insert(7);
    let err = InventoryIter::start_after(&inv, 8, ContractError::NotInInventory { token_id: "x".to_string() })
        .unwrap_err();
    match &err {
        ContractError::NotInInventory { token_id } => assert_eq!(token_id, "x"),
        other => panic!("unexpected: {:?}", other),
    }
    assert_eq!(err.message(""), "Token ID: x is not in the specified inventory");
}

#[test]
fn table_put_replaces_in_place_and_appends_new_keys() {
    let mut table: Table<Entry<String, u32>> = Table::new();
    table.put(Entry { key: "a".to_string(), value: 1 });
    table.put(Entry { key: "b".to_string(), value: 2 });
    table.put(Entry { key: "a".to_string(), value: 3 });
    assert_eq!(table.len(), 2);
    assert_eq!(table.entry(0).key, "a");
    assert_eq!(table.entry(0).value, 3);
    assert_eq!(table.entry(1).value, 2);
    assert_eq!(table.position(&"b".to_string()), Some(1));
    assert_eq!(table.position(&"c".to_string()), None);
    assert!(table.contains(&"a".to_string()));
    assert!(table.get(&"c".to_string()).is_none());
    assert_eq!(table.get(&"b".to_string()).unwrap().value, 2);
}

#[test]
fn table_remove_keeps_the_order_of_the_rest() {
    let mut table: Table<Entry<u32, bool>> = Table::new();
    for k in [4, 5, 6] {
        table.put(Entry { key: k, value: k % 2 == 0 });
    }
    let gone = table.remove(&5).unwrap();
    assert_eq!(gone.key, 5);
    assert!(!gone.value);
    assert!(table.remove(&5).is_none());
    assert_eq!(table.len(), 2);
    assert_eq!(table.entry(0).key, 4);
    assert_eq!(table.entry(1).key, 6);
    let copy = table.copy();
    table.remove(&4);
    assert_eq!(copy.len(), 2);
    assert_eq!(table.len(), 1);
}

#[test]
fn keys_compare_by_content() {
    assert!(addr("x").same(&addr("x")));
    assert!(!addr("x").same(&addr("y")));
    assert!(!addr("x").same(&addr("xx")));
    assert!(Grantee::Public.same(&Grantee::Public));
    assert!(!Grantee::Public.same(&Grantee::Address(addr("public"))));
    assert!(Grantee::Address(addr("a")).same(&Grantee::Address(addr("a"))));
    assert!(5u32.same(&5));
    assert!(!5u64.same(&6));
    assert!("id".to_string().same(&"id".to_string()));
    assert_eq!(addr("abc").as_slice(), b"abc");
    assert_eq!(addr("abc").copy().bytes, b"abc".to_vec());
}

#[test]
fn retain_absent_drops_the_listed_indices() {
    let mut remove: HashSet<u32> = HashSet::new();
    remove.insert(2);
    remove.insert(4);
    assert_eq!(retain_absent(&vec![1, 2, 3, 4, 5, 2], &remove), vec![1, 3, 5]);
    assert_eq!(retain_absent(&vec![], &remove), Vec::<u32>::new());
    assert_eq!(retain_absent(&vec![2, 4], &remove), Vec::<u32>::new());
    let nothing: HashSet<u32> = HashSet::new();
    assert_eq!(retain_absent(&vec![2, 4], &nothing), vec![2, 4]);
}

#[test]
fn pruning_drops_tokens_of_every_permission_type_and_blank_lists() {
    let mut lists: Table<AuthList> = Table::new();
    lists.put(AuthList { address: Grantee::Address(addr("bob")), tokens: [vec![1, 2], vec![2], vec![2, 3]] });
    lists.put(AuthList { address: Grantee::Public, tokens: [vec![], vec![], vec![2]] });
    lists.put(AuthList { address: Grantee::Address(addr("carol")), tokens: [vec![5], vec![], vec![]] });
    let mut remove: HashSet<u32> = HashSet::new();
    remove.insert(2);
    let pruned = prune_auth_lists(&lists, &remove);
    assert_eq!(pruned.len(), 2);
    assert_eq!(pruned.entry(0).tokens, [vec![1], vec![], vec![3]]);
    assert!(matches!(pruned.entry(0).address, Grantee::Address(_)));
    assert_eq!(pruned.entry(1).tokens, [vec![5], vec![], vec![]]);
    // the list that was pruned is untouched
    assert_eq!(lists.len(), 3);
}

#[test]
fn listing_and_unlisting_tokens_of_a_grantee() {
    let mut lists: Table<AuthList> = Table::new();
    let bob = Grantee::Address(addr("bob"));
    list_token(&mut lists, bob.copy(), PermissionType::ViewMetadata, 4);
    list_token(&mut lists, bob.copy(), PermissionType::ViewMetadata, 4);
    list_token(&mut lists, bob.copy(), PermissionType::Transfer, 6);
    assert_eq!(lists.len(), 1);
    assert_eq!(lists.entry(0).tokens, [vec![], vec![4], vec![6]]);
    unlist_token(&mut lists, &bob, PermissionType::ViewMetadata, 9);
    unlist_token(&mut lists, &bob, PermissionType::ViewMetadata, 4);
    assert_eq!(lists.entry(0).tokens, [vec![], vec![], vec![6]]);
    unlist_token(&mut lists, &Grantee::Public, PermissionType::Transfer, 6);
    assert_eq!(lists.len(), 1);
    unlist_token(&mut lists, &bob, PermissionType::Transfer, 6);
    assert_eq!(lists.len(), 0);
}
