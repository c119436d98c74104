//! The in-memory store: CRUD, ordering, and `NotFound` behaviour.

use heilo::{Error, LocalStore};

#[test]
fn test_local_store_group_crud() {
    let mut store = LocalStore::new();
    store.create_group("g1", "first");
    store.create_group("g2", "second");

    let groups = store.list_groups();
    assert_eq!(groups.len(), 2);
    assert_eq!(groups[0].id, "g1");
    assert_eq!(groups[0].name, "first");
    assert!(groups[0].is_local);
    assert!(groups[0].api_host.is_none());
    assert_eq!(groups[1].id, "g2");

    let found = store.get_group("g2").unwrap();
    assert_eq!(found.name, "second");
    assert!(store.get_group("missing").is_none());

    store.update_group("g1", "renamed").unwrap();
    assert_eq!(store.get_group("g1").unwrap().name, "renamed");
    assert!(matches!(store.update_group("missing", "x"), Err(Error::NotFound)));

    store.delete_group("g1").unwrap();
    assert!(store.get_group("g1").is_none());
    assert_eq!(store.list_groups().len(), 1);
    assert!(matches!(store.delete_group("g1"), Err(Error::NotFound)));
}

#[test]
fn test_local_store_item_crud() {
    let mut store = LocalStore::new();
    store.create_group("g1", "group");
    store.create_item("g1", "i1", "title one", "describe one", "text one");
    store.create_item("g1", "i2", "title two", "describe two", "text two");
    store.create_item("g9", "i3", "elsewhere", "d", "t");

    let items = store.list_items("g1");
    assert_eq!(items.len(), 2);
    assert_eq!(items[0].id, "i1");
    assert_eq!(items[0].title, "title one");
    assert_eq!(items[1].id, "i2");

    let item = store.get_item("g1", "i2").unwrap();
    assert_eq!(item.describe, "describe two");
    assert!(store.get_item("g1", "i9").is_none());
    assert!(store.get_item("g2", "i1").is_none());

    store.update_item("g1", "i1", "new title", "new describe", "new text").unwrap();
    let updated = store.get_item("g1", "i1").unwrap();
    assert_eq!(updated.title, "new title");
    assert_eq!(updated.describe, "new describe");
    assert_eq!(updated.text, "new text");
    assert_eq!(updated.group_id, "g1");
    assert!(matches!(store.update_item("g1", "i9", "a", "b", "c"), Err(Error::NotFound)));

    store.delete_item("g1", "i1").unwrap();
    assert_eq!(store.list_items("g1").len(), 1);
    assert!(matches!(store.delete_item("g1", "i1"), Err(Error::NotFound)));
}

#[test]
fn test_local_store_list_all_items_keeps_order() {
    let mut store = LocalStore::new();
    store.create_item("g1", "i1", "a", "b", "c");
    store.create_item("g2", "i2", "d", "e", "f");
    let all = store.list_all_items();
    assert_eq!(all.len(), 2);
    assert_eq!(all[0].id, "i1");
    assert_eq!(all[1].id, "i2");
}

#[test]
fn test_local_store_never_encrypts() {
    // A field written through the local path reads back byte for byte.
    let mut store = LocalStore::new();
    store.create_item("g", "i", "plain title", "plain describe", "plain text");
    let item = store.get_item("g", "i").unwrap();
    assert_eq!(item.title, "plain title");
    assert_eq!(item.describe, "plain describe");
    assert_eq!(item.text, "plain text");
}

#[test]
fn test_local_store_duplicate_ids_keep_first() {
    // Creation appends; lookups and updates address the first match.
    let mut store = LocalStore::new();
    store.create_group("g", "first");
    store.create_group("g", "second");
    assert_eq!(store.get_group("g").unwrap().name, "first");
    store.update_group("g", "renamed").unwrap();
    let groups = store.list_groups();
    assert_eq!(groups[0].name, "renamed");
    assert_eq!(groups[1].name, "second");
}
