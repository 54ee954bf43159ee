use webkit::back_forward_list::{BackForwardList, BackForwardListItem};

fn item(relative_index: isize, url: &str) -> BackForwardListItem {
    BackForwardListItem {
        relative_index,
        url: url.to_owned(),
        title: None,
        initial_url: url.to_owned(),
    }
}

#[test]
fn list_lookups_find_the_first_item_at_an_index() {
    let list = BackForwardList::from_items(vec![
        item(-2, "a"),
        item(-1, "b"),
        item(0, "c"),
        item(1, "d"),
        item(1, "e"),
    ]);
    assert_eq!(list.items().len(), 5);
    assert_eq!(list.current_item().map(|i| i.url.as_str()), Some("c"));
    assert_eq!(list.back_item().map(|i| i.url.as_str()), Some("b"));
    assert_eq!(list.forward_item().map(|i| i.url.as_str()), Some("d"));
    assert_eq!(list.item_at_index(-2).map(|i| i.url.as_str()), Some("a"));
    assert!(list.item_at_index(3).is_none());
}

#[test]
fn back_and_forward_lists_partition_the_history() {
    let list = BackForwardList::from_items(vec![
        item(1, "d"),
        item(-2, "a"),
        item(0, "c"),
        item(-1, "b"),
        item(2, "e"),
    ]);
    let back: Vec<&str> = list.back_list().iter().map(|i| i.url.as_str()).collect();
    let forward: Vec<&str> = list.forward_list().iter().map(|i| i.url.as_str()).collect();
    assert_eq!(back, vec!["a", "b"]);
    assert_eq!(forward, vec!["d", "e"]);
    assert_eq!(back.len() + forward.len() + 1, list.items().len());
}

#[test]
fn empty_list_has_no_items() {
    let list = BackForwardList::from_items(Vec::new());
    assert!(list.current_item().is_none());
    assert!(list.back_item().is_none());
    assert!(list.forward_item().is_none());
    assert!(list.back_list().is_empty());
    assert!(list.forward_list().is_empty());
}

#[test]
fn default_history_is_empty() {
    let list = BackForwardList::default();
    assert!(list.items().is_empty());
    assert!(list.current_item().is_none());
    assert!(list.back_list().is_empty());
    assert!(list.forward_list().is_empty());
}
