use sparsha::list_items::{
    realized_range, ListItems, VirtualizedItems, BOTTOM_SPACER_KEY, TOP_SPACER_KEY,
};

type Builder = fn(usize) -> String;

fn row(index: usize) -> String {
    format!("Row {index}")
}

fn spacer(top: bool, items: usize) -> String {
    format!("{} spacer for {items}", if top { "top" } else { "bottom" })
}

#[test]
fn list_runtime_item_operations_work() {
    let mut list: ListItems<String, Builder> = ListItems::empty();
    assert!(list.is_empty());

    list.push_item("A".to_owned());
    list.push_item("B".to_owned());
    assert_eq!(list.len(), 2);

    let removed = list.remove_item(0);
    assert_eq!(removed.as_deref(), Some("A"));
    assert_eq!(list.len(), 1);
    assert!(list.remove_item(5).is_none());

    list.clear();
    assert!(list.is_empty());
}

#[test]
fn list_set_items_replaces_children() {
    let mut list: ListItems<String, Builder> = ListItems::empty();
    list.set_items(vec!["One".to_owned(), "Two".to_owned()]);
    assert_eq!(list.children().len(), 2);

    list.set_items(vec!["Only".to_owned()]);
    assert_eq!(list.children(), &["Only".to_owned()]);
}

#[test]
fn mutating_virtualized_list_materializes_owned_mode() {
    let mut list: ListItems<String, Builder> = ListItems::Virtualized(VirtualizedItems::new(3, row));
    list.push_item("Extra".to_owned());
    assert_eq!(list.len(), 4);
    assert!(matches!(list, ListItems::Owned(_)));
    assert_eq!(list.children()[2], "Row 2");
    assert_eq!(list.children()[3], "Extra");
}

#[test]
fn virtualized_list_realizes_visible_range_with_overscan() {
    let mut state: VirtualizedItems<String, Builder> = VirtualizedItems::new(100, row);
    state.set_overscan(1);
    state.update_realized(2, 5, &spacer);
    assert_eq!(state.realized_range(), (1, 6));
    assert_eq!(state.child_keys(), &[TOP_SPACER_KEY, 1, 2, 3, 4, 5, BOTTOM_SPACER_KEY]);
    assert_eq!(state.children()[0], "top spacer for 1");
    assert_eq!(state.children()[1], "Row 1");
    assert_eq!(state.children()[6], "bottom spacer for 94");
}

#[test]
fn virtualized_list_child_keys_track_logical_indices() {
    let mut state: VirtualizedItems<String, Builder> = VirtualizedItems::new(50, row);
    state.update_realized(1, 3, &spacer);
    let keys = state.child_keys().to_vec();
    assert!(keys.contains(&1));
    assert!(keys.contains(&2));
    assert!(keys.contains(&3));
    assert_eq!(keys[0], 0);
    assert_eq!(state.child_slot_for_key(3), Some(3));
    assert_eq!(state.child_slot_for_key(40), None);
}

#[test]
fn scrolling_reuses_children_that_stay_realized() {
    let built = std::cell::Cell::new(0usize);
    let builder = |index: usize| {
        built.set(built.get() + 1);
        format!("Row {index}")
    };
    let mut state = VirtualizedItems::new(20, builder);
    state.set_overscan(0);
    state.update_realized(0, 4, &spacer);
    assert_eq!(built.get(), 4);
    state.update_realized(2, 6, &spacer);
    assert_eq!(built.get(), 6);
    assert_eq!(state.child_keys(), &[TOP_SPACER_KEY, 2, 3, 4, 5, BOTTOM_SPACER_KEY]);
    assert_eq!(state.children()[1], "Row 2");
}

#[test]
fn realized_range_clamps_to_the_item_count() {
    assert_eq!(realized_range(0, 3, 2, 10), (0, 5));
    assert_eq!(realized_range(8, 12, 2, 10), (6, 10));
    assert_eq!(realized_range(30, 40, 2, 10), (10, 10));
}

#[test]
fn child_path_keys_follow_the_mode() {
    let owned: ListItems<String, Builder> = ListItems::Owned(vec!["a".to_owned()]);
    assert_eq!(owned.child_path_key(4), 4);
    assert_eq!(owned.child_slot_for_path_key(4), Some(4));
    let mut state: VirtualizedItems<String, Builder> = VirtualizedItems::new(10, row);
    state.update_realized(4, 5, &spacer);
    let list = ListItems::Virtualized(state);
    assert_eq!(list.child_path_key(0), TOP_SPACER_KEY);
    assert_eq!(list.child_path_key(1), 2);
    assert_eq!(list.child_path_key(99), 99);
    assert_eq!(list.child_slot_for_path_key(2), Some(1));
    assert_eq!(list.len(), 10);
}
