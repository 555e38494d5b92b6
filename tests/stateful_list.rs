use issue_tracker::stateful_list::StatefulList;

#[test]
fn with_items_starts_on_first_item() {
    let list = StatefulList::with_items(vec![10, 20, 30]);
    assert_eq!(list.selected(), Some(0));
    assert_eq!(list.selected_value(), Some(&10));
}

#[test]
fn with_items_on_empty_has_no_cursor() {
    let list: StatefulList<u32> = StatefulList::with_items(vec![]);
    assert_eq!(list.selected(), None);
    assert_eq!(list.selected_value(), None);
}

#[test]
fn next_stops_at_last_item() {
    let mut list = StatefulList::with_items(vec!['a', 'b', 'c']);
    list.next();
    assert_eq!(list.selected(), Some(1));
    list.next();
    assert_eq!(list.selected(), Some(2));
    list.next();
    assert_eq!(list.selected(), Some(2));
    assert_eq!(list.selected_value(), Some(&'c'));
}

#[test]
fn previous_stops_at_first_item() {
    let mut list = StatefulList::with_items(vec!['a', 'b', 'c']);
    list.next();
    list.previous();
    assert_eq!(list.selected(), Some(0));
    list.previous();
    assert_eq!(list.selected(), Some(0));
}

#[test]
fn moves_on_empty_list_do_nothing() {
    let mut list: StatefulList<u8> = StatefulList::with_items(vec![]);
    list.next();
    list.previous();
    assert_eq!(list.selected(), None);
    assert!(list.items().is_empty());
}

#[test]
fn single_item_list_keeps_cursor_on_it() {
    let mut list = StatefulList::with_items(vec![5u8]);
    list.next();
    assert_eq!(list.selected(), Some(0));
    list.previous();
    assert_eq!(list.selected(), Some(0));
}

#[test]
fn prepend_keeps_cursor_index() {
    let mut list = StatefulList::with_items(vec![1, 2]);
    list.next();
    list.prepend(0);
    assert_eq!(list.items(), &vec![0, 1, 2]);
    assert_eq!(list.selected(), Some(1));
    assert_eq!(list.selected_value(), Some(&1));
}

#[test]
fn prepend_on_empty_list_selects_new_item() {
    let mut list = StatefulList::with_items(vec![]);
    list.prepend(7);
    assert_eq!(list.selected(), Some(0));
    assert_eq!(list.selected_value(), Some(&7));
}
