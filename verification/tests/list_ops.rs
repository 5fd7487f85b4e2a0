use cons_list::list::List;

#[test]
fn new_list_is_empty() {
    let list = List::new();
    assert_eq!(list.len(), 0);
}

#[test]
fn prepend_in_reverse_restores_count() {
    // Prepending v3, v2, v1 in reverse order onto the empty list gives a
    // list of exactly three elements.
    let list = List::new().prepend(3).prepend(2).prepend(1);
    assert_eq!(list.len(), 3);
}

#[test]
fn append_increments_len() {
    let list = List::new();
    assert_eq!(list.len(), 0);
    let list = list.append(10);
    assert_eq!(list.len(), 1);
    let list = list.append(20);
    assert_eq!(list.len(), 2);
    let list = list.prepend(5).append(30);
    assert_eq!(list.len(), 4);
}

#[test]
fn append_and_prepend_agree_on_order() {
    // Appending 1 then 2 to an empty list orders the elements the same way
    // as prepending 2 then 1: both give [1, 2].
    let appended = List::new().append(1).append(2);
    let prepended = List::new().prepend(2).prepend(1);
    assert_eq!(appended.render(), prepended.render());
    assert_eq!(appended.render(), "1, 2, Nil");
}

#[test]
fn prepend_demo_scenario() {
    let mut list = List::new();
    list = list.prepend(1);
    list = list.prepend(2);
    list = list.prepend(3);
    assert_eq!(list.len(), 3);
    assert_eq!(list.render(), "3, 2, 1, Nil");
}

#[test]
fn append_demo_scenario() {
    let mut list = List::new();
    list = list.append(1);
    list = list.append(2);
    list = list.append(3);
    assert_eq!(list.len(), 3);
    assert_eq!(list.render(), "1, 2, 3, Nil");
}
