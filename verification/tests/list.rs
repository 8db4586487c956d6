use cons_list::list::List;

#[test]
fn empty_len_is_zero() {
    let l = List::new();
    assert_eq!(l.len(), 0);
}

#[test]
fn stringify_empty_is_nil() {
    let l = List::new();
    assert_eq!(l.stringify(), "Nil");
}

#[test]
fn prepend_three_len_and_rendering() {
    let mut list = List::new();
    list = list.prepend(1);
    list = list.prepend(2);
    list = list.prepend(3);
    assert_eq!(list.len(), 3);
    assert_eq!(list.stringify(), "3, 2, 1, Nil");
}

#[test]
fn len_counts_prepends() {
    let mut list = List::new();
    let mut i: u32 = 0;
    while i < 10 {
        list = list.prepend(i);
        i += 1;
    }
    assert_eq!(list.len(), 10);
}

#[test]
fn borrowing_queries_leave_list_unchanged() {
    let mut list = List::new();
    list = list.prepend(7);
    list = list.prepend(40);
    assert_eq!(list.len(), list.len());
    assert_eq!(list.stringify(), list.stringify());
    assert_eq!(list.len(), 2);
    assert_eq!(list.stringify(), "40, 7, Nil");
}

#[test]
fn multi_digit_and_extreme_values_render_exactly() {
    let mut list = List::new();
    list = list.prepend(0);
    list = list.prepend(u32::MAX);
    assert_eq!(list.stringify(), "4294967295, 0, Nil");
    assert_eq!(list.len(), 2);
}

#[test]
fn single_element_rendering() {
    let list = List::new().prepend(100);
    assert_eq!(list.stringify(), "100, Nil");
}
