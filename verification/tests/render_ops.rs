use cons_list::list::List;
use cons_list::render::u32_decimal;

#[test]
fn render_empty_is_sentinel_alone() {
    assert_eq!(List::new().render(), "Nil");
}

#[test]
fn render_after_prepends() {
    // Prepending 1 after 2 puts 1 first.
    let list = List::new().prepend(2).prepend(1);
    assert_eq!(list.render(), "1, 2, Nil");
}

#[test]
fn render_after_appends() {
    let list = List::new().append(1).append(2);
    assert_eq!(list.render(), "1, 2, Nil");
}

#[test]
fn render_single_element() {
    assert_eq!(List::new().prepend(7).render(), "7, Nil");
}

#[test]
fn render_largest_value() {
    let list = List::new().append(u32::MAX);
    assert_eq!(list.render(), "4294967295, Nil");
}

#[test]
fn decimal_single_digits() {
    assert_eq!(u32_decimal(0), "0");
    assert_eq!(u32_decimal(7), "7");
    assert_eq!(u32_decimal(9), "9");
}

#[test]
fn decimal_multiple_digits() {
    assert_eq!(u32_decimal(10), "10");
    assert_eq!(u32_decimal(42), "42");
    assert_eq!(u32_decimal(100), "100");
    assert_eq!(u32_decimal(1_000_000), "1000000");
    assert_eq!(u32_decimal(u32::MAX), "4294967295");
}
