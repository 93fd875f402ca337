use basics::ownership::{
    create_dangling, double_borrow, iterator_invalidation, lifetime_mismatch, loop_borrow,
    match_borrow, mixed_borrow, move_from_borrow, mutable_aliasing, return_local_ref,
    use_after_move, Container,
};

#[test]
fn double_borrow_adds_the_second_into_the_first() {
    assert_eq!(double_borrow(), vec![3, 2, 3]);
}

#[test]
fn mixed_borrow_keeps_the_first_and_appends() {
    let (first, items) = mixed_borrow();
    assert_eq!(first, 1);
    assert_eq!(items, vec![1, 2, 3, 4, 5, 6]);
}

#[test]
fn use_after_move_hands_the_text_on() {
    assert_eq!(use_after_move(), "hello");
}

#[test]
fn return_local_ref_gives_the_text() {
    assert_eq!(return_local_ref(), "hello");
}

#[test]
fn iterator_invalidation_appends_once() {
    assert_eq!(iterator_invalidation(), vec![1, 2, 3, 4, 5, 6]);
}

#[test]
fn create_dangling_holds_the_text() {
    let c: Container<'static> = create_dangling();
    assert_eq!(c.data, "temporary");
}

#[test]
fn loop_borrow_sums_and_doubles() {
    let (sum, data) = loop_borrow();
    assert_eq!(sum, 6);
    assert_eq!(data, vec![1, 2, 3, 1, 2, 3]);
}

#[test]
fn match_borrow_empties_the_option() {
    let (left, taken) = match_borrow();
    assert_eq!(left, None);
    assert_eq!(taken, Some(String::from("hello")));
}

#[test]
fn move_from_borrow_copies_the_element() {
    assert_eq!(move_from_borrow(), "hello");
}

#[test]
fn lifetime_mismatch_picks_the_longer() {
    assert_eq!(lifetime_mismatch("longer", "short"), "longer");
    assert_eq!(lifetime_mismatch("short", "longer"), "longer");
    assert_eq!(lifetime_mismatch("", "x"), "x");
    assert_eq!(lifetime_mismatch("x", ""), "x");
}

#[test]
fn lifetime_mismatch_picks_the_second_on_a_tie() {
    assert_eq!(lifetime_mismatch("abc", "xyz"), "xyz");
    assert_eq!(lifetime_mismatch("", ""), "");
}

#[test]
fn lifetime_mismatch_counts_bytes() {
    assert_eq!(lifetime_mismatch("\u{e9}\u{e9}", "abc"), "\u{e9}\u{e9}");
    assert_eq!(lifetime_mismatch("\u{e9}", "ab"), "ab");
}

#[test]
fn mutable_aliasing_adds_one_twice() {
    assert_eq!(mutable_aliasing(), 7);
}
