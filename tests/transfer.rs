use ownership::transfer::{
    calculate_length, calculate_length_ref, change, clone_then_mutate, copy_then_mutate,
    gives_ownership, mutate_in_place, takes_and_gives_back,
};

#[test]
fn gives_ownership_hands_out_hello() {
    let s = gives_ownership();
    assert_eq!(s, "hello");
}

#[test]
fn takes_and_gives_back_returns_the_same_buffer() {
    let s = String::from("hello");
    let t = takes_and_gives_back(s);
    assert_eq!(t, "hello");
}

#[test]
fn calculate_length_returns_buffer_and_length() {
    let s = String::from("hello");
    let (back, len) = calculate_length(s);
    assert_eq!(back, "hello");
    assert_eq!(len, 5);
}

#[test]
fn calculate_length_counts_bytes() {
    let (back, len) = calculate_length(String::from("h\u{e9}llo"));
    assert_eq!(back, "h\u{e9}llo");
    assert_eq!(len, 6);
}

#[test]
fn calculate_length_of_empty_buffer() {
    let (back, len) = calculate_length(String::new());
    assert_eq!(back, "");
    assert_eq!(len, 0);
}

#[test]
fn calculate_length_ref_leaves_buffer_unchanged() {
    let s = String::from("hello");
    let len = calculate_length_ref(&s);
    assert_eq!(len, 5);
    assert_eq!(s, "hello");
}

#[test]
fn change_appends_through_exclusive_borrow() {
    let mut s = String::from("hello");
    change(&mut s);
    assert_eq!(s, "hello, world");
    change(&mut s);
    assert_eq!(s, "hello, world, world");
}

#[test]
fn mutate_in_place_appends_suffix() {
    let s = mutate_in_place(", world!");
    assert_eq!(s, "hello, world!");
}

#[test]
fn mutate_in_place_with_empty_suffix() {
    assert_eq!(mutate_in_place(""), "hello");
}

#[test]
fn scalar_copy_is_independent() {
    assert_eq!(copy_then_mutate(5, 0, 0), (5, 5));
    assert_eq!(copy_then_mutate(5, 1, 0), (6, 5));
    assert_eq!(copy_then_mutate(5, 0, -7), (5, -2));
    assert_eq!(copy_then_mutate(i32::MAX, -1, 0), (i32::MAX - 1, i32::MAX));
}

#[test]
fn clone_is_equal_in_content() {
    let (a, b) = clone_then_mutate(String::from("hello"), "", "");
    assert_eq!(a, "hello");
    assert_eq!(b, "hello");
}

#[test]
fn mutating_clone_leaves_original() {
    let (a, b) = clone_then_mutate(String::from("hello"), "", ", world");
    assert_eq!(a, "hello");
    assert_eq!(b, "hello, world");
}

#[test]
fn mutating_original_leaves_clone() {
    let (a, b) = clone_then_mutate(String::from("hello"), "!", "?");
    assert_eq!(a, "hello!");
    assert_eq!(b, "hello?");
}
