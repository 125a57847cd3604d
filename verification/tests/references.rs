use tutorials::references::{append, calculate_length, change};

#[test]
fn length_of_hello_is_five() {
    let s1 = String::from("Hello");
    assert_eq!(calculate_length(&s1), 5);
}

#[test]
fn length_of_empty_buffer_is_zero() {
    assert_eq!(calculate_length(&String::new()), 0);
}

#[test]
fn length_counts_characters_not_bytes() {
    let s = String::from("h\u{e9}llo \u{4e16}\u{754c}");
    assert_eq!(s.len(), 13);
    assert_eq!(calculate_length(&s), 8);
}

#[test]
fn length_leaves_the_buffer_as_it_was() {
    let s = String::from("Hello again");
    let first = calculate_length(&s);
    let second = calculate_length(&s);
    assert_eq!(first, 11);
    assert_eq!(first, second);
    assert_eq!(s, "Hello again");
}

#[test]
fn several_readers_at_once_agree() {
    let s = String::from("shared");
    let a = &s;
    let b = &s;
    assert_eq!(calculate_length(a), calculate_length(b));
    assert_eq!(calculate_length(a), 6);
}

#[test]
fn change_appends_its_fixed_text() {
    let mut s2 = String::from("Hello again");
    change(&mut s2);
    assert_eq!(s2, "Hello again, mjao");
}

#[test]
fn change_on_empty_buffer_gives_the_fixed_text() {
    let mut s = String::new();
    change(&mut s);
    assert_eq!(s, ", mjao");
    assert_eq!(calculate_length(&s), 6);
}

#[test]
fn change_twice_appends_twice() {
    let mut s = String::from("x");
    change(&mut s);
    change(&mut s);
    assert_eq!(s, "x, mjao, mjao");
}

#[test]
fn append_puts_suffix_at_the_end() {
    let mut s = String::from("Hello");
    append(&mut s, " world");
    assert_eq!(s, "Hello world");
}

#[test]
fn append_of_nothing_changes_nothing() {
    let mut s = String::from("Hello");
    append(&mut s, "");
    assert_eq!(s, "Hello");
    assert_eq!(calculate_length(&s), 5);
}

#[test]
fn append_grows_length_by_suffix_characters() {
    let mut s = String::from("Hello");
    let before = calculate_length(&s);
    let suffix = ", \u{4e16}\u{754c}!";
    append(&mut s, suffix);
    assert_eq!(calculate_length(&s), before + suffix.chars().count());
    assert_eq!(calculate_length(&s), 10);
}

#[test]
fn append_keeps_the_order_of_calls() {
    let mut b = String::from("buffer:");
    append(&mut b, "a");
    append(&mut b, "b");
    assert!(b.ends_with("ab"));
    assert!(!b.ends_with("ba"));
    assert_eq!(b, "buffer:ab");
}

#[test]
fn append_in_the_other_order_differs() {
    let mut one = String::from("x");
    append(&mut one, "a");
    append(&mut one, "b");
    let mut other = String::from("x");
    append(&mut other, "b");
    append(&mut other, "a");
    assert_eq!(one, "xab");
    assert_eq!(other, "xba");
    assert_ne!(one, other);
}

#[test]
fn two_appends_equal_one_append_of_both() {
    let mut twice = String::from("x");
    append(&mut twice, "ab");
    append(&mut twice, "cd");
    let mut once = String::from("x");
    append(&mut once, "abcd");
    assert_eq!(twice, once);
}
