use rust_bootcamp_part1::borrow_first_char;
use rust_bootcamp_part1::push_exclamation;
use rust_bootcamp_part1::take_ownership;

#[test]
fn take_ownership_counts_characters() {
    assert_eq!(take_ownership(String::from("hello")), 5);
    assert_eq!(take_ownership(String::from("")), 0);
    assert_eq!(take_ownership(String::from("héllo")), 5);
}

#[test]
fn borrow_first_char_of_text() {
    assert_eq!(borrow_first_char("abc"), Some('a'));
    assert_eq!(borrow_first_char("émile"), Some('é'));
}

#[test]
fn borrow_first_char_of_empty() {
    assert_eq!(borrow_first_char(""), None);
}

#[test]
fn push_exclamation_appends() {
    let mut s = String::from("Hi");
    push_exclamation(&mut s);
    assert_eq!(s, "Hi!");
    push_exclamation(&mut s);
    assert_eq!(s, "Hi!!");
}
