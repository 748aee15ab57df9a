use rust_bootcamp_part1::even_squares;
use rust_bootcamp_part1::flip;
use rust_bootcamp_part1::greet;
use rust_bootcamp_part1::sum;

#[test]
fn greet_builds_the_greeting() {
    assert_eq!(greet("World"), "Hello, World!");
    assert_eq!(greet(""), "Hello, !");
}

#[test]
fn sum_adds_all_entries() {
    assert_eq!(sum(&[1, 2, 3, -2]), 4);
    assert_eq!(sum(&[42]), 42);
}

#[test]
fn sum_of_nothing_is_zero() {
    assert_eq!(sum(&[]), 0);
}

#[test]
fn flip_negates() {
    assert!(flip(false));
    assert!(!flip(true));
}

#[test]
fn even_squares_lists_squares_of_evens() {
    assert_eq!(even_squares(10), vec![0, 4, 16, 36, 64, 100]);
    assert_eq!(even_squares(11), vec![0, 4, 16, 36, 64, 100]);
}

#[test]
fn even_squares_of_zero() {
    assert_eq!(even_squares(0), vec![0]);
}
