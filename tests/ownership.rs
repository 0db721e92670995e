use rust_basics::ownership::{
    calculate_length, calculate_length1, first_word, gives_ownership, takes_and_gives_back,
};

#[test]
fn gives_ownership_returns_yours() {
    assert_eq!(gives_ownership(), "yours");
}

#[test]
fn takes_and_gives_back_same_text() {
    assert_eq!(takes_and_gives_back(String::from("hello")), "hello");
}

#[test]
fn calculate_length_returns_text_and_length() {
    let (s, len) = calculate_length(String::from("hello"));
    assert_eq!(s, "hello");
    assert_eq!(len, 5);
}

#[test]
fn calculate_length_counts_bytes() {
    let (s, len) = calculate_length(String::from("héllo"));
    assert_eq!(s, "héllo");
    assert_eq!(len, 6);
}

#[test]
fn calculate_length1_appends_through_borrow() {
    let mut s = String::from("hello");
    let len = calculate_length1(&mut s);
    assert_eq!(s, "hello, world!");
    assert_eq!(len, 13);
}

#[test]
fn first_word_stops_at_space() {
    let s = String::from("hello world");
    assert_eq!(first_word(&s), "hello");
}

#[test]
fn first_word_without_space_is_whole_text() {
    let s = String::from("hello");
    assert_eq!(first_word(&s), "hello");
}

#[test]
fn first_word_of_empty_text() {
    let s = String::new();
    assert_eq!(first_word(&s), "");
}

#[test]
fn first_word_with_leading_space_is_empty() {
    let s = String::from(" hello");
    assert_eq!(first_word(&s), "");
}

#[test]
fn first_word_keeps_non_ascii_letters() {
    let s = String::from("größe über");
    assert_eq!(first_word(&s), "größe");
}
