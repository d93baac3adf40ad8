//! Tests for the input-line editing helpers.

use claude_terminal::input_utils::{
    delete_to_end, delete_to_start, delete_word_backward, find_word_boundary_backward,
    find_word_boundary_forward,
};
use claude_terminal::strutil::{i32_to_string, split_first_space, str_eq, trim_str, u64_to_string};

#[test]
fn test_word_boundary_backward_simple() {
    let input = "hello world";
    assert_eq!(find_word_boundary_backward(input, 11), 6); // End -> start of "world"
    assert_eq!(find_word_boundary_backward(input, 6), 0); // Start of "world" -> start
    assert_eq!(find_word_boundary_backward(input, 5), 0); // Space -> start
}

#[test]
fn test_word_boundary_backward_multiple_spaces() {
    let input = "hello   world";
    assert_eq!(find_word_boundary_backward(input, 13), 8); // End -> start of "world"
    assert_eq!(find_word_boundary_backward(input, 8), 0); // Start of "world" -> start
}

#[test]
fn test_word_boundary_backward_at_start() {
    let input = "hello";
    assert_eq!(find_word_boundary_backward(input, 0), 0);
}

#[test]
fn test_word_boundary_forward_simple() {
    let input = "hello world";
    assert_eq!(find_word_boundary_forward(input, 0), 6); // Start -> after "hello "
    assert_eq!(find_word_boundary_forward(input, 6), 11); // Start of "world" -> end
}

#[test]
fn test_word_boundary_forward_at_end() {
    let input = "hello";
    assert_eq!(find_word_boundary_forward(input, 5), 5);
}

#[test]
fn test_delete_word_backward() {
    let (new_input, new_pos) = delete_word_backward("hello world", 11);
    assert_eq!(new_input, "hello ");
    assert_eq!(new_pos, 6);
}

#[test]
fn test_delete_word_backward_multiple() {
    let (s1, p1) = delete_word_backward("one two three", 13);
    assert_eq!(s1, "one two ");
    assert_eq!(p1, 8);

    let (s2, p2) = delete_word_backward(&s1, p1);
    assert_eq!(s2, "one ");
    assert_eq!(p2, 4);
}

#[test]
fn test_delete_to_end() {
    assert_eq!(delete_to_end("hello world", 6), "hello ");
    assert_eq!(delete_to_end("hello world", 0), "");
    assert_eq!(delete_to_end("hello world", 11), "hello world");
}

#[test]
fn test_delete_to_start() {
    assert_eq!(delete_to_start("hello world", 6), "world");
    assert_eq!(delete_to_start("hello world", 0), "hello world");
    assert_eq!(delete_to_start("hello world", 11), "");
}

#[test]
fn test_empty_input() {
    assert_eq!(find_word_boundary_backward("", 0), 0);
    assert_eq!(find_word_boundary_forward("", 0), 0);
    let (s, p) = delete_word_backward("", 0);
    assert_eq!(s, "");
    assert_eq!(p, 0);
}

#[test]
fn test_single_word() {
    let input = "hello";
    assert_eq!(find_word_boundary_backward(input, 3), 0);
    assert_eq!(find_word_boundary_forward(input, 3), 5);
}

#[test]
fn test_with_special_chars() {
    let input = "hello-world test";
    // hyphen is not whitespace, so treated as part of word
    assert_eq!(find_word_boundary_backward(input, 11), 0); // "hello-world" is one word
    assert_eq!(find_word_boundary_forward(input, 0), 12);
}

#[test]
fn test_string_helpers() {
    assert_eq!(u64_to_string(0), "0");
    assert_eq!(u64_to_string(1234567), "1234567");
    assert_eq!(i32_to_string(-42), "-42");
    assert_eq!(i32_to_string(0), "0");
    assert_eq!(trim_str("  padded \n"), "padded");
    assert_eq!(trim_str("   "), "");
    assert!(str_eq("same", "same"));
    assert!(!str_eq("same", "sane"));
    let (head, tail) = split_first_space("cmd rest of line");
    assert_eq!(head, "cmd");
    assert_eq!(tail, "rest of line");
    let (head2, tail2) = split_first_space("lonely");
    assert_eq!(head2, "lonely");
    assert_eq!(tail2, "");
}
