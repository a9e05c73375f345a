use minitask::text::{
    append_world, calculate_length, categorize_character, clean_word, count_characters,
    count_lines, count_sentences, count_words, create_string, first_word, gives_ownership,
    length_borrowing, length_taking_ownership, longest, modify_text, process_text_owned,
    reverse_string, takes_and_gives_back, to_title_case, CharCategory,
};

#[test]
fn test_string_utils() {
    assert_eq!(reverse_string("hello"), "olleh");
    assert_eq!(count_words("hello world"), 2);
}

#[test]
fn test_reverse_string_edges() {
    assert_eq!(reverse_string(""), "");
    assert_eq!(reverse_string("a"), "a");
    assert_eq!(reverse_string("ab cd"), "dc ba");
}

#[test]
fn test_count_words_edges() {
    assert_eq!(count_words(""), 0);
    assert_eq!(count_words("   "), 0);
    assert_eq!(count_words("  spread   out words  "), 3);
    assert_eq!(count_words("one"), 1);
    assert_eq!(count_words("a\tb\nc"), 3);
}

#[test]
fn test_to_title_case() {
    assert_eq!(to_title_case("hello rust world"), "Hello Rust World");
    assert_eq!(to_title_case("mIxEd CaSe"), "Mixed Case");
    assert_eq!(to_title_case("  spaced   out  "), "Spaced Out");
    assert_eq!(to_title_case(""), "");
}

#[test]
fn test_count_lines() {
    assert_eq!(count_lines(""), 0);
    assert_eq!(count_lines("one line"), 1);
    assert_eq!(count_lines("a\nb"), 2);
    assert_eq!(count_lines("a\nb\n"), 2);
    assert_eq!(count_lines("\n"), 1);
}

#[test]
fn test_count_sentences() {
    assert_eq!(count_sentences("Hi! Are you there? Yes."), 3);
    assert_eq!(count_sentences("no enders here"), 0);
}

#[test]
fn test_count_characters() {
    assert_eq!(count_characters(""), 0);
    assert_eq!(count_characters("hello"), 5);
}

#[test]
fn test_clean_word() {
    assert_eq!(clean_word("Hello!!"), "hello");
    assert_eq!(clean_word("don't"), "dont");
    assert_eq!(clean_word("123"), "");
}

#[test]
fn test_first_word() {
    assert_eq!(first_word("hello world"), "hello");
    assert_eq!(first_word("single"), "single");
    assert_eq!(first_word(""), "");
    assert_eq!(first_word(" leading"), "");
}

#[test]
fn test_ownership_helpers() {
    assert_eq!(gives_ownership(), "hello");
    assert_eq!(takes_and_gives_back(String::from("abc")), "abc");
    assert_eq!(create_string(), "created");
    assert_eq!(append_world(String::from("hello")), "hello world");
    assert_eq!(process_text_owned(String::from("data")), "data [processed]");
    let mut s = String::from("note");
    modify_text(&mut s);
    assert_eq!(s, "note [modified]");
}

#[test]
fn test_categorize_character() {
    assert_eq!(categorize_character('a'), CharCategory::Lowercase);
    assert_eq!(categorize_character('Z'), CharCategory::Uppercase);
    assert_eq!(categorize_character('7'), CharCategory::Digit);
    assert_eq!(categorize_character(' '), CharCategory::Whitespace);
    assert_eq!(categorize_character('!'), CharCategory::Punctuation);
    assert_eq!(categorize_character('@'), CharCategory::Other);
}

#[test]
fn test_longest() {
    assert_eq!(longest("long string", "short"), "long string");
    assert_eq!(longest("ab", "cd"), "cd");
    assert_eq!(longest("", "x"), "x");
}

#[test]
fn test_lengths() {
    let s = String::from("hello");
    assert_eq!(calculate_length(&s), 5);
    assert_eq!(length_borrowing(&s), 5);
    assert_eq!(length_taking_ownership(s), 5);
}
