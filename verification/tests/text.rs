use adventure_client::text::{chars_of, clone_lines, starts_with, string_of};

#[test]
fn characters_are_listed_in_order() {
    assert_eq!(chars_of("a\u{e9}\u{1F600}z"), vec!['a', '\u{e9}', '\u{1F600}', 'z']);
    assert_eq!(chars_of(""), Vec::<char>::new());
}

#[test]
fn part_of_characters_becomes_a_string() {
    let chars = vec!['l', 'a', 'm', 'p'];
    assert_eq!(string_of(&chars, 1, 3), "am");
    assert_eq!(string_of(&chars, 0, 4), "lamp");
    assert_eq!(string_of(&chars, 2, 2), "");
}

#[test]
fn beginning_is_recognised() {
    let chars = vec!['l', 'a', 'm', 'p'];
    assert!(starts_with(&chars, &vec!['l', 'a']));
    assert!(starts_with(&chars, &vec![]));
    assert!(starts_with(&chars, &chars));
    assert!(!starts_with(&chars, &vec!['a']));
    assert!(!starts_with(&chars, &vec!['l', 'a', 'm', 'p', 's']));
}

#[test]
fn lines_are_copied() {
    let lines = vec!["one".to_string(), String::new(), "three".to_string()];
    assert_eq!(clone_lines(&lines), lines);
    assert_eq!(clone_lines(&Vec::new()), Vec::<String>::new());
}
