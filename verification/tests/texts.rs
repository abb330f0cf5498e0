use pls::text::{chars_of, join_words, same_text, stem_of};

fn words(list: &[&str]) -> Vec<String> {
    list.iter().map(|w| w.to_string()).collect()
}

#[test]
fn chars_of_gives_each_character() {
    assert_eq!(chars_of(""), Vec::<char>::new());
    assert_eq!(chars_of("abc"), vec!['a', 'b', 'c']);
    assert_eq!(chars_of("a\u{e9}\u{1f600}z"), vec!['a', '\u{e9}', '\u{1f600}', 'z']);
}

#[test]
fn same_text_compares_character_by_character() {
    assert!(same_text("", ""));
    assert!(same_text("help", "help"));
    assert!(!same_text("help", "hel"));
    assert!(!same_text("hel", "help"));
    assert!(!same_text("help", "helq"));
    assert!(!same_text("", "a"));
    assert!(same_text("\u{e9}t\u{e9}", "\u{e9}t\u{e9}"));
    assert!(!same_text("Help", "help"));
}

#[test]
fn join_words_of_nothing_is_empty() {
    assert_eq!(join_words(&words(&[])), "");
}

#[test]
fn join_words_of_one_word_is_the_word() {
    assert_eq!(join_words(&words(&["x"])), "x");
    assert_eq!(join_words(&words(&[""])), "");
}

#[test]
fn join_words_puts_one_space_between_words() {
    assert_eq!(join_words(&words(&["cd", "/home/user/projects"])), "cd /home/user/projects");
    assert_eq!(join_words(&words(&["a", "b", "c"])), "a b c");
}

#[test]
fn join_words_keeps_empty_words_and_inner_spaces() {
    assert_eq!(join_words(&words(&["a", "", "b"])), "a  b");
    assert_eq!(join_words(&words(&["", ""])), " ");
    assert_eq!(join_words(&words(&["echo", "two words"])), "echo two words");
}

#[test]
fn join_words_agrees_with_the_standard_join() {
    let lists: [&[&str]; 5] = [&[], &["one"], &["one", "two"], &["", "x", ""], &["a b", " c", "d "]];
    for list in lists {
        let owned = words(list);
        assert_eq!(join_words(&owned), owned.join(" "));
    }
}

#[test]
fn stem_of_ends_before_the_first_dot() {
    assert_eq!(stem_of("1.txt"), "1");
    assert_eq!(stem_of("12.txt"), "12");
    assert_eq!(stem_of("3.bak.txt"), "3");
    assert_eq!(stem_of("abc.txt"), "abc");
}

#[test]
fn stem_of_a_name_without_dot_is_the_name() {
    assert_eq!(stem_of("7"), "7");
    assert_eq!(stem_of("notes"), "notes");
    assert_eq!(stem_of(""), "");
}

#[test]
fn stem_of_a_name_that_begins_with_a_dot_is_empty() {
    assert_eq!(stem_of(".hidden"), "");
    assert_eq!(stem_of("."), "");
    assert_eq!(stem_of("..txt"), "");
}

#[test]
fn stem_of_counts_characters_not_bytes() {
    assert_eq!(stem_of("\u{e9}t\u{e9}.txt"), "\u{e9}t\u{e9}");
    assert_eq!(stem_of("\u{1f600}\u{1f600}.x"), "\u{1f600}\u{1f600}");
}

#[test]
fn stem_of_agrees_with_the_first_piece_of_a_split() {
    let names = ["1.txt", "a.b.c", "", ".", "x", "..", "10.", ".5", "caf\u{e9}.txt"];
    for name in names {
        let first = name.split('.').collect::<Vec<&str>>()[0].to_string();
        assert_eq!(stem_of(name), first);
    }
}
