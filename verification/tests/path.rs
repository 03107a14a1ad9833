use trashcards::path::{is_root_path, join_path, parent_of, slash_join};

#[test]
fn parent_drops_the_last_name() {
    assert_eq!(parent_of("/tmp/subdir"), Some(String::from("/tmp")));
    assert_eq!(parent_of("/tmp"), Some(String::from("/")));
    assert_eq!(parent_of("a/b/c"), Some(String::from("a/b")));
    assert_eq!(parent_of("name"), Some(String::new()));
    assert_eq!(parent_of(".."), Some(String::new()));
}

#[test]
fn parent_ignores_closing_and_doubled_separators() {
    assert_eq!(parent_of("/tmp/subdir/"), Some(String::from("/tmp")));
    assert_eq!(parent_of("/tmp//subdir"), Some(String::from("/tmp")));
    assert_eq!(parent_of("//tmp"), Some(String::from("/")));
    assert_eq!(parent_of("/h\u{e9}/\u{fc}ber"), Some(String::from("/h\u{e9}")));
}

#[test]
fn root_and_empty_path_have_no_parent() {
    assert_eq!(parent_of("/"), None);
    assert_eq!(parent_of("//"), None);
    assert_eq!(parent_of(""), None);
}

#[test]
fn join_puts_one_separator_between() {
    assert_eq!(join_path("/tmp", "deck.csv"), "/tmp/deck.csv");
    assert_eq!(join_path("/", "tmp"), "/tmp");
    assert_eq!(join_path("/tmp/", "deck.csv"), "/tmp/deck.csv");
    assert_eq!(join_path("", "deck.csv"), "deck.csv");
    assert_eq!(join_path("..", "deck.csv"), "../deck.csv");
    assert_eq!(join_path("/tmp", ""), "/tmp/");
}

#[test]
fn join_lets_a_rooted_name_replace_the_directory() {
    assert_eq!(join_path("/tmp", "/etc"), "/etc");
}

#[test]
fn join_then_parent_returns() {
    for dir in ["/", "/tmp", "/tmp/a", "", "rel", "../x"] {
        for name in ["deck.csv", "sub", "x"] {
            let joined = join_path(dir, name);
            assert_eq!(parent_of(&joined), Some(dir.to_string()));
        }
    }
}

#[test]
fn slash_join_always_adds_a_separator() {
    assert_eq!(slash_join("/tmp", "deck.csv"), "/tmp/deck.csv");
    assert_eq!(slash_join("/", "deck.csv"), "//deck.csv");
    assert_eq!(slash_join("", "deck.csv"), "/deck.csv");
}

#[test]
fn only_a_single_separator_is_the_root() {
    assert!(is_root_path("/"));
    assert!(!is_root_path(""));
    assert!(!is_root_path("//"));
    assert!(!is_root_path("/tmp"));
}
