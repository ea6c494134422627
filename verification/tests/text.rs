use macropad::text::{split, str_eq, uppercase_first};

#[test]
fn split_on_separator() {
    assert_eq!(split("ctrl-a,ctrl-s", ','), vec!["ctrl-a", "ctrl-s"]);
    assert_eq!(split("ctrl-a", '-'), vec!["ctrl", "a"]);
    assert_eq!(split("a", ','), vec!["a"]);
}

#[test]
fn split_keeps_empty_pieces() {
    assert_eq!(split("", ','), vec![""]);
    assert_eq!(split(",", ','), vec!["", ""]);
    assert_eq!(split("a,", ','), vec!["a", ""]);
    assert_eq!(split(",a", ','), vec!["", "a"]);
    assert_eq!(split("a,,b", ','), vec!["a", "", "b"]);
}

#[test]
fn split_agrees_with_std() {
    for text in ["", "a", "a-b", "-", "--", "a--b-", "héllo-wörld", "日本-語"] {
        let expected: Vec<&str> = text.split('-').collect();
        assert_eq!(split(text, '-'), expected);
    }
}

#[test]
fn split_counts_characters_not_bytes() {
    assert_eq!(split("é,ü,日本", ','), vec!["é", "ü", "日本"]);
}

#[test]
fn uppercase_first_letter_only() {
    assert_eq!(uppercase_first("ctrl"), "Ctrl");
    assert_eq!(uppercase_first("a"), "A");
    assert_eq!(uppercase_first("z"), "Z");
    assert_eq!(uppercase_first("pageUp"), "PageUp");
    assert_eq!(uppercase_first("upsideDown"), "UpsideDown");
}

#[test]
fn uppercase_first_leaves_the_rest() {
    assert_eq!(uppercase_first(""), "");
    assert_eq!(uppercase_first("Ctrl"), "Ctrl");
    assert_eq!(uppercase_first("CTRL"), "CTRL");
    assert_eq!(uppercase_first("cTRL"), "CTRL");
    assert_eq!(uppercase_first("1a"), "1a");
    assert_eq!(uppercase_first("-a"), "-a");
    assert_eq!(uppercase_first("éa"), "éa");
    assert_eq!(uppercase_first("{a"), "{a");
    assert_eq!(uppercase_first("`a"), "`a");
}

#[test]
fn str_eq_compares_the_text() {
    assert!(str_eq("", ""));
    assert!(str_eq("Ctrl", "Ctrl"));
    assert!(!str_eq("Ctrl", "ctrl"));
    assert!(!str_eq("Ctrl", "Ctr"));
    assert!(!str_eq("F1", "F11"));
    assert!(str_eq("日本", "日本"));
    assert!(!str_eq("日本", "日本語"));
}
