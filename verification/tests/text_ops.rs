use bleur::text::{chars_of, join_path, replace_all, split_on, string_of, to_lowercase, to_uppercase};

#[test]
fn replace_all_replaces_every_occurrence() {
    assert_eq!(replace_all("aXbX", "X", "--"), "a--b--");
}

#[test]
fn replace_all_does_not_overlap() {
    assert_eq!(replace_all("aaa", "aa", "b"), "ba");
}

#[test]
fn replace_all_with_empty_pattern_interleaves() {
    assert_eq!(replace_all("ab", "", "-"), "-a-b-");
    assert_eq!(replace_all("", "", "-"), "-");
}

#[test]
fn replace_all_agrees_with_str_replace() {
    let cases = [
        ("hello world", "o", "0"),
        ("@x@@x@", "@x@", "y"),
        ("über straße", "ß", "ss"),
        ("abc", "abcd", "z"),
        ("", "a", "b"),
        ("mississippi", "issi", "I"),
        ("xyz", "", "_"),
    ];
    for (s, p, r) in cases {
        assert_eq!(replace_all(s, p, r), s.replace(p, r));
    }
}

#[test]
fn replace_absent_pattern_changes_nothing() {
    assert_eq!(replace_all("plain text", "@@", "x"), "plain text");
}

#[test]
fn split_on_keeps_empty_pieces() {
    assert_eq!(split_on("a,,b", ','), vec!["a", "", "b"]);
    assert_eq!(split_on("", ','), vec![""]);
    assert_eq!(split_on(",", ','), vec!["", ""]);
}

#[test]
fn split_on_agrees_with_str_split() {
    for s in ["uppercase,lowercase", "a", ",x,", "ä,ö,,ü"] {
        let expected: Vec<String> = s.split(',').map(String::from).collect();
        assert_eq!(split_on(s, ','), expected);
    }
}

#[test]
fn split_then_join_gives_the_text_back() {
    for s in ["", "a,b", ",,", "no separator", "x,"] {
        assert_eq!(split_on(s, ',').join(","), s);
    }
}

#[test]
fn case_wrappers_change_case() {
    assert_eq!(to_uppercase("aBc"), "ABC");
    assert_eq!(to_lowercase("aBc"), "abc");
    assert_eq!(to_uppercase("straße"), "STRASSE");
}

#[test]
fn join_path_joins_relative_and_replaces_with_absolute() {
    assert_eq!(join_path("base", "file.txt"), "base/file.txt");
    assert_eq!(join_path("base/", "dir/file"), "base/dir/file");
    assert_eq!(join_path("base", "/abs"), "/abs");
}

#[test]
fn chars_round_trip() {
    let v = chars_of("héllo");
    assert_eq!(v, vec!['h', 'é', 'l', 'l', 'o']);
    assert_eq!(string_of(&v, 1, 4), "éll");
    assert_eq!(string_of(&v, 0, v.len()), "héllo");
}

#[test]
fn replacing_with_itself_changes_nothing() {
    for (s, p) in [("abcabc", "bc"), ("xyz", ""), ("", "a"), ("aaaa", "aa")] {
        assert_eq!(replace_all(s, p, p), s);
    }
}

#[test]
fn split_has_one_piece_more_than_separators() {
    for s in ["", "a,b,c", ",,", "none"] {
        assert_eq!(split_on(s, ',').len(), s.matches(',').count() + 1);
    }
}
