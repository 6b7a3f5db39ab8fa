use bleur::globals::{find_references, Globals};
use bleur::manager::Glubtastic;

fn store(pairs: &[(&str, &str)]) -> Globals {
    let mut g = Globals::new();
    for (k, v) in pairs {
        g.insert(k.to_string(), v.to_string());
    }
    g
}

#[test]
fn read_after_write() {
    let mut g = Globals::new();
    assert_eq!(g.len(), 0);
    assert_eq!(g.insert("name".to_string(), "bleur".to_string()), None);
    assert_eq!(g.get("name"), Some(&"bleur".to_string()));
    assert_eq!(g.get("other"), None);
    assert_eq!(g.len(), 1);
}

#[test]
fn overwrite_returns_previous_and_keeps_others() {
    let mut g = store(&[("a", "1"), ("b", "2")]);
    assert_eq!(g.insert("a".to_string(), "3".to_string()), Some("1".to_string()));
    assert_eq!(g.get("a"), Some(&"3".to_string()));
    assert_eq!(g.get("b"), Some(&"2".to_string()));
    assert_eq!(g.len(), 2);
}

#[test]
fn references_are_found_left_to_right() {
    assert_eq!(find_references("x @a@ @b"), vec!["a"]);
    assert_eq!(find_references("@@a@"), vec!["a"]);
    assert_eq!(find_references("@a@b@"), vec!["a"]);
    assert_eq!(find_references("@a-b_C9@ and @z@"), vec!["a-b_C9", "z"]);
    assert_eq!(find_references("@a b@"), Vec::<String>::new());
    assert_eq!(find_references("@é@"), Vec::<String>::new());
    assert_eq!(find_references("@@"), Vec::<String>::new());
    assert_eq!(find_references("@x@@y@"), vec!["x", "y"]);
}

#[test]
fn references_agree_with_the_pattern() {
    let re = regex::Regex::new(r"@([a-zA-Z0-9-_]+)@").unwrap();
    let cases = [
        "hello @name@, you are @age@ years old",
        "@@@a@@@b@@",
        "@a@b@c@d@",
        "mail@example.com @x_y-z@",
        "@ünï@ @ok@",
        "",
        "@",
        "@-@",
    ];
    for text in cases {
        let expected: Vec<String> = re
            .captures_iter(text)
            .map(|c| c.get(1).unwrap().as_str().to_string())
            .collect();
        assert_eq!(find_references(text), expected, "text: {text}");
    }
}

#[test]
fn globs_finds_references() {
    let g = Globals::new();
    assert_eq!(g.globs("@project@/@module@.rs"), vec!["project", "module"]);
}

#[test]
fn fill_replaces_references_with_values() {
    let g = store(&[("name", "World")]);
    assert_eq!(g.fill("Hello @name@!"), Ok("Hello World!".to_string()));
}

#[test]
fn fill_names_the_first_missing_variable() {
    let g = store(&[("a", "1")]);
    assert_eq!(g.fill("@a@ @b@ @c@"), Err("b".to_string()));
}

#[test]
fn fill_replaces_one_name_after_the_other() {
    let g = store(&[("a", "@b@"), ("b", "z")]);
    assert_eq!(g.fill("@a@ @b@"), Ok("z z".to_string()));
}

#[test]
fn fill_without_references_changes_nothing() {
    let g = Globals::new();
    assert_eq!(g.fill("no variables here"), Ok("no variables here".to_string()));
}

#[test]
fn fill_of_a_reference_is_the_value() {
    let g = store(&[("project", "my-app")]);
    assert_eq!(g.fill("@project@"), Ok("my-app".to_string()));
}

#[test]
fn every_found_name_occurs_as_a_reference() {
    let text = "@@a@ x @b-c@@d@ @e";
    for name in find_references(text) {
        assert!(text.contains(&format!("@{name}@")));
    }
}
