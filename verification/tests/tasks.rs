use bleur::error::BleurError;
use bleur::execute::task::{Action, Task, ToTask};
use bleur::globals::Globals;
use bleur::schemes::template::prelude::change::Change;
use bleur::schemes::template::prelude::relocation::Move;
use bleur::schemes::template::prelude::variable::{Validation, Variable};
use std::cmp::Ordering;

fn variable(name: &str, pattern: Option<&str>) -> Variable {
    Variable {
        variable: name.to_string(),
        default: "default".to_string(),
        message: "Your value?".to_string(),
        pattern: pattern.map(String::from),
        pattern_error: Some("letters only".to_string()),
    }
}

fn change(value: &str, apply: &str) -> Change {
    Change {
        placeholder: "PLACEHOLDER".to_string(),
        source: "Cargo.toml".to_string(),
        value: value.to_string(),
        apply: apply.to_string(),
    }
}

#[test]
fn variable_asks_then_records() {
    let v = variable("name", None);
    let mut g = Globals::new();
    assert_eq!(
        v.execute(&mut g, None),
        Action::Ask { message: "Your value?".to_string(), default: "default".to_string() }
    );
    assert_eq!(g.len(), 0);
    assert_eq!(v.execute(&mut g, Some("bleur".to_string())), Action::Done);
    assert_eq!(g.get("name"), Some(&"bleur".to_string()));
}

#[test]
fn validation_without_pattern_accepts() {
    assert_eq!(variable("n", None).validate("anything at all").unwrap(), Validation::Valid);
}

#[test]
fn validation_with_pattern() {
    let v = variable("n", Some("^[a-z]+$"));
    assert_eq!(v.validate("abc").unwrap(), Validation::Valid);
    assert_eq!(
        v.validate("ABC").unwrap(),
        Validation::Invalid(Some("letters only".to_string()))
    );
}

#[test]
fn validation_with_invalid_pattern_is_an_error() {
    let v = variable("n", Some("("));
    assert!(matches!(v.validate("abc"), Err(BleurError::InvalidRegex(_))));
}

#[test]
fn change_computes_the_rewrite() {
    let mut g = Globals::new();
    g.insert("name".to_string(), "my-app".to_string());
    let c = change("@name@-core", "uppercase");
    match c.execute(&g).unwrap() {
        Action::Rewrite { path, placeholder, replacement } => {
            assert_eq!(path, "Cargo.toml");
            assert_eq!(placeholder, "PLACEHOLDER");
            assert_eq!(replacement, "MY-APP-CORE");
        }
        other => panic!("unexpected action {:?}", other),
    }
}

#[test]
fn change_with_missing_variable_fails() {
    let g = Globals::new();
    match change("@missing@", "").execute(&g) {
        Err(BleurError::NoSuchVariable(name)) => assert_eq!(name, "missing"),
        other => panic!("unexpected result {:?}", other),
    }
}

#[test]
fn change_task_lies_in_the_template() {
    match change("x", "").to_task("/tmp/template") {
        Task::Change(c) => assert_eq!(c.source, "/tmp/template/Cargo.toml"),
        other => panic!("unexpected task {:?}", other),
    }
}

#[test]
fn move_fills_both_places() {
    let mut g = Globals::new();
    g.insert("module".to_string(), "core".to_string());
    let m = Move { from: "src/lib.rs".to_string(), to: "src/@module@.rs".to_string() };
    assert_eq!(
        m.execute(&g).unwrap(),
        Action::Relocate { from: "src/lib.rs".to_string(), to: "src/core.rs".to_string() }
    );
    let bad = Move { from: "a".to_string(), to: "@nope@".to_string() };
    assert!(matches!(bad.execute(&g), Err(BleurError::NoSuchVariable(n)) if n == "nope"));
}

#[test]
fn task_execute_dispatches() {
    let mut g = Globals::new();
    let t = variable("name", None).to_task("ignored");
    assert!(matches!(t.execute(&mut g, None), Ok(Action::Ask { .. })));
    assert_eq!(t.execute(&mut g, Some("x".to_string())).unwrap(), Action::Done);
    let c = Task::Change(change("@name@", ""));
    assert!(matches!(c.execute(&mut g, None), Ok(Action::Rewrite { replacement, .. }) if replacement == "x"));
}

#[test]
fn tasks_order_by_kind() {
    let v = Task::Variable(variable("a", None));
    let c = Task::Change(change("b", ""));
    let m = Task::Move(Move { from: "x".to_string(), to: "y".to_string() });
    assert_eq!(v.partial_cmp(&c), Some(Ordering::Less));
    assert_eq!(c.partial_cmp(&m), Some(Ordering::Less));
    assert_eq!(m.partial_cmp(&v), Some(Ordering::Greater));
    let c2 = Task::Change(change("other", "uppercase"));
    assert_eq!(c.partial_cmp(&c2), Some(Ordering::Equal));
}

#[test]
fn answer_fills_a_change_that_refers_to_it() {
    let mut g = Globals::new();
    let v = variable("project", None);
    assert_eq!(v.execute(&mut g, Some("my-app".to_string())), Action::Done);
    let c = change("@project@", "uppercase");
    assert!(matches!(
        c.execute(&g),
        Ok(Action::Rewrite { replacement, .. }) if replacement == "MY-APP"
    ));
}

#[test]
fn variable_with_broken_pattern_is_not_executable() {
    let t = variable("n", Some("(")).to_task("ignored");
    assert!(!t.is_executable());
    assert!(variable("n", Some("^[a-z]+$")).to_task("x").is_executable());
    assert!(!variable("n", Some("[")).check_pattern());
}

#[test]
fn answers_that_fail_the_pattern_are_refused() {
    let v = variable("n", Some("^[a-z]+$"));
    let mut g = Globals::new();
    assert_eq!(
        v.execute(&mut g, Some("ABC".to_string())),
        Action::Refused(Some("letters only".to_string()))
    );
    assert_eq!(g.len(), 0);
    assert_eq!(v.execute(&mut g, Some("abc".to_string())), Action::Done);
    assert_eq!(g.get("n"), Some(&"abc".to_string()));
    // The pattern is not anchored unless it says so.
    let loose = variable("m", Some("[a-z]+"));
    assert_eq!(loose.execute(&mut g, Some("AB-c".to_string())), Action::Done);
}
