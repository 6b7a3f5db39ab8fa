use bleur::schemes::template::apply::{Apply, Instructions};

#[test]
fn instruction_names_ignore_case() {
    assert_eq!(Instructions::from("UpperCase"), Instructions::Uppercase);
    assert_eq!(Instructions::from("lowercase"), Instructions::Lowercase);
    assert_eq!(Instructions::from("reverse"), Instructions::Unknown);
    assert_eq!(Instructions::from(""), Instructions::Unknown);
}

#[test]
fn uppercase_applies() {
    assert_eq!(Apply::parse("uppercase").execute("my-app"), "MY-APP");
}

#[test]
fn functions_apply_left_to_right() {
    assert_eq!(Apply::parse("uppercase,lowercase").execute("MiXed"), "mixed");
    assert_eq!(Apply::parse("lowercase,uppercase").execute("MiXed"), "MIXED");
}

#[test]
fn unknown_functions_leave_the_value() {
    assert_eq!(Apply::parse("").execute("Value"), "Value");
    assert_eq!(Apply::parse("reverse,trim").execute("Value"), "Value");
}

#[test]
fn comma_sequence_is_composition() {
    let x = "uppercase";
    let y = "lowercase,foo";
    let value = "Hello";
    let joined = Apply::parse(&format!("{x},{y}")).execute(value);
    let staged = Apply::parse(y).execute(&Apply::parse(x).execute(value));
    assert_eq!(joined, staged);
}

#[test]
fn on_ascii_the_last_known_function_wins_and_twice_is_once() {
    let a = Apply::parse("lowercase,foo,UPPERCASE,bar");
    let once = a.execute("Mixed Case-1");
    assert_eq!(once, "MIXED CASE-1");
    assert_eq!(a.execute(&once), once);
    let none = Apply::parse("foo,bar");
    assert_eq!(none.execute("Mixed"), "Mixed");
}
