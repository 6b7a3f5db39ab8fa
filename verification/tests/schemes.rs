use bleur::error::BleurError;
use bleur::execute::task::Task;
use bleur::schemes::collections::{CollectionEntry, Collections};
use bleur::schemes::template::prelude::change::Change;
use bleur::schemes::template::prelude::relocation::Move;
use bleur::schemes::template::prelude::variable::Variable;
use bleur::schemes::template::Template;
use bleur::schemes::{Configuration, Resolution, MAX_COLLECTIONS_DEPTH};

fn template() -> Template {
    Template {
        path: String::new(),
        variables: vec![Variable {
            variable: "name".to_string(),
            default: "app".to_string(),
            message: "Name?".to_string(),
            pattern: None,
            pattern_error: None,
        }],
        changes: vec![Change {
            placeholder: "NAME".to_string(),
            source: "README.md".to_string(),
            value: "@name@".to_string(),
            apply: String::new(),
        }],
        moves: vec![Move { from: "a".to_string(), to: "b".to_string() }],
    }
}

fn collections() -> Collections {
    Collections {
        templates: vec![
            CollectionEntry { name: "rust".to_string(), path: "rust-template".to_string() },
            CollectionEntry { name: "go".to_string(), path: "go-template".to_string() },
            CollectionEntry { name: "rust".to_string(), path: "second".to_string() },
        ],
    }
}

#[test]
fn tasks_come_variables_changes_moves() {
    let t = template().with_path("/repo".to_string());
    assert_eq!(t.path(), "/repo");
    let tasks = t.computable();
    assert_eq!(tasks.len(), 3);
    assert!(matches!(tasks[0], Task::Variable(_)));
    assert!(matches!(&tasks[1], Task::Change(c) if c.source == "/repo/README.md"));
    assert!(matches!(&tasks[2], Task::Move(m) if m.from == "/repo/a" && m.to == "/repo/b"));
    for i in 0..tasks.len() {
        for j in i..tasks.len() {
            assert_ne!(tasks[i].partial_cmp(&tasks[j]), Some(std::cmp::Ordering::Greater));
        }
    }
}

#[test]
fn default_template_is_empty() {
    let t = Template::default();
    assert!(t.path.is_empty() && t.variables.is_empty() && t.changes.is_empty() && t.moves.is_empty());
    assert!(t.computable().is_empty());
}

#[test]
fn collection_keys_in_order() {
    assert_eq!(collections().keys(), vec!["rust", "go", "rust"]);
}

#[test]
fn select_takes_the_first_match() {
    let c = collections();
    assert_eq!(c.select("rust").unwrap().path, "rust-template");
    assert!(c.select("java").is_none());
}

#[test]
fn descend_joins_the_path() {
    let c = collections();
    assert_eq!(c.descend("go", "/repo").unwrap(), "/repo/go-template");
    assert!(matches!(c.descend("java", "/repo"), Err(BleurError::NoSuchTemplateInCollection)));
}

#[test]
fn parse_prefers_template() {
    let parsed = Configuration::parse("/repo".to_string(), Some(template()), Some(collections()));
    assert!(matches!(parsed, Some(Configuration::Template(t)) if t.path == "/repo"));
    let parsed = Configuration::parse("/repo".to_string(), None, Some(collections()));
    assert!(matches!(parsed, Some(Configuration::Collections(_))));
    assert!(Configuration::parse("/repo".to_string(), None, None).is_none());
}

#[test]
fn surely_template_steps() {
    let t = Configuration::Template(template());
    assert!(matches!(Configuration::surely_template(Some(t), 1), Ok(Resolution::Template(_))));
    let c = Configuration::Collections(collections());
    assert!(matches!(Configuration::surely_template(Some(c), 5), Ok(Resolution::Choose(_))));
    assert!(matches!(
        Configuration::surely_template(None, 1),
        Err(BleurError::NoTemplateConfiguration)
    ));
}

#[test]
fn surely_template_refuses_deep_collections() {
    let t = Configuration::Template(template());
    let depth = MAX_COLLECTIONS_DEPTH + 1;
    assert!(matches!(
        Configuration::surely_template(Some(t), depth),
        Err(BleurError::AintNoWayThisDeepCollection(6))
    ));
}

#[test]
fn template_of_configuration() {
    assert!(Configuration::Template(template()).template().is_ok());
    assert!(matches!(
        Configuration::Collections(collections()).template(),
        Err(BleurError::TemplateIsInvalid)
    ));
}

#[test]
fn descent_through_nested_collections_stops_at_the_limit() {
    // Every directory holds a collection with one entry leading deeper.
    let nested = || Collections {
        templates: vec![CollectionEntry { name: "deeper".to_string(), path: "d".to_string() }],
    };
    let mut path = "/repo".to_string();
    let mut depth: u8 = 1;
    let mut questions = 0;
    let result = loop {
        match Configuration::surely_template(Some(Configuration::Collections(nested())), depth) {
            Ok(Resolution::Choose(c)) => {
                questions += 1;
                path = c.descend("deeper", &path).unwrap();
                depth += 1;
            }
            Ok(Resolution::Template(_)) => unreachable!(),
            Err(e) => break e,
        }
    };
    assert!(matches!(result, BleurError::AintNoWayThisDeepCollection(6)));
    assert_eq!(questions, MAX_COLLECTIONS_DEPTH);
    assert_eq!(path, "/repo/d/d/d/d/d");
}
