use bleur::error::BleurError;
use bleur::execute::task::Action;
use bleur::manager::ManageBuilder;
use bleur::method::{Method, Methodical};
use bleur::schemes::template::prelude::variable::Variable;
use bleur::schemes::template::Template;
use bleur::schemes::Configuration;
use bleur::Protocol;

#[test]
fn protocol_names() {
    assert_eq!(Protocol::Git.name(), "git");
    assert_eq!(Protocol::Http.name(), "http");
}

#[test]
fn protocol_makes_method() {
    let url = url::Url::parse("https://github.com/bleur-org/templates").unwrap();
    match Protocol::Http.to_method(url.clone(), "/tmp/x".to_string()) {
        Method::Http(h) => {
            assert_eq!(h.url, url);
            assert_eq!(h.path, "/tmp/x");
        }
        other => panic!("unexpected method {:?}", other),
    }
    assert!(matches!(Protocol::Git.to_method(url, String::new()), Method::Git(_)));
}

#[test]
fn source_refuses_non_urls() {
    assert!(matches!(ManageBuilder::new().source("not a url"), Err(BleurError::UrlError(_))));
}

#[test]
fn fetch_method_needs_source_and_tempdir() {
    let b = ManageBuilder::new().source("https://example.com/repo").unwrap();
    assert!(!b.ready());
    assert!(matches!(b.fetch_method(Protocol::Git), Err(BleurError::InsufficientArgumentsToDecide)));
    let b = ManageBuilder::new().tempdir(tempfile::tempdir().unwrap());
    assert!(matches!(b.fetch_method(Protocol::Git), Err(BleurError::InsufficientArgumentsToDecide)));
}

#[test]
fn builder_builds_a_run() {
    let dir = tempfile::tempdir().unwrap();
    let expected = dir.path().to_string_lossy().into_owned();
    let b = ManageBuilder::new()
        .source("https://github.com/bleur-org/templates")
        .unwrap()
        .tempdir(dir)
        .fetch_method(Protocol::Git)
        .unwrap();
    assert!(b.ready());
    let mut m = b.build().unwrap();
    assert_eq!(m.template_path().unwrap(), "");
    assert_eq!(m.temporary_path().to_string_lossy(), expected);
    assert!(matches!(m.method(), Method::Git(g) if g.path == expected));
    assert_eq!(m.remote().as_str(), "https://github.com/bleur-org/templates");
    assert_eq!(m.evaluate().unwrap().len(), 0);
    let t = Template {
        path: "/repo".to_string(),
        variables: vec![Variable {
            variable: "name".to_string(),
            default: String::new(),
            message: "Name?".to_string(),
            pattern: None,
            pattern_error: None,
        }],
        changes: vec![],
        moves: vec![],
    };
    m = m.parse(Configuration::Template(t));
    assert_eq!(m.template_path().unwrap(), "/repo");
    let tasks = m.evaluate().unwrap();
    assert_eq!(tasks.len(), 1);
    assert_eq!(m.compute(&tasks[0], Some("x".to_string())).unwrap(), Action::Done);
    let broken = Variable {
        variable: "n".to_string(),
        default: String::new(),
        message: "N?".to_string(),
        pattern: Some("(".to_string()),
        pattern_error: None,
    };
    assert!(m.try_compute(&bleur::execute::task::Task::Variable(broken), None).is_none());
    assert!(matches!(m.try_compute(&tasks[0], None), Some(Ok(Action::Ask { .. }))));
}

#[test]
fn source_replaces_the_address_and_reports_the_parse_error() {
    match ManageBuilder::new().source("not a url") {
        Err(BleurError::UrlError(e)) => assert_eq!(e, url::Url::parse("not a url").unwrap_err()),
        other => panic!("unexpected result {:?}", other),
    }
    let m = ManageBuilder::new()
        .source("https://example.com/first")
        .unwrap()
        .source("https://example.com/second")
        .unwrap()
        .tempdir(tempfile::tempdir().unwrap())
        .fetch_method(Protocol::Http)
        .unwrap()
        .build()
        .unwrap();
    assert_eq!(m.remote().as_str(), "https://example.com/second");
    assert!(matches!(m.method(), Method::Http(h) if h.url.as_str() == "https://example.com/second" && h.path == m.temporary_path().to_string_lossy()));
}
