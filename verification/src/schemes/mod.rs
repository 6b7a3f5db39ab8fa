//! The configurations that a template repository can hold.
pub mod collections;
pub mod template;

use vstd::prelude::*;

use crate::error::BleurError;
use crate::text::spec_path_join;
use collections::{first_named, Collections};
use template::Template;

verus! {

/// How deep collections may nest within collections.
pub const MAX_COLLECTIONS_DEPTH: u8 = 5;

/// What a repository's `bleur.toml` describes.
#[derive(Debug, Clone)]
pub enum Configuration {
    /// If repo is a single template
    Template(Template),
    /// If repo contains collection of templates
    Collections(Collections),
}

/// One step towards a template: found, or a choice among a collection's
/// templates is to be made.
#[derive(Debug, Clone)]
pub enum Resolution {
    /// The template to use
    Template(Template),
    /// The user is to choose one of these (see [`Collections::descend`]);
    /// the chosen one is looked at one level deeper
    Choose(Collections),
}

/// The configuration a run starts with: a template that lies nowhere and
/// asks for nothing.
pub open spec fn is_default_configuration(c: Configuration) -> bool {
    c matches Configuration::Template(t) && t.path@.len() == 0 && t.variables@.len() == 0
        && t.changes@.len() == 0 && t.moves@.len() == 0
}

impl Default for Configuration {
    fn default() -> (r: Configuration)
        ensures
            is_default_configuration(r),
    {
        Configuration::Template(Template::default())
    }
}

impl Configuration {
    /// The configuration of the repository in `path`, from what its
    /// configuration file reads as: a template (which then lies in `path`)
    /// before a collection; `None` where it reads as neither.
    pub fn parse(path: String, template: Option<Template>, collections: Option<Collections>) -> (r:
        Option<Configuration>)
        ensures
            match (template, collections) {
                (Some(t), _) => r == Some(Configuration::Template(Template { path, ..t })),
                (None, Some(c)) => r == Some(Configuration::Collections(c)),
                (None, None) => r is None,
            },
    {
        match template {
            Some(t) => Some(Configuration::Template(t.with_path(path))),
            None => match collections {
                Some(c) => Some(Configuration::Collections(c)),
                None => None,
            },
        }
    }

    /// One step of finding the template to use, `depth` levels deep into
    /// collections, from what the repository's configuration read as.
    pub fn surely_template(parsed: Option<Configuration>, depth: u8) -> (r: Result<
        Resolution,
        BleurError,
    >)
        ensures
            depth > MAX_COLLECTIONS_DEPTH ==> (r matches Err(
                BleurError::AintNoWayThisDeepCollection(d),
            ) && d == depth),
            depth <= MAX_COLLECTIONS_DEPTH ==> match parsed {
                Some(Configuration::Template(t)) => r matches Ok(Resolution::Template(u)) && u == t,
                Some(Configuration::Collections(c)) => r matches Ok(Resolution::Choose(d)) && d
                    == c,
                None => r matches Err(BleurError::NoTemplateConfiguration),
            },
    {
        if depth > MAX_COLLECTIONS_DEPTH {
            return Err(BleurError::AintNoWayThisDeepCollection(depth));
        }
        match parsed {
            Some(Configuration::Template(t)) => Ok(Resolution::Template(t)),
            Some(Configuration::Collections(c)) => Ok(Resolution::Choose(c)),
            None => Err(BleurError::NoTemplateConfiguration),
        }
    }

    /// The template, where the configuration is one.
    pub fn template(self) -> (r: Result<Template, BleurError>)
        ensures
            match self {
                Configuration::Template(t) => r matches Ok(u) && u == t,
                Configuration::Collections(_) => r matches Err(BleurError::TemplateIsInvalid),
            },
    {
        match self {
            Configuration::Template(template) => Ok(template),
            Configuration::Collections(_) => Err(BleurError::TemplateIsInvalid),
        }
    }
}

/// Where finding a template from the repository directory `path`, `depth`
/// levels deep into collections, ends: `config_at` gives what the
/// configuration file of each directory reads as and `answers` are the
/// user's choices, in order. Each step is [`Configuration::surely_template`];
/// a choice leads on as [`Collections::descend`] does. `None` where more
/// answers are needed than given.
pub open spec fn spec_descent(
    config_at: spec_fn(Seq<char>) -> Option<Configuration>,
    answers: Seq<Seq<char>>,
    path: Seq<char>,
    depth: u8,
) -> Option<Result<Template, BleurError>>
    decreases answers.len(),
{
    if depth > MAX_COLLECTIONS_DEPTH {
        Some(Err(BleurError::AintNoWayThisDeepCollection(depth)))
    } else {
        match config_at(path) {
            None => Some(Err(BleurError::NoTemplateConfiguration)),
            Some(Configuration::Template(t)) => Some(Ok(t)),
            Some(Configuration::Collections(c)) => if answers.len() == 0 {
                None
            } else {
                match first_named(c.templates@, answers[0]) {
                    None => Some(Err(BleurError::NoSuchTemplateInCollection)),
                    Some(i) => spec_descent(
                        config_at,
                        answers.drop_first(),
                        spec_path_join(path, c.templates@[i].path@),
                        (depth + 1) as u8,
                    ),
                }
            },
        }
    }
}

/// Finding a template asks the user at most `MAX_COLLECTIONS_DEPTH + 1 -
/// depth` times: with that many answers it always ends, and answers beyond
/// that many are never read.
pub proof fn law_descent_bounded(
    config_at: spec_fn(Seq<char>) -> Option<Configuration>,
    answers: Seq<Seq<char>>,
    path: Seq<char>,
    depth: u8,
)
    requires
        1 <= depth <= MAX_COLLECTIONS_DEPTH + 1,
        answers.len() >= MAX_COLLECTIONS_DEPTH + 1 - depth,
    ensures
        spec_descent(config_at, answers, path, depth) is Some,
        spec_descent(config_at, answers, path, depth) == spec_descent(
            config_at,
            answers.take(MAX_COLLECTIONS_DEPTH + 1 - depth),
            path,
            depth,
        ),
    decreases MAX_COLLECTIONS_DEPTH + 1 - depth,
{
    let k = MAX_COLLECTIONS_DEPTH + 1 - depth;
    let kept = answers.take(k);
    if depth <= MAX_COLLECTIONS_DEPTH {
        if let Some(Configuration::Collections(c)) = config_at(path) {
            assert(kept[0] == answers[0]);
            if let Some(i) = first_named(c.templates@, answers[0]) {
                let next = spec_path_join(path, c.templates@[i].path@);
                law_descent_bounded(config_at, answers.drop_first(), next, (depth + 1) as u8);
                assert(kept.drop_first() =~= answers.drop_first().take(k - 1));
            }
        }
    }
}

/// One choice leads on: where a collection is found and the user's first
/// answer names one of its templates, finding goes on in that template's
/// directory, one level deeper, with the remaining answers.
pub proof fn law_descent_step(
    config_at: spec_fn(Seq<char>) -> Option<Configuration>,
    answer: Seq<char>,
    rest: Seq<Seq<char>>,
    path: Seq<char>,
    depth: u8,
    c: Collections,
    i: int,
)
    requires
        depth <= MAX_COLLECTIONS_DEPTH,
        config_at(path) == Some(Configuration::Collections(c)),
        first_named(c.templates@, answer) == Some(i),
    ensures
        spec_descent(config_at, seq![answer] + rest, path, depth) == spec_descent(
            config_at,
            rest,
            spec_path_join(path, c.templates@[i].path@),
            (depth + 1) as u8,
        ),
{
    assert((seq![answer] + rest).drop_first() =~= rest);
    assert((seq![answer] + rest)[0] == answer);
}

} // verus!
