//! A template assistant: fetch a project template, ask for its variables and
//! fill them into the template's files.
use vstd::prelude::*;

pub mod error;
pub mod execute;
pub mod globals;
pub mod manager;
pub mod method;
pub mod schemes;
pub mod text;

use method::{Git, Http, Method, Methodical};

verus! {

/// The ways of fetching a template that a user can name.
#[derive(Copy, Clone, Debug, PartialEq, Eq, Structural)]
pub enum Protocol {
    Git,
    Http,
}

impl Protocol {
    /// The protocol's name as the user writes it.
    pub fn name(&self) -> (r: &'static str)
        ensures
            *self == Protocol::Git ==> r@ == "git"@,
            *self == Protocol::Http ==> r@ == "http"@,
    {
        match self {
            Protocol::Git => "git",
            Protocol::Http => "http",
        }
    }
}

impl Methodical for Protocol {
    open spec fn spec_to_method(&self, url: url::Url, path: String) -> Method {
        match self {
            Protocol::Git => Method::Git(Git { url, path }),
            Protocol::Http => Method::Http(Http { url, path }),
        }
    }

    fn to_method(&self, url: url::Url, path: String) -> (r: Method)
        ensures
            *self == Protocol::Git ==> r == Method::Git(Git { url, path }),
            *self == Protocol::Http ==> r == Method::Http(Http { url, path }),
    {
        match self {
            Protocol::Git => Method::Git(Git::new(url, path)),
            Protocol::Http => Method::Http(Http::new(url, path)),
        }
    }
}

/// The command line: what the user asks for.
#[derive(Debug)]
pub struct Cli {
    pub command: Commands,
}

/// What the user can ask for.
#[derive(Debug)]
pub enum Commands {
    /// Start creating new project
    New {
        /// Path where template should be bootstrapped to (the current working
        /// directory where there is none)
        path: Option<String>,
        /// URL to a repository or nix flake of template or collection fo
        /// templates
        template: String,
        /// Chosen method of fetching repository
        method: Protocol,
    },
    /// Bootstrap a bleur toml file for a new template
    Init,
}

} // verus!
