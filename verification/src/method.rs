//! The ways a template repository can be fetched.
use vstd::prelude::*;

verus! {

/// `url::Url`, a parsed URL; opaque here.
#[verifier::external_type_specification]
#[verifier::external_body]
pub struct ExUrl(url::Url);

/// Fetch by cloning a git repository.
#[derive(Debug)]
pub struct Git {
    /// The repository
    pub url: url::Url,
    /// The directory to clone into
    pub path: String,
}

impl Git {
    pub fn new(url: url::Url, path: String) -> (r: Git)
        ensures
            r == (Git { url, path }),
    {
        Git { url, path }
    }
}

/// Fetch by downloading an archive of the repository over HTTP.
#[derive(Debug)]
pub struct Http {
    /// The repository
    pub url: url::Url,
    /// The directory to unpack into
    pub path: String,
}

impl Http {
    pub fn new(url: url::Url, path: String) -> (r: Http)
        ensures
            r == (Http { url, path }),
    {
        Http { url, path }
    }
}

/// A way of fetching a template repository, with what it needs.
#[derive(Debug)]
pub enum Method {
    Git(Git),
    Http(Http),
}

impl Method {
    /// The address the method fetches.
    pub open spec fn url_of(&self) -> url::Url {
        match self {
            Method::Git(g) => g.url,
            Method::Http(h) => h.url,
        }
    }

    /// The directory the method fetches into.
    pub open spec fn path_of(&self) -> String {
        match self {
            Method::Git(g) => g.path,
            Method::Http(h) => h.path,
        }
    }
}

/// What can name a way of fetching.
pub trait Methodical {
    /// The way of fetching `url` into the directory `path` that this names.
    spec fn spec_to_method(&self, url: url::Url, path: String) -> Method;

    /// The way of fetching `url` into the directory `path`.
    fn to_method(&self, url: url::Url, path: String) -> (r: Method)
        ensures
            r == self.spec_to_method(url, path),
            r.url_of() == url,
            r.path_of() == path,
    ;
}

} // verus!
