//! Putting a template run together, step by step.
use vstd::prelude::*;

use crate::error::BleurError;
use crate::execute::task::{Action, Task};
use crate::globals::{find_references, spec_globs, Globals};
use crate::method::{Method, Methodical};
use crate::schemes::template::are_tasks_of;
use crate::schemes::{is_default_configuration, Configuration};
use crate::text::views;

verus! {

/// For a variable store to find the variables a text refers to.
pub trait Glubtastic {
    /// Catch all @variable@ references within a string
    fn globs(&self, text: &str) -> (r: Vec<String>)
        ensures
            views(r@) == spec_globs(text@),
    ;
}

impl Glubtastic for Globals {
    fn globs(&self, text: &str) -> (r: Vec<String>) {
        find_references(text)
    }
}

/// `tempfile::TempDir`, a temporary directory that is removed when dropped;
/// opaque here.
#[verifier::external_type_specification]
#[verifier::external_body]
pub struct ExTempDir(tempfile::TempDir);

/// What `url::Url::parse` gives for a text: the URL, or why it is none.
pub uninterp spec fn spec_parse_url(text: Seq<char>) -> Result<url::Url, url::ParseError>;

/// `url::Url::parse`, trusted: its result is [`spec_parse_url`] of the text,
/// which depends on the text alone. Which texts parse, and to what, is left
/// unsaid.
#[verifier::external_body]
fn parse_url(text: &str) -> (r: Result<url::Url, url::ParseError>)
    ensures
        r == spec_parse_url(text@),
{
    url::Url::parse(text)
}

/// `url::Url::clone`, trusted: the copy equals the original.
#[verifier::external_body]
fn copy_url(url: &url::Url) -> (r: url::Url)
    ensures
        r == *url,
{
    url.clone()
}

/// The path of a temporary directory. The system chose it when the
/// directory was made; from then on it is part of the directory's value.
pub uninterp spec fn spec_tempdir_path(dir: tempfile::TempDir) -> std::path::PathBuf;

/// `tempfile::TempDir::path`, as an owned path, trusted: the result is
/// [`spec_tempdir_path`] of the directory, the path it holds. Where that path
/// lies is left unsaid.
#[verifier::external_body]
fn tempdir_path(dir: &tempfile::TempDir) -> (r: std::path::PathBuf)
    ensures
        r == spec_tempdir_path(*dir),
{
    dir.path().to_path_buf()
}

/// The text a path is made of, where it is valid Unicode.
pub uninterp spec fn spec_path_text(path: std::path::PathBuf) -> Option<Seq<char>>;

/// `OsString::into_string` of the path, trusted: the text the path is made
/// of where [`spec_path_text`] gives one, else the path itself back. Which
/// paths are valid Unicode is left unsaid.
#[verifier::external_body]
fn path_text(path: std::path::PathBuf) -> (r: Result<String, std::path::PathBuf>)
    ensures
        match spec_path_text(path) {
            Some(t) => r matches Ok(s) && s@ == t,
            None => r == Err::<String, std::path::PathBuf>(path),
        },
{
    path.into_os_string().into_string().map_err(std::path::PathBuf::from)
}

/// Collects what a template run needs: where the template comes from, the
/// directory it is fetched into and the way it is fetched.
#[derive(Debug)]
pub struct ManageBuilder {
    remote: Option<url::Url>,
    temporary: Option<tempfile::TempDir>,
    method: Option<Method>,
}

impl ManageBuilder {
    pub closed spec fn has_remote(&self) -> bool {
        self.remote is Some
    }

    pub closed spec fn has_temporary(&self) -> bool {
        self.temporary is Some
    }

    pub closed spec fn has_method(&self) -> bool {
        self.method is Some
    }

    /// The address known so far.
    pub closed spec fn remote_of(&self) -> Option<url::Url> {
        self.remote
    }

    /// The temporary directory known so far.
    pub closed spec fn temporary_of(&self) -> Option<tempfile::TempDir> {
        self.temporary
    }

    /// The way of fetching known so far.
    pub closed spec fn method_of(&self) -> Option<Method> {
        self.method
    }

    /// A builder that knows nothing yet.
    pub fn new() -> (r: ManageBuilder)
        ensures
            !r.has_remote() && !r.has_temporary() && !r.has_method(),
    {
        ManageBuilder { remote: None, temporary: None, method: None }
    }

    /// The builder with the temporary directory to fetch into.
    pub fn tempdir(self, temporary: tempfile::TempDir) -> (r: ManageBuilder)
        ensures
            r.has_temporary(),
            r.has_remote() == self.has_remote(),
            r.has_method() == self.has_method(),
            r.remote_of() == self.remote_of() && r.method_of() == self.method_of()
                && r.temporary_of() == Some(temporary),
    {
        ManageBuilder { remote: self.remote, temporary: Some(temporary), method: self.method }
    }

    /// The builder with the template's address; an error where `url` is no
    /// URL.
    pub fn source(self, url: &str) -> (r: Result<ManageBuilder, BleurError>)
        ensures
            match spec_parse_url(url@) {
                Ok(u) => r matches Ok(b) && b.remote_of() == Some(u) && b.temporary_of()
                    == self.temporary_of() && b.method_of() == self.method_of(),
                Err(e) => r matches Err(BleurError::UrlError(f)) && f == e,
            },
    {
        match parse_url(url) {
            Ok(l) => Ok(ManageBuilder { temporary: self.temporary, method: self.method, remote: Some(l) }),
            Err(e) => Err(BleurError::UrlError(e)),
        }
    }

    /// The builder with the way of fetching `method` names, fetching the
    /// address into the temporary directory (replacing any earlier way); an
    /// error where the address or the temporary directory is not known yet,
    /// or where the directory's path is not valid Unicode.
    pub fn fetch_method<T: Methodical>(self, method: T) -> (r: Result<ManageBuilder, BleurError>)
        ensures
            !(self.has_remote() && self.has_temporary()) ==> r matches Err(
                BleurError::InsufficientArgumentsToDecide,
            ),
            self.has_remote() && self.has_temporary() ==> match spec_path_text(
                spec_tempdir_path(self.temporary_of()->0),
            ) {
                None => r matches Err(BleurError::InvalidFilePath(p)) && p == spec_tempdir_path(
                    self.temporary_of()->0,
                ),
                Some(text) => r matches Ok(b) && b.remote_of() == self.remote_of()
                    && b.temporary_of() == self.temporary_of() && exists|p: String|
                    p@ == text && b.method_of() == Some(
                        method.spec_to_method(self.remote_of()->0, p),
                    ),
            },
    {
        if self.temporary.is_none() || self.remote.is_none() {
            return Err(BleurError::InsufficientArgumentsToDecide);
        }
        let destination = self.temporary.unwrap();
        let remote = self.remote.unwrap();
        let path = match path_text(tempdir_path(&destination)) {
            Ok(text) => text,
            Err(p) => {
                return Err(BleurError::InvalidFilePath(p));
            },
        };
        let ghost chosen = path;
        let way = method.to_method(copy_url(&remote), path);
        assert(way == method.spec_to_method(remote, chosen));
        Ok(ManageBuilder { method: Some(way), remote: Some(remote), temporary: Some(destination) })
    }

    /// Whether everything a run needs is known.
    pub fn ready(&self) -> (r: bool)
        ensures
            r == (self.has_remote() && self.has_temporary() && self.has_method()),
    {
        self.remote.is_some() && self.temporary.is_some() && self.method.is_some()
    }

    /// The run, once everything it needs is known.
    pub fn build(self) -> (r: Result<Manager, BleurError>)
        requires
            self.has_remote() && self.has_temporary() && self.has_method(),
        ensures
            r matches Ok(m) && Some(m.remote_of()) == self.remote_of() && Some(m.temporary_of())
                == self.temporary_of() && Some(m.method_of()) == self.method_of()
                && m.variables() == Map::<Seq<char>, Seq<char>>::empty() && is_default_configuration(
                m.configuration(),
            ),
    {
        Ok(Manager::new(self.remote.unwrap(), self.temporary.unwrap(), self.method.unwrap()))
    }
}

impl Default for ManageBuilder {
    fn default() -> (r: ManageBuilder)
        ensures
            !r.has_remote() && !r.has_temporary() && !r.has_method(),
    {
        ManageBuilder::new()
    }
}

/// A template run: the fetched repository, the template found in it and the
/// variables given so far.
#[derive(Debug)]
pub struct Manager {
    remote: url::Url,
    temporary: tempfile::TempDir,
    method: Method,
    template: Configuration,
    globals: Globals,
}

impl Manager {
    /// The variables given so far.
    pub closed spec fn variables(&self) -> Map<Seq<char>, Seq<char>> {
        self.globals@
    }

    /// The configuration found so far.
    pub closed spec fn configuration(&self) -> Configuration {
        self.template
    }

    /// The repository's address.
    pub closed spec fn remote_of(&self) -> url::Url {
        self.remote
    }

    /// The directory the repository is fetched into.
    pub closed spec fn temporary_of(&self) -> tempfile::TempDir {
        self.temporary
    }

    /// The way the repository is fetched.
    pub closed spec fn method_of(&self) -> Method {
        self.method
    }

    /// A run of fetching `remote` into `temporary` by `method`, with no
    /// template found and no variable given yet.
    pub fn new(remote: url::Url, temporary: tempfile::TempDir, method: Method) -> (r: Manager)
        ensures
            r.remote_of() == remote && r.temporary_of() == temporary && r.method_of() == method,
            r.variables() == Map::<Seq<char>, Seq<char>>::empty(),
            is_default_configuration(r.configuration()),
    {
        Manager {
            remote,
            temporary,
            method,
            template: Configuration::default(),
            globals: Globals::new(),
        }
    }

    /// The way the repository is fetched.
    pub fn method(&self) -> (r: &Method)
        ensures
            *r == self.method_of(),
    {
        &self.method
    }

    /// The repository's address.
    pub fn remote(&self) -> (r: &url::Url)
        ensures
            *r == self.remote_of(),
    {
        &self.remote
    }

    /// The path of the temporary directory the repository is fetched into
    /// (for a run built by [`ManageBuilder`], its text is the directory of
    /// the way of fetching).
    pub fn temporary_path(&self) -> (r: std::path::PathBuf)
        ensures
            r == spec_tempdir_path(self.temporary_of()),
    {
        tempdir_path(&self.temporary)
    }

    /// The run with the configuration found in the repository.
    pub fn parse(self, configuration: Configuration) -> (r: Manager)
        ensures
            r.configuration() == configuration,
            r.variables() == self.variables(),
            r.remote_of() == self.remote_of() && r.temporary_of() == self.temporary_of()
                && r.method_of() == self.method_of(),
    {
        Manager {
            template: configuration,
            remote: self.remote,
            temporary: self.temporary,
            method: self.method,
            globals: self.globals,
        }
    }

    /// The tasks of the template, in the order they are to be done; an
    /// error where the configuration is no template.
    pub fn evaluate(&self) -> (r: Result<Vec<Task>, BleurError>)
        ensures
            match self.configuration() {
                Configuration::Template(t) => r matches Ok(tasks) && are_tasks_of(t, tasks@),
                Configuration::Collections(_) => r matches Err(BleurError::TemplateIsInvalid),
            },
    {
        match &self.template {
            Configuration::Template(t) => Ok(t.computable()),
            Configuration::Collections(_) => Err(BleurError::TemplateIsInvalid),
        }
    }

    /// Executes one task against the run's variables (see [`Task::execute`]).
    pub fn compute(&mut self, task: &Task, answer: Option<String>) -> (r: Result<Action, BleurError>)
        requires
            task.can_execute(),
        ensures
            task.execute_post(old(self).variables(), final(self).variables(), answer, r),
            final(self).configuration() == old(self).configuration(),
            final(self).remote_of() == old(self).remote_of(),
            final(self).temporary_of() == old(self).temporary_of(),
            final(self).method_of() == old(self).method_of(),
    {
        task.execute(&mut self.globals, answer)
    }

    /// Executes one task against the run's variables where it can be carried
    /// out (see [`Manager::compute`]); `None`, with the run unchanged, where it
    /// is a variable whose pattern does not compile.
    pub fn try_compute(&mut self, task: &Task, answer: Option<String>) -> (r: Option<
        Result<Action, BleurError>,
    >)
        ensures
            r is None <==> !task.can_execute(),
            r is None ==> *final(self) == *old(self),
            r matches Some(x) ==> task.execute_post(
                old(self).variables(),
                final(self).variables(),
                answer,
                x,
            ),
            final(self).configuration() == old(self).configuration(),
            final(self).remote_of() == old(self).remote_of(),
            final(self).temporary_of() == old(self).temporary_of(),
            final(self).method_of() == old(self).method_of(),
    {
        if task.is_executable() {
            Some(self.compute(task, answer))
        } else {
            None
        }
    }

    /// The directory of the template to copy; an error where the
    /// configuration is no template.
    pub fn template_path(&self) -> (r: Result<String, BleurError>)
        ensures
            match self.configuration() {
                Configuration::Template(t) => r matches Ok(p) && p@ == t.path@,
                Configuration::Collections(_) => r matches Err(BleurError::TemplateIsInvalid),
            },
    {
        match &self.template {
            Configuration::Template(t) => Ok(t.path.clone()),
            Configuration::Collections(_) => Err(BleurError::TemplateIsInvalid),
        }
    }
}

} // verus!
