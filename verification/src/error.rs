//! What can go wrong while preparing a template.
use vstd::prelude::*;

verus! {

/// `url::ParseError`, the reason a URL does not parse; opaque here.
#[verifier::external_type_specification]
#[verifier::external_body]
pub struct ExUrlParseError(url::ParseError);

/// `regex::Error`, the reason a pattern does not compile; opaque here.
#[verifier::external_type_specification]
#[verifier::external_body]
pub struct ExRegexError(regex::Error);

/// `std::path::PathBuf`, a path of the file system; opaque here.
#[verifier::external_type_specification]
#[verifier::external_body]
pub struct ExPathBuf(std::path::PathBuf);

/// The errors that the library's own decisions give.
#[derive(Debug)]
pub enum BleurError {
    /// The template's address is no URL.
    UrlError(url::ParseError),
    /// A fetching method was asked for before the address and the
    /// temporary directory were known.
    InsufficientArgumentsToDecide,
    /// The repository holds no valid `bleur.toml`.
    NoTemplateConfiguration,
    /// The chosen name is not one of the collection's templates.
    NoSuchTemplateInCollection,
    /// A collection was found where a template was expected.
    TemplateIsInvalid,
    /// A path that the library cannot take as text.
    InvalidFilePath(std::path::PathBuf),
    /// A variable's validation pattern does not compile.
    InvalidRegex(regex::Error),
    /// A value refers to a variable that holds no value.
    NoSuchVariable(String),
    /// Collections nested deeper than the library follows.
    AintNoWayThisDeepCollection(u8),
}

} // verus!
