//! A global variable whose value the user is asked for.
use vstd::prelude::*;

use crate::error::BleurError;
use crate::execute::task::{Action, Task, ToTask};
use crate::globals::Globals;
use crate::text::copy_option;

verus! {

/// `regex::Regex`, a compiled regular expression; opaque here.
#[verifier::external_type_specification]
#[verifier::external_body]
pub struct ExRegex(regex::Regex);

/// What `regex::Regex::new` gives for a pattern: the compiled expression, or
/// why the pattern does not compile.
pub uninterp spec fn spec_compile_regex(pattern: Seq<char>) -> Result<regex::Regex, regex::Error>;

/// `regex::Regex::new`, trusted: its result is [`spec_compile_regex`] of the
/// pattern, which depends on the pattern alone. Which patterns compile is
/// left unsaid.
#[verifier::external_body]
fn compile_regex(pattern: &str) -> (r: Result<regex::Regex, regex::Error>)
    ensures
        r == spec_compile_regex(pattern@),
{
    regex::Regex::new(pattern)
}

/// Whether a compiled expression matches somewhere in a text.
pub uninterp spec fn spec_regex_is_match(re: regex::Regex, haystack: Seq<char>) -> bool;

/// `regex::Regex::is_match`, trusted: its result is [`spec_regex_is_match`]
/// of the expression and the text. What an expression matches is left
/// unsaid.
#[verifier::external_body]
fn regex_is_match(re: &regex::Regex, haystack: &str) -> (r: bool)
    ensures
        r == spec_regex_is_match(*re, haystack@),
{
    re.is_match(haystack)
}

/// The verdict on an answer the user typed.
#[derive(Debug, Clone, PartialEq, Eq)]
pub enum Validation {
    /// The answer is accepted.
    Valid,
    /// The answer is refused; the message to show, if the template gives one.
    Invalid(Option<String>),
}

/// A variable of the template that the user gives a value.
#[derive(Debug, Clone, PartialEq, Eq, PartialOrd, Ord)]
pub struct Variable {
    /// Variable to make use of in names of files while moving
    pub variable: String,
    /// Default value to be picked up
    pub default: String,
    /// Question to ask from user to get value
    pub message: String,
    /// Regex for validating user input
    pub pattern: Option<String>,
    /// Input validation feedback for user
    pub pattern_error: Option<String>,
}

impl Variable {
    /// The variable has no pattern, or one that compiles.
    pub open spec fn pattern_compiles(&self) -> bool {
        self.pattern matches Some(p) ==> spec_compile_regex(p@) is Ok
    }

    /// Whether the variable has no pattern or one that compiles.
    pub fn check_pattern(&self) -> (r: bool)
        ensures
            r == self.pattern_compiles(),
    {
        match &self.pattern {
            None => true,
            Some(p) => compile_regex(p.as_str()).is_ok(),
        }
    }

    /// A copy of this variable.
    pub fn duplicate(&self) -> (r: Variable)
        ensures
            r == *self,
    {
        Variable {
            variable: self.variable.clone(),
            default: self.default.clone(),
            message: self.message.clone(),
            pattern: copy_option(&self.pattern),
            pattern_error: copy_option(&self.pattern_error),
        }
    }

    /// Whether the variable takes `input` as its value: where it has no
    /// pattern, always; else where its compiled pattern matches somewhere in
    /// the input.
    pub open spec fn accepts(&self, input: Seq<char>) -> bool {
        match self.pattern {
            None => true,
            Some(p) => match spec_compile_regex(p@) {
                Ok(re) => spec_regex_is_match(re, input),
                Err(_) => false,
            },
        }
    }

    /// What executing this variable with `answer` does: without an answer the
    /// user is to be asked; an answer that the variable accepts becomes its
    /// value, any other is refused with the variable's message.
    pub open spec fn execute_post(
        &self,
        before: Map<Seq<char>, Seq<char>>,
        after: Map<Seq<char>, Seq<char>>,
        answer: Option<String>,
        r: Action,
    ) -> bool {
        match answer {
            None => {
                &&& after == before
                &&& r matches Action::Ask { message, default }
                &&& message@ == self.message@
                &&& default@ == self.default@
            },
            Some(a) => if self.accepts(a@) {
                &&& after == before.insert(self.variable@, a@)
                &&& r is Done
            } else {
                &&& after == before
                &&& r == Action::Refused(self.pattern_error)
            },
        }
    }

    /// Without an answer: the question to ask the user. With one: checks it
    /// as [`Variable::validate`] does and records it as the variable's value,
    /// or refuses it. A pattern that does not compile is left out: there is
    /// no question to ask.
    pub fn execute(&self, global: &mut Globals, answer: Option<String>) -> (r: Action)
        requires
            self.pattern_compiles(),
        ensures
            self.execute_post(old(global)@, final(global)@, answer, r),
    {
        match answer {
            None => Action::Ask { message: self.message.clone(), default: self.default.clone() },
            Some(a) => match self.validate(a.as_str()) {
                Ok(Validation::Valid) => {
                    global.insert(self.variable.clone(), a);
                    Action::Done
                },
                Ok(Validation::Invalid(message)) => Action::Refused(message),
                Err(_) => {
                    proof {
                        assert(false);
                    }
                    Action::Refused(None)
                },
            },
        }
    }

    /// Whether the user's answer `input` is accepted: always where the
    /// variable has no pattern, else where the pattern matches somewhere in
    /// it. An invalid pattern is an error.
    pub fn validate(&self, input: &str) -> (r: Result<Validation, BleurError>)
        ensures
            r is Err <==> !self.pattern_compiles(),
            r matches Ok(v) ==> (v == Validation::Valid <==> self.accepts(input@)),
            match self.pattern {
                None => r == Ok::<Validation, BleurError>(Validation::Valid),
                Some(p) => match spec_compile_regex(p@) {
                    Err(e) => r matches Err(BleurError::InvalidRegex(f)) && f == e,
                    Ok(re) => if spec_regex_is_match(re, input@) {
                        r == Ok::<Validation, BleurError>(Validation::Valid)
                    } else {
                        r == Ok::<Validation, BleurError>(Validation::Invalid(self.pattern_error))
                    },
                },
            },
    {
        match &self.pattern {
            None => Ok(Validation::Valid),
            Some(p) => match compile_regex(p.as_str()) {
                Err(e) => Err(BleurError::InvalidRegex(e)),
                Ok(re) => if regex_is_match(&re, input) {
                    Ok(Validation::Valid)
                } else {
                    Ok(Validation::Invalid(copy_option(&self.pattern_error)))
                },
            },
        }
    }
}

impl ToTask for Variable {
    fn to_task(self, path: &str) -> (r: Task)
        ensures
            r == Task::Variable(self),
    {
        Task::Variable(self)
    }
}

/// What a variable does with the user's answer: without one it asks its
/// question, offering its default; an answer is taken as the variable's
/// value where the variable has no pattern or its compiled pattern matches
/// somewhere in the answer, and refused with the variable's message (the
/// variables unchanged) where the pattern does not match.
pub proof fn law_variable_answer(
    v: Variable,
    before: Map<Seq<char>, Seq<char>>,
    after: Map<Seq<char>, Seq<char>>,
    answer: Option<String>,
    r: Action,
)
    requires
        v.execute_post(before, after, answer, r),
        v.pattern_compiles(),
    ensures
        answer is None ==> after == before,
        answer is None ==> (r matches Action::Ask { message, default } && message@ == v.message@
            && default@ == v.default@),
        answer matches Some(a) ==> (v.pattern is None ==> (after == before.insert(v.variable@, a@)
            && r is Done)),
        answer matches Some(a) ==> (v.pattern matches Some(p) ==> (spec_compile_regex(p@) matches Ok(
            re,
        ) ==> (spec_regex_is_match(re, a@) ==> (after == before.insert(v.variable@, a@)
            && r is Done)))),
        answer matches Some(a) ==> (v.pattern matches Some(p) ==> (spec_compile_regex(p@) matches Ok(
            re,
        ) ==> (!spec_regex_is_match(re, a@) ==> (after == before && r == Action::Refused(
            v.pattern_error,
        ))))),
{
}

} // verus!
