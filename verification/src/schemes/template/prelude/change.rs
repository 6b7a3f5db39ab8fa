//! A change of a placeholder in one file of the template.
use vstd::prelude::*;

use crate::error::BleurError;
use crate::execute::task::{Action, Task, ToTask};
use crate::globals::{
    is_name, law_fill_defined, law_fill_reference, spec_fill, spec_globs, spec_reference, Globals,
};
use crate::schemes::template::apply::{spec_apply, spec_parse, Apply};
use crate::text::{join_path, spec_path_join};

verus! {

/// Replace a placeholder in a file with a value computed from the variables.
#[derive(Debug, Clone, PartialEq, Eq, PartialOrd, Ord)]
pub struct Change {
    /// Catch phrase or word to locate
    pub placeholder: String,
    /// Where the file is located
    pub source: String,
    /// Computable value which might contain global variables
    pub value: String,
    /// Functions to apply on value
    pub apply: String,
}

impl Change {
    /// A copy of this change.
    pub fn duplicate(&self) -> (r: Change)
        ensures
            r == *self,
    {
        Change {
            placeholder: self.placeholder.clone(),
            source: self.source.clone(),
            value: self.value.clone(),
            apply: self.apply.clone(),
        }
    }

    /// The text that replaces the placeholder: the value with its variables
    /// filled in, then the `apply` functions applied to it.
    pub open spec fn spec_replacement(&self, values: Map<Seq<char>, Seq<char>>) -> Result<
        Seq<char>,
        Seq<char>,
    > {
        match spec_fill(self.value@, values) {
            Ok(v) => Ok(spec_apply(spec_parse(self.apply@), v)),
            Err(name) => Err(name),
        }
    }

    /// What executing this change with the variables `values` gives.
    pub open spec fn execute_post(
        &self,
        values: Map<Seq<char>, Seq<char>>,
        r: Result<Action, BleurError>,
    ) -> bool {
        match self.spec_replacement(values) {
            Err(name) => r matches Err(BleurError::NoSuchVariable(n)) && n@ == name,
            Ok(text) => r matches Ok(Action::Rewrite { path, placeholder, replacement }) && path@
                == self.source@ && placeholder@ == self.placeholder@ && replacement@ == text,
        }
    }

    /// Works out the rewrite of the file: every occurrence of the placeholder
    /// is to be replaced with the computed value. A variable that holds no
    /// value is an error.
    pub fn execute(&self, global: &Globals) -> (r: Result<Action, BleurError>)
        ensures
            self.execute_post(global@, r),
    {
        match global.fill(self.value.as_str()) {
            Err(name) => Err(BleurError::NoSuchVariable(name)),
            Ok(change) => {
                let applications = Apply::parse(self.apply.as_str());
                let replacement = applications.execute(change.as_str());
                Ok(
                    Action::Rewrite {
                        path: self.source.clone(),
                        placeholder: self.placeholder.clone(),
                        replacement,
                    },
                )
            },
        }
    }
}

impl Change {
    /// Whether `task` is this change as read from the directory `path`: its
    /// file taken relative to `path`.
    pub open spec fn is_task_of(&self, path: Seq<char>, task: Task) -> bool {
        task matches Task::Change(c) && c.placeholder == self.placeholder && c.value == self.value
            && c.apply == self.apply && c.source@ == spec_path_join(path, self.source@)
    }
}

impl ToTask for Change {
    fn to_task(self, path: &str) -> (r: Task)
        ensures
            self.is_task_of(path@, r),
    {
        let source = join_path(path, self.source.as_str());
        Task::Change(
            Change { placeholder: self.placeholder, source, value: self.value, apply: self.apply },
        )
    }
}

/// A change whose value is just a reference to a variable puts in, once the
/// user has answered for that variable, the answer with the change's
/// functions applied.
pub proof fn law_answer_fills_change(
    change: Change,
    variable: Seq<char>,
    before: Map<Seq<char>, Seq<char>>,
    answer: Seq<char>,
)
    requires
        is_name(variable),
        change.value@ == spec_reference(variable),
    ensures
        change.spec_replacement(before.insert(variable, answer)) == Ok::<Seq<char>, Seq<char>>(
            spec_apply(spec_parse(change.apply@), answer),
        ),
{
    law_fill_reference(variable, answer, before.insert(variable, answer));
}

/// A change can be made exactly when every variable its value refers to has
/// a value; otherwise the variable it reports is one of those without.
pub proof fn law_change_defined(change: Change, values: Map<Seq<char>, Seq<char>>)
    ensures
        change.spec_replacement(values) is Ok <==> forall|i: int|
            0 <= i < spec_globs(change.value@).len() ==> values.contains_key(
                #[trigger] spec_globs(change.value@)[i],
            ),
        change.spec_replacement(values) matches Err(n) ==> spec_globs(change.value@).contains(n)
            && !values.contains_key(n),
{
    law_fill_defined(change.value@, values);
}

/// Whatever its value looks like, a change whose value fills in to `v` puts
/// in `v` passed through every function of its apply list, in the file and
/// at the placeholder it names; one whose value refers to a variable
/// without a value reports that variable.
pub proof fn law_change_applies_functions(
    change: Change,
    values: Map<Seq<char>, Seq<char>>,
    r: Result<Action, BleurError>,
)
    requires
        change.execute_post(values, r),
    ensures
        spec_fill(change.value@, values) matches Ok(v) ==> (r matches Ok(
            Action::Rewrite { path, placeholder, replacement },
        ) && replacement@ == spec_apply(spec_parse(change.apply@), v) && path@ == change.source@
            && placeholder@ == change.placeholder@),
        spec_fill(change.value@, values) matches Err(n) ==> (r matches Err(
            BleurError::NoSuchVariable(m),
        ) && m@ == n),
{
}

/// Reading a change from a directory keeps its placeholder, value and
/// apply list, and takes its file relative to the directory; so the task
/// puts in what the change itself would.
pub proof fn law_change_task_keeps_change(
    change: Change,
    path: Seq<char>,
    task: Task,
    values: Map<Seq<char>, Seq<char>>,
)
    requires
        change.is_task_of(path, task),
    ensures
        task matches Task::Change(d) && d.placeholder == change.placeholder && d.value
            == change.value && d.apply == change.apply && d.source@ == spec_path_join(
            path,
            change.source@,
        ),
        task matches Task::Change(d) && spec_fill(d.value@, values) == spec_fill(
            change.value@,
            values,
        ) && spec_parse(d.apply@) == spec_parse(change.apply@),
{
}

} // verus!
