//! A file of the template to be moved, whose new name may hold variables.
use vstd::prelude::*;

use crate::error::BleurError;
use crate::execute::task::{Action, Task, ToTask};
use crate::globals::{law_no_references, spec_fill, Globals};
use crate::text::{join_path, spec_path_join};

verus! {

/// Move a file from one place to another; both places may refer to
/// variables as `@name@`.
#[derive(Debug, Clone, PartialEq, Eq, PartialOrd, Ord)]
pub struct Move {
    /// Where the file is
    pub from: String,
    /// Where the file goes
    pub to: String,
}

impl Move {
    /// A copy of this move.
    pub fn duplicate(&self) -> (r: Move)
        ensures
            r == *self,
    {
        Move { from: self.from.clone(), to: self.to.clone() }
    }

    /// What executing this move with the variables `values` gives: both
    /// places with their variables filled in, or the first variable (of
    /// `from`, then of `to`) that holds no value.
    pub open spec fn execute_post(
        &self,
        values: Map<Seq<char>, Seq<char>>,
        r: Result<Action, BleurError>,
    ) -> bool {
        match (spec_fill(self.from@, values), spec_fill(self.to@, values)) {
            (Err(name), _) => r matches Err(BleurError::NoSuchVariable(n)) && n@ == name,
            (Ok(_), Err(name)) => r matches Err(BleurError::NoSuchVariable(n)) && n@ == name,
            (Ok(f), Ok(t)) => r matches Ok(Action::Relocate { from, to }) && from@ == f && to@
                == t,
        }
    }

    /// Works out where the file moves from and to.
    pub fn execute(&self, global: &Globals) -> (r: Result<Action, BleurError>)
        ensures
            self.execute_post(global@, r),
    {
        let from = match global.fill(self.from.as_str()) {
            Ok(f) => f,
            Err(name) => {
                return Err(BleurError::NoSuchVariable(name));
            },
        };
        match global.fill(self.to.as_str()) {
            Ok(to) => Ok(Action::Relocate { from, to }),
            Err(name) => Err(BleurError::NoSuchVariable(name)),
        }
    }
}

impl Move {
    /// Whether `task` is this move as read from the directory `path`: both
    /// places taken relative to `path`.
    pub open spec fn is_task_of(&self, path: Seq<char>, task: Task) -> bool {
        task matches Task::Move(m) && m.from@ == spec_path_join(path, self.from@) && m.to@
            == spec_path_join(path, self.to@)
    }
}

impl ToTask for Move {
    fn to_task(self, path: &str) -> (r: Task)
        ensures
            self.is_task_of(path@, r),
    {
        let from = join_path(path, self.from.as_str());
        let to = join_path(path, self.to.as_str());
        Task::Move(Move { from, to })
    }
}

/// A move fills in both of its places: where `from` fills in to `f` and
/// `to` to `t`, the file moves from `f` to `t`; a variable without a value
/// in `from` (checked first) or in `to` is reported.
pub proof fn law_move_fills_both(
    m: Move,
    values: Map<Seq<char>, Seq<char>>,
    r: Result<Action, BleurError>,
)
    requires
        m.execute_post(values, r),
    ensures
        spec_fill(m.from@, values) matches Ok(f) ==> (spec_fill(m.to@, values) matches Ok(t) ==> (
        r matches Ok(Action::Relocate { from, to }) && from@ == f && to@ == t)),
        spec_fill(m.from@, values) matches Err(n) ==> (r matches Err(BleurError::NoSuchVariable(k))
            && k@ == n),
        spec_fill(m.from@, values) is Ok ==> (spec_fill(m.to@, values) matches Err(n) ==> (
        r matches Err(BleurError::NoSuchVariable(k)) && k@ == n)),
{
}

/// A move whose places refer to no variable moves the file from and to
/// exactly the places written.
pub proof fn law_move_plain(m: Move, values: Map<Seq<char>, Seq<char>>, r: Result<Action, BleurError>)
    requires
        m.execute_post(values, r),
        forall|i: int| 0 <= i < m.from@.len() ==> m.from@[i] != '@',
        forall|i: int| 0 <= i < m.to@.len() ==> m.to@[i] != '@',
    ensures
        r matches Ok(Action::Relocate { from, to }) && from@ == m.from@ && to@ == m.to@,
{
    law_no_references(m.from@, values);
    law_no_references(m.to@, values);
}

} // verus!
