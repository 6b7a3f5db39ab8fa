//! A single project template.
pub mod apply;
pub mod prelude;

use vstd::prelude::*;

use crate::execute::task::{spec_index, Task, ToTask};
use crate::text::spec_path_join;
use prelude::{
    change::{law_change_task_keeps_change, Change},
    relocation::Move,
    variable::Variable,
};

verus! {

/// A project template: where it lies and the work it asks for.
#[derive(Debug, Clone, PartialEq, Eq)]
pub struct Template {
    /// The directory the template lies in
    pub path: String,
    /// The variables to ask the user for
    pub variables: Vec<Variable>,
    /// The placeholders to replace in the template's files
    pub changes: Vec<Change>,
    /// The files to move
    pub moves: Vec<Move>,
}

impl Default for Template {
    fn default() -> (r: Template)
        ensures
            r.path@ == Seq::<char>::empty(),
            r.variables@ == Seq::<Variable>::empty(),
            r.changes@ == Seq::<Change>::empty(),
            r.moves@ == Seq::<Move>::empty(),
    {
        Template { path: String::new(), variables: Vec::new(), changes: Vec::new(), moves: Vec::new() }
    }
}

/// Whether `tasks` are the tasks of `template`, in order: every variable,
/// then every change, then every move, each read from the template's
/// directory.
pub open spec fn are_tasks_of(template: Template, tasks: Seq<Task>) -> bool {
    let nv = template.variables@.len();
    let nc = template.changes@.len();
    let nm = template.moves@.len();
    &&& tasks.len() == nv + nc + nm
    &&& forall|i: int| 0 <= i < nv ==> tasks[i] == Task::Variable(#[trigger] template.variables@[i])
    &&& forall|i: int|
        0 <= i < nc ==> (#[trigger] template.changes@[i]).is_task_of(template.path@, tasks[nv + i])
    &&& forall|i: int|
        0 <= i < nm ==> (#[trigger] template.moves@[i]).is_task_of(
            template.path@,
            tasks[nv + nc + i],
        )
}

impl Template {
    /// The same template, lying in `path`.
    pub fn with_path(self, path: String) -> (r: Template)
        ensures
            r == (Template { path, ..self }),
    {
        Template { path, variables: self.variables, changes: self.changes, moves: self.moves }
    }

    /// The directory the template lies in.
    pub fn path(&self) -> (r: &String)
        ensures
            *r == self.path,
    {
        &self.path
    }

    /// The template's tasks in the order they are to be done.
    pub fn computable(&self) -> (r: Vec<Task>)
        ensures
            are_tasks_of(*self, r@),
    {
        let nv = self.variables.len();
        let nc = self.changes.len();
        let nm = self.moves.len();
        let mut tasks: Vec<Task> = Vec::new();
        let mut i: usize = 0;
        while i < nv
            invariant
                nv == self.variables@.len(),
                i <= nv,
                tasks@.len() == i,
                forall|j: int| 0 <= j < i ==> tasks@[j] == Task::Variable(self.variables@[j]),
            decreases nv - i,
        {
            tasks.push(self.variables[i].duplicate().to_task(self.path.as_str()));
            i = i + 1;
        }
        let mut i: usize = 0;
        while i < nc
            invariant
                nv == self.variables@.len(),
                nc == self.changes@.len(),
                i <= nc,
                tasks@.len() == nv + i,
                forall|j: int| 0 <= j < nv ==> tasks@[j] == Task::Variable(self.variables@[j]),
                forall|j: int|
                    0 <= j < i ==> self.changes@[j].is_task_of(self.path@, tasks@[nv + j]),
            decreases nc - i,
        {
            tasks.push(self.changes[i].duplicate().to_task(self.path.as_str()));
            i = i + 1;
        }
        let mut i: usize = 0;
        while i < nm
            invariant
                nv == self.variables@.len(),
                nc == self.changes@.len(),
                nm == self.moves@.len(),
                i <= nm,
                tasks@.len() == nv + nc + i,
                forall|j: int| 0 <= j < nv ==> tasks@[j] == Task::Variable(self.variables@[j]),
                forall|j: int|
                    0 <= j < nc ==> self.changes@[j].is_task_of(self.path@, tasks@[nv + j]),
                forall|j: int|
                    0 <= j < i ==> self.moves@[j].is_task_of(self.path@, tasks@[nv + nc + j]),
            decreases nm - i,
        {
            tasks.push(self.moves[i].duplicate().to_task(self.path.as_str()));
            i = i + 1;
        }
        tasks
    }
}

/// The tasks of a template come in the order of work: no task comes before
/// one of lower rank (variables, then changes, then moves).
pub proof fn law_tasks_in_order(template: Template, tasks: Seq<Task>)
    requires
        are_tasks_of(template, tasks),
    ensures
        forall|i: int, j: int|
            0 <= i <= j < tasks.len() ==> spec_index(tasks[i]) <= spec_index(tasks[j]),
{
    let nv = template.variables@.len();
    let nc = template.changes@.len();
    assert forall|i: int| 0 <= i < tasks.len() implies {
        &&& (i < nv ==> spec_index(#[trigger] tasks[i]) == 1)
        &&& (nv <= i < nv + nc ==> spec_index(tasks[i]) == 2)
        &&& (nv + nc <= i ==> spec_index(tasks[i]) == 3)
    } by {
        if i < nv {
            assert(tasks[i] == Task::Variable(template.variables@[i]));
        } else if i < nv + nc {
            assert(template.changes@[i - nv].is_task_of(template.path@, tasks[nv + (i - nv)]));
        } else {
            assert(template.moves@[i - nv - nc].is_task_of(
                template.path@,
                tasks[nv + nc + (i - nv - nc)],
            ));
        }
    }
}

/// Whether `task` is a change task with the placeholder, value and apply
/// list of `change`, and its file taken relative to `path`.
pub open spec fn keeps_change(change: Change, path: Seq<char>, task: Task) -> bool {
    task matches Task::Change(d) && d.placeholder == change.placeholder && d.value == change.value
        && d.apply == change.apply && d.source@ == spec_path_join(path, change.source@)
}

/// The tasks of a template carry its variables as they are, and its changes
/// with their placeholders, values and apply lists unchanged and their
/// files taken relative to the template's directory.
pub proof fn law_tasks_keep_pieces(template: Template, tasks: Seq<Task>)
    requires
        are_tasks_of(template, tasks),
    ensures
        forall|i: int|
            0 <= i < template.variables@.len() ==> tasks[i] == Task::Variable(
                #[trigger] template.variables@[i],
            ),
        forall|i: int|
            0 <= i < template.changes@.len() ==> keeps_change(
                #[trigger] template.changes@[i],
                template.path@,
                tasks[template.variables@.len() + i],
            ),
{
    assert forall|i: int| 0 <= i < template.changes@.len() implies keeps_change(
        #[trigger] template.changes@[i],
        template.path@,
        tasks[template.variables@.len() + i],
    ) by {
        law_change_task_keeps_change(
            template.changes@[i],
            template.path@,
            tasks[template.variables@.len() + i],
            Map::empty(),
        );
    }
}

} // verus!
