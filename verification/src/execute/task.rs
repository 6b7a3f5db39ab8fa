//! One unit of work of a template, and the order the units are done in.
use core::cmp::Ordering;
use vstd::prelude::*;
use vstd::std_specs::cmp::PartialOrdSpec;

use crate::error::BleurError;
use crate::globals::Globals;
use crate::schemes::template::prelude::{change::Change, relocation::Move, variable::Variable};

verus! {

/// What the caller is to do for a task, outside the library.
#[derive(Debug, Clone, PartialEq, Eq)]
pub enum Action {
    /// Ask the user this question, offering `default`; check each answer with
    /// [`Variable::validate`] and execute the task again with the answer.
    Ask { message: String, default: String },
    /// The answer does not pass the variable's pattern: show this message
    /// (or a standard one) and ask again.
    Refused(Option<String>),
    /// Nothing is left to do.
    Done,
    /// In the file at `path`, replace every occurrence of `placeholder` with
    /// `replacement`.
    Rewrite { path: String, placeholder: String, replacement: String },
    /// Move the file at `from` to `to`.
    Relocate { from: String, to: String },
}

/// Turns a piece of a template, read from the directory `path`, into a task.
pub trait ToTask {
    fn to_task(self, path: &str) -> Task;
}

/// One unit of work of a template.
#[derive(PartialEq, Eq, Debug)]
pub enum Task {
    /// Ask for global variables
    Variable(Variable),
    /// Change content in a file
    Change(Change),
    /// Move a file from a place to place
    Move(Move),
}

/// The rank of a task in the order of work: variables first, then changes,
/// then moves.
pub open spec fn spec_index(task: Task) -> u8 {
    match task {
        Task::Variable(_) => 1,
        Task::Change(_) => 2,
        Task::Move(_) => 3,
    }
}

impl Task {
    /// The outcome of an execution of the task: `before` and `after` are the
    /// variables, `answer` what the user typed, if anything.
    pub open spec fn execute_post(
        &self,
        before: Map<Seq<char>, Seq<char>>,
        after: Map<Seq<char>, Seq<char>>,
        answer: Option<String>,
        r: Result<Action, BleurError>,
    ) -> bool {
        match self {
            Task::Variable(v) => r matches Ok(a) && v.execute_post(before, after, answer, a),
            Task::Change(c) => after == before && c.execute_post(before, r),
            Task::Move(m) => after == before && m.execute_post(before, r),
        }
    }

    /// The task can be carried out: it is no variable whose pattern does not
    /// compile.
    pub open spec fn can_execute(&self) -> bool {
        self matches Task::Variable(v) ==> v.pattern_compiles()
    }

    /// Whether the task can be carried out (see [`Task::can_execute`]).
    pub fn is_executable(&self) -> (r: bool)
        ensures
            r == self.can_execute(),
    {
        match self {
            Task::Variable(v) => v.check_pattern(),
            _ => true,
        }
    }

    /// Carries the task out as far as the library can: a variable asks for or
    /// records its value, a change and a move work out what is to be done
    /// with which file.
    pub fn execute(&self, global: &mut Globals, answer: Option<String>) -> (r: Result<
        Action,
        BleurError,
    >)
        requires
            self.can_execute(),
        ensures
            self.execute_post(old(global)@, final(global)@, answer, r),
    {
        match self {
            Task::Variable(v) => Ok(v.execute(global, answer)),
            Task::Change(c) => c.execute(global),
            Task::Move(m) => m.execute(global),
        }
    }

    /// Ordering whether what to perform after what
    fn index(&self) -> (r: u8)
        ensures
            r == spec_index(*self),
    {
        match self {
            Task::Variable(_) => 1,
            Task::Change(_) => 2,
            Task::Move(_) => 3,
        }
    }
}

/// How two tasks compare in the order of work: by rank alone.
pub open spec fn work_order(a: Task, b: Task) -> Ordering {
    if spec_index(a) < spec_index(b) {
        Ordering::Less
    } else if spec_index(a) == spec_index(b) {
        Ordering::Equal
    } else {
        Ordering::Greater
    }
}

impl PartialOrd for Task {
    fn partial_cmp(&self, other: &Self) -> (r: Option<Ordering>) {
        let a = self.index();
        let b = other.index();
        if a < b {
            Some(Ordering::Less)
        } else if a == b {
            Some(Ordering::Equal)
        } else {
            Some(Ordering::Greater)
        }
    }
}

impl vstd::std_specs::cmp::PartialOrdSpecImpl for Task {
    open spec fn obeys_partial_cmp_spec() -> bool {
        true
    }

    open spec fn partial_cmp_spec(&self, other: &Self) -> Option<Ordering> {
        Some(work_order(*self, *other))
    }
}

/// The order of work is a total preorder: any two tasks compare, a task is
/// never before itself, and being no later is transitive.
pub proof fn law_order_total_preorder(a: Task, b: Task, c: Task)
    ensures
        work_order(a, a) == Ordering::Equal,
        work_order(a, b) == Ordering::Less <==> work_order(b, a) == Ordering::Greater,
        work_order(a, b) == Ordering::Equal <==> work_order(b, a) == Ordering::Equal,
        work_order(a, b) != Ordering::Greater && work_order(b, c) != Ordering::Greater
            ==> work_order(a, c) != Ordering::Greater,
        work_order(a, b) == Ordering::Less && work_order(b, c) != Ordering::Greater
            ==> work_order(a, c) == Ordering::Less,
{
}

/// Tasks compare by kind alone: two tasks of the same kind are equal in the
/// order of work whatever they hold, variables come before changes, and
/// changes before moves.
pub proof fn law_order_by_kind(a: Task, b: Task)
    ensures
        (a is Variable && b is Variable) || (a is Change && b is Change) || (a is Move && b is Move)
            ==> work_order(a, b) == Ordering::Equal && a.partial_cmp_spec(&b) == Some(
            Ordering::Equal,
        ),
        (a is Variable && !(b is Variable)) ==> work_order(a, b) == Ordering::Less
            && a.partial_cmp_spec(&b) == Some(Ordering::Less),
        (a is Change && b is Move) ==> work_order(a, b) == Ordering::Less && a.partial_cmp_spec(&b)
            == Some(Ordering::Less),
        (a is Move && !(b is Move)) ==> work_order(a, b) == Ordering::Greater
            && a.partial_cmp_spec(&b) == Some(Ordering::Greater),
{
}

} // verus!
