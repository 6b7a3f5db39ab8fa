//! A repository that holds several templates, each under a name.
use vstd::prelude::*;

use crate::error::BleurError;
use crate::text::{join_path, spec_path_join, views};

verus! {

/// One template of a collection: its name and where it lies.
#[derive(Debug, Clone, PartialEq, Eq)]
pub struct CollectionEntry {
    /// The name the user chooses the template by
    pub name: String,
    /// The template's directory, relative to the collection's
    pub path: String,
}

impl CollectionEntry {
    /// A copy of this entry.
    pub fn duplicate(&self) -> (r: CollectionEntry)
        ensures
            r == *self,
    {
        CollectionEntry { name: self.name.clone(), path: self.path.clone() }
    }

    /// The template's directory, for a collection that lies in `base`.
    pub fn path(&self, base: &str) -> (r: String)
        ensures
            r@ == spec_path_join(base@, self.path@),
    {
        join_path(base, self.path.as_str())
    }
}

/// A collection of templates.
#[derive(Debug, Clone, PartialEq, Eq)]
pub struct Collections {
    /// The templates, in the order they are offered
    pub templates: Vec<CollectionEntry>,
}

/// The names of the entries, in order.
pub open spec fn names_of(entries: Seq<CollectionEntry>) -> Seq<Seq<char>> {
    entries.map_values(|e: CollectionEntry| e.name@)
}

/// The position of the first entry named `name`, if any.
pub open spec fn first_named(entries: Seq<CollectionEntry>, name: Seq<char>) -> Option<int> {
    if exists|i: int| 0 <= i < entries.len() && entries[i].name@ == name {
        Some(
            choose|i: int|
                0 <= i < entries.len() && entries[i].name@ == name && forall|j: int|
                    0 <= j < i ==> entries[j].name@ != name,
        )
    } else {
        None
    }
}

proof fn lemma_first_named(entries: Seq<CollectionEntry>, name: Seq<char>, i: int)
    requires
        0 <= i < entries.len(),
        entries[i].name@ == name,
        forall|j: int| 0 <= j < i ==> entries[j].name@ != name,
    ensures
        first_named(entries, name) == Some(i),
{
    let k = choose|k: int|
        0 <= k < entries.len() && entries[k].name@ == name && forall|j: int|
            0 <= j < k ==> entries[j].name@ != name;
    assert(entries[i].name@ == name && forall|j: int| 0 <= j < i ==> entries[j].name@ != name);
    if k < i {
        assert(entries[k].name@ != name);
    }
    if i < k {
        assert(entries[i].name@ != name);
    }
}

impl Collections {
    /// The names of the templates, in order.
    pub fn keys(&self) -> (r: Vec<String>)
        ensures
            views(r@) == names_of(self.templates@),
    {
        let mut names: Vec<String> = Vec::new();
        let mut i: usize = 0;
        while i < self.templates.len()
            invariant
                i <= self.templates@.len(),
                views(names@) == names_of(self.templates@.take(i as int)),
            decreases self.templates@.len() - i,
        {
            let name = self.templates[i].name.clone();
            let ghost prev = names@;
            names.push(name);
            assert(views(names@) =~= views(prev).push(name@));
            assert(names_of(self.templates@.take(i + 1)) =~= names_of(
                self.templates@.take(i as int),
            ).push(self.templates@[i as int].name@));
            i = i + 1;
        }
        assert(self.templates@.take(self.templates@.len() as int) =~= self.templates@);
        names
    }

    /// The first template named `name`, if there is one.
    pub fn select(&self, name: &str) -> (r: Option<CollectionEntry>)
        ensures
            match first_named(self.templates@, name@) {
                Some(i) => r == Some(self.templates@[i]),
                None => r is None,
            },
    {
        let wanted = String::from_str(name);
        let mut i: usize = 0;
        while i < self.templates.len()
            invariant
                wanted@ == name@,
                i <= self.templates@.len(),
                forall|j: int| 0 <= j < i ==> self.templates@[j].name@ != name@,
            decreases self.templates@.len() - i,
        {
            if self.templates[i].name == wanted {
                proof {
                    lemma_first_named(self.templates@, name@, i as int);
                }
                return Some(self.templates[i].duplicate());
            }
            i = i + 1;
        }
        None
    }

    /// The directory of the template named `choice`, for a collection that
    /// lies in `base`; an error where no template has that name.
    pub fn descend(&self, choice: &str, base: &str) -> (r: Result<String, BleurError>)
        ensures
            match first_named(self.templates@, choice@) {
                Some(i) => r matches Ok(p) && p@ == spec_path_join(
                    base@,
                    self.templates@[i].path@,
                ),
                None => r matches Err(BleurError::NoSuchTemplateInCollection),
            },
    {
        match self.select(choice) {
            Some(entry) => Ok(entry.path(base)),
            None => Err(BleurError::NoSuchTemplateInCollection),
        }
    }
}

} // verus!
