//! The global variables of a template run, and the `@name@` references to
//! them that template values contain.
use vstd::prelude::*;

use crate::manager::Glubtastic;
use crate::text::{chars_of, occurs_at, replace_all, spec_replace, string_of, views};

verus! {

// ---------------------------------------------------------------------------
// The variable store
// ---------------------------------------------------------------------------

/// The map that an association list denotes: later entries win.
pub open spec fn map_of(entries: Seq<(String, String)>) -> Map<Seq<char>, Seq<char>>
    decreases entries.len(),
{
    if entries.len() == 0 {
        Map::empty()
    } else {
        map_of(entries.drop_last()).insert(entries.last().0@, entries.last().1@)
    }
}

/// No variable name occurs twice.
pub open spec fn keys_distinct(entries: Seq<(String, String)>) -> bool {
    forall|i: int, j: int|
        0 <= i < entries.len() && 0 <= j < entries.len() && i != j ==> entries[i].0@
            != entries[j].0@
}

proof fn lemma_map_of_dom(entries: Seq<(String, String)>, k: Seq<char>)
    ensures
        map_of(entries).dom().contains(k) <==> exists|i: int|
            0 <= i < entries.len() && entries[i].0@ == k,
    decreases entries.len(),
{
    if entries.len() > 0 {
        let init = entries.drop_last();
        lemma_map_of_dom(init, k);
        if map_of(entries).dom().contains(k) {
            if k == entries.last().0@ {
                assert(entries[entries.len() - 1].0@ == k);
            } else {
                let i = choose|i: int| 0 <= i < init.len() && init[i].0@ == k;
                assert(entries[i].0@ == k);
            }
        }
        if exists|i: int| 0 <= i < entries.len() && entries[i].0@ == k {
            let i = choose|i: int| 0 <= i < entries.len() && entries[i].0@ == k;
            if i < entries.len() - 1 {
                assert(init[i].0@ == k);
            }
        }
    }
}

proof fn lemma_map_of_value(entries: Seq<(String, String)>, i: int)
    requires
        keys_distinct(entries),
        0 <= i < entries.len(),
    ensures
        map_of(entries).dom().contains(entries[i].0@),
        map_of(entries)[entries[i].0@] == entries[i].1@,
    decreases entries.len(),
{
    let init = entries.drop_last();
    if i < entries.len() - 1 {
        assert(keys_distinct(init)) by {
            assert forall|a: int, b: int|
                0 <= a < init.len() && 0 <= b < init.len() && a != b implies init[a].0@
                != init[b].0@ by {
                assert(init[a] == entries[a] && init[b] == entries[b]);
            }
        }
        lemma_map_of_value(init, i);
        assert(entries[i].0@ != entries[entries.len() - 1].0@);
    }
}

proof fn lemma_map_of_update(entries: Seq<(String, String)>, i: int, e: (String, String))
    requires
        keys_distinct(entries),
        0 <= i < entries.len(),
        entries[i].0@ == e.0@,
    ensures
        map_of(entries.update(i, e)) == map_of(entries).insert(e.0@, e.1@),
        keys_distinct(entries.update(i, e)),
    decreases entries.len(),
{
    let upd = entries.update(i, e);
    let init = entries.drop_last();
    let last = entries.last();
    if i == entries.len() - 1 {
        assert(upd.drop_last() =~= init);
        assert(map_of(upd) =~= map_of(entries).insert(e.0@, e.1@));
    } else {
        assert(keys_distinct(init)) by {
            assert forall|a: int, b: int|
                0 <= a < init.len() && 0 <= b < init.len() && a != b implies init[a].0@
                != init[b].0@ by {
                assert(init[a] == entries[a] && init[b] == entries[b]);
            }
        }
        lemma_map_of_update(init, i, e);
        assert(upd.drop_last() =~= init.update(i, e));
        assert(upd.last() == last);
        assert(last.0@ != e.0@) by {
            assert(entries[entries.len() - 1].0@ != entries[i].0@);
        }
        assert(map_of(upd) =~= map_of(entries).insert(e.0@, e.1@));
    }
    assert forall|a: int, b: int|
        0 <= a < upd.len() && 0 <= b < upd.len() && a != b implies upd[a].0@ != upd[b].0@ by {
        assert(upd[a].0@ == entries[a].0@ && upd[b].0@ == entries[b].0@);
    }
}

/// The values that the variables of a template run hold, by name.
#[derive(Debug)]
pub struct Globals {
    entries: Vec<(String, String)>,
}

impl View for Globals {
    type V = Map<Seq<char>, Seq<char>>;

    closed spec fn view(&self) -> Map<Seq<char>, Seq<char>> {
        map_of(self.entries@)
    }
}

impl Globals {
    #[verifier::type_invariant]
    spec fn well_formed(self) -> bool {
        keys_distinct(self.entries@)
    }

    /// A store that holds no variable.
    pub fn new() -> (r: Globals)
        ensures
            r@ == Map::<Seq<char>, Seq<char>>::empty(),
    {
        Globals { entries: Vec::new() }
    }

    /// Where `key` is held, its position.
    fn position(&self, key: &String) -> (r: Option<usize>)
        ensures
            r matches Some(i) ==> i < self.entries@.len() && self.entries@[i as int].0@ == key@,
            r is None ==> forall|i: int|
                0 <= i < self.entries@.len() ==> self.entries@[i].0@ != key@,
    {
        let mut i: usize = 0;
        while i < self.entries.len()
            invariant
                i <= self.entries@.len(),
                forall|j: int| 0 <= j < i ==> self.entries@[j].0@ != key@,
            decreases self.entries@.len() - i,
        {
            if self.entries[i].0 == *key {
                return Some(i);
            }
            i = i + 1;
        }
        None
    }

    /// The value of variable `key`, where it is held.
    pub fn get(&self, key: &str) -> (r: Option<&String>)
        ensures
            r is Some <==> self@.contains_key(key@),
            r matches Some(v) ==> v@ == self@[key@],
    {
        proof {
            use_type_invariant(self);
        }
        let k = String::from_str(key);
        match self.position(&k) {
            Some(i) => {
                proof {
                    lemma_map_of_value(self.entries@, i as int);
                }
                Some(&self.entries[i].1)
            },
            None => {
                proof {
                    lemma_map_of_dom(self.entries@, key@);
                }
                None
            },
        }
    }

    /// Gives variable `key` the value `value`; returns the value it held
    /// before, if any.
    pub fn insert(&mut self, key: String, value: String) -> (r: Option<String>)
        ensures
            final(self)@ == old(self)@.insert(key@, value@),
            r is Some <==> old(self)@.contains_key(key@),
            r matches Some(v) ==> v@ == old(self)@[key@],
    {
        proof {
            use_type_invariant(&*self);
        }
        let ghost before = self.entries@;
        match self.position(&key) {
            Some(i) => {
                proof {
                    lemma_map_of_value(before, i as int);
                    lemma_map_of_update(before, i as int, (key, value));
                }
                let previous = self.entries[i].1.clone();
                let mut entries: Vec<(String, String)> = Vec::new();
                std::mem::swap(&mut entries, &mut self.entries);
                entries.set(i, (key, value));
                self.entries = entries;
                Some(previous)
            },
            None => {
                proof {
                    lemma_map_of_dom(before, key@);
                    assert(before.push((key, value)).drop_last() =~= before);
                }
                let mut entries: Vec<(String, String)> = Vec::new();
                std::mem::swap(&mut entries, &mut self.entries);
                entries.push((key, value));
                self.entries = entries;
                None
            },
        }
    }

    /// The number of variables held.
    pub fn len(&self) -> (r: usize)
        ensures
            r == self@.len(),
    {
        proof {
            use_type_invariant(self);
            lemma_map_of_len(self.entries@);
        }
        self.entries.len()
    }
}

proof fn lemma_map_of_len(entries: Seq<(String, String)>)
    requires
        keys_distinct(entries),
    ensures
        map_of(entries).dom().finite(),
        map_of(entries).len() == entries.len(),
    decreases entries.len(),
{
    if entries.len() > 0 {
        let init = entries.drop_last();
        assert(keys_distinct(init)) by {
            assert forall|a: int, b: int|
                0 <= a < init.len() && 0 <= b < init.len() && a != b implies init[a].0@
                != init[b].0@ by {
                assert(init[a] == entries[a] && init[b] == entries[b]);
            }
        }
        lemma_map_of_len(init);
        lemma_map_of_dom(init, entries.last().0@);
        assert(!map_of(init).dom().contains(entries.last().0@)) by {
            if map_of(init).dom().contains(entries.last().0@) {
                let i = choose|i: int| 0 <= i < init.len() && init[i].0@ == entries.last().0@;
                assert(entries[i].0@ == entries[entries.len() - 1].0@);
            }
        }
    }
}


// ---------------------------------------------------------------------------
// References to variables: `@name@`
// ---------------------------------------------------------------------------

/// The characters a variable name is made of: ASCII letters and digits, `-`
/// and `_`.
pub open spec fn is_name_char(c: char) -> bool {
    ('a' <= c && c <= 'z') || ('A' <= c && c <= 'Z') || ('0' <= c && c <= '9') || c == '-'
        || c == '_'
}

/// The length of the run of name characters that `s` starts with.
pub open spec fn name_run(s: Seq<char>) -> nat
    decreases s.len(),
{
    if s.len() > 0 && is_name_char(s[0]) {
        1 + name_run(s.skip(1))
    } else {
        0
    }
}

/// The length of the reference `@name@` that `s` starts with (a non-empty
/// name between two `@`), or 0 where `s` starts with none.
pub open spec fn reference_len(s: Seq<char>) -> nat {
    let run = name_run(s.skip(1));
    if s.len() > 0 && s[0] == '@' && run > 0 && run + 1 < s.len() && s[run + 1int] == '@' {
        run + 2
    } else {
        0
    }
}

/// The names of the references in `s`, found from left to right without
/// overlap (what the pattern `@([a-zA-Z0-9-_]+)@` captures).
pub open spec fn spec_globs(s: Seq<char>) -> Seq<Seq<char>>
    decreases s.len(),
{
    if s.len() == 0 {
        Seq::empty()
    } else if reference_len(s) > 0 {
        seq![s.subrange(1, reference_len(s) - 1)] + spec_globs(s.skip(reference_len(s) as int))
    } else {
        spec_globs(s.skip(1))
    }
}

/// The reference to variable `name` as it is written in a text.
pub open spec fn spec_reference(name: Seq<char>) -> Seq<char> {
    seq!['@'] + name + seq!['@']
}

/// `text` with the references to `names` replaced, one name after the other,
/// by the values the variables hold; or the first name that holds no value.
pub open spec fn spec_substitute(
    text: Seq<char>,
    names: Seq<Seq<char>>,
    values: Map<Seq<char>, Seq<char>>,
) -> Result<Seq<char>, Seq<char>>
    decreases names.len(),
{
    if names.len() == 0 {
        Ok(text)
    } else if !values.contains_key(names[0]) {
        Err(names[0])
    } else {
        spec_substitute(
            spec_replace(text, spec_reference(names[0]), values[names[0]]),
            names.drop_first(),
            values,
        )
    }
}

/// `text` with every variable it refers to filled in.
pub open spec fn spec_fill(text: Seq<char>, values: Map<Seq<char>, Seq<char>>) -> Result<
    Seq<char>,
    Seq<char>,
> {
    spec_substitute(text, spec_globs(text), values)
}

fn is_name_char_exec(c: char) -> (r: bool)
    ensures
        r == is_name_char(c),
{
    ('a' <= c && c <= 'z') || ('A' <= c && c <= 'Z') || ('0' <= c && c <= '9') || c == '-'
        || c == '_'
}

proof fn lemma_name_run(t: Seq<char>, m: int)
    requires
        0 <= m <= t.len(),
        forall|k: int| 0 <= k < m ==> is_name_char(#[trigger] t[k]),
        m == t.len() || !is_name_char(t[m]),
    ensures
        name_run(t) == m,
    decreases m,
{
    if m > 0 {
        let u = t.skip(1);
        assert forall|k: int| 0 <= k < m - 1 implies is_name_char(#[trigger] u[k]) by {
            assert(u[k] == t[k + 1]);
        }
        if m - 1 < u.len() {
            assert(u[m - 1] == t[m]);
        }
        lemma_name_run(u, m - 1);
    }
}

/// The names of the references in `text`, in order (see [`spec_globs`]).
pub fn find_references(text: &str) -> (r: Vec<String>)
    ensures
        views(r@) == spec_globs(text@),
{
    let sv = chars_of(text);
    let n = sv.len();
    let mut names: Vec<String> = Vec::new();
    let mut i: usize = 0;
    assert(sv@.skip(0) =~= sv@);
    while i < n
        invariant
            n == sv@.len(),
            i <= n,
            spec_globs(sv@) == views(names@) + spec_globs(sv@.skip(i as int)),
        decreases n - i,
    {
        let ghost t = sv@.skip(i as int);
        assert(t[0] == sv@[i as int]);
        assert(t.skip(1) =~= sv@.skip(i + 1));
        let mut found = false;
        if sv[i] == '@' {
            let mut j = i + 1;
            while j < n && is_name_char_exec(sv[j])
                invariant
                    n == sv@.len(),
                    i < n,
                    i + 1 <= j <= n,
                    forall|k: int| i + 1 <= k < j ==> is_name_char(#[trigger] sv@[k]),
                decreases n - j,
            {
                j = j + 1;
            }
            proof {
                let u = sv@.skip(i + 1);
                let m = j - (i + 1);
                assert forall|k: int| 0 <= k < m implies is_name_char(#[trigger] u[k]) by {
                    assert(u[k] == sv@[i + 1 + k]);
                }
                if m < u.len() {
                    assert(u[m] == sv@[j as int]);
                }
                lemma_name_run(u, m);
            }
            if j > i + 1 && j < n && sv[j] == '@' {
                let name = string_of(&sv, i + 1, j);
                proof {
                    assert(reference_len(t) == j - i + 1);
                    assert(t.subrange(1, reference_len(t) - 1) =~= sv@.subrange(i + 1, j as int));
                    assert(t.skip(reference_len(t) as int) =~= sv@.skip(j + 1));
                    let before = views(names@);
                    assert(views(names@.push(name)) =~= before.push(name@));
                    assert(before + (seq![name@] + spec_globs(sv@.skip(j + 1))) =~= before.push(
                        name@,
                    ) + spec_globs(sv@.skip(j + 1)));
                }
                names.push(name);
                i = j + 1;
                found = true;
            }
        }
        if !found {
            assert(reference_len(t) == 0);
            i = i + 1;
        }
    }
    assert(sv@.skip(n as int) =~= Seq::<char>::empty());
    assert(views(names@) + Seq::<Seq<char>>::empty() =~= views(names@));
    names
}

/// The reference to variable `name`: `@name@`.
fn reference_to(name: &String) -> (r: String)
    ensures
        r@ == spec_reference(name@),
{
    let mut r = String::from_str("@");
    r.append(name.as_str());
    r.append("@");
    proof {
        reveal_strlit("@");
    }
    assert(r@ =~= spec_reference(name@));
    r
}

impl Globals {
    /// `text` with every `@name@` reference replaced by the value of variable
    /// `name`, one name after the other in the order they occur; `Err` with
    /// the first name that holds no value.
    pub fn fill(&self, text: &str) -> (r: Result<String, String>)
        ensures
            match r {
                Ok(s) => spec_fill(text@, self@) == Ok::<Seq<char>, Seq<char>>(s@),
                Err(name) => spec_fill(text@, self@) == Err::<Seq<char>, Seq<char>>(name@),
            },
    {
        let names = self.globs(text);
        let ghost all = views(names@);
        let mut current = String::from_str(text);
        let mut k: usize = 0;
        assert(all.skip(0) =~= all);
        while k < names.len()
            invariant
                all == views(names@),
                k <= names@.len(),
                spec_fill(text@, self@) == spec_substitute(current@, all.skip(k as int), self@),
            decreases names@.len() - k,
        {
            let ghost rest = all.skip(k as int);
            assert(rest[0] == names@[k as int]@);
            assert(rest.drop_first() =~= all.skip(k + 1));
            match self.get(names[k].as_str()) {
                Some(value) => {
                    let pattern = reference_to(&names[k]);
                    current = replace_all(current.as_str(), pattern.as_str(), value.as_str());
                },
                None => {
                    return Err(names[k].clone());
                },
            }
            k = k + 1;
        }
        Ok(current)
    }
}

// ---------------------------------------------------------------------------
// Laws
// ---------------------------------------------------------------------------

/// After [`Globals::insert`] of `key` and `value` (which turns `before`
/// into `after`), [`Globals::get`] of `key` gives `value`, and every other
/// variable reads as it did before.
pub proof fn law_read_after_write(
    before: Globals,
    after: Globals,
    key: Seq<char>,
    value: Seq<char>,
    other: Seq<char>,
)
    requires
        after@ == before@.insert(key, value),
    ensures
        after@.contains_key(key),
        after@[key] == value,
        other != key ==> after@.contains_key(other) == before@.contains_key(other),
        other != key && before@.contains_key(other) ==> after@[other] == before@[other],
{
}

proof fn lemma_occurs_shift(s: Seq<char>, pat: Seq<char>, k: int, j: int)
    requires
        0 <= k <= s.len(),
        occurs_at(s.skip(k), pat, j),
    ensures
        occurs_at(s, pat, j + k),
{
    assert(s.subrange(j + k, j + k + pat.len()) =~= s.skip(k).subrange(j, j + pat.len()));
}

/// Whether `text` holds the reference `@name@` somewhere.
pub open spec fn holds_reference(text: Seq<char>, name: Seq<char>) -> bool {
    exists|j: int| occurs_at(text, spec_reference(name), j)
}

/// Every name found in a text occurs in it as a reference `@name@`.
pub proof fn law_reference_occurs(text: Seq<char>)
    ensures
        forall|i: int|
            0 <= i < spec_globs(text).len() ==> holds_reference(text, #[trigger] spec_globs(text)[i]),
    decreases text.len(),
{
    if text.len() > 0 {
        let len = reference_len(text);
        let found = spec_globs(text);
        if len > 0 {
            let rest = text.skip(len as int);
            law_reference_occurs(rest);
            let name = text.subrange(1, len - 1);
            assert(found == seq![name] + spec_globs(rest));
            assert(occurs_at(text, spec_reference(name), 0)) by {
                assert(text.subrange(0, len as int) =~= spec_reference(name));
            }
            assert forall|i: int| 0 <= i < found.len() implies holds_reference(
                text,
                #[trigger] found[i],
            ) by {
                if i == 0 {
                    assert(found[0] == name);
                } else {
                    assert(found[i] == spec_globs(rest)[i - 1]);
                    assert(holds_reference(rest, spec_globs(rest)[i - 1]));
                    let j = choose|j: int|
                        #[trigger] occurs_at(rest, spec_reference(spec_globs(rest)[i - 1]), j);
                    lemma_occurs_shift(text, spec_reference(found[i]), len as int, j);
                }
            }
        } else {
            let rest = text.skip(1);
            law_reference_occurs(rest);
            assert(found == spec_globs(rest));
            assert forall|i: int| 0 <= i < found.len() implies holds_reference(
                text,
                #[trigger] found[i],
            ) by {
                assert(holds_reference(rest, found[i]));
                let j = choose|j: int| #[trigger] occurs_at(rest, spec_reference(found[i]), j);
                lemma_occurs_shift(text, spec_reference(found[i]), 1, j);
            }
        }
    }
}

/// A text without `@` refers to no variable, and filling it in leaves it as
/// it is.
pub proof fn law_no_references(text: Seq<char>, values: Map<Seq<char>, Seq<char>>)
    requires
        forall|i: int| 0 <= i < text.len() ==> text[i] != '@',
    ensures
        spec_globs(text) == Seq::<Seq<char>>::empty(),
        spec_fill(text, values) == Ok::<Seq<char>, Seq<char>>(text),
    decreases text.len(),
{
    if text.len() > 0 {
        let rest = text.skip(1);
        assert forall|i: int| 0 <= i < rest.len() implies rest[i] != '@' by {
            assert(rest[i] == text[i + 1]);
        }
        law_no_references(rest, values);
        assert(reference_len(text) == 0);
    }
}

/// Substituting a list of names succeeds exactly where every name holds a
/// value; where it fails, it names one of the listed names that holds none.
pub proof fn law_substitute_defined(
    text: Seq<char>,
    names: Seq<Seq<char>>,
    values: Map<Seq<char>, Seq<char>>,
)
    ensures
        spec_substitute(text, names, values) is Ok <==> forall|i: int|
            0 <= i < names.len() ==> values.contains_key(#[trigger] names[i]),
        spec_substitute(text, names, values) matches Err(n) ==> exists|i: int|
            0 <= i < names.len() && names[i] == n && !values.contains_key(n),
    decreases names.len(),
{
    if names.len() > 0 {
        let rest = names.drop_first();
        if values.contains_key(names[0]) {
            let next = spec_replace(text, spec_reference(names[0]), values[names[0]]);
            law_substitute_defined(next, rest, values);
            assert forall|i: int| 0 <= i < rest.len() implies rest[i] == names[i + 1] by {}
            if spec_substitute(text, names, values) is Ok {
                assert forall|i: int| 0 <= i < names.len() implies values.contains_key(
                    #[trigger] names[i],
                ) by {
                    if i > 0 {
                        assert(names[i] == rest[i - 1]);
                    }
                }
            }
            if let Err(n) = spec_substitute(text, names, values) {
                let j = choose|j: int| 0 <= j < rest.len() && rest[j] == n && !values.contains_key(n);
                assert(names[j + 1] == n);
            }
        } else {
            assert(!values.contains_key(names[0]));
        }
    }
}

/// Filling in a text succeeds exactly where every variable it refers to
/// holds a value.
pub proof fn law_fill_defined(text: Seq<char>, values: Map<Seq<char>, Seq<char>>)
    ensures
        spec_fill(text, values) is Ok <==> forall|i: int|
            0 <= i < spec_globs(text).len() ==> values.contains_key(#[trigger] spec_globs(text)[i]),
        spec_fill(text, values) matches Err(n) ==> spec_globs(text).contains(n)
            && !values.contains_key(n),
{
    law_substitute_defined(text, spec_globs(text), values);
    if let Err(n) = spec_fill(text, values) {
        let i = choose|i: int|
            0 <= i < spec_globs(text).len() && spec_globs(text)[i] == n && !values.contains_key(n);
        assert(spec_globs(text)[i] == n);
    }
}

proof fn lemma_name_run_chars(s: Seq<char>)
    ensures
        name_run(s) <= s.len(),
        forall|k: int| 0 <= k < name_run(s) ==> is_name_char(#[trigger] s[k]),
    decreases s.len(),
{
    if s.len() > 0 && is_name_char(s[0]) {
        let rest = s.skip(1);
        lemma_name_run_chars(rest);
        assert forall|k: int| 0 <= k < name_run(s) implies is_name_char(#[trigger] s[k]) by {
            if k > 0 {
                assert(s[k] == rest[k - 1]);
            }
        }
    }
}

/// Whether `s` can name a variable: a non-empty run of name characters.
pub open spec fn is_name(s: Seq<char>) -> bool {
    s.len() > 0 && forall|k: int| 0 <= k < s.len() ==> is_name_char(#[trigger] s[k])
}

/// Every name found in a text can name a variable.
pub proof fn law_reference_names(text: Seq<char>)
    ensures
        forall|i: int| 0 <= i < spec_globs(text).len() ==> is_name(#[trigger] spec_globs(text)[i]),
    decreases text.len(),
{
    if text.len() > 0 {
        let len = reference_len(text);
        if len > 0 {
            let rest = text.skip(len as int);
            law_reference_names(rest);
            let name = text.subrange(1, len - 1);
            let after = text.skip(1);
            lemma_name_run_chars(after);
            assert forall|k: int| 0 <= k < name.len() implies is_name_char(#[trigger] name[k]) by {
                assert(name[k] == after[k]);
            }
            assert(is_name(name));
            let found = spec_globs(text);
            assert(found == seq![name] + spec_globs(rest));
            assert forall|i: int| 0 <= i < found.len() implies is_name(#[trigger] found[i]) by {
                if i > 0 {
                    assert(found[i] == spec_globs(rest)[i - 1]);
                }
            }
        } else {
            law_reference_names(text.skip(1));
            assert(spec_globs(text) == spec_globs(text.skip(1)));
        }
    }
}

/// A value that is just a reference to a variable fills in to that
/// variable's value.
pub proof fn law_fill_reference(
    name: Seq<char>,
    value: Seq<char>,
    values: Map<Seq<char>, Seq<char>>,
)
    requires
        is_name(name),
        values.contains_key(name),
        values[name] == value,
    ensures
        spec_fill(spec_reference(name), values) == Ok::<Seq<char>, Seq<char>>(value),
{
    let text = spec_reference(name);
    let after = text.skip(1);
    assert forall|k: int| 0 <= k < name.len() implies is_name_char(#[trigger] after[k]) by {
        assert(after[k] == name[k]);
    }
    assert(after[name.len() as int] == '@');
    lemma_name_run(after, name.len() as int);
    assert(reference_len(text) == text.len());
    assert(text.subrange(1, text.len() - 1) =~= name);
    assert(text.skip(text.len() as int) =~= Seq::<char>::empty());
    assert(spec_globs(Seq::<char>::empty()) == Seq::<Seq<char>>::empty());
    assert(text.len() > 0);
    assert(reference_len(text) > 0);
    assert(spec_globs(text) == seq![text.subrange(1, reference_len(text) - 1)] + spec_globs(
        text.skip(reference_len(text) as int),
    ));
    assert(spec_globs(text) =~= seq![name]);
    assert(occurs_at(text, text, 0)) by {
        assert(text.subrange(0, text.len() as int) =~= text);
    }
    assert(spec_replace(text, text, value) =~= value + spec_replace(
        Seq::<char>::empty(),
        text,
        value,
    ));
    assert(spec_replace(Seq::<char>::empty(), text, value) == Seq::<char>::empty());
    assert(spec_replace(text, text, value) =~= value);
    assert(seq![name].drop_first() =~= Seq::<Seq<char>>::empty());
    assert(seq![name][0] == name);
    assert(spec_substitute(value, Seq::<Seq<char>>::empty(), values) == Ok::<
        Seq<char>,
        Seq<char>,
    >(value));
    assert(spec_substitute(text, seq![name], values) == spec_substitute(
        spec_replace(text, text, value),
        seq![name].drop_first(),
        values,
    ));
}

} // verus!
