//! The functions that a change applies to its value, written in the
//! template as a comma-separated list such as `"uppercase,lowercase"`.
use vstd::prelude::*;

use crate::text::{
    ascii_lower, ascii_lowercase, ascii_upper, ascii_uppercase, is_ascii_text,
    lemma_split_nonempty, spec_lowercase, spec_split, spec_uppercase, split_on, to_lowercase,
    to_uppercase,
};

verus! {

/// One function of an `apply` list.
#[derive(Debug, Clone, Copy, PartialEq, Eq, Structural)]
pub enum Instructions {
    /// Make whole value uppercase
    Uppercase,
    /// Make whole value lowercase
    Lowercase,
    /// If the function name is not recognized
    Unknown,
}

/// The instruction that a (lower-cased) function name stands for.
pub open spec fn spec_instruction(lowered: Seq<char>) -> Instructions {
    if lowered == "uppercase"@ {
        Instructions::Uppercase
    } else if lowered == "lowercase"@ {
        Instructions::Lowercase
    } else {
        Instructions::Unknown
    }
}

/// The instruction that a function name stands for, whatever its case.
pub open spec fn spec_instruction_of(name: Seq<char>) -> Instructions {
    spec_instruction(spec_lowercase(name))
}

/// What one instruction does to a value.
pub open spec fn spec_step(instruction: Instructions, value: Seq<char>) -> Seq<char> {
    match instruction {
        Instructions::Uppercase => spec_uppercase(value),
        Instructions::Lowercase => spec_lowercase(value),
        Instructions::Unknown => value,
    }
}

/// The instructions applied to a value one after the other, first to last.
pub open spec fn spec_apply(instructions: Seq<Instructions>, value: Seq<char>) -> Seq<char>
    decreases instructions.len(),
{
    if instructions.len() == 0 {
        value
    } else {
        spec_step(instructions.last(), spec_apply(instructions.drop_last(), value))
    }
}

/// The instructions that an `apply` list holds, one per comma-separated piece.
pub open spec fn spec_parse(input: Seq<char>) -> Seq<Instructions> {
    spec_split(input, ',').map_values(|name: Seq<char>| spec_instruction_of(name))
}

impl Instructions {
    /// The instruction that `value` names, compared without regard to case.
    pub fn from_name(value: &str) -> (r: Instructions)
        ensures
            r == spec_instruction_of(value@),
    {
        let lowered = to_lowercase(value);
        if lowered == String::from_str("uppercase") {
            Instructions::Uppercase
        } else if lowered == String::from_str("lowercase") {
            Instructions::Lowercase
        } else {
            Instructions::Unknown
        }
    }
}

impl<'a> From<&'a str> for Instructions {
    fn from(value: &'a str) -> (r: Instructions) {
        Instructions::from_name(value)
    }
}

impl<'a> vstd::std_specs::convert::FromSpecImpl<&'a str> for Instructions {
    open spec fn obeys_from_spec() -> bool {
        true
    }

    open spec fn from_spec(value: &'a str) -> Instructions {
        spec_instruction_of(value@)
    }
}

/// A list of functions to apply to a value.
pub struct Apply(Vec<Instructions>);

impl View for Apply {
    type V = Seq<Instructions>;

    closed spec fn view(&self) -> Seq<Instructions> {
        self.0@
    }
}

impl Apply {
    /// Reads a comma-separated list of function names; names that are not
    /// known become [`Instructions::Unknown`].
    pub fn parse(input: &str) -> (r: Apply)
        ensures
            r@ == spec_parse(input@),
    {
        let names = split_on(input, ',');
        let ghost pieces = spec_split(input@, ',');
        let mut instructions: Vec<Instructions> = Vec::new();
        let mut k: usize = 0;
        while k < names.len()
            invariant
                k <= names@.len(),
                pieces.len() == names@.len(),
                forall|j: int| 0 <= j < names@.len() ==> #[trigger] pieces[j] == names@[j]@,
                instructions@ =~= pieces.take(k as int).map_values(
                    |name: Seq<char>| spec_instruction_of(name),
                ),
            decreases names@.len() - k,
        {
            let instruction = Instructions::from(names[k].as_str());
            instructions.push(instruction);
            k = k + 1;
        }
        assert(pieces.take(names@.len() as int) =~= pieces);
        Apply(instructions)
    }

    /// The value after every function of the list, first to last.
    pub fn execute(&self, input: &str) -> (r: String)
        ensures
            r@ == spec_apply(self@, input@),
    {
        let mut current = String::from_str(input);
        let mut k: usize = 0;
        assert(self.0@.take(0) =~= Seq::<Instructions>::empty());
        while k < self.0.len()
            invariant
                k <= self.0@.len(),
                current@ == spec_apply(self.0@.take(k as int), input@),
            decreases self.0@.len() - k,
        {
            assert(self.0@.take(k + 1).drop_last() =~= self.0@.take(k as int));
            current = match self.0[k] {
                Instructions::Uppercase => to_uppercase(current.as_str()),
                Instructions::Lowercase => to_lowercase(current.as_str()),
                Instructions::Unknown => current,
            };
            k = k + 1;
        }
        assert(self.0@.take(self.0@.len() as int) =~= self.0@);
        current
    }
}

proof fn lemma_split_concat(x: Seq<char>, y: Seq<char>, sep: char)
    ensures
        spec_split(x + seq![sep] + y, sep) == spec_split(x, sep) + spec_split(y, sep),
    decreases y.len(),
{
    let s = x + seq![sep] + y;
    if y.len() == 0 {
        assert(s.drop_last() =~= x);
        assert(spec_split(x, sep).push(Seq::empty()) =~= spec_split(x, sep) + seq![
            Seq::<char>::empty(),
        ]);
    } else {
        let yd = y.drop_last();
        lemma_split_concat(x, yd, sep);
        lemma_split_nonempty(yd, sep);
        assert(s.drop_last() =~= x + seq![sep] + yd);
        assert(s.last() == y.last());
        let p = spec_split(x, sep);
        let q = spec_split(yd, sep);
        if y.last() == sep {
            assert((p + q).push(Seq::empty()) =~= p + q.push(Seq::empty()));
        } else {
            assert((p + q).update((p + q).len() - 1, (p + q).last().push(y.last())) =~= p
                + q.update(q.len() - 1, q.last().push(y.last())));
        }
    }
}

proof fn lemma_apply_concat(a: Seq<Instructions>, b: Seq<Instructions>, value: Seq<char>)
    ensures
        spec_apply(a + b, value) == spec_apply(b, spec_apply(a, value)),
    decreases b.len(),
{
    if b.len() == 0 {
        assert(a + b =~= a);
    } else {
        lemma_apply_concat(a, b.drop_last(), value);
        assert((a + b).drop_last() =~= a + b.drop_last());
        assert((a + b).last() == b.last());
    }
}

/// Functions listed after a comma are applied after those listed before
/// it: `x,y` does what `x` does, then what `y` does.
pub proof fn law_apply_sequence(x: Seq<char>, y: Seq<char>, value: Seq<char>)
    ensures
        spec_apply(spec_parse(x + seq![','] + y), value) == spec_apply(
            spec_parse(y),
            spec_apply(spec_parse(x), value),
        ),
{
    lemma_split_concat(x, y, ',');
    let f = |name: Seq<char>| spec_instruction_of(name);
    assert((spec_split(x, ',') + spec_split(y, ',')).map_values(f) =~= spec_split(x, ',').map_values(
        f,
    ) + spec_split(y, ',').map_values(f));
    lemma_apply_concat(spec_parse(x), spec_parse(y), value);
}

/// Names that stand for no function leave the value as it is.
pub proof fn law_unknown_is_identity(instructions: Seq<Instructions>, value: Seq<char>)
    requires
        forall|i: int| 0 <= i < instructions.len() ==> instructions[i] == Instructions::Unknown,
    ensures
        spec_apply(instructions, value) == value,
    decreases instructions.len(),
{
    if instructions.len() > 0 {
        law_unknown_is_identity(instructions.drop_last(), value);
    }
}

/// The last function of a list that is known (`Unknown` where none is).
pub open spec fn spec_last_known(instructions: Seq<Instructions>) -> Instructions
    decreases instructions.len(),
{
    if instructions.len() == 0 {
        Instructions::Unknown
    } else if instructions.last() != Instructions::Unknown {
        instructions.last()
    } else {
        spec_last_known(instructions.drop_last())
    }
}

proof fn lemma_ascii_cases(s: Seq<char>)
    requires
        is_ascii_text(s),
    ensures
        is_ascii_text(ascii_uppercase(s)),
        is_ascii_text(ascii_lowercase(s)),
        ascii_uppercase(ascii_uppercase(s)) == ascii_uppercase(s),
        ascii_uppercase(ascii_lowercase(s)) == ascii_uppercase(s),
        ascii_lowercase(ascii_lowercase(s)) == ascii_lowercase(s),
        ascii_lowercase(ascii_uppercase(s)) == ascii_lowercase(s),
{
    let up = ascii_uppercase(s);
    let low = ascii_lowercase(s);
    assert forall|i: int| 0 <= i < s.len() implies {
        &&& (ascii_upper(s[i]) as u32) < 128
        &&& (ascii_lower(s[i]) as u32) < 128
        &&& ascii_upper(ascii_upper(s[i])) == ascii_upper(s[i])
        &&& ascii_upper(ascii_lower(s[i])) == ascii_upper(s[i])
        &&& ascii_lower(ascii_lower(s[i])) == ascii_lower(s[i])
        &&& ascii_lower(ascii_upper(s[i])) == ascii_lower(s[i])
    } by {
        assert((s[i] as u32) < 128);
    }
    assert(ascii_uppercase(up) =~= up);
    assert(ascii_uppercase(low) =~= up);
    assert(ascii_lowercase(low) =~= low);
    assert(ascii_lowercase(up) =~= low);
}

/// On ASCII text a list of functions does what its last known function
/// does (nothing where it has none), and the value stays ASCII.
pub proof fn law_apply_ascii(instructions: Seq<Instructions>, value: Seq<char>)
    requires
        is_ascii_text(value),
    ensures
        spec_apply(instructions, value) == spec_step(spec_last_known(instructions), value),
        is_ascii_text(spec_apply(instructions, value)),
    decreases instructions.len(),
{
    lemma_ascii_cases(value);
    if instructions.len() > 0 {
        law_apply_ascii(instructions.drop_last(), value);
    }
}

/// On ASCII text, applying a list of functions twice does what applying it
/// once does.
pub proof fn law_apply_idempotent(instructions: Seq<Instructions>, value: Seq<char>)
    requires
        is_ascii_text(value),
    ensures
        spec_apply(instructions, spec_apply(instructions, value)) == spec_apply(
            instructions,
            value,
        ),
{
    law_apply_ascii(instructions, value);
    let once = spec_apply(instructions, value);
    law_apply_ascii(instructions, once);
    lemma_ascii_cases(value);
}

/// A function name is recognised whatever its case: it stands for
/// `Lowercase` exactly where its lower-case form is `lowercase`, for
/// `Uppercase` exactly where that form is `uppercase`, and for nothing
/// otherwise.
pub proof fn law_instruction_case_insensitive(name: Seq<char>)
    ensures
        (spec_instruction_of(name) == Instructions::Lowercase) <==> spec_lowercase(name)
            == "lowercase"@,
        (spec_instruction_of(name) == Instructions::Uppercase) <==> spec_lowercase(name)
            == "uppercase"@,
        (spec_instruction_of(name) == Instructions::Unknown) <==> (spec_lowercase(name)
            != "lowercase"@ && spec_lowercase(name) != "uppercase"@),
{
    reveal_strlit("lowercase");
    reveal_strlit("uppercase");
    assert("lowercase"@[0] != "uppercase"@[0]);
}

/// Two names with the same lower-case form stand for the same function.
pub proof fn law_instruction_same_lowercase(a: Seq<char>, b: Seq<char>)
    requires
        spec_lowercase(a) == spec_lowercase(b),
    ensures
        spec_instruction_of(a) == spec_instruction_of(b),
{
    law_instruction_case_insensitive(a);
    law_instruction_case_insensitive(b);
}

/// A list without a comma names one function: the one its whole text
/// names.
pub proof fn law_parse_single(input: Seq<char>)
    requires
        forall|i: int| 0 <= i < input.len() ==> input[i] != ',',
    ensures
        spec_parse(input) == seq![spec_instruction_of(input)],
    decreases input.len(),
{
    lemma_split_single(input);
    assert(spec_split(input, ',').map_values(|name: Seq<char>| spec_instruction_of(name))
        =~= seq![spec_instruction_of(input)]);
}

proof fn lemma_split_single(s: Seq<char>)
    requires
        forall|i: int| 0 <= i < s.len() ==> s[i] != ',',
    ensures
        spec_split(s, ',') == seq![s],
    decreases s.len(),
{
    if s.len() > 0 {
        let d = s.drop_last();
        lemma_split_single(d);
        assert(d.push(s.last()) =~= s);
        assert(s.last() != ',');
        assert(seq![d].update(0, d.push(s.last())) =~= seq![s]);
    } else {
        assert(s =~= Seq::<char>::empty());
    }
}

} // verus!
