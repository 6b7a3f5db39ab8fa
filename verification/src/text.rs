//! Text operations on character sequences, each with its mathematical meaning.
use vstd::prelude::*;

verus! {

// ---------------------------------------------------------------------------
// Specifications
// ---------------------------------------------------------------------------

/// `rep` before every character of `s` and once more at its end: what
/// replacing the empty pattern does.
pub open spec fn spec_interleave(s: Seq<char>, rep: Seq<char>) -> Seq<char>
    decreases s.len(),
{
    if s.len() == 0 {
        rep
    } else {
        rep + seq![s[0]] + spec_interleave(s.skip(1), rep)
    }
}

/// Whether `pat` occurs in `s` starting at position `i`.
pub open spec fn occurs_at(s: Seq<char>, pat: Seq<char>, i: int) -> bool {
    0 <= i && i + pat.len() <= s.len() && s.subrange(i, i + pat.len()) == pat
}

/// Every non-overlapping occurrence of `pat` in `s`, found from left to right,
/// replaced by `rep`.
pub open spec fn spec_replace(s: Seq<char>, pat: Seq<char>, rep: Seq<char>) -> Seq<char>
    decreases s.len(),
{
    if pat.len() == 0 {
        spec_interleave(s, rep)
    } else if s.len() == 0 {
        s
    } else if occurs_at(s, pat, 0) {
        rep + spec_replace(s.skip(pat.len() as int), pat, rep)
    } else {
        seq![s[0]] + spec_replace(s.skip(1), pat, rep)
    }
}

/// The pieces of `s` between the occurrences of `sep`, in order; there is
/// always one piece more than there are separators.
pub open spec fn spec_split(s: Seq<char>, sep: char) -> Seq<Seq<char>>
    decreases s.len(),
{
    if s.len() == 0 {
        seq![Seq::empty()]
    } else {
        let pieces = spec_split(s.drop_last(), sep);
        if s.last() == sep {
            pieces.push(Seq::empty())
        } else {
            pieces.update(pieces.len() - 1, pieces.last().push(s.last()))
        }
    }
}

/// The pieces put back together with `sep` between neighbours.
pub open spec fn spec_join(pieces: Seq<Seq<char>>, sep: char) -> Seq<char>
    decreases pieces.len(),
{
    if pieces.len() == 0 {
        Seq::empty()
    } else if pieces.len() == 1 {
        pieces[0]
    } else {
        spec_join(pieces.drop_last(), sep) + seq![sep] + pieces.last()
    }
}

/// The views of a sequence of strings.
pub open spec fn views(v: Seq<String>) -> Seq<Seq<char>> {
    v.map_values(|s: String| s@)
}

/// Whether every character of `s` is ASCII.
pub open spec fn is_ascii_text(s: Seq<char>) -> bool {
    forall|i: int| 0 <= i < s.len() ==> (s[i] as u32) < 128
}

/// The ASCII upper-case form of a character: `a`..`z` become `A`..`Z`, any
/// other character stays.
pub open spec fn ascii_upper(c: char) -> char {
    if 'a' <= c && c <= 'z' {
        ((c as u32) - 32) as char
    } else {
        c
    }
}

/// The ASCII lower-case form of a character: `A`..`Z` become `a`..`z`, any
/// other character stays.
pub open spec fn ascii_lower(c: char) -> char {
    if 'A' <= c && c <= 'Z' {
        ((c as u32) + 32) as char
    } else {
        c
    }
}

/// A text with each character in its ASCII upper-case form.
pub open spec fn ascii_uppercase(s: Seq<char>) -> Seq<char> {
    s.map_values(|c: char| ascii_upper(c))
}

/// A text with each character in its ASCII lower-case form.
pub open spec fn ascii_lowercase(s: Seq<char>) -> Seq<char> {
    s.map_values(|c: char| ascii_lower(c))
}

/// The upper-case form of a text: the ASCII one on ASCII text, else the
/// Unicode mapping ([`to_uppercase`] gives it).
pub open spec fn spec_uppercase(s: Seq<char>) -> Seq<char> {
    if is_ascii_text(s) {
        ascii_uppercase(s)
    } else {
        spec_to_uppercase(s)
    }
}

/// The lower-case form of a text: the ASCII one on ASCII text, else the
/// Unicode mapping ([`to_lowercase`] gives it).
pub open spec fn spec_lowercase(s: Seq<char>) -> Seq<char> {
    if is_ascii_text(s) {
        ascii_lowercase(s)
    } else {
        spec_to_lowercase(s)
    }
}

/// What `str::to_uppercase` returns: the Unicode upper-case mapping of every
/// character.
pub uninterp spec fn spec_to_uppercase(s: Seq<char>) -> Seq<char>;

/// What `str::to_lowercase` returns: the Unicode lower-case mapping of every
/// character.
pub uninterp spec fn spec_to_lowercase(s: Seq<char>) -> Seq<char>;

// ---------------------------------------------------------------------------
// Lemmas
// ---------------------------------------------------------------------------

/// There is always at least one piece.
pub proof fn lemma_split_nonempty(s: Seq<char>, sep: char)
    ensures
        spec_split(s, sep).len() >= 1,
    decreases s.len(),
{
    if s.len() > 0 {
        lemma_split_nonempty(s.drop_last(), sep);
    }
}

/// How often `c` occurs in `s`.
pub open spec fn spec_count(s: Seq<char>, c: char) -> nat
    decreases s.len(),
{
    if s.len() == 0 {
        0
    } else {
        spec_count(s.drop_last(), c) + if s.last() == c {
            1nat
        } else {
            0nat
        }
    }
}

/// A split has one piece more than the text has separators.
pub proof fn law_split_count(s: Seq<char>, sep: char)
    ensures
        spec_split(s, sep).len() == spec_count(s, sep) + 1,
    decreases s.len(),
{
    if s.len() > 0 {
        law_split_count(s.drop_last(), sep);
        lemma_split_nonempty(s.drop_last(), sep);
    }
}

/// Splitting at a separator and joining the pieces with it gives the text back.
pub proof fn law_join_split(s: Seq<char>, sep: char)
    ensures
        spec_join(spec_split(s, sep), sep) == s,
    decreases s.len(),
{
    if s.len() > 0 {
        let rest = s.drop_last();
        let pieces = spec_split(rest, sep);
        lemma_split_nonempty(rest, sep);
        law_join_split(rest, sep);
        if s.last() == sep {
            assert(pieces.push(Seq::empty()).drop_last() =~= pieces);
            assert(spec_join(pieces, sep) + seq![sep] + Seq::<char>::empty() =~= s);
        } else {
            let updated = pieces.update(pieces.len() - 1, pieces.last().push(s.last()));
            if pieces.len() == 1 {
                assert(updated[0] =~= s);
            } else {
                assert(updated.drop_last() =~= pieces.drop_last());
                assert(spec_join(pieces.drop_last(), sep) + seq![sep] + pieces.last().push(s.last())
                    =~= (spec_join(pieces.drop_last(), sep) + seq![sep] + pieces.last()).push(
                    s.last(),
                ));
            }
            assert(spec_join(updated, sep) =~= s);
        }
    }
}

/// Replacing a pattern with itself changes nothing.
pub proof fn law_replace_with_itself(s: Seq<char>, pat: Seq<char>)
    ensures
        spec_replace(s, pat, pat) == s,
    decreases s.len(),
{
    if pat.len() == 0 {
        assert(pat =~= Seq::<char>::empty());
        lemma_interleave_empty(s);
    } else if s.len() > 0 {
        if occurs_at(s, pat, 0) {
            law_replace_with_itself(s.skip(pat.len() as int), pat);
            assert(s.subrange(0, pat.len() as int) + s.skip(pat.len() as int) =~= s);
        } else {
            law_replace_with_itself(s.skip(1), pat);
            assert(seq![s[0]] + s.skip(1) =~= s);
        }
    }
}

proof fn lemma_interleave_empty(s: Seq<char>)
    ensures
        spec_interleave(s, Seq::empty()) == s,
    decreases s.len(),
{
    if s.len() > 0 {
        lemma_interleave_empty(s.skip(1));
        assert(Seq::<char>::empty() + seq![s[0]] + s.skip(1) =~= s);
    }
}

/// Where `pat` does not occur, replacing it changes nothing.
pub proof fn law_replace_absent(s: Seq<char>, pat: Seq<char>, rep: Seq<char>)
    requires
        pat.len() > 0,
        forall|i: int| !occurs_at(s, pat, i),
    ensures
        spec_replace(s, pat, rep) == s,
    decreases s.len(),
{
    if s.len() > 0 {
        let t = s.skip(1);
        assert forall|i: int| !occurs_at(t, pat, i) by {
            if occurs_at(t, pat, i) {
                assert(s.subrange(i + 1, i + 1 + pat.len()) =~= t.subrange(i, i + pat.len()));
                assert(occurs_at(s, pat, i + 1));
            }
        }
        law_replace_absent(t, pat, rep);
        assert(!occurs_at(s, pat, 0));
        assert(seq![s[0]] + t =~= s);
    }
}

// ---------------------------------------------------------------------------
// Conversions between strings and character vectors
// ---------------------------------------------------------------------------

/// `String::push`, trusted: the string afterwards is the string before
/// with the character added at its end.
#[verifier::external_body]
fn push_char(s: &mut String, c: char)
    ensures
        final(s)@ == old(s)@.push(c),
{
    s.push(c)
}

/// The characters of a string, in order.
pub fn chars_of(s: &str) -> (r: Vec<char>)
    ensures
        r@ == s@,
{
    let mut r: Vec<char> = Vec::new();
    for c in it: s.chars()
        invariant
            it.seq() == s@,
            r@ == it.seq().take(it.index() as int),
    {
        r.push(c);
    }
    r
}

/// The string made of the characters of `v[from..to]`.
pub fn string_of(v: &Vec<char>, from: usize, to: usize) -> (r: String)
    requires
        from <= to <= v@.len(),
    ensures
        r@ == v@.subrange(from as int, to as int),
{
    let mut r = String::new();
    let mut i = from;
    while i < to
        invariant
            from <= i <= to <= v@.len(),
            r@ == v@.subrange(from as int, i as int),
        decreases to - i,
    {
        push_char(&mut r, v[i]);
        assert(v@.subrange(from as int, i + 1) =~= v@.subrange(from as int, i as int).push(v@[i as int]));
        i = i + 1;
    }
    r
}


/// `str::to_uppercase`, trusted: the result is [`spec_to_uppercase`] of the
/// text, a function of the text alone (Unicode's mapping, the same on every
/// machine). On ASCII text Unicode's mapping is the ASCII one (what
/// `str::to_ascii_uppercase` gives); beyond ASCII it is left unsaid.
#[verifier::external_body]
pub fn to_uppercase(s: &str) -> (r: String)
    ensures
        r@ == spec_to_uppercase(s@),
        is_ascii_text(s@) ==> r@ == ascii_uppercase(s@),
{
    s.to_uppercase()
}

/// `str::to_lowercase`, trusted: the result is [`spec_to_lowercase`] of the
/// text, a function of the text alone. On ASCII text Unicode's mapping is
/// the ASCII one (what `str::to_ascii_lowercase` gives); beyond ASCII it is
/// left unsaid.
#[verifier::external_body]
pub fn to_lowercase(s: &str) -> (r: String)
    ensures
        r@ == spec_to_lowercase(s@),
        is_ascii_text(s@) ==> r@ == ascii_lowercase(s@),
{
    s.to_lowercase()
}

// ---------------------------------------------------------------------------
// Searching, replacing and splitting
// ---------------------------------------------------------------------------

/// Whether `pat` occurs in `s` at position `i`.
fn matches_at(s: &Vec<char>, pat: &Vec<char>, i: usize) -> (r: bool)
    requires
        i <= s@.len(),
    ensures
        r == occurs_at(s@, pat@, i as int),
{
    if pat.len() > s.len() - i {
        return false;
    }
    let mut j: usize = 0;
    while j < pat.len()
        invariant
            i + pat.len() <= s.len(),
            j <= pat@.len(),
            forall|k: int| 0 <= k < j ==> s@[i + k] == pat@[k],
        decreases pat@.len() - j,
    {
        assert(i + j < s.len());
        if s[i + j] != pat[j] {
            assert(s@.subrange(i as int, i + pat@.len())[j as int] != pat@[j as int]);
            return false;
        }
        j = j + 1;
    }
    assert(s@.subrange(i as int, i + pat@.len()) =~= pat@);
    true
}

/// Appends `w` to `out`.
fn append_chars(out: &mut Vec<char>, w: &Vec<char>)
    ensures
        final(out)@ == old(out)@ + w@,
{
    let mut j: usize = 0;
    while j < w.len()
        invariant
            j <= w@.len(),
            out@ == old(out)@ + w@.take(j as int),
        decreases w@.len() - j,
    {
        out.push(w[j]);
        assert(w@.take(j + 1) =~= w@.take(j as int).push(w@[j as int]));
        j = j + 1;
    }
    assert(w@.take(w@.len() as int) =~= w@);
}

proof fn lemma_replace_step(s: Seq<char>, pat: Seq<char>, rep: Seq<char>, i: int)
    requires
        pat.len() > 0,
        0 <= i < s.len(),
    ensures
        occurs_at(s, pat, i) ==> spec_replace(s.skip(i), pat, rep) == rep + spec_replace(
            s.skip(i + pat.len()),
            pat,
            rep,
        ),
        !occurs_at(s, pat, i) ==> spec_replace(s.skip(i), pat, rep) == seq![s[i]]
            + spec_replace(s.skip(i + 1), pat, rep),
{
    let t = s.skip(i);
    assert(t.skip(pat.len() as int) =~= s.skip(i + pat.len()) || !occurs_at(s, pat, i));
    assert(t.skip(1) =~= s.skip(i + 1));
    if i + pat.len() <= s.len() {
        assert(t.subrange(0, pat.len() as int) =~= s.subrange(i, i + pat.len()));
        assert(t.skip(pat.len() as int) =~= s.skip(i + pat.len()));
    }
}

proof fn lemma_interleave_step(s: Seq<char>, rep: Seq<char>, i: int)
    requires
        0 <= i < s.len(),
    ensures
        spec_interleave(s.skip(i), rep) == rep + seq![s[i]] + spec_interleave(s.skip(i + 1), rep),
{
    assert(s.skip(i).skip(1) =~= s.skip(i + 1));
}

/// Replaces every non-overlapping occurrence of `pat` in `s`, from left to
/// right, with `rep` (`str::replace`). An empty pattern occurs before every
/// character and at the end.
pub fn replace_all(s: &str, pat: &str, rep: &str) -> (r: String)
    ensures
        r@ == spec_replace(s@, pat@, rep@),
{
    let sv = chars_of(s);
    let pv = chars_of(pat);
    let rv = chars_of(rep);
    let n = sv.len();
    let mut out: Vec<char> = Vec::new();
    let mut i: usize = 0;
    assert(sv@.skip(0) =~= sv@);
    if pv.len() == 0 {
        while i < n
            invariant
                n == sv@.len(),
                i <= n,
                pv@.len() == 0,
                spec_replace(sv@, pv@, rv@) == out@ + spec_interleave(sv@.skip(i as int), rv@),
            decreases n - i,
        {
            proof {
                lemma_interleave_step(sv@, rv@, i as int);
            }
            let ghost before = out@;
            append_chars(&mut out, &rv);
            out.push(sv[i]);
            assert(before + (rv@ + seq![sv@[i as int]] + spec_interleave(sv@.skip(i + 1), rv@))
                =~= out@ + spec_interleave(sv@.skip(i + 1), rv@));
            i = i + 1;
        }
        assert(sv@.skip(n as int) =~= Seq::<char>::empty());
        append_chars(&mut out, &rv);
    } else {
        assert(sv@.skip(0) =~= sv@);
        while i < n
            invariant
                n == sv@.len(),
                i <= n,
                pv@.len() > 0,
                spec_replace(sv@, pv@, rv@) == out@ + spec_replace(sv@.skip(i as int), pv@, rv@),
            decreases n - i,
        {
            proof {
                lemma_replace_step(sv@, pv@, rv@, i as int);
            }
            let ghost before = out@;
            if matches_at(&sv, &pv, i) {
                append_chars(&mut out, &rv);
                assert(before + (rv@ + spec_replace(sv@.skip(i + pv@.len()), pv@, rv@)) =~= out@
                    + spec_replace(sv@.skip(i + pv@.len()), pv@, rv@));
                i = i + pv.len();
            } else {
                out.push(sv[i]);
                assert(before + (seq![sv@[i as int]] + spec_replace(sv@.skip(i + 1), pv@, rv@))
                    =~= out@ + spec_replace(sv@.skip(i + 1), pv@, rv@));
                i = i + 1;
            }
        }
        assert(sv@.skip(n as int) =~= Seq::<char>::empty());
        assert(out@ + Seq::<char>::empty() =~= out@);
    }
    string_of(&out, 0, out.len())
}

/// The pieces of `s` between the occurrences of `sep` (`str::split` with a
/// one-character pattern).
pub fn split_on(s: &str, sep: char) -> (r: Vec<String>)
    ensures
        views(r@) == spec_split(s@, sep),
{
    let sv = chars_of(s);
    let n = sv.len();
    let mut pieces: Vec<String> = Vec::new();
    let mut start: usize = 0;
    let mut i: usize = 0;
    assert(sv@.take(0) =~= Seq::<char>::empty());
    assert(sv@.subrange(0, 0) =~= Seq::<char>::empty());
    while i < n
        invariant
            n == sv@.len(),
            start <= i <= n,
            views(pieces@).push(sv@.subrange(start as int, i as int)) == spec_split(
                sv@.take(i as int),
                sep,
            ),
        decreases n - i,
    {
        let ghost prev = sv@.take(i as int);
        assert(sv@.take(i + 1).drop_last() =~= prev);
        assert(sv@.take(i + 1).last() == sv@[i as int]);
        if sv[i] == sep {
            let piece = string_of(&sv, start, i);
            pieces.push(piece);
            assert(views(pieces@) =~= views(pieces@.drop_last()).push(piece@));
            assert(sv@.subrange((i + 1) as int, (i + 1) as int) =~= Seq::<char>::empty());
            start = i + 1;
        } else {
            let ghost old_views = views(pieces@);
            assert(sv@.subrange(start as int, i + 1) =~= sv@.subrange(start as int, i as int).push(
                sv@[i as int],
            ));
            assert(old_views.push(sv@.subrange(start as int, i + 1)) =~= old_views.push(
                sv@.subrange(start as int, i as int),
            ).update(
                old_views.len() as int,
                sv@.subrange(start as int, i as int).push(sv@[i as int]),
            ));
        }
        i = i + 1;
    }
    let last = string_of(&sv, start, n);
    pieces.push(last);
    assert(views(pieces@) =~= views(pieces@.drop_last()).push(last@));
    assert(sv@.take(n as int) =~= sv@);
    pieces
}

/// A copy of an optional string.
pub fn copy_option(o: &Option<String>) -> (r: Option<String>)
    ensures
        r == *o,
{
    match o {
        Some(s) => Some(s.clone()),
        None => None,
    }
}

// ---------------------------------------------------------------------------
// Paths
// ---------------------------------------------------------------------------

/// What `Path::join` gives for two paths written as text.
pub uninterp spec fn spec_path_join(base: Seq<char>, rest: Seq<char>) -> Seq<char>;

/// `Path::join`, trusted: the result is [`spec_path_join`] of the two texts
/// (`rest` taken relative to `base`; an absolute `rest` replaces `base`).
/// Two Unicode paths join to a Unicode path, so the conversion back to text
/// loses nothing. How the two are joined is left unsaid.
#[verifier::external_body]
pub fn join_path(base: &str, rest: &str) -> (r: String)
    ensures
        r@ == spec_path_join(base@, rest@),
{
    std::path::Path::new(base).join(rest).to_string_lossy().into_owned()
}

} // verus!
