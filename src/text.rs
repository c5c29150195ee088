//! Text as character vectors: conversions from and to strings, white space
//! and words, joining, trimming, and the rewrites of white space that
//! decoded messages and written Morse code go through.
use vstd::prelude::*;
use vstd::std_specs::iter::IteratorSpec;

verus! {

/// The characters of `s`, in order.
pub(crate) fn chars_of(s: &str) -> (r: Vec<char>)
    ensures
        r@ == s@,
{
    broadcast use vstd::string::axiom_spec_iter, vstd::string::next_postcondition;

    let mut it = s.chars();
    let mut out: Vec<char> = Vec::new();
    loop
        invariant
            out@ + it.remaining() == s@,
            it.obeys_prophetic_iter_laws(),
            it.decrease() is Some,
        ensures
            out@ == s@,
        decreases it.decrease()->0,
    {
        let ghost before = it.remaining();
        match it.next() {
            Some(c) => {
                out.push(c);
                assert(before == seq![c] + it.remaining());
            },
            None => {
                assert(out@ + it.remaining() =~= out@);
                break;
            },
        }
    }
    out
}

/// Relies on `String::from_iter`: a string of exactly the given characters.
#[verifier::external_body]
pub(crate) fn string_of(v: &Vec<char>) -> (r: String)
    ensures
        r@ == v@,
{
    String::from_iter(v.iter())
}

/// Whether `c` is white space in the sense of Unicode's `White_Space`
/// property, the class that `char::is_whitespace` and the regular expression
/// `\s` both stand for.
pub open spec fn is_ws(c: char) -> bool {
    let u = c as u32;
    (0x09 <= u && u <= 0x0D) || u == 0x20 || u == 0x85 || u == 0xA0 || u == 0x1680
        || (0x2000 <= u && u <= 0x200A) || u == 0x2028 || u == 0x2029 || u == 0x202F
        || u == 0x205F || u == 0x3000
}

/// Tests a character for white space.
pub fn is_whitespace(c: char) -> (r: bool)
    ensures
        r == is_ws(c),
{
    let u = c as u32;
    (0x09 <= u && u <= 0x0D) || u == 0x20 || u == 0x85 || u == 0xA0 || u == 0x1680
        || (0x2000 <= u && u <= 0x200A) || u == 0x2028 || u == 0x2029 || u == 0x202F
        || u == 0x205F || u == 0x3000
}

/// The words of `s` after `done` and the partial word `cur`: the maximal runs
/// of characters that are not white space, in order.
pub open spec fn words_from(s: Seq<char>, cur: Seq<char>, done: Seq<Seq<char>>) -> Seq<Seq<char>>
    decreases s.len(),
{
    if s.len() == 0 {
        if cur.len() > 0 {
            done.push(cur)
        } else {
            done
        }
    } else if is_ws(s[0]) {
        words_from(s.drop_first(), seq![], if cur.len() > 0 { done.push(cur) } else { done })
    } else {
        words_from(s.drop_first(), cur.push(s[0]), done)
    }
}

/// The words of `s`, as `str::split_whitespace` gives them.
pub open spec fn words(s: Seq<char>) -> Seq<Seq<char>> {
    words_from(s, seq![], seq![])
}

/// The parts joined with `sep` between each two neighbours.
pub open spec fn join(parts: Seq<Seq<char>>, sep: Seq<char>) -> Seq<char>
    decreases parts.len(),
{
    if parts.len() == 0 {
        seq![]
    } else if parts.len() == 1 {
        parts[0]
    } else {
        join(parts.drop_last(), sep) + sep + parts.last()
    }
}

/// Appends the characters of `s` to `out`.
pub fn append(out: &mut Vec<char>, s: &Vec<char>)
    ensures
        final(out)@ == old(out)@ + s@,
{
    let mut i: usize = 0;
    while i < s.len()
        invariant
            i <= s.len(),
            out@ == old(out)@ + s@.take(i as int),
        decreases s.len() - i,
    {
        out.push(s[i]);
        i = i + 1;
        assert(s@.take(i as int) == s@.take(i - 1) .push(s@[i - 1]));
    }
    assert(s@.take(s.len() as int) == s@);
}

/// Splits `s` into its words.
pub fn split_words(s: &Vec<char>) -> (r: Vec<Vec<char>>)
    ensures
        r@.map_values(|w: Vec<char>| w@) == words(s@),
{
    let mut done: Vec<Vec<char>> = Vec::new();
    let mut cur: Vec<char> = Vec::new();
    let mut i: usize = 0;
    assert(s@.skip(0) == s@);
    assert(done@.map_values(|w: Vec<char>| w@) == Seq::<Seq<char>>::empty());
    assert(cur@ == Seq::<char>::empty());
    while i < s.len()
        invariant
            i <= s.len(),
            words_from(s@.skip(i as int), cur@, done@.map_values(|w: Vec<char>| w@)) == words(s@),
        decreases s.len() - i,
    {
        let c = s[i];
        let ghost rest = s@.skip(i as int);
        let ghost d0 = done@.map_values(|w: Vec<char>| w@);
        let ghost c0 = cur@;
        assert(rest.drop_first() == s@.skip(i + 1));
        assert(rest[0] == c);
        if is_whitespace(c) {
            if cur.len() > 0 {
                let ghost d = done@;
                done.push(cur);
                assert(done@.map_values(|w: Vec<char>| w@) == d.map_values(|w: Vec<char>| w@).push(c0));
                cur = Vec::new();
            }
            assert(cur@ == Seq::<char>::empty());
        } else {
            cur.push(c);
        }
        i = i + 1;
        assert(words_from(rest, c0, d0) == words_from(s@.skip(i as int), cur@, done@.map_values(|w: Vec<char>| w@)));
    }
    assert(s@.skip(s.len() as int).len() == 0);
    if cur.len() > 0 {
        let ghost d = done@;
        let ghost c = cur@;
        done.push(cur);
        assert(done@.map_values(|w: Vec<char>| w@) == d.map_values(|w: Vec<char>| w@).push(c));
    }
    done
}

/// Joins the parts with `sep` between each two neighbours.
pub fn join_parts(parts: &Vec<Vec<char>>, sep: &Vec<char>) -> (r: Vec<char>)
    ensures
        r@ == join(parts@.map_values(|w: Vec<char>| w@), sep@),
{
    let ghost ps = parts@.map_values(|w: Vec<char>| w@);
    let mut out: Vec<char> = Vec::new();
    let mut i: usize = 0;
    while i < parts.len()
        invariant
            i <= parts.len(),
            ps == parts@.map_values(|w: Vec<char>| w@),
            out@ == join(ps.take(i as int), sep@),
        decreases parts.len() - i,
    {
        assert(ps.take(i + 1).drop_last() == ps.take(i as int));
        if i > 0 {
            append(&mut out, sep);
        }
        append(&mut out, &parts[i]);
        i = i + 1;
    }
    assert(ps.take(parts.len() as int) == ps);
    out
}

/// `s` with every run of white space after a position where `in_ws` says
/// whether white space came just before.
pub open spec fn collapse_from(s: Seq<char>, in_ws: bool) -> Seq<char>
    decreases s.len(),
{
    if s.len() == 0 {
        seq![]
    } else if is_ws(s[0]) {
        if in_ws {
            collapse_from(s.drop_first(), true)
        } else {
            seq![' '] + collapse_from(s.drop_first(), true)
        }
    } else {
        seq![s[0]] + collapse_from(s.drop_first(), false)
    }
}

/// `s` with each maximal run of white space replaced by one space.
pub open spec fn collapse_ws(s: Seq<char>) -> Seq<char> {
    collapse_from(s, false)
}

/// Relies on `regex::Regex::replace_all` with the pattern `\s+` (a run of
/// Unicode white space) and the replacement `" "`: every leftmost, greedy
/// match is replaced by one space, the rest is copied. The pattern is valid,
/// so `Regex::new` does not fail on it.
#[verifier::external_body]
fn collapse_whitespace(s: &str) -> (r: String)
    ensures
        r@ == collapse_ws(s@),
{
    regex::Regex::new(r"\s+").unwrap().replace_all(s, " ").into_owned()
}

/// `s` without white space at its start.
pub open spec fn trim_start_ws(s: Seq<char>) -> Seq<char>
    decreases s.len(),
{
    if s.len() > 0 && is_ws(s[0]) {
        trim_start_ws(s.drop_first())
    } else {
        s
    }
}

/// `s` without white space at its end.
pub open spec fn trim_end_ws(s: Seq<char>) -> Seq<char>
    decreases s.len(),
{
    if s.len() > 0 && is_ws(s.last()) {
        trim_end_ws(s.drop_last())
    } else {
        s
    }
}

/// `s` without white space at either end.
pub open spec fn trim_ws(s: Seq<char>) -> Seq<char> {
    trim_end_ws(trim_start_ws(s))
}

/// The text of a decoded message as it is shown: runs of white space
/// collapsed to one space, and no white space at either end.
pub open spec fn normalized(s: Seq<char>) -> Seq<char> {
    trim_ws(collapse_ws(s))
}

/// Removes white space at both ends.
pub fn trim(s: &Vec<char>) -> (r: Vec<char>)
    ensures
        r@ == trim_ws(s@),
{
    let mut a: usize = 0;
    assert(s@.skip(0) == s@);
    while a < s.len() && is_whitespace(s[a])
        invariant
            a <= s.len(),
            trim_start_ws(s@) == trim_start_ws(s@.skip(a as int)),
        decreases s.len() - a,
    {
        assert(s@.skip(a as int).drop_first() == s@.skip(a + 1));
        a = a + 1;
    }
    let mut b: usize = s.len();
    assert(s@.skip(a as int) == s@.subrange(a as int, b as int));
    while b > a && is_whitespace(s[b - 1])
        invariant
            a <= b <= s.len(),
            trim_ws(s@) == trim_end_ws(s@.subrange(a as int, b as int)),
        decreases b,
    {
        assert(s@.subrange(a as int, b as int).drop_last() == s@.subrange(a as int, b - 1));
        b = b - 1;
    }
    let mut out: Vec<char> = Vec::new();
    let mut i: usize = a;
    while i < b
        invariant
            a <= i <= b <= s.len(),
            out@ == s@.subrange(a as int, i as int),
        decreases b - i,
    {
        out.push(s[i]);
        i = i + 1;
        assert(out@ == s@.subrange(a as int, i as int));
    }
    out
}

/// Normalizes decoded text: collapses runs of white space to one space and
/// trims both ends.
pub fn normalize(s: &str) -> (r: Vec<char>)
    ensures
        r@ == normalized(s@),
{
    let collapsed = collapse_whitespace(s);
    let chars = chars_of(collapsed.as_str());
    trim(&chars)
}

/// A run of white space as a long gap is written: `rep` when the run has
/// three characters or more, else the run itself.
pub open spec fn flush_run(run: Seq<char>, rep: Seq<char>) -> Seq<char> {
    if run.len() >= 3 {
        rep
    } else {
        run
    }
}

/// `s` after a pending run of white space `run`, with every maximal run of
/// three or more white space characters replaced by `rep`.
pub open spec fn long_gaps_from(s: Seq<char>, run: Seq<char>, rep: Seq<char>) -> Seq<char>
    decreases s.len(),
{
    if s.len() == 0 {
        flush_run(run, rep)
    } else if is_ws(s[0]) {
        long_gaps_from(s.drop_first(), run.push(s[0]), rep)
    } else {
        flush_run(run, rep) + seq![s[0]] + long_gaps_from(s.drop_first(), seq![], rep)
    }
}

/// `s` with every maximal run of three or more white space characters
/// replaced by `rep`.
pub open spec fn long_gaps_replaced(s: Seq<char>, rep: Seq<char>) -> Seq<char> {
    long_gaps_from(s, seq![], rep)
}

/// Relies on `regex::Regex::replace_all` with the pattern `\s{3,}` and a
/// replacement taken literally (`regex::NoExpand`): each maximal run of at
/// least three white space characters is a leftmost, greedy match and is
/// replaced by `rep`. The pattern is valid, so `Regex::new` does not fail.
#[verifier::external_body]
pub(crate) fn replace_long_gaps(s: &str, rep: &str) -> (r: String)
    ensures
        r@ == long_gaps_replaced(s@, rep@),
{
    regex::Regex::new(r"\s{3,}").unwrap().replace_all(s, regex::NoExpand(rep)).into_owned()
}

/// `s` with each pair of white space characters, taken from the left
/// without overlap, replaced by one space.
pub open spec fn pairs_halved(s: Seq<char>) -> Seq<char>
    decreases s.len(),
{
    if s.len() >= 2 && is_ws(s[0]) && is_ws(s[1]) {
        seq![' '] + pairs_halved(s.skip(2))
    } else if s.len() == 0 {
        seq![]
    } else {
        seq![s[0]] + pairs_halved(s.drop_first())
    }
}

/// Relies on `regex::Regex::replace_all` with the pattern `\s{2}` and the
/// replacement `" "`: matches are taken from the left without overlap, each
/// two white space characters. The pattern is valid, so `Regex::new` does
/// not fail.
#[verifier::external_body]
pub(crate) fn halve_double_spaces(s: &str) -> (r: String)
    ensures
        r@ == pairs_halved(s@),
{
    regex::Regex::new(r"\s{2}").unwrap().replace_all(s, " ").into_owned()
}

/// Whether two character vectors hold the same characters.
pub(crate) fn same_chars(a: &Vec<char>, b: &Vec<char>) -> (r: bool)
    ensures
        r == (a@ == b@),
{
    if a.len() != b.len() {
        return false;
    }
    let mut i: usize = 0;
    while i < a.len()
        invariant
            i <= a.len(),
            a.len() == b.len(),
            a@.take(i as int) == b@.take(i as int),
        decreases a.len() - i,
    {
        if a[i] != b[i] {
            assert(a@[i as int] != b@[i as int]);
            return false;
        }
        assert(a@.take(i + 1) == a@.take(i as int).push(a@[i as int]));
        assert(b@.take(i + 1) == b@.take(i as int).push(b@[i as int]));
        i = i + 1;
    }
    assert(a@.take(a.len() as int) == a@);
    assert(b@.take(b.len() as int) == b@);
    true
}

} // verus!
