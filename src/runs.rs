//! Reading dots, dashes and gaps off a binarized signal by the lengths of
//! its runs, relative to a threshold taken from the run lengths themselves.
use vstd::prelude::*;

use crate::text::string_of;

verus! {

/// Ascending order on lengths.
pub open spec fn ascending() -> spec_fn(usize, usize) -> bool {
    |a: usize, b: usize| a <= b
}

/// Relies on `slice::sort_unstable`: the same lengths in ascending order.
/// Integers sorted ascending have one order only, the one `sort_by` gives.
#[verifier::external_body]
fn sorted_lengths(v: Vec<usize>) -> (r: Vec<usize>)
    ensures
        r@ == v@.sort_by(ascending()),
        r@.len() == v@.len(),
{
    let mut v = v;
    v.sort_unstable();
    v
}

/// The runs of `s`: each maximal stretch of equal values, as that value and
/// the stretch's length, in order.
pub open spec fn runs(s: Seq<bool>) -> Seq<(bool, usize)>
    decreases s.len(),
{
    if s.len() == 0 {
        seq![]
    } else {
        let r = runs(s.drop_last());
        if r.len() > 0 && r.last().0 == s.last() {
            r.update(r.len() - 1, (s.last(), (r.last().1 + 1) as usize))
        } else {
            r.push((s.last(), 1usize))
        }
    }
}

/// The threshold between short and long runs: the length at a third of the
/// way through the run lengths in ascending order.
pub open spec fn run_threshold(rs: Seq<(bool, usize)>) -> usize {
    let d = rs.map_values(|p: (bool, usize)| p.1).sort_by(ascending());
    d[(d.len() / 3) as int]
}

/// A run as a mark: a short tone is `.`, a long one `-`, a short gap ` ` and
/// a long gap `|`.
pub open spec fn mark(on: bool, len: usize, threshold: usize) -> char {
    if on {
        if len < threshold {
            '.'
        } else {
            '-'
        }
    } else {
        if len < threshold {
            ' '
        } else {
            '|'
        }
    }
}

/// The marks of a binarized signal, one per run.
pub open spec fn signal_marks(s: Seq<bool>) -> Seq<char> {
    let rs = runs(s);
    rs.map_values(|p: (bool, usize)| mark(p.0, p.1, run_threshold(rs)))
}

/// Reads a binarized signal (`true` where a tone is present) as Morse marks:
/// each run of equal values becomes one mark, long or short by comparison
/// with the run length a third of the way up the sorted run lengths. An
/// empty signal gives no marks.
pub fn binary_signal_to_morse(signal: &Vec<bool>) -> (r: String)
    ensures
        r@ == signal_marks(signal@),
{
    let mut vals: Vec<bool> = Vec::new();
    let mut lens: Vec<usize> = Vec::new();
    let mut i: usize = 0;
    assert(signal@.take(0) == Seq::<bool>::empty());
    while i < signal.len()
        invariant
            i <= signal.len(),
            vals.len() == lens.len(),
            vals.len() == runs(signal@.take(i as int)).len(),
            forall|j: int|
                0 <= j < vals.len() ==> #[trigger] vals@[j] == runs(signal@.take(i as int))[j].0
                    && lens@[j] == runs(signal@.take(i as int))[j].1,
            i > 0 ==> vals.len() > 0 && lens@.last() <= i,
        decreases signal.len() - i,
    {
        let x = signal[i];
        let ghost r0 = runs(signal@.take(i as int));
        assert(signal@.take(i + 1).drop_last() == signal@.take(i as int));
        assert(signal@.take(i + 1).last() == x);
        assert(runs(signal@.take(i + 1)) == (if r0.len() > 0 && r0.last().0 == x {
            r0.update(r0.len() - 1, (x, (r0.last().1 + 1) as usize))
        } else {
            r0.push((x, 1usize))
        }));
        let n = vals.len();
        if n > 0 && vals[n - 1] == x {
            let l = lens[n - 1];
            lens.set(n - 1, l + 1);
        } else {
            vals.push(x);
            lens.push(1);
        }
        i = i + 1;
        assert forall|j: int| 0 <= j < vals.len() implies #[trigger] vals@[j] == runs(
            signal@.take(i as int),
        )[j].0 && lens@[j] == runs(signal@.take(i as int))[j].1 by {}
    }
    assert(signal@.take(signal.len() as int) == signal@);
    let ghost rs = runs(signal@);
    let mut out: Vec<char> = Vec::new();
    if lens.len() == 0 {
        assert(signal_marks(signal@) == Seq::<char>::empty());
        return string_of(&out);
    }
    assert forall|j: int| 0 <= j < lens.len() implies lens@[j] == rs[j].1 by {
        assert(vals@[j] == rs[j].0);
    }
    assert(lens@ =~= rs.map_values(|p: (bool, usize)| p.1));
    let sorted = sorted_lengths(lens.clone());
    let threshold = sorted[sorted.len() / 3];
    assert(threshold == run_threshold(rs));
    let mut k: usize = 0;
    while k < vals.len()
        invariant
            k <= vals.len(),
            vals.len() == lens.len(),
            vals.len() == rs.len(),
            threshold == run_threshold(rs),
            forall|j: int| 0 <= j < vals.len() ==> #[trigger] vals@[j] == rs[j].0 && lens@[j] == rs[j].1,
            out@ == rs.take(k as int).map_values(|p: (bool, usize)| mark(p.0, p.1, threshold)),
        decreases vals.len() - k,
    {
        let c = if vals[k] {
            if lens[k] < threshold {
                '.'
            } else {
                '-'
            }
        } else {
            if lens[k] < threshold {
                ' '
            } else {
                '|'
            }
        };
        out.push(c);
        assert(rs.take(k + 1) == rs.take(k as int).push(rs[k as int]));
        k = k + 1;
    }
    assert(rs.take(rs.len() as int) == rs);
    string_of(&out)
}

} // verus!
