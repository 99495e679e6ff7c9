//! Character-sequence utilities shared by the dispatcher and the result
//! normalizer: stripping a single trailing newline from captured output, and
//! splitting a program input into lines.

use vstd::prelude::*;
use vstd::string::StrSliceExecFns;
use vstd::string::StringExecFns;

verus! {

/// `s` with exactly one trailing newline character removed when one is
/// present, otherwise unchanged.  Never removes more than one.
pub open spec fn spec_strip_newline(s: Seq<char>) -> Seq<char> {
    if s.len() > 0 && s[s.len() - 1] == '\n' {
        s.drop_last()
    } else {
        s
    }
}

/// Index of the first newline in `s`, or `s.len()` when `s` has none.
pub open spec fn spec_newline_index(s: Seq<char>) -> int
    decreases s.len(),
{
    if s.len() == 0 {
        0
    } else if s[0] == '\n' {
        0
    } else {
        1 + spec_newline_index(s.skip(1))
    }
}

/// A line with one carriage return dropped from its end, as happens to a line
/// that the terminator "\r\n" closed.
pub open spec fn spec_chop_cr(l: Seq<char>) -> Seq<char> {
    if l.len() > 0 && l[l.len() - 1] == '\r' {
        l.drop_last()
    } else {
        l
    }
}

/// The lines of `s`: split at every newline, each terminator removed together
/// with a carriage return immediately before it; a final line ending yields
/// no extra empty line.  This matches how the standard library iterates lines.
pub open spec fn spec_lines(s: Seq<char>) -> Seq<Seq<char>>
    decreases s.len(),
    via spec_lines_decreases
{
    if s.len() == 0 {
        Seq::empty()
    } else {
        let i = spec_newline_index(s);
        if i == s.len() {
            seq![s]
        } else {
            seq![spec_chop_cr(s.take(i))] + spec_lines(s.skip(i + 1))
        }
    }
}

#[via_fn]
proof fn spec_lines_decreases(s: Seq<char>) {
    lemma_newline_index_bounds(s);
}

/// The first-newline index always lies between 0 and the length.
pub proof fn lemma_newline_index_bounds(s: Seq<char>)
    ensures
        0 <= spec_newline_index(s) <= s.len(),
    decreases s.len(),
{
    if s.len() == 0 {
    } else if s[0] == '\n' {
    } else {
        lemma_newline_index_bounds(s.skip(1));
    }
}

/// `spec_newline_index` is the unique position with no newline before it that
/// either holds a newline or is the end of the sequence.
pub proof fn lemma_newline_index_is_first(s: Seq<char>, i: int)
    requires
        0 <= i <= s.len(),
        forall|k: int| 0 <= k < i ==> s[k] != '\n',
        i < s.len() ==> s[i] == '\n',
    ensures
        spec_newline_index(s) == i,
    decreases s.len(),
{
    if s.len() == 0 {
    } else if s[0] == '\n' {
        assert(i == 0);
    } else {
        assert(i >= 1);
        let t = s.skip(1);
        assert forall|k: int| 0 <= k < i - 1 implies t[k] != '\n' by {
            assert(t[k] == s[k + 1]);
        }
        assert(i - 1 < t.len() ==> t[i - 1] == s[i]);
        lemma_newline_index_is_first(t, i - 1);
    }
}

/// Removes exactly one trailing newline character from `s` when one is
/// present; returns `s` unchanged otherwise.
pub fn strip_one_trailing_newline(s: &String) -> (r: String)
    ensures
        r@ == spec_strip_newline(s@),
{
    let slice = s.as_str();
    let n = slice.unicode_len();
    if n > 0 && slice.get_char(n - 1) == '\n' {
        let r = String::from_str(slice.substring_char(0, n - 1));
        proof {
            assert(r@ =~= s@.drop_last());
        }
        r
    } else {
        s.clone()
    }
}

/// Splits `s` into lines, as `spec_lines` describes.
pub fn split_lines(s: &String) -> (r: Vec<String>)
    ensures
        r.deep_view() == spec_lines(s@),
{
    let slice = s.as_str();
    let n = slice.unicode_len();
    let mut out: Vec<String> = Vec::new();
    let mut p: usize = 0;
    proof {
        assert(s@.skip(0) =~= s@);
        assert(out.deep_view() + spec_lines(s@) =~= spec_lines(s@));
    }
    while p < n
        invariant
            slice@ == s@,
            n == s@.len(),
            0 <= p <= n,
            out.deep_view() + spec_lines(s@.skip(p as int)) == spec_lines(s@),
        decreases n - p,
    {
        let ghost rest = s@.skip(p as int);
        // Scan for the newline that closes the line starting at `p`.
        let mut j: usize = p;
        while j < n && slice.get_char(j) != '\n'
            invariant
                slice@ == s@,
                n == s@.len(),
                p <= j <= n,
                forall|k: int| p <= k < j ==> s@[k] != '\n',
            decreases n - j,
        {
            j = j + 1;
        }
        proof {
            assert forall|k: int| 0 <= k < j - p implies rest[k] != '\n' by {
                assert(rest[k] == s@[p + k]);
            }
            if (j as int) - (p as int) < rest.len() {
                assert(rest[j - p] == s@[j as int]);
            }
            lemma_newline_index_is_first(rest, j - p);
        }
        let ghost pre = out.deep_view();
        if j == n {
            // Final line, no terminator: taken whole, carriage return kept.
            let line = String::from_str(slice.substring_char(p, n));
            proof {
                assert(line@ =~= rest);
                assert(spec_lines(rest) == seq![rest]);
            }
            out.push(line);
            proof {
                assert(out.deep_view() =~= pre.push(rest));
                assert(pre.push(rest) =~= pre + spec_lines(rest));
                assert(s@.skip(n as int) =~= Seq::<char>::empty());
                assert(spec_lines(s@.skip(n as int)) == Seq::<Seq<char>>::empty());
                assert(out.deep_view() + spec_lines(s@.skip(n as int)) =~= pre + spec_lines(
                    rest,
                ));
            }
            p = n;
        } else {
            // Terminated line: drop the newline, and one carriage return
            // right before it when present.
            let line_end = if j > p && slice.get_char(j - 1) == '\r' {
                j - 1
            } else {
                j
            };
            let line = String::from_str(slice.substring_char(p, line_end));
            proof {
                assert(rest.take(j - p) =~= s@.subrange(p as int, j as int));
                assert(line@ =~= spec_chop_cr(rest.take(j - p)));
                assert(rest.skip(j - p + 1) =~= s@.skip(j + 1));
                assert(spec_lines(rest) == seq![spec_chop_cr(rest.take(j - p))] + spec_lines(
                    rest.skip(j - p + 1),
                ));
            }
            out.push(line);
            proof {
                assert(out.deep_view() =~= pre.push(line@));
                assert(out.deep_view() + spec_lines(s@.skip(j + 1)) =~= pre + spec_lines(rest));
            }
            p = j + 1;
        }
    }
    proof {
        assert(s@.skip(p as int) =~= Seq::<char>::empty());
        assert(spec_lines(s@.skip(p as int)) == Seq::<Seq<char>>::empty());
        assert(out.deep_view() =~= spec_lines(s@));
    }
    out
}

} // verus!
