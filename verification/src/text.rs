//! Verified text helpers: locating separators, taking the first or
//! last separated segment, and splitting on a separator.

use vstd::prelude::*;
use vstd::seq_lib::*;
use vstd::string::StrSliceExecFns;
use vstd::string::StringExecFns;

verus! {

/// Index of the first separator in `s`, or `s.len()` if there is none.
pub open spec fn spec_first_sep(s: Seq<char>, sep: char) -> nat
    decreases s.len(),
{
    if s.len() == 0 {
        0
    } else if s[0] == sep {
        0
    } else {
        1 + spec_first_sep(s.skip(1), sep)
    }
}

/// Index of the last separator in `s`, or -1 if there is none.
pub open spec fn spec_last_sep(s: Seq<char>, sep: char) -> int
    decreases s.len(),
{
    if s.len() == 0 {
        -1
    } else if s[s.len() - 1] == sep {
        s.len() - 1
    } else {
        spec_last_sep(s.take(s.len() - 1), sep)
    }
}

/// Everything before the first separator; the whole of `s` when `s`
/// has no separator.
pub open spec fn spec_first_segment(s: Seq<char>, sep: char) -> Seq<char> {
    s.take(spec_first_sep(s, sep) as int)
}

/// What follows the last separator: the whole of `s` when `s` has no
/// separator, and the (possibly empty) tail after the last one else.
pub open spec fn spec_last_segment(s: Seq<char>, sep: char) -> Seq<char> {
    s.subrange(spec_last_sep(s, sep) + 1, s.len() as int)
}

/// The pieces of `s` between separators, in order; always one piece
/// more than there are separators.
pub open spec fn spec_split(s: Seq<char>, sep: char) -> Seq<Seq<char>>
    decreases s.len(),
{
    let i = spec_first_sep(s, sep);
    if i >= s.len() {
        seq![s]
    } else {
        seq![s.take(i as int)] + spec_split(s.skip(i as int + 1), sep)
    }
}

/// A position preceded by no separator, and holding one unless it is
/// the end, is the first separator index.
pub proof fn lemma_first_sep_at(s: Seq<char>, sep: char, j: int)
    requires
        0 <= j <= s.len(),
        forall|k: int| 0 <= k < j ==> s[k] != sep,
        j < s.len() ==> s[j] == sep,
    ensures
        spec_first_sep(s, sep) == j,
    decreases j,
{
    if j > 0 {
        lemma_first_sep_at(s.skip(1), sep, j - 1);
    }
}

/// A separator-free tail does not move the last separator: if nothing
/// from position `j` on is a separator, the last separator of `s` is
/// that of the prefix of length `j`.
pub proof fn lemma_last_sep_ignores_sep_free_tail(s: Seq<char>, sep: char, j: int)
    requires
        0 <= j <= s.len(),
        forall|k: int| j <= k < s.len() ==> s[k] != sep,
    ensures
        spec_last_sep(s, sep) == spec_last_sep(s.take(j), sep),
    decreases s.len() - j,
{
    if j == s.len() {
        assert(s.take(j) =~= s);
    } else {
        let shorter = s.take(s.len() - 1);
        lemma_last_sep_ignores_sep_free_tail(shorter, sep, j);
        assert(shorter.take(j) =~= s.take(j));
    }
}

/// Position of the first separator, or the length when there is none.
pub fn find_first_sep(s: &str, sep: char) -> (j: usize)
    ensures
        j == spec_first_sep(s@, sep),
        j <= s@.len(),
{
    let n = s.unicode_len();
    let mut j: usize = 0;
    while j < n && s.get_char(j) != sep
        invariant
            j <= n,
            n == s@.len(),
            forall|k: int| 0 <= k < j ==> s@[k] != sep,
        decreases n - j,
    {
        j = j + 1;
    }
    proof {
        lemma_first_sep_at(s@, sep, j as int);
    }
    j
}

/// The characters before the first separator.
pub fn first_segment(s: &str, sep: char) -> (r: String)
    ensures
        r@ == spec_first_segment(s@, sep),
{
    let j = find_first_sep(s, sep);
    proof {
        assert(s@.subrange(0, j as int) =~= s@.take(j as int));
    }
    s.substring_char(0, j).to_owned()
}

/// The characters after the last separator.
pub fn last_segment(s: &str, sep: char) -> (r: String)
    ensures
        r@ == spec_last_segment(s@, sep),
{
    let n = s.unicode_len();
    let mut i = n;
    while i > 0 && s.get_char(i - 1) != sep
        invariant
            i <= n,
            n == s@.len(),
            forall|k: int| i <= k < s@.len() ==> s@[k] != sep,
        decreases i,
    {
        i = i - 1;
    }
    proof {
        lemma_last_sep_ignores_sep_free_tail(s@, sep, i as int);
        if i > 0 {
            assert(s@.take(i as int)[i - 1] == sep);
        }
        assert(spec_last_sep(s@, sep) == i - 1);
    }
    s.substring_char(i, n).to_owned()
}

/// The views of the split pieces.
pub open spec fn views_of(pieces: Seq<String>) -> Seq<Seq<char>> {
    pieces.map_values(|p: String| p@)
}

/// Splits on the separator: one piece per stretch between separators,
/// exactly as [`spec_split`] lays them out.
pub fn split_string(s: &str, sep: char) -> (r: Vec<String>)
    ensures
        views_of(r@) == spec_split(s@, sep),
{
    let n = s.unicode_len();
    let mut r: Vec<String> = Vec::new();
    let mut start: usize = 0;
    proof {
        assert(s@.skip(0) =~= s@);
    }
    let mut done = false;
    while !done
        invariant
            n == s@.len(),
            !done ==> start <= n && spec_split(s@, sep) == views_of(r@) + spec_split(
                s@.skip(start as int),
                sep,
            ),
            done ==> views_of(r@) == spec_split(s@, sep),
        decreases n - start, (if done {
            0int
        } else {
            1int
        }),
    {
        let mut j = start;
        while j < n && s.get_char(j) != sep
            invariant
                start <= j <= n,
                n == s@.len(),
                forall|k: int| start <= k < j ==> s@[k] != sep,
            decreases n - j,
        {
            j = j + 1;
        }
        let ghost rest = s@.skip(start as int);
        proof {
            assert forall|k: int| 0 <= k < j - start implies rest[k] != sep by {
                assert(rest[k] == s@[k + start]);
            }
            if j < n {
                assert(rest[j - start] == s@[j as int]);
            }
            lemma_first_sep_at(rest, sep, j - start);
            assert(rest.take(j - start) =~= s@.subrange(start as int, j as int));
        }
        let piece = s.substring_char(start, j).to_owned();
        r.push(piece);
        proof {
            assert(views_of(r@) =~= views_of(r@.drop_last()) + seq![s@.subrange(
                start as int,
                j as int,
            )]);
        }
        if j == n {
            proof {
                assert(spec_split(rest, sep) == seq![rest]);
                assert(rest =~= s@.subrange(start as int, j as int));
                assert(views_of(r@) =~= spec_split(s@, sep));
            }
            done = true;
        } else {
            proof {
                assert(spec_split(rest, sep) == seq![rest.take(j - start)] + spec_split(
                    rest.skip(j - start + 1),
                    sep,
                ));
                assert(rest.skip(j - start + 1) =~= s@.skip(j + 1));
                assert(views_of(r@) + spec_split(s@.skip(j + 1), sep) =~= spec_split(s@, sep));
            }
            start = j + 1;
        }
    }
    r
}

} // verus!
