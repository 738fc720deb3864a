//! Character-level text scanning: substring search, sequential replacement,
//! and the trimming rules the dialects depend on.

use vstd::prelude::*;
use vstd::string::*;

verus! {

/// True when `pat` occurs in `s` starting at index `i`.
pub open spec fn matches_at(s: Seq<char>, pat: Seq<char>, i: int) -> bool {
    0 <= i && i + pat.len() <= s.len() && s.subrange(i, i + pat.len() as int) == pat
}

/// Index of the first occurrence of `pat` in `s` at or after `from`.
pub open spec fn find_from(s: Seq<char>, pat: Seq<char>, from: int) -> Option<int>
    decreases s.len() - from,
{
    if from < 0 || pat.len() < 1 || from + pat.len() > s.len() {
        None
    } else if s.subrange(from, from + pat.len() as int) == pat {
        Some(from)
    } else {
        find_from(s, pat, from + 1)
    }
}

/// A found occurrence lies at or after the search start and within bounds.
pub proof fn lemma_find_from_some(s: Seq<char>, pat: Seq<char>, from: int)
    ensures
        find_from(s, pat, from) matches Some(i) ==> from <= i && matches_at(s, pat, i),
    decreases s.len() - from,
{
    if from < 0 || pat.len() < 1 || from + pat.len() > s.len() {
    } else if s.subrange(from, from + pat.len() as int) == pat {
    } else {
        lemma_find_from_some(s, pat, from + 1);
    }
}

/// Compares `pat` against the window of `s` that starts at `i`.
pub fn match_at(s: &Vec<char>, pat: &Vec<char>, i: usize) -> (r: bool)
    requires
        i + pat@.len() <= s@.len(),
    ensures
        r == matches_at(s@, pat@, i as int),
{
    let ghost w = s@.subrange(i as int, i + pat@.len() as int);
    let n = s.len();
    let mut j: usize = 0;
    while j < pat.len()
        invariant
            i + pat@.len() <= s@.len(),
            n == s@.len(),
            j <= pat@.len(),
            w == s@.subrange(i as int, i + pat@.len() as int),
            forall|k: int| 0 <= k < j ==> s@[i + k] == pat@[k],
        decreases pat@.len() - j,
    {
        if s[i + j] != pat[j] {
            proof {
                assert(w[j as int] == s@[i + j]);
                assert(w != pat@);
            }
            return false;
        }
        j += 1;
    }
    proof {
        assert(w =~= pat@);
    }
    true
}

/// Finds the first occurrence of `pat` in `s` at or after `from`.
pub fn find_sub(s: &Vec<char>, pat: &Vec<char>, from: usize) -> (r: Option<usize>)
    requires
        1 <= pat@.len(),
    ensures
        (match r {
            Some(i) => from <= i && find_from(s@, pat@, from as int) == Some(i as int),
            None => find_from(s@, pat@, from as int) is None,
        }),
{
    if s.len() < pat.len() || from > s.len() - pat.len() {
        return None;
    }
    let mut i: usize = from;
    while i <= s.len() - pat.len()
        invariant
            1 <= pat@.len() <= s@.len(),
            from <= i,
            i <= s@.len() - pat@.len() + 1,
            find_from(s@, pat@, from as int) == find_from(s@, pat@, i as int),
        decreases s@.len() - i,
    {
        if match_at(s, pat, i) {
            return Some(i);
        }
        i += 1;
    }
    None
}

/// `s` with every non-overlapping occurrence of `pat` replaced by `rep`,
/// scanning left to right.
pub open spec fn replace_seq(s: Seq<char>, pat: Seq<char>, rep: Seq<char>) -> Seq<char>
    decreases s.len(),
{
    if s.len() == 0 {
        Seq::empty()
    } else if 1 <= pat.len() <= s.len() && s.subrange(0, pat.len() as int) == pat {
        rep + replace_seq(s.skip(pat.len() as int), pat, rep)
    } else {
        seq![s[0]] + replace_seq(s.skip(1), pat, rep)
    }
}

/// Replaces every non-overlapping occurrence of `pat` in `s` by `rep`,
/// scanning left to right.
pub fn replace_all(s: &Vec<char>, pat: &Vec<char>, rep: &Vec<char>) -> (r: Vec<char>)
    requires
        1 <= pat@.len(),
    ensures
        r@ == replace_seq(s@, pat@, rep@),
{
    let mut out: Vec<char> = Vec::new();
    let mut i: usize = 0;
    proof {
        assert(s@.skip(0) =~= s@);
        assert(out@ + replace_seq(s@, pat@, rep@) =~= replace_seq(s@, pat@, rep@));
    }
    while i < s.len()
        invariant
            1 <= pat@.len(),
            i <= s@.len(),
            replace_seq(s@, pat@, rep@) == out@ + replace_seq(s@.skip(i as int), pat@, rep@),
        decreases s@.len() - i,
    {
        let ghost w = s@.skip(i as int);
        if s.len() - i >= pat.len() && match_at(s, pat, i) {
            proof {
                assert(w.subrange(0, pat@.len() as int) =~= s@.subrange(i as int, i + pat@.len() as int));
                assert(w.skip(pat@.len() as int) =~= s@.skip(i + pat@.len() as int));
                assert(replace_seq(w, pat@, rep@) == rep@ + replace_seq(
                    s@.skip(i + pat@.len() as int),
                    pat@,
                    rep@,
                ));
            }
            let ghost out0 = out@;
            let mut j: usize = 0;
            while j < rep.len()
                invariant
                    j <= rep@.len(),
                    out@ == out0 + rep@.subrange(0, j as int),
                decreases rep@.len() - j,
            {
                out.push(rep[j]);
                proof {
                    assert(out0 + rep@.subrange(0, j + 1) =~= (out0 + rep@.subrange(0, j as int)).push(
                        rep@[j as int],
                    ));
                }
                j += 1;
            }
            proof {
                assert(rep@.subrange(0, rep@.len() as int) =~= rep@);
                assert(out@ + replace_seq(s@.skip(i + pat@.len() as int), pat@, rep@)
                    =~= (out0 + replace_seq(w, pat@, rep@)).subrange(
                    0,
                    (out0 + replace_seq(w, pat@, rep@)).len() as int,
                ));
                assert(out@ + replace_seq(s@.skip(i + pat@.len() as int), pat@, rep@)
                    == out0 + replace_seq(w, pat@, rep@));
            }
            i += pat.len();
        } else {
            proof {
                assert(w[0] == s@[i as int]);
                if pat@.len() <= w.len() {
                    assert(w.subrange(0, pat@.len() as int) =~= s@.subrange(i as int, i + pat@.len() as int));
                    assert(w.subrange(0, pat@.len() as int) != pat@);
                }
                assert(w.skip(1) =~= s@.skip(i + 1));
                assert(replace_seq(w, pat@, rep@) == seq![s@[i as int]] + replace_seq(
                    s@.skip(i + 1),
                    pat@,
                    rep@,
                ));
            }
            let ghost out0 = out@;
            out.push(s[i]);
            proof {
                assert(out@ + replace_seq(s@.skip(i + 1), pat@, rep@) =~= out0 + replace_seq(
                    w,
                    pat@,
                    rep@,
                ));
            }
            i += 1;
        }
    }
    proof {
        assert(s@.skip(i as int) =~= Seq::<char>::empty());
        assert(out@ + Seq::<char>::empty() =~= out@);
    }
    out
}

/// Replacement leaves `s` unchanged when `pat` occurs nowhere in `s`.
pub proof fn lemma_replace_absent_identity(s: Seq<char>, pat: Seq<char>, rep: Seq<char>)
    requires
        1 <= pat.len(),
        forall|i: int| !matches_at(s, pat, i),
    ensures
        replace_seq(s, pat, rep) == s,
    decreases s.len(),
{
    if s.len() == 0 {
        assert(replace_seq(s, pat, rep) =~= s);
    } else {
        if pat.len() <= s.len() {
            assert(!matches_at(s, pat, 0));
            assert(s.subrange(0, pat.len() as int) != pat);
        }
        assert forall|i: int| !matches_at(s.skip(1), pat, i) by {
            if 0 <= i && i + pat.len() <= s.skip(1).len() {
                assert(s.skip(1).subrange(i, i + pat.len() as int) =~= s.subrange(
                    i + 1,
                    i + 1 + pat.len(),
                ));
                assert(!matches_at(s, pat, i + 1));
            }
        }
        lemma_replace_absent_identity(s.skip(1), pat, rep);
        assert(seq![s[0]] + s.skip(1) =~= s);
    }
}

/// The set of characters `str::trim` removes: Unicode whitespace.
pub open spec fn is_rust_whitespace(c: char) -> bool {
    let n = c as u32;
    (9 <= n && n <= 13) || n == 32 || n == 0x85 || n == 0xA0 || n == 0x1680 || (0x2000 <= n && n
        <= 0x200A) || n == 0x2028 || n == 0x2029 || n == 0x202F || n == 0x205F || n == 0x3000
}

/// Decides Unicode whitespace by the documented character table.
pub fn char_is_whitespace(c: char) -> (r: bool)
    ensures
        r == is_rust_whitespace(c),
{
    let n = c as u32;
    (9 <= n && n <= 13) || n == 32 || n == 0x85 || n == 0xA0 || n == 0x1680 || (0x2000 <= n && n
        <= 0x200A) || n == 0x2028 || n == 0x2029 || n == 0x202F || n == 0x205F || n == 0x3000
}

/// `s` without leading and trailing whitespace.
pub open spec fn trim_spec(s: Seq<char>) -> Seq<char>
    decreases s.len(),
{
    if s.len() > 0 && is_rust_whitespace(s[0]) {
        trim_spec(s.skip(1))
    } else if s.len() > 0 && is_rust_whitespace(s[s.len() - 1]) {
        trim_spec(s.take(s.len() - 1))
    } else {
        s
    }
}

/// `s` with every leading copy of `pat` removed.
pub open spec fn trim_prefix_spec(s: Seq<char>, pat: Seq<char>) -> Seq<char>
    decreases s.len(),
{
    if 1 <= pat.len() <= s.len() && s.subrange(0, pat.len() as int) == pat {
        trim_prefix_spec(s.skip(pat.len() as int), pat)
    } else {
        s
    }
}

/// `s` with every trailing copy of `pat` removed.
pub open spec fn trim_suffix_spec(s: Seq<char>, pat: Seq<char>) -> Seq<char>
    decreases s.len(),
{
    if 1 <= pat.len() <= s.len() && s.subrange(s.len() - pat.len(), s.len() as int) == pat {
        trim_suffix_spec(s.take(s.len() - pat.len()), pat)
    } else {
        s
    }
}

/// Copies `s[lo..hi]` into a fresh vector.
pub fn copy_range(s: &Vec<char>, lo: usize, hi: usize) -> (r: Vec<char>)
    requires
        lo <= hi <= s@.len(),
    ensures
        r@ == s@.subrange(lo as int, hi as int),
{
    let mut out: Vec<char> = Vec::new();
    let mut k: usize = lo;
    while k < hi
        invariant
            lo <= k <= hi <= s@.len(),
            out@ == s@.subrange(lo as int, k as int),
        decreases hi - k,
    {
        out.push(s[k]);
        proof {
            assert(s@.subrange(lo as int, k + 1) =~= s@.subrange(lo as int, k as int).push(
                s@[k as int],
            ));
        }
        k += 1;
    }
    out
}

/// Removes leading and trailing whitespace, as `str::trim` does.
pub fn trim_chars(s: &Vec<char>) -> (r: Vec<char>)
    ensures
        r@ == trim_spec(s@),
{
    let mut lo: usize = 0;
    let mut hi: usize = s.len();
    proof {
        assert(s@.subrange(0, s@.len() as int) =~= s@);
    }
    while lo < hi && char_is_whitespace(s[lo])
        invariant
            lo <= hi <= s@.len(),
            trim_spec(s@) == trim_spec(s@.subrange(lo as int, hi as int)),
        decreases hi - lo,
    {
        proof {
            let w = s@.subrange(lo as int, hi as int);
            assert(w[0] == s@[lo as int]);
            assert(w.skip(1) =~= s@.subrange(lo + 1, hi as int));
        }
        lo += 1;
    }
    while lo < hi && char_is_whitespace(s[hi - 1])
        invariant
            lo <= hi <= s@.len(),
            trim_spec(s@) == trim_spec(s@.subrange(lo as int, hi as int)),
            lo < hi ==> !is_rust_whitespace(s@[lo as int]),
        decreases hi - lo,
    {
        proof {
            let w = s@.subrange(lo as int, hi as int);
            assert(w[0] == s@[lo as int]);
            assert(w[w.len() - 1] == s@[hi - 1]);
            assert(w.take(w.len() - 1) =~= s@.subrange(lo as int, hi - 1));
        }
        hi -= 1;
    }
    proof {
        let w = s@.subrange(lo as int, hi as int);
        if w.len() > 0 {
            assert(w[0] == s@[lo as int]);
            assert(w[w.len() - 1] == s@[hi - 1]);
        }
        assert(trim_spec(w) == w);
    }
    copy_range(s, lo, hi)
}

/// Removes every leading copy of `pat`, as `str::trim_start_matches` does.
pub fn strip_prefix_all(s: &Vec<char>, pat: &Vec<char>) -> (r: Vec<char>)
    requires
        1 <= pat@.len(),
    ensures
        r@ == trim_prefix_spec(s@, pat@),
{
    let mut lo: usize = 0;
    proof {
        assert(s@.subrange(0, s@.len() as int) =~= s@);
    }
    while s.len() - lo >= pat.len() && match_at(s, pat, lo)
        invariant
            lo <= s@.len(),
            1 <= pat@.len(),
            trim_prefix_spec(s@, pat@) == trim_prefix_spec(s@.subrange(lo as int, s@.len() as int), pat@),
        decreases s@.len() - lo,
    {
        proof {
            let w = s@.subrange(lo as int, s@.len() as int);
            assert(w.subrange(0, pat@.len() as int) =~= s@.subrange(lo as int, lo + pat@.len() as int));
            assert(w.skip(pat@.len() as int) =~= s@.subrange(lo + pat@.len(), s@.len() as int));
        }
        lo += pat.len();
    }
    proof {
        let w = s@.subrange(lo as int, s@.len() as int);
        if pat@.len() <= w.len() {
            assert(w.subrange(0, pat@.len() as int) =~= s@.subrange(lo as int, lo + pat@.len() as int));
        }
        assert(trim_prefix_spec(w, pat@) == w);
    }
    copy_range(s, lo, s.len())
}

/// Removes every trailing copy of `pat`, as `str::trim_end_matches` does.
pub fn strip_suffix_all(s: &Vec<char>, pat: &Vec<char>) -> (r: Vec<char>)
    requires
        1 <= pat@.len(),
    ensures
        r@ == trim_suffix_spec(s@, pat@),
{
    let mut hi: usize = s.len();
    proof {
        assert(s@.subrange(0, s@.len() as int) =~= s@);
    }
    while hi >= pat.len() && match_at(s, pat, hi - pat.len())
        invariant
            hi <= s@.len(),
            1 <= pat@.len(),
            trim_suffix_spec(s@, pat@) == trim_suffix_spec(s@.subrange(0, hi as int), pat@),
        decreases hi,
    {
        proof {
            let w = s@.subrange(0, hi as int);
            assert(w.subrange(w.len() - pat@.len(), w.len() as int) =~= s@.subrange(
                hi - pat@.len(),
                hi as int,
            ));
            assert(w.take(w.len() - pat@.len()) =~= s@.subrange(0, hi - pat@.len()));
        }
        hi -= pat.len();
    }
    proof {
        let w = s@.subrange(0, hi as int);
        if pat@.len() <= w.len() {
            assert(w.subrange(w.len() - pat@.len(), w.len() as int) =~= s@.subrange(
                hi - pat@.len(),
                hi as int,
            ));
        }
        assert(trim_suffix_spec(w, pat@) == w);
    }
    copy_range(s, 0, hi)
}

/// Relies on `Iterator::collect` for `String`: collecting characters yields
/// the string made of exactly those characters, in order.
#[verifier::external_body]
pub fn chars_to_string(v: &Vec<char>) -> (r: String)
    ensures
        r@ == v@,
{
    v.iter().collect()
}

/// Collects the characters of `s` into a vector.
pub fn str_to_chars(s: &str) -> (r: Vec<char>)
    ensures
        r@ == s@,
{
    let n = s.unicode_len();
    let mut out: Vec<char> = Vec::new();
    let mut i: usize = 0;
    while i < n
        invariant
            n == s@.len(),
            i <= n,
            out@ == s@.subrange(0, i as int),
        decreases n - i,
    {
        out.push(s.get_char(i));
        proof {
            assert(s@.subrange(0, i + 1) =~= s@.subrange(0, i as int).push(s@[i as int]));
        }
        i += 1;
    }
    proof {
        assert(s@.subrange(0, n as int) =~= s@);
    }
    out
}

} // verus!
