//! Verified text helpers: occurrence testing and placeholder replacement
//! over the character view of strings.

use vstd::prelude::*;

verus! {

use vstd::string::*;

/// The pattern `pat` occurs in `s` at position `i`.
pub open spec fn match_at(s: Seq<char>, pat: Seq<char>, i: int) -> bool {
    0 <= i && i + pat.len() <= s.len() && s.subrange(i, i + pat.len() as int) == pat
}

/// `s` begins with `pat`.
pub open spec fn starts_with(s: Seq<char>, pat: Seq<char>) -> bool {
    match_at(s, pat, 0)
}

/// `s` with every occurrence of a non-empty `pat` replaced by `rep`,
/// scanning left to right over non-overlapping occurrences, as
/// `str::replace` does.
pub open spec fn replaced(s: Seq<char>, pat: Seq<char>, rep: Seq<char>) -> Seq<char>
    decreases s.len(),
{
    if s.len() == 0 {
        Seq::empty()
    } else if 0 < pat.len() <= s.len() && s.subrange(0, pat.len() as int) == pat {
        rep + replaced(s.subrange(pat.len() as int, s.len() as int), pat, rep)
    } else {
        seq![s[0]] + replaced(s.subrange(1, s.len() as int), pat, rep)
    }
}

/// Whether `pat` occurs in `s` at position `i`, by character comparison.
pub fn str_match_at(s: &str, pat: &str, i: usize) -> (r: bool)
    requires
        i <= s@.len(),
    ensures
        r == match_at(s@, pat@, i as int),
{
    let s_len: usize = s.unicode_len();
    let pat_len: usize = pat.unicode_len();
    if pat_len > s_len - i {
        return false;
    }
    let mut j: usize = 0;
    while j < pat_len
        invariant
            j <= pat_len,
            i + pat_len <= s@.len(),
            s_len == s@.len(),
            pat_len == pat@.len(),
            forall|k: int| 0 <= k < j ==> s@[i + k] == pat@[k],
        decreases pat_len - j,
    {
        if s.get_char(i + j) != pat.get_char(j) {
            proof {
                assert(s@.subrange(i as int, i + pat@.len())[j as int] == s@[i + j]);
            }
            return false;
        }
        j = j + 1;
    }
    proof {
        assert(s@.subrange(i as int, i + pat@.len()) =~= pat@);
    }
    true
}

/// `s` with every occurrence of the non-empty pattern `pat` replaced by
/// `rep`, scanning left to right.
pub fn str_replace(s: &str, pat: &str, rep: &str) -> (r: String)
    requires
        pat@.len() > 0,
    ensures
        r@ == replaced(s@, pat@, rep@),
{
    let s_len: usize = s.unicode_len();
    let pat_len: usize = pat.unicode_len();
    let mut out = String::new();
    let mut i: usize = 0;
    proof {
        assert(s@.subrange(0, s@.len() as int) =~= s@);
        assert(out@ + replaced(s@, pat@, rep@) =~= replaced(s@, pat@, rep@));
    }
    while i < s_len
        invariant
            i <= s_len,
            s_len == s@.len(),
            pat_len == pat@.len(),
            pat@.len() > 0,
            out@ + replaced(s@.subrange(i as int, s@.len() as int), pat@, rep@) == replaced(
                s@,
                pat@,
                rep@,
            ),
        decreases s_len - i,
    {
        let ghost rest = replaced(s@.subrange(i as int, s@.len() as int), pat@, rep@);
        if str_match_at(s, pat, i) {
            proof {
                lemma_replaced_unfold_match(s@, pat@, rep@, i as int);
                assert((out@ + rep@) + replaced(
                    s@.subrange(i + pat@.len(), s@.len() as int),
                    pat@,
                    rep@,
                ) =~= out@ + rest);
            }
            out.append(rep);
            i = i + pat_len;
        } else {
            proof {
                lemma_replaced_unfold_nomatch(s@, pat@, rep@, i as int);
                assert(s@.subrange(i as int, i + 1) =~= seq![s@[i as int]]);
                assert((out@ + s@.subrange(i as int, i + 1)) + replaced(
                    s@.subrange(i + 1, s@.len() as int),
                    pat@,
                    rep@,
                ) =~= out@ + rest);
            }
            let c = s.substring_char(i, i + 1);
            out.append(c);
            i = i + 1;
        }
    }
    proof {
        assert(s@.subrange(i as int, s@.len() as int) =~= Seq::<char>::empty());
        assert(out@ + replaced(Seq::<char>::empty(), pat@, rep@) =~= out@);
    }
    out
}

proof fn lemma_replaced_unfold_match(s: Seq<char>, pat: Seq<char>, rep: Seq<char>, i: int)
    requires
        0 < pat.len(),
        0 <= i <= s.len(),
        match_at(s, pat, i),
    ensures
        replaced(s.subrange(i, s.len() as int), pat, rep) == rep + replaced(
            s.subrange(i + pat.len(), s.len() as int),
            pat,
            rep,
        ),
{
    let t = s.subrange(i, s.len() as int);
    assert(t.subrange(0, pat.len() as int) =~= s.subrange(i, i + pat.len()));
    assert(t.subrange(pat.len() as int, t.len() as int) =~= s.subrange(
        i + pat.len(),
        s.len() as int,
    ));
}

proof fn lemma_replaced_unfold_nomatch(s: Seq<char>, pat: Seq<char>, rep: Seq<char>, i: int)
    requires
        0 < pat.len(),
        0 <= i < s.len(),
        !match_at(s, pat, i),
    ensures
        replaced(s.subrange(i, s.len() as int), pat, rep) == seq![s[i]] + replaced(
            s.subrange(i + 1, s.len() as int),
            pat,
            rep,
        ),
{
    let t = s.subrange(i, s.len() as int);
    if pat.len() <= t.len() {
        assert(t.subrange(0, pat.len() as int) =~= s.subrange(i, i + pat.len()));
    }
    assert(t.subrange(1, t.len() as int) =~= s.subrange(i + 1, s.len() as int));
    assert(seq![t[0]] =~= seq![s[i]]);
}

} // verus!
