//! Small verified string helpers: equality and removal of every occurrence of
//! a pattern, the operation behind navigation-target normalization.

use vstd::prelude::*;
use vstd::string::*;

verus! {

/// `s` with every leftmost, non-overlapping occurrence of `pat` removed.
/// Scanning left to right: a match is skipped whole, anything else is kept.
pub open spec fn remove_all_view(s: Seq<char>, pat: Seq<char>) -> Seq<char>
    decreases s.len(),
    when pat.len() > 0
{
    if s.len() < pat.len() {
        s
    } else if s.subrange(0, pat.len() as int) == pat {
        remove_all_view(s.skip(pat.len() as int), pat)
    } else {
        seq![s[0]] + remove_all_view(s.skip(1), pat)
    }
}

/// How `remove_all_view` unfolds one position into the scan: a match at `i`
/// drops `pat`, anything else keeps the character at `i`.
proof fn lemma_remove_all_step(s: Seq<char>, pat: Seq<char>, i: int)
    requires
        pat.len() > 0,
        0 <= i < s.len(),
    ensures
        s.len() - i >= pat.len() && s.subrange(i, i + pat.len()) == pat ==> remove_all_view(
            s.skip(i),
            pat,
        ) == remove_all_view(s.skip(i + pat.len()), pat),
        s.len() - i < pat.len() || s.subrange(i, i + pat.len() as int) != pat ==> remove_all_view(
            s.skip(i),
            pat,
        ) == seq![s[i]] + remove_all_view(s.skip(i + 1), pat),
{
    let rest = s.skip(i);
    if s.len() - i >= pat.len() {
        assert(rest.subrange(0, pat.len() as int) =~= s.subrange(i, i + pat.len()));
        if s.subrange(i, i + pat.len()) == pat {
            assert(rest.skip(pat.len() as int) =~= s.skip(i + pat.len()));
        } else {
            assert(rest[0] == s[i]);
            assert(rest.skip(1) =~= s.skip(i + 1));
            assert(remove_all_view(rest, pat) == seq![s[i]] + remove_all_view(s.skip(i + 1), pat));
        }
    } else {
        // the rest is shorter than the pattern: it is kept unchanged, and so
        // is the even shorter rest one position further on
        assert(remove_all_view(rest, pat) == rest);
        assert(remove_all_view(s.skip(i + 1), pat) == s.skip(i + 1));
        assert(rest =~= seq![s[i]] + s.skip(i + 1));
    }
}

/// String equality over the character sequences.
pub fn eq_str(a: &str, b: &str) -> (r: bool)
    ensures
        r == (a@ == b@),
{
    a.to_owned() == b.to_owned()
}

/// `s` with every leftmost, non-overlapping occurrence of `pat` removed.
pub fn remove_all(s: &str, pat: &str) -> (r: String)
    requires
        pat@.len() > 0,
    ensures
        r@ == remove_all_view(s@, pat@),
{
    let n: usize = s.unicode_len();
    let plen: usize = pat.unicode_len();
    let mut out: String = String::new();
    let mut i: usize = 0;
    assert(s@.skip(0) =~= s@);
    while i < n
        invariant
            pat@.len() == plen,
            plen > 0,
            s@.len() == n,
            i <= n,
            remove_all_view(s@, pat@) == out@ + remove_all_view(s@.skip(i as int), pat@),
        decreases n - i,
    {
        let mut matched = false;
        if n - i >= plen {
            let cand = s.substring_char(i, i + plen);
            if eq_str(cand, pat) {
                matched = true;
            }
        }
        proof {
            lemma_remove_all_step(s@, pat@, i as int);
        }
        if matched {
            i = i + plen;
        } else {
            let c = s.substring_char(i, i + 1);
            let ghost prev = out@;
            out.append(c);
            proof {
                assert(c@ =~= seq![s@[i as int]]);
                assert(prev + (seq![s@[i as int]] + remove_all_view(s@.skip(i + 1), pat@)) =~= out@
                    + remove_all_view(s@.skip(i + 1), pat@));
            }
            i = i + 1;
        }
    }
    proof {
        assert(s@.skip(n as int) =~= Seq::<char>::empty());
        assert(out@ + remove_all_view(s@.skip(n as int), pat@) =~= out@);
    }
    out
}

} // verus!
