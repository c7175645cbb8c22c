//! Naming of the simulated environment's files: each data file `X.txt` is
//! guarded by a lock file `X.lock`.
use vstd::prelude::*;

verus! {

/// `s` with every occurrence of `pat` replaced by `rep`, scanning left to
/// right and never matching inside a replacement (as `str::replace` does for
/// a non-empty pattern).
pub open spec fn replace_all(s: Seq<char>, pat: Seq<char>, rep: Seq<char>) -> Seq<char>
    decreases s.len(),
{
    if s.len() == 0 || pat.len() == 0 {
        s
    } else if s.len() >= pat.len() && s.take(pat.len() as int) == pat {
        rep + replace_all(s.skip(pat.len() as int), pat, rep)
    } else {
        seq![s[0]] + replace_all(s.skip(1), pat, rep)
    }
}

proof fn lemma_replace_step(s: Seq<char>, i: int, pat: Seq<char>, rep: Seq<char>)
    requires
        0 <= i < s.len(),
        pat.len() > 0,
    ensures
        (i + pat.len() <= s.len() && s.subrange(i, i + pat.len()) == pat) ==> replace_all(
            s.skip(i),
            pat,
            rep,
        ) == rep + replace_all(s.skip(i + pat.len()), pat, rep),
        !(i + pat.len() <= s.len() && s.subrange(i, i + pat.len()) == pat) ==> replace_all(
            s.skip(i),
            pat,
            rep,
        ) == seq![s[i]] + replace_all(s.skip(i + 1), pat, rep),
{
    let t = s.skip(i);
    assert(t.skip(1) =~= s.skip(i + 1));
    if i + pat.len() <= s.len() {
        assert(t.skip(pat.len() as int) =~= s.skip(i + pat.len()));
        assert(t.take(pat.len() as int) =~= s.subrange(i, i + pat.len()));
    }
}

/// The lock file that guards a data file: the path with `.txt` replaced by
/// `.lock`.
pub fn lock_path(data_path: &str) -> (r: String)
    ensures
        r@ == replace_all(data_path@, ".txt"@, ".lock"@),
{
    proof {
        reveal_strlit(".txt");
    }
    let s = data_path;
    let n = s.unicode_len();
    let mut out = String::new();
    let mut start: usize = 0;
    let mut i: usize = 0;
    proof {
        assert(s@.skip(0) =~= s@);
        assert(out@ + s@.subrange(0, 0) =~= Seq::<char>::empty());
    }
    while i < n
        invariant
            n == s@.len(),
            ".txt"@ == seq!['.', 't', 'x', 't'],
            start <= i <= n,
            replace_all(s@, ".txt"@, ".lock"@) == out@ + s@.subrange(start as int, i as int)
                + replace_all(s@.skip(i as int), ".txt"@, ".lock"@),
        decreases n - i,
    {
        proof {
            lemma_replace_step(s@, i as int, ".txt"@, ".lock"@);
        }
        let found = n - i >= 4 && s.get_char(i) == '.' && s.get_char(i + 1) == 't' && s.get_char(
            i + 2,
        ) == 'x' && s.get_char(i + 3) == 't';
        proof {
            if i + 4 <= n {
                let w = s@.subrange(i as int, i + 4);
                assert(found ==> w =~= ".txt"@);
                assert(w == ".txt"@ ==> w[0] == '.' && w[1] == 't' && w[2] == 'x' && w[3] == 't');
            }
        }
        if found {
            let pending = s.substring_char(start, i);
            out.append(pending);
            out.append(".lock");
            proof {
                assert(s@.subrange(i + 4, i + 4) =~= Seq::<char>::empty());
            }
            i = i + 4;
            start = i;
        } else {
            proof {
                assert(s@.subrange(start as int, i + 1) =~= s@.subrange(start as int, i as int)
                    + seq![s@[i as int]]);
            }
            i = i + 1;
        }
    }
    let tail = s.substring_char(start, n);
    out.append(tail);
    proof {
        assert(s@.skip(n as int) =~= Seq::<char>::empty());
    }
    out
}

} // verus!
