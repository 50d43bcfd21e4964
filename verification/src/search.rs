//! Substring search over character sequences.

use vstd::prelude::*;

verus! {

/// Whether `pat` occurs in `hay` starting at index `i`.
pub open spec fn match_at(hay: Seq<char>, pat: Seq<char>, i: int) -> bool {
    0 <= i && i + pat.len() <= hay.len() && hay.subrange(i, i + pat.len()) == pat
}

/// Whether `pat` occurs anywhere in `hay`.
pub open spec fn seq_contains(hay: Seq<char>, pat: Seq<char>) -> bool {
    exists|i: int| match_at(hay, pat, i)
}

/// Whether `pat` occurs in `hay` starting at `i`.
fn match_at_exec(hay: &Vec<char>, pat: &Vec<char>, i: usize) -> (r: bool)
    requires
        i + pat@.len() <= hay@.len(),
    ensures
        r == match_at(hay@, pat@, i as int),
{
    let hlen = hay.len();
    let mut k: usize = 0;
    while k < pat.len()
        invariant
            0 <= k <= pat@.len(),
            i + pat@.len() <= hay@.len(),
            hlen == hay@.len(),
            forall|j: int| 0 <= j < k ==> hay@[i + j] == pat@[j],
        decreases pat@.len() - k,
    {
        if hay[i + k] != pat[k] {
            proof {
                assert(hay@.subrange(i as int, i + pat@.len())[k as int] == hay@[i + k]);
            }
            return false;
        }
        k = k + 1;
    }
    proof {
        assert(hay@.subrange(i as int, i + pat@.len()) =~= pat@);
    }
    true
}

/// Whether `pat` occurs anywhere in `hay`.
pub fn chars_contain(hay: &Vec<char>, pat: &Vec<char>) -> (r: bool)
    ensures
        r == seq_contains(hay@, pat@),
{
    if pat.len() > hay.len() {
        proof {
            assert(forall|i: int| !match_at(hay@, pat@, i));
        }
        return false;
    }
    if pat.len() == 0 {
        proof {
            assert(hay@.subrange(0, 0) =~= pat@);
            assert(match_at(hay@, pat@, 0));
        }
        return true;
    }
    let hlen = hay.len();
    let last_start = hlen - pat.len();
    let mut i: usize = 0;
    while i <= last_start
        invariant
            1 <= pat@.len() <= hay@.len(),
            hlen == hay@.len(),
            last_start == hay@.len() - pat@.len(),
            0 <= i <= last_start + 1,
            forall|j: int| 0 <= j < i ==> !match_at(hay@, pat@, j),
        decreases last_start + 1 - i,
    {
        if match_at_exec(hay, pat, i) {
            return true;
        }
        i = i + 1;
    }
    proof {
        assert(forall|j: int| j > last_start ==> !match_at(hay@, pat@, j));
    }
    false
}

/// The characters of `s`, as a vector.
pub fn str_chars(s: &str) -> (v: Vec<char>)
    ensures
        v@ == s@,
{
    let len = s.unicode_len();
    let mut v: Vec<char> = Vec::new();
    let mut i: usize = 0;
    while i < len
        invariant
            0 <= i <= len,
            len == s@.len(),
            v@ =~= s@.take(i as int),
        decreases len - i,
    {
        let c = s.get_char(i);
        proof {
            assert(s@.take(i as int + 1) =~= s@.take(i as int) + seq![s@[i as int]]);
        }
        v.push(c);
        i = i + 1;
    }
    proof {
        assert(s@.take(len as int) =~= s@);
    }
    v
}

} // verus!
