//! Searching a byte string for a pattern.
use vstd::prelude::*;
use vstd::slice::slice_subrange;

verus! {

/// `pat` occurs in `s` at position `k`.
pub open spec fn occurs_at(s: Seq<u8>, pat: Seq<u8>, k: int) -> bool {
    0 <= k && k + pat.len() <= s.len() && s.subrange(k, k + pat.len()) == pat
}

/// `k` is the first position at or after `from` where `pat` occurs in `s`.
pub open spec fn first_occurrence_from(s: Seq<u8>, pat: Seq<u8>, from: int, k: int) -> bool {
    &&& from <= k
    &&& occurs_at(s, pat, k)
    &&& forall|j: int| from <= j < k ==> !occurs_at(s, pat, j)
}

/// Relies on `memchr::memchr`: the position of the first byte of
/// `haystack` equal to `needle`, if there is one.
#[verifier::external_body]
fn memchr_first(needle: u8, haystack: &[u8]) -> (r: Option<usize>)
    ensures
        r matches Some(i) ==> i < haystack@.len() && haystack@[i as int] == needle,
        r matches Some(i) ==> forall|j: int| 0 <= j < i ==> haystack@[j] != needle,
        r is None ==> forall|j: int| 0 <= j < haystack@.len() ==> haystack@[j] != needle,
{
    memchr::memchr(needle, haystack)
}

/// Whether `pat` occurs in `data` at `start`.
fn matches_at(data: &[u8], pat: &[u8], start: usize) -> (r: bool)
    requires
        start <= data@.len(),
    ensures
        r == occurs_at(data@, pat@, start as int),
{
    let n = data.len();
    if pat.len() > n - start {
        return false;
    }
    let mut i: usize = 0;
    while i < pat.len()
        invariant
            n == data@.len(),
            start + pat@.len() <= data@.len(),
            i <= pat@.len(),
            forall|j: int| 0 <= j < i ==> data@[start + j] == pat@[j],
        decreases pat@.len() - i,
    {
        if data[start + i] != pat[i] {
            assert(data@.subrange(start as int, start + pat@.len())[i as int] != pat@[i as int]);
            return false;
        }
        i += 1;
    }
    assert(data@.subrange(start as int, start + pat@.len()) =~= pat@);
    true
}

/// The first position of `pat` in `data`. An empty pattern is found at 0.
pub fn find_substr(data: &[u8], pat: &[u8]) -> (r: Option<usize>)
    ensures
        r matches Some(k) ==> first_occurrence_from(data@, pat@, 0, k as int),
        r is None ==> forall|j: int| 0 <= j ==> !occurs_at(data@, pat@, j),
{
    if pat.len() == 0 {
        assert(data@.subrange(0, 0) =~= pat@);
        return Some(0);
    }
    let first = pat[0];
    let n = data.len();
    let mut offset: usize = 0;
    loop
        invariant
            n == data@.len(),
            pat@.len() > 0,
            first == pat@[0],
            offset <= data@.len(),
            forall|j: int| 0 <= j < offset ==> !occurs_at(data@, pat@, j),
        decreases data@.len() - offset,
    {
        if offset == n {
            return None;
        }
        let rest = slice_subrange(data, offset, n);
        match memchr_first(first, rest) {
            None => {
                assert forall|j: int| offset <= j implies !occurs_at(data@, pat@, j) by {
                    if occurs_at(data@, pat@, j) {
                        assert(data@.subrange(j, j + pat@.len())[0] == pat@[0]);
                        assert(rest@[j - offset] == data@[j]);
                    }
                }
                return None;
            },
            Some(x) => {
                let start = offset + x;
                assert forall|j: int| offset <= j < start implies !occurs_at(data@, pat@, j) by {
                    if occurs_at(data@, pat@, j) {
                        assert(data@.subrange(j, j + pat@.len())[0] == pat@[0]);
                        assert(rest@[j - offset] == data@[j]);
                    }
                }
                if matches_at(data, pat, start) {
                    return Some(start);
                }
                offset = start + 1;
            },
        }
    }
}

} // verus!
