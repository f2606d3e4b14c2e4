//! Searches and comparisons on text, and case folding.
use vstd::prelude::*;

verus! {

/// Whether `part` occurs in `s` as a contiguous run of characters.
pub open spec fn has_infix(s: Seq<char>, part: Seq<char>) -> bool {
    exists|i: int| 0 <= i && i + part.len() <= s.len() && #[trigger] s.subrange(i, i + part.len()) == part
}

/// The lowercase form of `s`, as Unicode defines it.
pub uninterp spec fn lower_of(s: Seq<char>) -> Seq<char>;

/// Relies on `str::to_lowercase`: the result depends on the characters alone.
#[verifier::external_body]
pub(crate) fn lowercase(s: &str) -> (r: String)
    ensures
        r@ == lower_of(s@),
{
    s.to_lowercase()
}

fn matches_at(s: &str, part: &str, at: usize) -> (r: bool)
    requires
        at + part@.len() <= s@.len(),
        s@.len() <= usize::MAX,
    ensures
        r == (s@.subrange(at as int, at + part@.len()) == part@),
{
    let k = part.unicode_len();
    let mut j: usize = 0;
    while j < k
        invariant
            k == part@.len(),
            at + k <= s@.len(),
            s@.len() <= usize::MAX,
            j <= k,
            forall|t: int| 0 <= t < j ==> s@[at + t] == part@[t],
        decreases k - j,
    {
        if s.get_char(at + j) != part.get_char(j) {
            proof {
                assert(s@.subrange(at as int, at + k)[j as int] != part@[j as int]);
            }
            return false;
        }
        j += 1;
    }
    proof {
        assert(s@.subrange(at as int, at + k) =~= part@);
    }
    true
}

/// Whether `part` occurs in `s`.
pub fn contains_text(s: &str, part: &str) -> (r: bool)
    ensures
        r == has_infix(s@, part@),
{
    let n = s.unicode_len();
    let k = part.unicode_len();
    if k > n {
        return false;
    }
    if k == 0 {
        proof {
            assert(s@.subrange(0int, 0int + part@.len()) =~= part@);
        }
        return true;
    }
    let mut i: usize = 0;
    while i <= n - k
        invariant
            n == s@.len(),
            k == part@.len(),
            1 <= k <= n,
            i <= n - k + 1,
            forall|j: int| 0 <= j < i ==> #[trigger] s@.subrange(j, j + k) != part@,
        decreases n - k + 1 - i,
    {
        if matches_at(s, part, i) {
            return true;
        }
        i += 1;
    }
    false
}

/// Whether `a` and `b` hold the same characters.
pub fn same_text(a: &str, b: &str) -> (r: bool)
    ensures
        r == (a@ == b@),
{
    if a.unicode_len() != b.unicode_len() {
        return false;
    }
    proof {
        assert(a@.subrange(0, a@.len() as int) =~= a@);
    }
    matches_at(a, b, 0)
}

} // verus!
