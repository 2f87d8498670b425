use vstd::prelude::*;

verus! {

/// The Unicode-lowercased form of a character sequence, as
/// `str::to_lowercase` computes it.  The mapping depends on the characters
/// alone, so it is given a name rather than spelled out.
pub uninterp spec fn lower_of(s: Seq<char>) -> Seq<char>;

/// Relies on `str::to_lowercase`: the result is a pure function of the
/// characters of the input.
#[verifier::external_body]
pub fn lowercase(s: &str) -> (r: String)
    ensures
        r@ == lower_of(s@),
{
    s.to_lowercase()
}

/// `needle` occurs in `hay` starting at offset `k`.
pub open spec fn occurs_at(hay: Seq<char>, needle: Seq<char>, k: int) -> bool {
    &&& 0 <= k
    &&& k + needle.len() <= hay.len()
    &&& forall|j: int| 0 <= j < needle.len() ==> hay[k + j] == needle[j]
}

/// `needle` occurs somewhere in `hay` (the empty needle always does).
pub open spec fn spec_str_contains(hay: Seq<char>, needle: Seq<char>) -> bool {
    exists|k: int| occurs_at(hay, needle, k)
}

/// `needle` is a prefix of `hay`.
pub open spec fn spec_str_prefix(hay: Seq<char>, needle: Seq<char>) -> bool {
    occurs_at(hay, needle, 0)
}

/// Does `needle` occur in `hay` starting exactly at character offset `k`?
fn matches_at(hay: &str, needle: &str, k: usize) -> (r: bool)
    requires
        k + needle@.len() <= hay@.len(),
        hay@.len() <= usize::MAX,
    ensures
        r == occurs_at(hay@, needle@, k as int),
{
    let n = needle.unicode_len();
    let mut j: usize = 0;
    while j < n
        invariant
            n == needle@.len(),
            0 <= j <= n,
            k + n <= hay@.len(),
            hay@.len() <= usize::MAX,
            forall|jj: int| 0 <= jj < j ==> hay@[k + jj] == needle@[jj],
        decreases n - j,
    {
        if hay.get_char(k + j) != needle.get_char(j) {
            return false;
        }
        j = j + 1;
    }
    true
}

/// Substring test over characters: does `needle` occur anywhere in `hay`?
pub fn str_contains_chars(hay: &str, needle: &str) -> (r: bool)
    ensures
        r == spec_str_contains(hay@, needle@),
{
    let hn = hay.unicode_len();
    let n = needle.unicode_len();
    if n > hn {
        proof {
            assert forall|k: int| !occurs_at(hay@, needle@, k) by {}
        }
        return false;
    }
    let mut k: usize = 0;
    let last = hn - n;
    while k <= last
        invariant
            hn == hay@.len(),
            n == needle@.len(),
            n <= hn,
            last == hn - n,
            0 <= k <= last + 1,
            forall|kk: int| 0 <= kk < k ==> !occurs_at(hay@, needle@, kk),
        decreases last + 1 - k,
    {
        if matches_at(hay, needle, k) {
            return true;
        }
        k = k + 1;
    }
    proof {
        assert forall|kk: int| !occurs_at(hay@, needle@, kk) by {
            if 0 <= kk <= last {
                assert(!occurs_at(hay@, needle@, kk));
            }
        }
    }
    false
}

/// Prefix test over characters: does `hay` start with `needle`?
pub fn str_prefix_chars(hay: &str, needle: &str) -> (r: bool)
    ensures
        r == spec_str_prefix(hay@, needle@),
{
    let hn = hay.unicode_len();
    let n = needle.unicode_len();
    if n > hn {
        return false;
    }
    matches_at(hay, needle, 0)
}

/// Character-wise equality of two string slices.
pub fn str_eq(a: &str, b: &str) -> (r: bool)
    ensures
        r == (a@ == b@),
{
    let sa: String = a.to_owned();
    let sb: String = b.to_owned();
    sa == sb
}

} // verus!
