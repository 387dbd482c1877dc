//! Verified character-level helpers: whitespace trimming, character search,
//! and the `Bearer ` prefix split used by the request guard.
use vstd::prelude::*;

verus! {

/// The Unicode white-space code points: the set `str::trim` removes, and
/// the set that header and username trimming removes here.
pub open spec fn is_space_char(c: char) -> bool {
    let n = c as u32;
    n == 0x20 || (0x09 <= n && n <= 0x0d) || n == 0x85 || n == 0xa0 || n == 0x1680 || (0x2000
        <= n && n <= 0x200a) || n == 0x2028 || n == 0x2029 || n == 0x202f || n == 0x205f || n
        == 0x3000
}

/// No character of `s` is whitespace (vacuously true of the empty string).
pub open spec fn no_space(s: Seq<char>) -> bool {
    forall|i: int| 0 <= i < s.len() ==> !is_space_char(s[i])
}

/// Every character of `s` is whitespace (vacuously true of the empty string).
pub open spec fn all_space(s: Seq<char>) -> bool {
    forall|i: int| 0 <= i < s.len() ==> is_space_char(s[i])
}

/// `s` with leading and trailing whitespace removed.
pub open spec fn spec_trim(s: Seq<char>) -> Seq<char>
    decreases s.len(),
{
    if s.len() == 0 {
        s
    } else if is_space_char(s.first()) {
        spec_trim(s.drop_first())
    } else if is_space_char(s.last()) {
        spec_trim(s.drop_last())
    } else {
        s
    }
}

/// Trimming a string of nothing but whitespace leaves nothing.
pub proof fn lemma_trim_all_space(s: Seq<char>)
    requires
        all_space(s),
    ensures
        spec_trim(s).len() == 0,
    decreases s.len(),
{
    if s.len() > 0 {
        assert(is_space_char(s[0]));
        assert(all_space(s.drop_first())) by {
            assert(forall|i: int|
                0 <= i < s.drop_first().len() ==> s.drop_first()[i] == s[i + 1]);
        }
        lemma_trim_all_space(s.drop_first());
    }
}

/// If `lo` is the first and `hi` the last index holding a non-whitespace
/// character, trimming keeps exactly the characters from `lo` to `hi`.
pub proof fn lemma_trim_bounds(s: Seq<char>, lo: int, hi: int)
    requires
        0 <= lo <= hi < s.len(),
        !is_space_char(s[lo]),
        !is_space_char(s[hi]),
        forall|k: int| 0 <= k < lo ==> is_space_char(s[k]),
        forall|k: int| hi < k < s.len() ==> is_space_char(s[k]),
    ensures
        spec_trim(s) == s.subrange(lo, hi + 1),
    decreases s.len(),
{
    if lo > 0 {
        assert(is_space_char(s.first()));
        let t = s.drop_first();
        assert(forall|i: int| 0 <= i < t.len() ==> t[i] == s[i + 1]);
        lemma_trim_bounds(t, lo - 1, hi - 1);
        assert(t.subrange(lo - 1, hi) =~= s.subrange(lo, hi + 1));
    } else if hi == s.len() - 1 {
        assert(!is_space_char(s.first()));
        assert(!is_space_char(s.last()));
        assert(s.subrange(0, s.len() as int) =~= s);
    } else {
        assert(!is_space_char(s.first()));
        assert(is_space_char(s.last()));
        let t = s.drop_last();
        assert(forall|i: int| 0 <= i < t.len() ==> t[i] == s[i]);
        lemma_trim_bounds(t, 0, hi);
        assert(t.subrange(0, hi + 1) =~= s.subrange(0, hi + 1));
    }
}

/// Trimming a string with no whitespace anywhere leaves it unchanged.
pub proof fn lemma_trim_spaceless(s: Seq<char>)
    requires
        no_space(s),
    ensures
        spec_trim(s) == s,
{
}

/// Whether `c` is one of the whitespace characters that trimming removes.
pub fn is_space(c: char) -> (r: bool)
    ensures
        r == is_space_char(c),
{
    let n = c as u32;
    n == 0x20 || (0x09 <= n && n <= 0x0d) || n == 0x85 || n == 0xa0 || n == 0x1680 || (0x2000
        <= n && n <= 0x200a) || n == 0x2028 || n == 0x2029 || n == 0x202f || n == 0x205f || n
        == 0x3000
}

/// `s` with leading and trailing whitespace removed.
pub fn trim_str(s: &str) -> (r: &str)
    ensures
        r@ == spec_trim(s@),
{
    let n = s.unicode_len();
    let mut lo: usize = 0;
    while lo < n && is_space(s.get_char(lo))
        invariant
            n == s@.len(),
            0 <= lo <= n,
            forall|k: int| 0 <= k < lo ==> is_space_char(s@[k]),
        decreases n - lo,
    {
        lo = lo + 1;
    }
    if lo == n {
        proof {
            lemma_trim_all_space(s@);
        }
        return s.substring_char(n, n);
    }
    let mut hi: usize = n - 1;
    while hi > lo && is_space(s.get_char(hi))
        invariant
            n == s@.len(),
            lo <= hi < n,
            !is_space_char(s@[lo as int]),
            forall|k: int| hi < k < n ==> is_space_char(s@[k]),
        decreases hi,
    {
        hi = hi - 1;
    }
    proof {
        lemma_trim_bounds(s@, lo as int, hi as int);
    }
    s.substring_char(lo, hi + 1)
}

/// Whether the character `c` occurs anywhere in `s`.
pub fn contains_char(s: &str, c: char) -> (r: bool)
    ensures
        r == s@.contains(c),
{
    let n = s.unicode_len();
    let mut i: usize = 0;
    while i < n
        invariant
            n == s@.len(),
            0 <= i <= n,
            forall|k: int| 0 <= k < i ==> s@[k] != c,
        decreases n - i,
    {
        if s.get_char(i) == c {
            return true;
        }
        i = i + 1;
    }
    false
}

/// What follows a case-sensitive `Bearer ` prefix, if the string has one.
pub open spec fn bearer_rest(h: Seq<char>) -> Option<Seq<char>> {
    if h.len() >= 7 && h.subrange(0, 7) == "Bearer "@ {
        Some(h.subrange(7, h.len() as int))
    } else {
        None
    }
}

/// Splits a case-sensitive `Bearer ` prefix off an `Authorization` header.
pub fn strip_bearer(h: &str) -> (r: Option<&str>)
    ensures
        r matches Some(rest) ==> bearer_rest(h@) == Some(rest@),
        r is None ==> bearer_rest(h@) is None,
{
    proof {
        reveal_strlit("Bearer ");
    }
    let n = h.unicode_len();
    if n < 7 {
        return None;
    }
    let prefix = "Bearer ";
    let mut i: usize = 0;
    while i < 7
        invariant
            n == h@.len(),
            n >= 7,
            0 <= i <= 7,
            prefix@ == "Bearer "@,
            prefix@.len() == 7,
            forall|k: int| 0 <= k < i ==> h@[k] == prefix@[k],
        decreases 7 - i,
    {
        if h.get_char(i) != prefix.get_char(i) {
            proof {
                assert(h@.subrange(0, 7)[i as int] != "Bearer "@[i as int]);
            }
            return None;
        }
        i = i + 1;
    }
    proof {
        assert(h@.subrange(0, 7) =~= "Bearer "@);
    }
    Some(h.substring_char(7, n))
}

} // verus!
