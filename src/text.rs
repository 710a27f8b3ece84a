use vstd::prelude::*;

verus! {

/// The characters of each string, in order.
pub open spec fn line_views(lines: Seq<String>) -> Seq<Seq<char>> {
    lines.map_values(|l: String| l@)
}

/// `s` begins with the characters of `prefix`.
pub open spec fn starts_with(s: Seq<char>, prefix: Seq<char>) -> bool {
    prefix.len() <= s.len() && s.subrange(0, prefix.len() as int) == prefix
}

/// `s` finishes with the characters of `suffix`.
pub open spec fn ends_with(s: Seq<char>, suffix: Seq<char>) -> bool {
    suffix.len() <= s.len() && s.subrange(s.len() - suffix.len(), s.len() as int) == suffix
}

/// Whether `s` starts with `prefix`, character by character.
pub fn has_prefix(s: &str, prefix: &str) -> (r: bool)
    ensures
        r == starts_with(s@, prefix@),
{
    let n = s.unicode_len();
    let pn = prefix.unicode_len();
    if pn > n {
        return false;
    }
    let mut i: usize = 0;
    while i < pn
        invariant
            pn <= n,
            n == s@.len(),
            pn == prefix@.len(),
            i <= pn,
            forall|j: int| 0 <= j < i ==> s@[j] == prefix@[j],
        decreases pn - i,
    {
        if s.get_char(i) != prefix.get_char(i) {
            proof {
                assert(s@.subrange(0, pn as int)[i as int] != prefix@[i as int]);
            }
            return false;
        }
        i += 1;
    }
    proof {
        assert(s@.subrange(0, pn as int) =~= prefix@);
    }
    true
}

/// Whether `a` and `b` hold the same characters.
pub fn same_text(a: &str, b: &str) -> (r: bool)
    ensures
        r == (a@ == b@),
{
    if a.unicode_len() != b.unicode_len() {
        return false;
    }
    let r = has_prefix(a, b);
    proof {
        assert(a@ =~= a@.subrange(0, b@.len() as int));
    }
    r
}

/// Whether `s` ends with `suffix`, character by character.
pub fn has_suffix(s: &str, suffix: &str) -> (r: bool)
    ensures
        r == ends_with(s@, suffix@),
{
    let n = s.unicode_len();
    let sn = suffix.unicode_len();
    if sn > n {
        return false;
    }
    let tail = s.substring_char(n - sn, n);
    same_text(tail, suffix)
}

} // verus!
