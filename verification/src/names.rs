//! File names as byte strings, and the rule that reconciles an alias with the
//! source file's extension.
//!
//! On platforms where a file is recognised as executable by its suffix, a link
//! created under an alias must keep the source's suffix; elsewhere the alias
//! is used unchanged.

use vstd::prelude::*;

verus! {

/// The byte that separates a file name's stem from its extension.
pub const DOT: u8 = 46;

/// Index of the last occurrence of `b` in `s`, if there is one.
pub open spec fn spec_rfind(s: Seq<u8>, b: u8) -> Option<int>
    decreases s.len(),
{
    if s.len() == 0 {
        None
    } else if s[s.len() - 1] == b {
        Some(s.len() - 1)
    } else {
        spec_rfind(s.subrange(0, s.len() - 1), b)
    }
}

/// `spec_rfind` finds `b` exactly where it stands: at the returned index,
/// with no later occurrence; `None` means `b` does not occur at all.
pub proof fn lemma_rfind_properties(s: Seq<u8>, b: u8)
    ensures
        spec_rfind(s, b) matches Some(i) ==> 0 <= i < s.len() && s[i] == b && (forall|j: int|
            i < j < s.len() ==> s[j] != b),
        spec_rfind(s, b) is None ==> forall|j: int| 0 <= j < s.len() ==> s[j] != b,
    decreases s.len(),
{
    if s.len() > 0 && s[s.len() - 1] != b {
        let prefix = s.subrange(0, s.len() - 1);
        lemma_rfind_properties(prefix, b);
        assert(forall|j: int| 0 <= j < prefix.len() ==> prefix[j] == s[j]);
    }
}

/// The suffix of `s` from its last dot on (dot included); empty when `s`
/// holds no dot.
pub open spec fn spec_suffix(s: Seq<u8>) -> Seq<u8> {
    match spec_rfind(s, DOT) {
        None => Seq::empty(),
        Some(i) => s.subrange(i, s.len() as int),
    }
}

/// `a` ends with `suffix`.
pub open spec fn spec_ends_with(a: Seq<u8>, suffix: Seq<u8>) -> bool {
    suffix.len() <= a.len() && a.subrange(a.len() - suffix.len(), a.len() as int) == suffix
}

/// The link name chosen for alias `alias` when the source file is named
/// `source`. Without extension semantics the alias is used unchanged; with
/// them, a source suffix that the alias does not already end with is
/// appended.
pub open spec fn spec_reconcile(source: Seq<u8>, alias: Seq<u8>, ext_semantics: bool) -> Seq<u8> {
    if !ext_semantics {
        alias
    } else {
        match spec_rfind(source, DOT) {
            None => alias,
            Some(i) => {
                let suffix = source.subrange(i, source.len() as int);
                if spec_ends_with(alias, suffix) {
                    alias
                } else {
                    alias + suffix
                }
            },
        }
    }
}

/// Index of the last occurrence of `b` in `s`, scanning from the end.
pub fn rfind_byte(s: &Vec<u8>, b: u8) -> (r: Option<usize>)
    ensures
        match r {
            Some(i) => spec_rfind(s@, b) == Some(i as int),
            None => spec_rfind(s@, b) is None,
        },
{
    let mut i: usize = s.len();
    assert(s@.subrange(0, s@.len() as int) =~= s@);
    while i > 0
        invariant
            i <= s.len(),
            spec_rfind(s@, b) == spec_rfind(s@.subrange(0, i as int), b),
        decreases i,
    {
        if s[i - 1] == b {
            return Some(i - 1);
        }
        assert(s@.subrange(0, i as int).subrange(0, i - 1) =~= s@.subrange(0, i - 1));
        i = i - 1;
    }
    None
}

/// The bytes of `s` from `from` (included) to `to` (excluded), as a fresh
/// vector.
pub fn copy_range(s: &Vec<u8>, from: usize, to: usize) -> (r: Vec<u8>)
    requires
        from <= to <= s@.len(),
    ensures
        r@ == s@.subrange(from as int, to as int),
{
    let mut r: Vec<u8> = Vec::new();
    assert(r@ =~= s@.subrange(from as int, from as int));
    let mut i: usize = from;
    while i < to
        invariant
            from <= i <= to <= s@.len(),
            r@ == s@.subrange(from as int, i as int),
        decreases to - i,
    {
        r.push(s[i]);
        assert(r@ =~= s@.subrange(from as int, i + 1));
        i = i + 1;
    }
    r
}

/// The concatenation of `a` and `b`, as a fresh vector.
pub fn append_bytes(a: &Vec<u8>, b: &Vec<u8>) -> (r: Vec<u8>)
    ensures
        r@ == a@ + b@,
{
    let mut r = copy_range(a, 0, a.len());
    assert(a@.subrange(0, a@.len() as int) =~= a@);
    assert(r@ =~= a@ + b@.subrange(0, 0));
    let mut i: usize = 0;
    while i < b.len()
        invariant
            i <= b@.len(),
            r@ == a@ + b@.subrange(0, i as int),
        decreases b@.len() - i,
    {
        r.push(b[i]);
        assert(r@ =~= a@ + b@.subrange(0, i + 1));
        i = i + 1;
    }
    assert(a@ + b@.subrange(0, b@.len() as int) =~= a@ + b@);
    r
}

/// The link name for alias `alias` given a source file named `exe`.
///
/// With extension semantics, an alias that does not already end in the
/// source's suffix has that suffix appended, so the link stays independently
/// executable; without them the alias is returned unchanged.
pub fn ext_helper(exe: &Vec<u8>, alias: &Vec<u8>, ext_semantics: bool) -> (r: Vec<u8>)
    ensures
        r@ == spec_reconcile(exe@, alias@, ext_semantics),
        !ext_semantics ==> r@ == alias@,
        ext_semantics && spec_rfind(exe@, DOT) is None ==> r@ == alias@,
        ext_semantics && spec_rfind(exe@, DOT) is Some && spec_ends_with(alias@, spec_suffix(exe@))
            ==> r@ == alias@,
        ext_semantics && spec_rfind(exe@, DOT) is Some && !spec_ends_with(
            alias@,
            spec_suffix(exe@),
        ) ==> r@ == alias@ + spec_suffix(exe@),
{
    proof {
        assert(alias@.subrange(0, alias@.len() as int) =~= alias@);
    }
    if !ext_semantics {
        return copy_range(alias, 0, alias.len());
    }
    match rfind_byte(exe, DOT) {
        None => copy_range(alias, 0, alias.len()),
        Some(i) => {
            proof {
                lemma_rfind_properties(exe@, DOT);
            }
            let suffix = copy_range(exe, i, exe.len());
            if ends_with(alias, &suffix) {
                copy_range(alias, 0, alias.len())
            } else {
                append_bytes(alias, &suffix)
            }
        },
    }
}

/// Whether `a` ends with `suffix`.
pub fn ends_with(a: &Vec<u8>, suffix: &Vec<u8>) -> (r: bool)
    ensures
        r == spec_ends_with(a@, suffix@),
{
    if suffix.len() > a.len() {
        return false;
    }
    let off = a.len() - suffix.len();
    let mut k: usize = 0;
    while k < suffix.len()
        invariant
            a@.len() <= usize::MAX,
            suffix@.len() <= a@.len(),
            off == a@.len() - suffix@.len(),
            k <= suffix@.len(),
            forall|m: int| 0 <= m < k ==> a@[off + m] == suffix@[m],
        decreases suffix@.len() - k,
    {
        assert(off + k < a@.len());
        if a[off + k] != suffix[k] {
            assert(a@.subrange(a@.len() - suffix@.len(), a@.len() as int)[k as int] == a@[off
                + k]);
            return false;
        }
        k = k + 1;
    }
    assert(a@.subrange(a@.len() - suffix@.len(), a@.len() as int) =~= suffix@);
    true
}

} // verus!
