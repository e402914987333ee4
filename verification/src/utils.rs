//! Useful utilities on namespace names.

use vstd::prelude::*;

verus! {

/// Whether `suffix` is a suffix of `s`.
pub open spec fn spec_ends_with(s: Seq<char>, suffix: Seq<char>) -> bool {
    suffix.len() <= s.len() && s.subrange(s.len() - suffix.len(), s.len() as int) == suffix
}

/// Suffix test on strings, character by character.
pub fn str_ends_with(s: &str, suffix: &str) -> (r: bool)
    ensures
        r == spec_ends_with(s@, suffix@),
{
    let s_len = s.unicode_len();
    let suffix_len = suffix.unicode_len();
    if suffix_len > s_len {
        return false;
    }
    let off = s_len - suffix_len;
    for i in 0..suffix_len
        invariant
            s_len == s@.len(),
            suffix_len == suffix@.len(),
            suffix_len <= s_len,
            off == s_len - suffix_len,
            forall|j: int| 0 <= j < i ==> s@[off + j] == suffix@[j],
    {
        if s.get_char(off + i) != suffix.get_char(i) {
            assert(s@.subrange(s@.len() - suffix@.len(), s@.len() as int)[i as int] != suffix@[i as int]);
            return false;
        }
    }
    assert(s@.subrange(s@.len() - suffix@.len(), s@.len() as int) =~= suffix@);
    true
}

/// The character-sequence views of a list of names.
pub open spec fn name_views(names: Seq<String>) -> Seq<Seq<char>> {
    names.map_values(|s: String| s@)
}

/// Equality test on strings, character by character.
pub fn str_eq(a: &str, b: &str) -> (r: bool)
    ensures
        r == (a@ == b@),
{
    let a_len = a.unicode_len();
    let b_len = b.unicode_len();
    if a_len != b_len {
        return false;
    }
    for i in 0..a_len
        invariant
            a_len == a@.len(),
            b_len == b@.len(),
            a_len == b_len,
            forall|j: int| 0 <= j < i ==> a@[j] == b@[j],
    {
        if a.get_char(i) != b.get_char(i) {
            return false;
        }
    }
    assert(a@ =~= b@);
    true
}

/// The suffixes after which a namespace name is already in canonical form.
pub open spec fn spec_is_canonical_namespace(s: Seq<char>) -> bool {
    spec_ends_with(s, ".properties"@) || spec_ends_with(s, ".xml"@) || spec_ends_with(s, ".json"@)
        || spec_ends_with(s, ".yaml"@) || spec_ends_with(s, ".yml"@) || spec_ends_with(s, ".txt"@)
}

/// Canonicalize the namespace: add `.properties` to the end of a namespace
/// which does not end with `.properties`, `.xml`, `.json`, `.yaml`, `.yml` or
/// `.txt`.
pub fn canonicalize_namespace(namespace: &str) -> (r: String)
    ensures
        r@ == if spec_is_canonical_namespace(namespace@) {
            namespace@
        } else {
            namespace@ + ".properties"@
        },
{
    if str_ends_with(namespace, ".properties") || str_ends_with(namespace, ".xml")
        || str_ends_with(namespace, ".json") || str_ends_with(namespace, ".yaml") || str_ends_with(
        namespace,
        ".yml",
    ) || str_ends_with(namespace, ".txt") {
        namespace.to_owned()
    } else {
        let mut r = namespace.to_owned();
        r.append(".properties");
        r
    }
}

} // verus!
