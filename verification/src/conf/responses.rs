//! Configuration api responses.

use vstd::prelude::*;
use crate::urls::pair_views;
use crate::utils::str_eq;

verus! {

/// What a lookup among configuration entries returns: the value of the first
/// entry carrying the key, if any entry does.
pub open spec fn spec_lookup(pairs: Seq<(Seq<char>, Seq<char>)>, key: Seq<char>) -> Option<
    Seq<char>,
>
    decreases pairs.len(),
{
    if pairs.len() == 0 {
        None
    } else if pairs.first().0 == key {
        Some(pairs.first().1)
    } else {
        spec_lookup(pairs.drop_first(), key)
    }
}

/// One namespace's freshly fetched configuration.
#[derive(Debug, Clone, PartialEq)]
pub struct FetchResponse {
    pub app_id: String,
    pub cluster: String,
    pub namespace_name: String,
    /// The configuration entries, keyed by their first position.
    pub configurations: Vec<(String, String)>,
    pub release_key: String,
}

impl FetchResponse {
    /// The value stored under the given configuration key, if any.
    pub fn configuration(&self, key: &str) -> (r: Option<&String>)
        ensures
            r matches Some(v) ==> spec_lookup(pair_views(self.configurations@), key@) == Some(v@),
            r is None ==> spec_lookup(pair_views(self.configurations@), key@) is None,
    {
        let n = self.configurations.len();
        let ghost all = pair_views(self.configurations@);
        assert(all.skip(0) == all);
        for i in 0..n
            invariant
                n == self.configurations@.len(),
                all == pair_views(self.configurations@),
                all.len() == n,
                spec_lookup(all.skip(i as int), key@) == spec_lookup(all, key@),
        {
            proof {
                assert(all.skip(i as int).first() == all[i as int]);
                assert(all.skip(i as int).drop_first() =~= all.skip(i + 1));
            }
            if str_eq(self.configurations[i].0.as_str(), key) {
                return Some(&self.configurations[i].1);
            }
        }
        assert(all.skip(n as int) =~= Seq::<(Seq<char>, Seq<char>)>::empty());
        None
    }
}

} // verus!
