//! URL queries: the decoded `key=value` pairs of an OTP URL.
use crate::text::str_eq;
use vstd::prelude::*;

verus! {

/// The value of the last pair in `pairs` whose key is `key`, if any.
pub open spec fn lookup(pairs: Seq<(Seq<char>, Seq<char>)>, key: Seq<char>) -> Option<Seq<char>>
    decreases pairs.len(),
{
    if pairs.len() == 0 {
        None
    } else if pairs.last().0 == key {
        Some(pairs.last().1)
    } else {
        lookup(pairs.drop_last(), key)
    }
}

/// Looking up a key after appending a pair finds the appended value if the keys agree, and
/// otherwise what it found before.
pub proof fn lemma_lookup_push(
    pairs: Seq<(Seq<char>, Seq<char>)>,
    pair: (Seq<char>, Seq<char>),
    key: Seq<char>,
)
    ensures
        lookup(pairs.push(pair), key) == if pair.0 == key {
            Some(pair.1)
        } else {
            lookup(pairs, key)
        },
{
    assert(pairs.push(pair).drop_last() =~= pairs);
}

/// The plain-value form of a list of string pairs.
pub open spec fn pairs_view(pairs: Seq<(String, String)>) -> Seq<(Seq<char>, Seq<char>)> {
    pairs.map_values(|p: (String, String)| (p.0@, p.1@))
}

/// Represents URL queries: a later pair overrides an earlier one with the same key.
pub struct Query {
    pairs: Vec<(String, String)>,
}

impl View for Query {
    type V = Seq<(Seq<char>, Seq<char>)>;

    closed spec fn view(&self) -> Seq<(Seq<char>, Seq<char>)> {
        pairs_view(self.pairs@)
    }
}

impl Query {
    /// The value that the query holds for `key`, if any.
    pub open spec fn get_spec(&self, key: Seq<char>) -> Option<Seq<char>> {
        lookup(self@, key)
    }

    /// Constructs [`Self`] from the pairs, in the order in which they appear.
    pub fn from_pairs(pairs: Vec<(String, String)>) -> (r: Self)
        ensures
            r@ == pairs_view(pairs@),
    {
        Self { pairs }
    }

    /// Removes every pair with the given key, returning the value that the query held for it.
    pub fn remove(&mut self, key: &str) -> (r: Option<String>)
        ensures
            match old(self).get_spec(key@) {
                Some(v) => r is Some && r->Some_0@ == v,
                None => r is None,
            },
            final(self).get_spec(key@) is None,
            forall|other: Seq<char>|
                other != key@ ==> #[trigger] final(self).get_spec(other) == old(self).get_spec(
                    other,
                ),
    {
        let ghost old_view = self@;
        let n = self.pairs.len();
        let mut found: Option<String> = None;
        let mut kept: Vec<(String, String)> = Vec::new();
        let mut i: usize = 0;
        while i < n
            invariant
                n == self.pairs@.len(),
                old_view == pairs_view(self.pairs@),
                i <= n,
                match lookup(old_view.take(i as int), key@) {
                    Some(v) => found is Some && found->Some_0@ == v,
                    None => found is None,
                },
                lookup(pairs_view(kept@), key@) is None,
                forall|other: Seq<char>|
                    other != key@ ==> #[trigger] lookup(pairs_view(kept@), other) == lookup(
                        old_view.take(i as int),
                        other,
                    ),
            decreases n - i,
        {
            let pair = &self.pairs[i];
            let ghost prefix = old_view.take(i as int);
            let ghost next = old_view.take(i as int + 1);
            assert(next.drop_last() =~= prefix);
            assert(next.last() == (pair.0@, pair.1@));
            if str_eq(pair.0.as_str(), key) {
                found = Some(pair.1.clone());
                assert forall|other: Seq<char>| other != key@ implies #[trigger] lookup(
                    pairs_view(kept@),
                    other,
                ) == lookup(next, other) by {
                    assert(lookup(next, other) == lookup(prefix, other));
                }
            } else {
                let ghost before = kept@;
                kept.push((pair.0.clone(), pair.1.clone()));
                proof {
                    assert(pairs_view(kept@).drop_last() =~= pairs_view(before));
                    assert(pairs_view(kept@).last() == (pair.0@, pair.1@));
                    assert forall|other: Seq<char>| other != key@ implies #[trigger] lookup(
                        pairs_view(kept@),
                        other,
                    ) == lookup(next, other) by {
                        let kv = pairs_view(kept@);
                        assert(kv.len() > 0);
                        if pair.0@ != other {
                            assert(lookup(next, other) == lookup(prefix, other));
                            assert(lookup(kv, other) == lookup(kv.drop_last(), other));
                        } else {
                            assert(lookup(next, other) == Some(pair.1@));
                            assert(lookup(kv, other) == Some(pair.1@));
                        }
                    }
                }
            }
            i = i + 1;
        }
        assert(old_view.take(n as int) =~= old_view);
        self.pairs = kept;
        found
    }
}

} // verus!
