use vstd::prelude::*;
use vstd::string::*;

use crate::error::CustomError;

verus! {

/// The mapping that a list of key/value pairs describes, later pairs taking
/// precedence over earlier ones.
pub open spec fn pairs_map(pairs: Seq<(String, String)>) -> Map<Seq<char>, Seq<char>>
    decreases pairs.len(),
{
    if pairs.len() == 0 {
        Map::empty()
    } else {
        pairs_map(pairs.drop_last()).insert(pairs.last().0@, pairs.last().1@)
    }
}

/// No key occurs twice.
pub open spec fn distinct_keys(pairs: Seq<(String, String)>) -> bool {
    forall|i: int, j: int|
        0 <= i < j < pairs.len() ==> #[trigger] pairs[i].0@ != #[trigger] pairs[j].0@
}

/// For pairs with distinct keys, the mapping holds exactly their keys, each
/// with its own value.
pub proof fn lemma_pairs_map(pairs: Seq<(String, String)>)
    requires
        distinct_keys(pairs),
    ensures
        forall|k: Seq<char>|
            pairs_map(pairs).contains_key(k) <==> exists|i: int|
                0 <= i < pairs.len() && (#[trigger] pairs[i]).0@ == k,
        forall|i: int|
            0 <= i < pairs.len() ==> pairs_map(pairs)[(#[trigger] pairs[i]).0@] == pairs[i].1@,
    decreases pairs.len(),
{
    if pairs.len() > 0 {
        let init = pairs.drop_last();
        assert(distinct_keys(init));
        lemma_pairs_map(init);
        let n: int = pairs.len() - 1;
        assert forall|k: Seq<char>|
            pairs_map(pairs).contains_key(k) <==> exists|i: int|
                0 <= i < pairs.len() && (#[trigger] pairs[i]).0@ == k by {
            if pairs_map(pairs).contains_key(k) {
                if k == pairs[n].0@ {
                } else {
                    assert(pairs_map(init).contains_key(k));
                    let i: int = choose|i: int| 0 <= i < init.len() && (#[trigger] init[i]).0@ == k;
                    assert(pairs[i] == init[i]);
                }
            }
            if exists|i: int| 0 <= i < pairs.len() && (#[trigger] pairs[i]).0@ == k {
                let i: int = choose|i: int| 0 <= i < pairs.len() && (#[trigger] pairs[i]).0@ == k;
                if i < n {
                    assert(init[i] == pairs[i]);
                }
            }
        }
        assert forall|i: int| 0 <= i < pairs.len() implies pairs_map(pairs)[(
        #[trigger] pairs[i]).0@] == pairs[i].1@ by {
            if i < n {
                assert(init[i] == pairs[i]);
                assert(pairs[i].0@ != pairs[n].0@);
            }
        }
    }
}

/// Replacing the value of a pair keeps the keys, and is an update of the mapping.
proof fn lemma_pairs_map_update(pairs: Seq<(String, String)>, i: int, entry: (String, String))
    requires
        distinct_keys(pairs),
        0 <= i < pairs.len(),
        entry.0@ == pairs[i].0@,
    ensures
        distinct_keys(pairs.update(i, entry)),
        pairs_map(pairs.update(i, entry)) == pairs_map(pairs).insert(entry.0@, entry.1@),
{
    let next = pairs.update(i, entry);
    assert forall|a: int, b: int| 0 <= a < b < next.len() implies #[trigger] next[a].0@
        != #[trigger] next[b].0@ by {
        assert(pairs[a].0@ != pairs[b].0@);
    }
    lemma_pairs_map(pairs);
    lemma_pairs_map(next);
    let m1 = pairs_map(next);
    let m2 = pairs_map(pairs).insert(entry.0@, entry.1@);
    assert forall|k: Seq<char>| m1.contains_key(k) <==> m2.contains_key(k) by {
        if m1.contains_key(k) {
            let j: int = choose|j: int| 0 <= j < next.len() && (#[trigger] next[j]).0@ == k;
            if j != i {
                assert(pairs[j] == next[j]);
            }
        }
        if m2.contains_key(k) && k != entry.0@ {
            let j: int = choose|j: int| 0 <= j < pairs.len() && (#[trigger] pairs[j]).0@ == k;
            assert(next[j] == pairs[j]);
        }
        if k == entry.0@ {
            assert(next[i] == entry);
        }
    }
    assert forall|k: Seq<char>| m1.contains_key(k) implies m1[k] == m2[k] by {
        let j: int = choose|j: int| 0 <= j < next.len() && (#[trigger] next[j]).0@ == k;
        if j != i {
            assert(pairs[j] == next[j]);
            assert(next[j].0@ != next[i].0@);
        }
    }
    assert(m1 =~= m2);
}

/// The parameters of a request's query string: each key at most once, with
/// the value that it was last given.
pub struct Query {
    entries: Vec<(String, String)>,
}

impl View for Query {
    type V = Map<Seq<char>, Seq<char>>;

    closed spec fn view(&self) -> Map<Seq<char>, Seq<char>> {
        pairs_map(self.entries@)
    }
}

impl Query {
    #[verifier::type_invariant]
    closed spec fn keys_are_distinct(self) -> bool {
        distinct_keys(self.entries@)
    }

    /// A query without parameters.
    pub fn new() -> (q: Query)
        ensures
            q@ == Map::<Seq<char>, Seq<char>>::empty(),
    {
        Query { entries: Vec::new() }
    }

    /// The position of `key` among the entries, if it is there.
    fn position(&self, key: &String) -> (r: Option<usize>)
        ensures
            r is None ==> !self@.contains_key(key@),
            r matches Some(i) ==> i < self.entries@.len() && self.entries@[i as int].0@ == key@,
    {
        proof {
            use_type_invariant(self);
            lemma_pairs_map(self.entries@);
        }
        let mut i: usize = 0;
        while i < self.entries.len()
            invariant
                i <= self.entries@.len(),
                forall|j: int| 0 <= j < i ==> (#[trigger] self.entries@[j]).0@ != key@,
            decreases self.entries@.len() - i,
        {
            if self.entries[i].0 == *key {
                return Some(i);
            }
            i = i + 1;
        }
        None
    }

    /// The value of the parameter `key`, if the query has it.
    pub fn get(&self, key: &str) -> (r: Option<&String>)
        ensures
            r is Some <==> self@.contains_key(key@),
            r matches Some(v) ==> v@ == self@[key@],
    {
        proof {
            use_type_invariant(self);
            lemma_pairs_map(self.entries@);
        }
        let k = String::from_str(key);
        match self.position(&k) {
            Some(i) => Some(&self.entries[i].1),
            None => None,
        }
    }

    /// The parameters as key/value pairs, each key once.
    pub fn pairs(&self) -> (r: Vec<(String, String)>)
        ensures
            distinct_keys(r@),
            pairs_map(r@) == self@,
    {
        proof {
            use_type_invariant(self);
        }
        let mut r: Vec<(String, String)> = Vec::new();
        let mut i: usize = 0;
        while i < self.entries.len()
            invariant
                i <= self.entries@.len(),
                r@ =~= self.entries@.take(i as int),
            decreases self.entries@.len() - i,
        {
            let key = self.entries[i].0.clone();
            let value = self.entries[i].1.clone();
            r.push((key, value));
            proof {
                assert(self.entries@.take(i + 1) =~= self.entries@.take(i as int).push(self.entries@[i as int]));
            }
            i = i + 1;
        }
        proof {
            assert(self.entries@.take(self.entries@.len() as int) =~= self.entries@);
        }
        r
    }

    /// Sets the parameter `key` to `value`, and gives back the value it had.
    pub fn insert(&mut self, key: String, value: String) -> (previous: Option<String>)
        ensures
            final(self)@ == old(self)@.insert(key@, value@),
            previous is Some <==> old(self)@.contains_key(key@),
            previous matches Some(v) ==> v@ == old(self)@[key@],
    {
        proof {
            use_type_invariant(&*self);
            lemma_pairs_map(self.entries@);
        }
        let ghost key_view = key@;
        let ghost value_view = value@;
        let found = self.position(&key);
        let mut entries: Vec<(String, String)> = Vec::new();
        std::mem::swap(&mut entries, &mut self.entries);
        let ghost before = entries@;
        match found {
            Some(i) => {
                let mut entry = (key, value);
                let ghost new_entry = entry;
                entries.set_and_swap(i, &mut entry);
                proof {
                    lemma_pairs_map_update(before, i as int, new_entry);
                }
                self.entries = entries;
                Some(entry.1)
            },
            None => {
                entries.push((key, value));
                proof {
                    assert(entries@.drop_last() =~= before);
                    assert forall|a: int, b: int| 0 <= a < b < entries@.len() implies #[trigger] entries@[a].0@
                        != #[trigger] entries@[b].0@ by {
                        if b == before.len() {
                            assert(entries@[a] == before[a]);
                        } else {
                            assert(entries@[a] == before[a]);
                            assert(entries@[b] == before[b]);
                        }
                    }
                }
                self.entries = entries;
                None
            },
        }
    }
}

/// The query parameter that holds the caller's Google ID token; a query
/// without it is rejected with `TokenIsNotFound`.
pub fn query_token(query: &Query) -> (r: Result<String, CustomError>)
    ensures
        query@.contains_key("token"@) ==> (r matches Ok(t) && t@ == query@["token"@]),
        !query@.contains_key("token"@) ==> r == Err::<String, CustomError>(CustomError::TokenIsNotFound),
{
    match query.get("token") {
        Some(t) => Ok(t.clone()),
        None => Err(CustomError::TokenIsNotFound),
    }
}

} // verus!
