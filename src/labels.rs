use vstd::prelude::*;
use vstd::string::*;

verus! {

/// The map that an association list of pairs stands for: a later pair
/// overrides an earlier one with the same key.
pub open spec fn pairs_to_map(s: Seq<(String, String)>) -> Map<Seq<char>, Seq<char>>
    decreases s.len(),
{
    if s.len() == 0 {
        Map::empty()
    } else {
        pairs_to_map(s.drop_last()).insert(s.last().0@, s.last().1@)
    }
}

/// Rewriting the value of the last pair that holds a key is inserting the key anew.
proof fn lemma_update_last_match(s: Seq<(String, String)>, j: int, k: String, v: String)
    requires
        0 <= j < s.len(),
        s[j].0@ == k@,
        forall|i: int| j < i < s.len() ==> s[i].0@ != k@,
    ensures
        pairs_to_map(s.update(j, (k, v))) == pairs_to_map(s).insert(k@, v@),
    decreases s.len(),
{
    let u = s.update(j, (k, v));
    if j == s.len() - 1 {
        assert(u.drop_last() =~= s.drop_last());
        assert(pairs_to_map(u) =~= pairs_to_map(s).insert(k@, v@));
    } else {
        assert(u.drop_last() =~= s.drop_last().update(j, (k, v)));
        lemma_update_last_match(s.drop_last(), j, k, v);
        assert(pairs_to_map(u) =~= pairs_to_map(s).insert(k@, v@));
    }
}

/// A string-to-string map with unique keys, such as an alert's labels.
pub struct Labels {
    entries: Vec<(String, String)>,
}

impl View for Labels {
    type V = Map<Seq<char>, Seq<char>>;

    closed spec fn view(&self) -> Map<Seq<char>, Seq<char>> {
        pairs_to_map(self.entries@)
    }
}

impl Labels {
    /// A map with no keys.
    pub fn new() -> (r: Labels)
        ensures
            r@ == Map::<Seq<char>, Seq<char>>::empty(),
    {
        Labels { entries: Vec::new() }
    }

    /// The index of the last entry whose key is `key`, if any.
    fn position(&self, key: &String) -> (r: Option<usize>)
        ensures
            match r {
                Some(j) => j < self.entries@.len() && self.entries@[j as int].0@ == key@
                    && forall|i: int| j < i < self.entries@.len() ==> self.entries@[i].0@ != key@,
                None => forall|i: int| 0 <= i < self.entries@.len() ==> self.entries@[i].0@ != key@,
            },
    {
        let mut i: usize = self.entries.len();
        while i > 0
            invariant
                i <= self.entries@.len(),
                forall|m: int| i <= m < self.entries@.len() ==> self.entries@[m].0@ != key@,
            decreases i,
        {
            i = i - 1;
            if self.entries[i].0 == *key {
                return Some(i);
            }
        }
        None
    }

    /// What `key` maps to, if anything.
    pub fn get(&self, key: &str) -> (r: Option<&String>)
        ensures
            match r {
                Some(v) => self@.contains_key(key@) && self@[key@] == v@,
                None => !self@.contains_key(key@),
            },
    {
        let k = String::from_str(key);
        let ghost s = self.entries@;
        proof {
            lemma_map_of_last_match(s, key@);
        }
        match self.position(&k) {
            Some(j) => {
                proof {
                    lemma_map_at_last_match(s, j as int);
                }
                Some(&self.entries[j].1)
            },
            None => None,
        }
    }

    /// Maps `key` to `value`, replacing what it mapped to before.
    pub fn insert(&mut self, key: String, value: String)
        ensures
            final(self)@ == old(self)@.insert(key@, value@),
    {
        match self.position(&key) {
            Some(j) => {
                proof {
                    lemma_update_last_match(self.entries@, j as int, key, value);
                }
                self.entries.set(j, (key, value));
            },
            None => {
                let ghost s = self.entries@;
                self.entries.push((key, value));
                proof {
                    assert(self.entries@.drop_last() =~= s);
                }
            },
        }
    }
}

/// A key that no pair holds is not in the map.
proof fn lemma_map_of_last_match(s: Seq<(String, String)>, k: Seq<char>)
    ensures
        pairs_to_map(s).contains_key(k) ==> exists|i: int| 0 <= i < s.len() && s[i].0@ == k,
    decreases s.len(),
{
    if s.len() > 0 {
        lemma_map_of_last_match(s.drop_last(), k);
        if pairs_to_map(s).contains_key(k) && s.last().0@ != k {
            let i = choose|i: int| 0 <= i < s.drop_last().len() && s.drop_last()[i].0@ == k;
            assert(s[i].0@ == k);
        }
    }
}

/// The map holds the value of the last pair with a given key.
proof fn lemma_map_at_last_match(s: Seq<(String, String)>, j: int)
    requires
        0 <= j < s.len(),
        forall|i: int| j < i < s.len() ==> s[i].0@ != s[j].0@,
    ensures
        pairs_to_map(s).contains_key(s[j].0@),
        pairs_to_map(s)[s[j].0@] == s[j].1@,
    decreases s.len(),
{
    if j < s.len() - 1 {
        lemma_map_at_last_match(s.drop_last(), j);
    }
}

} // verus!
