//! Environment mappings and their `key=value` notation.

use vstd::prelude::*;
use vstd::string::StringExecFns;
use vstd::string::StrSliceExecFns;

verus! {

/// The mapping that a sequence of pairs stands for: a later pair overrides
/// an earlier one with the same key.
pub open spec fn pairs_map(pairs: Seq<(String, String)>) -> Map<Seq<char>, Seq<char>>
    decreases pairs.len(),
{
    if pairs.len() == 0 {
        Map::empty()
    } else {
        pairs_map(pairs.drop_last()).insert(pairs.last().0@, pairs.last().1@)
    }
}

/// Whether `entry` has a separator, the character `=`.
pub open spec fn has_separator(entry: Seq<char>) -> bool {
    exists|i: int| 0 <= i < entry.len() && entry[i] == '='
}

/// The place of the first `=` in `entry`.
pub open spec fn separator(entry: Seq<char>) -> int {
    choose|i: int|
        0 <= i < entry.len() && entry[i] == '=' && forall|j: int| 0 <= j < i ==> entry[j] != '='
}

/// The key and the value of an entry: what stands before its first `=`, and
/// what stands after it.
pub open spec fn key_value(entry: Seq<char>) -> Option<(Seq<char>, Seq<char>)> {
    if has_separator(entry) {
        Some(
            (
                entry.subrange(0, separator(entry)),
                entry.subrange(separator(entry) + 1, entry.len() as int),
            ),
        )
    } else {
        None
    }
}

proof fn lemma_separator(entry: Seq<char>, at: int)
    requires
        0 <= at < entry.len(),
        entry[at] == '=',
        forall|j: int| 0 <= j < at ==> entry[j] != '=',
    ensures
        has_separator(entry),
        separator(entry) == at,
{
    let found = separator(entry);
    assert(0 <= found < entry.len() && entry[found] == '=' && forall|j: int|
        0 <= j < found ==> entry[j] != '=');
}

/// Splits `entry` at its first `=`; `None` where it has none.
pub fn parse_key_value(entry: &str) -> (r: Option<(String, String)>)
    ensures
        r is Some == key_value(entry@) is Some,
        r is Some ==> (r.unwrap().0@, r.unwrap().1@) == key_value(entry@).unwrap(),
{
    let n: usize = entry.unicode_len();
    let mut i: usize = 0;
    while i < n
        invariant
            n == entry@.len(),
            i <= n,
            forall|j: int| 0 <= j < i ==> entry@[j] != '=',
        decreases n - i,
    {
        if entry.get_char(i) == '=' {
            proof {
                lemma_separator(entry@, i as int);
            }
            let key = String::from_str(entry.substring_char(0, i));
            let value = String::from_str(entry.substring_char(i + 1, n));
            return Some((key, value));
        }
        i += 1;
    }
    None
}

/// An environment: a mapping from names to values, kept as a list of pairs
/// in which no name stands twice.
#[derive(Clone, Debug, PartialEq, Eq)]
pub struct EnvMap {
    pub entries: Vec<(String, String)>,
}

impl View for EnvMap {
    type V = Map<Seq<char>, Seq<char>>;

    open spec fn view(&self) -> Map<Seq<char>, Seq<char>> {
        pairs_map(self.entries@)
    }
}

pub open spec fn keys_unique(pairs: Seq<(String, String)>) -> bool {
    forall|i: int, j: int| 0 <= i < j < pairs.len() ==> pairs[i].0@ != pairs[j].0@
}

/// A key is in the mapping exactly when a pair holds it.
pub proof fn lemma_pairs_map_dom(pairs: Seq<(String, String)>, key: Seq<char>)
    ensures
        pairs_map(pairs).dom().contains(key) <==> exists|i: int|
            0 <= i < pairs.len() && pairs[i].0@ == key,
    decreases pairs.len(),
{
    if pairs.len() > 0 {
        let front = pairs.drop_last();
        lemma_pairs_map_dom(front, key);
        if pairs_map(pairs).dom().contains(key) {
            if pairs.last().0@ == key {
                assert(pairs[pairs.len() - 1].0@ == key);
            } else {
                let i = choose|i: int| 0 <= i < front.len() && front[i].0@ == key;
                assert(pairs[i].0@ == key);
            }
        }
        if exists|i: int| 0 <= i < pairs.len() && pairs[i].0@ == key {
            let i = choose|i: int| 0 <= i < pairs.len() && pairs[i].0@ == key;
            if i < pairs.len() - 1 {
                assert(front[i].0@ == key);
            }
        }
    }
}

/// Replacing the one pair that holds a key is an insertion into the mapping.
pub proof fn lemma_pairs_map_update(pairs: Seq<(String, String)>, at: int, pair: (String, String))
    requires
        keys_unique(pairs),
        0 <= at < pairs.len(),
        pairs[at].0@ == pair.0@,
    ensures
        keys_unique(pairs.update(at, pair)),
        pairs_map(pairs.update(at, pair)) == pairs_map(pairs).insert(pair.0@, pair.1@),
    decreases pairs.len(),
{
    let updated = pairs.update(at, pair);
    if at == pairs.len() - 1 {
        assert(updated.drop_last() == pairs.drop_last());
        assert(pairs_map(updated) =~= pairs_map(pairs).insert(pair.0@, pair.1@));
    } else {
        let front = pairs.drop_last();
        lemma_pairs_map_update(front, at, pair);
        assert(updated.drop_last() == front.update(at, pair));
        assert(updated.last() == pairs.last());
        assert(pairs[at].0@ != pairs[pairs.len() - 1].0@);
        assert(pairs_map(updated) =~= pairs_map(pairs).insert(pair.0@, pair.1@));
    }
}

/// A list in which no key stands twice holds as many pairs as its mapping
/// has keys.
pub proof fn lemma_pairs_map_len(pairs: Seq<(String, String)>)
    requires
        keys_unique(pairs),
    ensures
        pairs_map(pairs).dom().finite(),
        pairs_map(pairs).len() == pairs.len(),
    decreases pairs.len(),
{
    if pairs.len() > 0 {
        let front = pairs.drop_last();
        lemma_pairs_map_len(front);
        lemma_pairs_map_dom(front, pairs.last().0@);
        if pairs_map(front).dom().contains(pairs.last().0@) {
            let i = choose|i: int| 0 <= i < front.len() && front[i].0@ == pairs.last().0@;
            assert(pairs[i].0@ == pairs[pairs.len() - 1].0@);
        }
        assert(pairs_map(pairs).dom() =~= pairs_map(front).dom().insert(pairs.last().0@));
    }
}

impl EnvMap {
    /// No name stands twice.
    pub open spec fn wf(self) -> bool {
        keys_unique(self.entries@)
    }

    pub fn new() -> (r: EnvMap)
        ensures
            r.wf(),
            r@ == Map::<Seq<char>, Seq<char>>::empty(),
    {
        EnvMap { entries: Vec::new() }
    }

    /// The number of names that are bound.
    pub fn len(&self) -> (n: usize)
        requires
            self.wf(),
        ensures
            n == self@.len(),
    {
        proof {
            lemma_pairs_map_len(self.entries@);
        }
        self.entries.len()
    }

    /// Binds `key` to `value`; an earlier value of `key` is given up.
    pub fn insert(&mut self, key: String, value: String)
        requires
            old(self).wf(),
        ensures
            final(self).wf(),
            final(self)@ == old(self)@.insert(key@, value@),
    {
        let n: usize = self.entries.len();
        let mut i: usize = 0;
        while i < n
            invariant
                n == self.entries@.len(),
                i <= n,
                *self == *old(self),
                self.wf(),
                forall|j: int| 0 <= j < i ==> self.entries@[j].0@ != key@,
            decreases n - i,
        {
            if self.entries[i].0 == key {
                proof {
                    lemma_pairs_map_update(self.entries@, i as int, (key, value));
                }
                self.entries.set(i, (key, value));
                return ;
            }
            i += 1;
        }
        proof {
            assert(self.entries@.push((key, value)).drop_last() == self.entries@);
        }
        self.entries.push((key, value));
    }

    /// The value bound to `key`, if there is one.
    pub fn get(&self, key: &str) -> (r: Option<String>)
        requires
            self.wf(),
        ensures
            r is Some == self@.dom().contains(key@),
            r is Some ==> r->0@ == self@[key@],
    {
        let wanted = String::from_str(key);
        let n: usize = self.entries.len();
        let mut i: usize = 0;
        while i < n
            invariant
                n == self.entries@.len(),
                i <= n,
                self.wf(),
                wanted@ == key@,
                forall|j: int| 0 <= j < i ==> self.entries@[j].0@ != key@,
            decreases n - i,
        {
            if self.entries[i].0 == wanted {
                proof {
                    let pair = self.entries@[i as int];
                    lemma_pairs_map_update(self.entries@, i as int, pair);
                    assert(self.entries@.update(i as int, pair) =~= self.entries@);
                }
                return Some(self.entries[i].1.clone());
            }
            i += 1;
        }
        proof {
            lemma_pairs_map_dom(self.entries@, key@);
        }
        None
    }
}

/// The environment that a list of `key=value` entries describes, read from
/// left to right; `None` where an entry has no `=`.
pub open spec fn entries_map(entries: Seq<String>) -> Option<Map<Seq<char>, Seq<char>>>
    decreases entries.len(),
{
    if entries.len() == 0 {
        Some(Map::empty())
    } else {
        match (entries_map(entries.drop_last()), key_value(entries.last()@)) {
            (Some(front), Some((key, value))) => Some(front.insert(key, value)),
            _ => None,
        }
    }
}

/// The first entry without `=`, for the entries that describe no environment.
pub open spec fn first_invalid(entries: Seq<String>) -> int {
    choose|i: int|
        0 <= i < entries.len() && key_value(entries[i]@) is None && forall|j: int|
            0 <= j < i ==> key_value(entries[j]@) is Some
}

/// A list of entries describes an environment exactly when each of them has
/// a separator.
pub proof fn lemma_entries_map_some(entries: Seq<String>)
    ensures
        entries_map(entries) is Some <==> forall|i: int|
            0 <= i < entries.len() ==> key_value(#[trigger] entries[i]@) is Some,
    decreases entries.len(),
{
    if entries.len() > 0 {
        let front = entries.drop_last();
        lemma_entries_map_some(front);
        if entries_map(entries) is Some {
            assert forall|i: int| 0 <= i < entries.len() implies key_value(
                #[trigger] entries[i]@,
            ) is Some by {
                if i < entries.len() - 1 {
                    assert(front[i] == entries[i]);
                }
            }
        }
        if forall|i: int| 0 <= i < entries.len() ==> key_value(#[trigger] entries[i]@) is Some {
            assert forall|i: int| 0 <= i < front.len() implies key_value(
                #[trigger] front[i]@,
            ) is Some by {
                assert(front[i] == entries[i]);
            }
            assert(key_value(entries[entries.len() - 1]@) is Some);
        }
    }
}

/// Reads a list of `key=value` entries into an environment. A key that
/// stands twice keeps the value of its last entry. The first entry without
/// `=` is handed back as the error.
pub fn environment(entries: &Vec<String>) -> (r: Result<EnvMap, String>)
    ensures
        match r {
            Ok(env) => env.wf() && entries_map(entries@) == Some(env@),
            Err(entry) => entries_map(entries@) is None && entry == entries@[first_invalid(
                entries@,
            )],
        },
{
    let mut env = EnvMap::new();
    let n: usize = entries.len();
    let mut i: usize = 0;
    while i < n
        invariant
            n == entries@.len(),
            i <= n,
            env.wf(),
            entries_map(entries@.take(i as int)) == Some(env@),
            forall|j: int| 0 <= j < i ==> key_value(#[trigger] entries@[j]@) is Some,
        decreases n - i,
    {
        proof {
            assert(entries@.take(i + 1).drop_last() == entries@.take(i as int));
            assert(entries@.take(i + 1).last() == entries@[i as int]);
        }
        match parse_key_value(entries[i].as_str()) {
            Some((key, value)) => {
                env.insert(key, value);
            },
            None => {
                proof {
                    lemma_entries_map_some(entries@);
                    let found = first_invalid(entries@);
                    assert(key_value(entries@[i as int]@) is None);
                    assert(0 <= found < entries@.len() && key_value(entries@[found]@) is None
                        && forall|j: int| 0 <= j < found ==> key_value(entries@[j]@) is Some);
                    assert(found == i);
                }
                return Err(entries[i].clone());
            },
        }
        i += 1;
    }
    proof {
        assert(entries@.take(n as int) == entries@);
    }
    Ok(env)
}

} // verus!
