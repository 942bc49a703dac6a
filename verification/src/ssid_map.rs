//! Networks by SSID: a small map from names to what is known of each.

use vstd::prelude::*;

verus! {

/// The key of the entry at `i`.
pub open spec fn key_at<V>(entries: Seq<(String, V)>, i: int) -> Seq<char> {
    entries[i].0@
}

/// No key occurs twice.
pub open spec fn distinct_keys<V>(entries: Seq<(String, V)>) -> bool {
    forall|i: int, j: int|
        0 <= i < j < entries.len() ==> #[trigger] key_at(entries, i) != #[trigger] key_at(
            entries,
            j,
        )
}

/// Some entry has the key `key`.
pub open spec fn holds_key<V>(entries: Seq<(String, V)>, key: Seq<char>) -> bool {
    exists|i: int| 0 <= i < entries.len() && #[trigger] key_at(entries, i) == key
}

/// Where the entry with the key `key` stands.
pub open spec fn position<V>(entries: Seq<(String, V)>, key: Seq<char>) -> int {
    choose|i: int| 0 <= i < entries.len() && #[trigger] key_at(entries, i) == key
}

/// The map that a list of entries with distinct keys writes down.
pub open spec fn mapping<V: View>(entries: Seq<(String, V)>) -> Map<Seq<char>, V::V> {
    Map::new(
        |key: Seq<char>| holds_key(entries, key),
        |key: Seq<char>| entries[position(entries, key)].1@,
    )
}

/// A map from SSIDs to values. No SSID occurs twice, and an SSID keeps the
/// place at which it was first inserted.
pub struct SsidMap<V> {
    entries: Vec<(String, V)>,
}

impl<V: View> View for SsidMap<V> {
    type V = Map<Seq<char>, V::V>;

    closed spec fn view(&self) -> Map<Seq<char>, V::V> {
        mapping(self.entries@)
    }
}

impl<V> SsidMap<V> {
    #[verifier::type_invariant]
    spec fn distinct(&self) -> bool {
        distinct_keys(self.entries@)
    }
}

impl<V: View> SsidMap<V> {
    /// The SSIDs in the order in which they were first inserted.
    pub closed spec fn keys(&self) -> Seq<Seq<char>> {
        Seq::new(self.entries@.len(), |i: int| key_at(self.entries@, i))
    }

    /// A map without entries.
    pub fn new() -> (map: SsidMap<V>)
        ensures
            map@ == Map::<Seq<char>, V::V>::empty(),
            map.keys() == Seq::<Seq<char>>::empty(),
    {
        let map = SsidMap { entries: Vec::new() };
        assert(map@ =~= Map::<Seq<char>, V::V>::empty());
        assert(map.keys() =~= Seq::<Seq<char>>::empty());
        map
    }

    fn find(&self, key: &String) -> (found: Option<usize>)
        ensures
            match found {
                Some(i) => i < self.entries@.len() && key_at(self.entries@, i as int) == key@,
                None => !holds_key(self.entries@, key@),
            },
    {
        let mut i: usize = 0;
        while i < self.entries.len()
            invariant
                i <= self.entries@.len(),
                forall|j: int| 0 <= j < i ==> #[trigger] key_at(self.entries@, j) != key@,
            decreases self.entries@.len() - i,
        {
            if self.entries[i].0 == *key {
                return Some(i);
            }
            i = i + 1;
        }
        None
    }

    /// Whether the map has an entry for `ssid`.
    pub fn contains_key(&self, ssid: &str) -> (found: bool)
        ensures
            found == self@.contains_key(ssid@),
    {
        let key = ssid.to_string();
        self.find(&key).is_some()
    }

    /// The value of `ssid`, if it has one.
    pub fn get(&self, ssid: &str) -> (value: Option<&V>)
        ensures
            match value {
                Some(value) => self@.contains_key(ssid@) && value@ == self@[ssid@],
                None => !self@.contains_key(ssid@),
            },
    {
        let key = ssid.to_string();
        match self.find(&key) {
            Some(i) => {
                proof {
                    use_type_invariant(self);
                    lemma_position(self.entries@, i as int);
                }
                Some(&self.entries[i].1)
            },
            None => None,
        }
    }

    /// Gives `ssid` the value `value`. An SSID that is new comes last.
    pub fn insert(&mut self, ssid: String, value: V)
        ensures
            final(self)@ == old(self)@.insert(ssid@, value@),
            final(self).keys() == if old(self)@.contains_key(ssid@) {
                old(self).keys()
            } else {
                old(self).keys().push(ssid@)
            },
    {
        proof {
            use_type_invariant(&*self);
        }
        let ghost before = self.entries@;
        let ghost key = ssid@;
        let ghost shown = value@;
        let found = self.find(&ssid);
        let mut entries: Vec<(String, V)> = Vec::new();
        core::mem::swap(&mut self.entries, &mut entries);
        match found {
            Some(i) => {
                entries[i] = (ssid, value);
                proof {
                    assert forall|j: int| 0 <= j < before.len() implies #[trigger] key_at(
                        entries@,
                        j,
                    ) == key_at(before, j) by {}
                    lemma_replaced(before, entries@, i as int, key, shown);
                }
            },
            None => {
                entries.push((ssid, value));
                proof {
                    lemma_appended(before, entries@, key, shown);
                }
            },
        }
        core::mem::swap(&mut self.entries, &mut entries);
        proof {
            if old(self)@.contains_key(key) {
                assert(self.keys() =~= old(self).keys());
            } else {
                assert(self.keys() =~= old(self).keys().push(key));
            }
        }
    }

    /// The entries in the order of `keys`.
    pub fn entries(&self) -> (entries: &Vec<(String, V)>)
        ensures
            distinct_keys(entries@),
            mapping(entries@) == self@,
            entries@.len() == self.keys().len(),
            forall|i: int| 0 <= i < entries@.len() ==> key_at(entries@, i) == self.keys()[i],
    {
        proof {
            use_type_invariant(self);
        }
        &self.entries
    }
}

/// Among distinct keys, the place of a key is the place where it stands.
pub proof fn lemma_position<V>(entries: Seq<(String, V)>, i: int)
    requires
        distinct_keys(entries),
        0 <= i < entries.len(),
    ensures
        holds_key(entries, key_at(entries, i)),
        position(entries, key_at(entries, i)) == i,
{
    let key = key_at(entries, i);
    let p = position(entries, key);
    assert(0 <= p < entries.len() && key_at(entries, p) == key);
    if p < i {
        assert(key_at(entries, p) != key_at(entries, i));
    } else if i < p {
        assert(key_at(entries, i) != key_at(entries, p));
    }
}

proof fn lemma_replaced<V: View>(
    before: Seq<(String, V)>,
    after: Seq<(String, V)>,
    i: int,
    key: Seq<char>,
    shown: V::V,
)
    requires
        distinct_keys(before),
        0 <= i < before.len(),
        after.len() == before.len(),
        key_at(before, i) == key,
        forall|j: int| 0 <= j < before.len() ==> #[trigger] key_at(after, j) == key_at(before, j),
        forall|j: int| 0 <= j < before.len() && j != i ==> (#[trigger] after[j]).1@ == before[j].1@,
        after[i].1@ == shown,
    ensures
        distinct_keys(after),
        mapping(after) == mapping(before).insert(key, shown),
{
    assert forall|a: int, b: int| 0 <= a < b < after.len() implies key_at(after, a) != key_at(
        after,
        b,
    ) by {
        assert(key_at(before, a) != key_at(before, b));
    }
    assert forall|k: Seq<char>| holds_key(after, k) == (holds_key(before, k) || k == key) by {
        if holds_key(after, k) {
            let j = position(after, k);
            assert(key_at(before, j) == k);
        }
        if holds_key(before, k) {
            let j = position(before, k);
            assert(key_at(after, j) == k);
        }
        if k == key {
            assert(key_at(after, i) == k);
        }
    }
    assert forall|k: Seq<char>| holds_key(after, k) implies #[trigger] mapping(after)[k]
        == mapping(before).insert(key, shown)[k] by {
        let j = position(after, k);
        lemma_position(after, j);
        assert(key_at(before, j) == k);
        lemma_position(before, j);
        if k == key {
            lemma_position(before, i);
        }
    }
    assert(mapping(after) =~= mapping(before).insert(key, shown));
}

proof fn lemma_appended<V: View>(
    before: Seq<(String, V)>,
    after: Seq<(String, V)>,
    key: Seq<char>,
    shown: V::V,
)
    requires
        distinct_keys(before),
        !holds_key(before, key),
        after.len() == before.len() + 1,
        forall|j: int| 0 <= j < before.len() ==> #[trigger] after[j] == before[j],
        key_at(after, before.len() as int) == key,
        after[before.len() as int].1@ == shown,
    ensures
        distinct_keys(after),
        mapping(after) == mapping(before).insert(key, shown),
{
    let n = before.len() as int;
    assert forall|a: int, b: int| 0 <= a < b < after.len() implies key_at(after, a) != key_at(
        after,
        b,
    ) by {
        assert(after[a] == before[a]);
        if b < n {
            assert(after[b] == before[b]);
            assert(key_at(before, a) != key_at(before, b));
        } else {
            assert(key_at(before, a) != key);
        }
    }
    assert forall|k: Seq<char>| holds_key(after, k) == (holds_key(before, k) || k == key) by {
        if holds_key(after, k) {
            let j = position(after, k);
            if j < n {
                assert(after[j] == before[j]);
                assert(key_at(before, j) == k);
            }
        }
        if holds_key(before, k) {
            let j = position(before, k);
            assert(after[j] == before[j]);
            assert(key_at(after, j) == k);
        }
        if k == key {
            assert(key_at(after, n) == k);
        }
    }
    assert forall|k: Seq<char>| holds_key(after, k) implies #[trigger] mapping(after)[k]
        == mapping(before).insert(key, shown)[k] by {
        let j = position(after, k);
        lemma_position(after, j);
        if j < n {
            assert(after[j] == before[j]);
            assert(key_at(before, j) == k);
            lemma_position(before, j);
        }
    }
    assert(mapping(after) =~= mapping(before).insert(key, shown));
}

/// The map after the pairs of `pairs` have been inserted into `map` one
/// after the other.
pub open spec fn inserted<A>(map: Map<Seq<char>, A>, pairs: Seq<(Seq<char>, A)>) -> Map<
    Seq<char>,
    A,
>
    decreases pairs.len(),
{
    if pairs.len() == 0 {
        map
    } else {
        inserted(map, pairs.drop_last()).insert(pairs.last().0, pairs.last().1)
    }
}

/// The map after each key of `keys` that had no value has got the value
/// `default`.
pub open spec fn filled<A>(map: Map<Seq<char>, A>, keys: Seq<Seq<char>>, default: A) -> Map<
    Seq<char>,
    A,
>
    decreases keys.len(),
{
    if keys.len() == 0 {
        map
    } else {
        let before = filled(map, keys.drop_last(), default);
        if before.contains_key(keys.last()) {
            before
        } else {
            before.insert(keys.last(), default)
        }
    }
}

/// Some pair of `pairs` has the key `key`.
pub open spec fn names<A>(pairs: Seq<(Seq<char>, A)>, key: Seq<char>) -> bool {
    exists|i: int| 0 <= i < pairs.len() && (#[trigger] pairs[i]).0 == key
}

/// `pairs[i]` is the last pair with its key.
pub open spec fn is_last_of_key<A>(pairs: Seq<(Seq<char>, A)>, i: int) -> bool {
    &&& 0 <= i < pairs.len()
    &&& forall|j: int| i < j < pairs.len() ==> (#[trigger] pairs[j]).0 != pairs[i].0
}

/// After insertions a key has a value if it had one or a pair names it, and
/// a key that no pair names keeps its value.
pub proof fn lemma_inserted_keys<A>(map: Map<Seq<char>, A>, pairs: Seq<(Seq<char>, A)>, key: Seq<
    char,
>)
    ensures
        inserted(map, pairs).contains_key(key) <==> map.contains_key(key) || names(pairs, key),
        !names(pairs, key) && map.contains_key(key) ==> inserted(map, pairs)[key] == map[key],
    decreases pairs.len(),
{
    if pairs.len() > 0 {
        let rest = pairs.drop_last();
        lemma_inserted_keys(map, rest, key);
        if names(rest, key) {
            let i = choose|i: int| 0 <= i < rest.len() && (#[trigger] rest[i]).0 == key;
            assert(pairs[i] == rest[i]);
        }
        if names(pairs, key) {
            let i = choose|i: int| 0 <= i < pairs.len() && (#[trigger] pairs[i]).0 == key;
            if i < rest.len() {
                assert(rest[i] == pairs[i]);
            }
        }
        if pairs.last().0 == key {
            assert(pairs[pairs.len() - 1].0 == key);
        }
    }
}

/// After insertions a key has the value of the last pair that names it.
pub proof fn lemma_inserted_value<A>(map: Map<Seq<char>, A>, pairs: Seq<(Seq<char>, A)>, i: int)
    requires
        is_last_of_key(pairs, i),
    ensures
        inserted(map, pairs).contains_key(pairs[i].0),
        inserted(map, pairs)[pairs[i].0] == pairs[i].1,
    decreases pairs.len(),
{
    let rest = pairs.drop_last();
    if i < pairs.len() - 1 {
        assert(rest[i] == pairs[i]);
        assert forall|j: int| i < j < rest.len() implies (#[trigger] rest[j]).0 != rest[i].0 by {
            assert(rest[j] == pairs[j]);
        }
        lemma_inserted_value(map, rest, i);
        assert(pairs[pairs.len() - 1].0 != pairs[i].0);
    }
}

/// After filling in, a key has a value if it had one or is among `keys`;
/// a key that had a value keeps it, and a key that had none has `default`.
pub proof fn lemma_filled<A>(map: Map<Seq<char>, A>, keys: Seq<Seq<char>>, default: A, key: Seq<
    char,
>)
    ensures
        filled(map, keys, default).contains_key(key) <==> map.contains_key(key) || keys.contains(
            key,
        ),
        map.contains_key(key) ==> filled(map, keys, default)[key] == map[key],
        !map.contains_key(key) && keys.contains(key) ==> filled(map, keys, default)[key]
            == default,
    decreases keys.len(),
{
    if keys.len() > 0 {
        let rest = keys.drop_last();
        lemma_filled(map, rest, default, key);
        if rest.contains(key) {
            let i = choose|i: int| 0 <= i < rest.len() && rest[i] == key;
            assert(keys[i] == key);
        }
        if keys.contains(key) {
            let i = choose|i: int| 0 <= i < keys.len() && keys[i] == key;
            if i < rest.len() {
                assert(rest[i] == key);
            }
        }
        assert(keys[keys.len() - 1] == keys.last());
    }
}

} // verus!
