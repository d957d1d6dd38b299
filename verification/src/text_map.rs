//! Maps from texts to values, kept as a list in the order in which the keys came.
use vstd::prelude::*;

use crate::data::append;
use crate::seqs;

verus! {

/// One key and its value.
#[derive(Debug)]
pub struct TextEntry<V> {
    pub key: String,
    pub value: V,
}

/// A map from texts to values.
#[derive(Debug)]
pub struct TextMap<V> {
    pub entries: Vec<TextEntry<V>>,
}

/// Whether an entry is that of this key.
pub open spec fn has_key<V>(key: Seq<char>) -> spec_fn(TextEntry<V>) -> bool {
    |entry: TextEntry<V>| entry.key@ == key
}

/// The index of the entry of this key; the number of entries where there is none.
pub open spec fn key_index<V>(entries: Seq<TextEntry<V>>, key: Seq<char>) -> int {
    seqs::first_index(entries, has_key(key))
}

impl<V> View for TextMap<V> {
    type V = Map<Seq<char>, V>;

    open spec fn view(&self) -> Map<Seq<char>, V> {
        Map::new(
            |key: Seq<char>| key_index(self.entries@, key) < self.entries@.len(),
            |key: Seq<char>| self.entries@[key_index(self.entries@, key)].value,
        )
    }
}

proof fn update_index<V>(entries: Seq<TextEntry<V>>, at: int, entry: TextEntry<V>, key: Seq<char>)
    requires
        0 <= at < entries.len(),
        entry.key@ == entries[at].key@,
    ensures
        key_index(entries.update(at, entry), key) == key_index(entries, key),
{
    let index = key_index(entries, key);
    let changed = entries.update(at, entry);
    seqs::first_index_found(entries, has_key(key));
    assert forall|j: int| 0 <= j < index implies !has_key(key)(#[trigger] changed[j]) by {
        assert(!has_key(key)(entries[j]));
    }
    seqs::first_index_is(changed, has_key(key), index);
}

proof fn push_index<V>(entries: Seq<TextEntry<V>>, entry: TextEntry<V>, key: Seq<char>)
    ensures
        key_index(entries, key) < entries.len() ==> key_index(entries.push(entry), key)
            == key_index(entries, key),
        key_index(entries, key) >= entries.len() && entry.key@ == key ==> key_index(
            entries.push(entry),
            key,
        ) == entries.len(),
        key_index(entries, key) >= entries.len() && entry.key@ != key ==> key_index(
            entries.push(entry),
            key,
        ) == entries.len() + 1,
{
    let longer = entries.push(entry);
    seqs::first_index_found(entries, has_key(key));
    let index = key_index(entries, key);
    assert forall|j: int| 0 <= j < index implies !has_key(key)(#[trigger] longer[j]) by {
        assert(!has_key(key)(entries[j]));
    }
    if index < entries.len() {
        seqs::first_index_is(longer, has_key(key), index);
    } else if entry.key@ == key {
        seqs::first_index_is(longer, has_key(key), entries.len() as int);
    } else {
        seqs::first_index_is(longer, has_key(key), longer.len() as int);
    }
}

proof fn remove_index<V>(entries: Seq<TextEntry<V>>, at: int, key: Seq<char>)
    requires
        0 <= at < entries.len(),
        entries[at].key@ != key,
    ensures
        ({
            let index = key_index(entries, key);
            let fewer = entries.remove(at);
            &&& index < entries.len() <==> key_index(fewer, key) < fewer.len()
            &&& index < entries.len() ==> fewer[key_index(fewer, key)] == entries[index]
        }),
{
    let index = key_index(entries, key);
    let fewer = entries.remove(at);
    seqs::first_index_found(entries, has_key(key));
    let moved = if index < at {
        index
    } else {
        index - 1
    };
    assert(index != at);
    assert forall|j: int| 0 <= j < moved implies !has_key(key)(#[trigger] fewer[j]) by {
        if j < at {
            assert(!has_key(key)(entries[j]));
        } else {
            assert(!has_key(key)(entries[j + 1]));
        }
    }
    seqs::first_index_is(fewer, has_key(key), moved);
}

impl<V> TextMap<V> {
    /// The empty map.
    pub fn new() -> (res: Self)
        ensures
            res@ == Map::<Seq<char>, V>::empty(),
    {
        let res = TextMap { entries: Vec::new() };
        proof {
            assert(res@ =~= Map::<Seq<char>, V>::empty());
        }
        res
    }

    fn find(&self, key: &String) -> (index: usize)
        ensures
            index == key_index(self.entries@, key@),
            index <= self.entries@.len(),
            index < self.entries@.len() ==> self.entries@[index as int].key@ == key@,
    {
        for i in 0..self.entries.len()
            invariant
                forall|j: int| 0 <= j < i ==> !has_key::<V>(key@)(#[trigger] self.entries@[j]),
        {
            if self.entries[i].key == *key {
                proof {
                    seqs::first_index_is(self.entries@, has_key(key@), i as int);
                }
                return i;
            }
        }
        proof {
            seqs::first_index_is(self.entries@, has_key(key@), self.entries@.len() as int);
        }
        self.entries.len()
    }

    /// The value of this key.
    pub fn get(&self, key: &String) -> (res: Option<&V>)
        ensures
            match res {
                Some(value) => self@.contains_key(key@) && *value == self@[key@],
                None => !self@.contains_key(key@),
            },
    {
        let index: usize = self.find(key);
        if index < self.entries.len() {
            Some(&self.entries[index].value)
        } else {
            None
        }
    }

    /// Gives this key this value.
    pub fn insert(&mut self, key: String, value: V)
        ensures
            final(self)@ == old(self)@.insert(key@, value),
    {
        let index: usize = self.find(&key);
        let ghost before = self.entries@;
        let ghost entry = TextEntry { key, value };
        if index < self.entries.len() {
            self.entries.set(index, TextEntry { key, value });
            proof {
                assert forall|other: Seq<char>| #[trigger]
                    key_index(self.entries@, other) == key_index(before, other) by {
                    update_index(before, index as int, entry, other);
                }
                let expected = old(self)@.insert(entry.key@, entry.value);
                assert forall|other: Seq<char>| #[trigger] self@.contains_key(other) implies
                    self@[other] == expected[other] by {
                    seqs::first_index_found(before, has_key(other));
                    assert(key_index(self.entries@, other) == key_index(before, other));
                }
                assert(self@ =~= expected);
            }
        } else {
            self.entries.push(TextEntry { key, value });
            proof {
                assert forall|other: Seq<char>| #![trigger key_index(self.entries@, other)]
                    {
                        &&& key_index(before, other) < before.len() ==> key_index(
                            self.entries@,
                            other,
                        ) == key_index(before, other)
                        &&& key_index(before, other) >= before.len() && entry.key@ == other
                            ==> key_index(self.entries@, other) == before.len()
                        &&& key_index(before, other) >= before.len() && entry.key@ != other
                            ==> key_index(self.entries@, other) == before.len() + 1
                    } by {
                    push_index(before, entry, other);
                }
                assert forall|other: Seq<char>| #[trigger] key_index(before, other) >= 0 by {
                    seqs::first_index_found(before, has_key(other));
                }
                assert(self@ =~= old(self)@.insert(entry.key@, entry.value));
            }
        }
    }

    /// Takes this key out, and gives back its value.
    pub fn remove(&mut self, key: &String) -> (res: Option<V>)
        ensures
            final(self)@ == old(self)@.remove(key@),
            match res {
                Some(value) => old(self)@.contains_key(key@) && value == old(self)@[key@],
                None => !old(self)@.contains_key(key@),
            },
    {
        let mut res: Option<V> = None;
        let mut index: usize = self.find(key);
        proof {
            assert(self@.remove(key@) =~= old(self)@.remove(key@));
        }
        while index < self.entries.len()
            invariant
                index == key_index(self.entries@, key@),
                index < self.entries@.len() ==> self.entries@[index as int].key@ == key@,
                self@.remove(key@) == old(self)@.remove(key@),
                match res {
                    Some(value) => old(self)@.contains_key(key@) && value == old(self)@[key@],
                    None => self@ == old(self)@,
                },
            decreases self.entries@.len(),
        {
            let ghost before = *self;
            let entry = self.entries.remove(index);
            proof {
                assert forall|other: Seq<char>|
                    other != key@ implies (#[trigger] before@.contains_key(other)
                    <==> self@.contains_key(other)) && (before@.contains_key(other)
                    ==> before@[other] == self@[other]) by {
                    remove_index(before.entries@, index as int, other);
                }
                assert(self@.remove(key@) =~= before@.remove(key@));
            }
            if res.is_none() {
                res = Some(entry.value);
            }
            index = self.find(key);
        }
        proof {
            assert(self@.remove(key@) =~= self@);
        }
        res
    }

    /// The keys, each once.
    pub fn keys(&self) -> (res: Vec<String>)
        ensures
            res.deep_view().no_duplicates(),
            forall|key: Seq<char>| #[trigger]
                res.deep_view().contains(key) <==> self@.contains_key(key),
            res@.len() <= self.entries@.len(),
    {
        let mut res: Vec<String> = Vec::new();
        proof {
            assert forall|key: Seq<char>| #[trigger]
                res.deep_view().contains(key) <==> key_index(self.entries@, key) < 0 by {
                seqs::first_index_found(self.entries@, has_key(key));
            }
        }
        for i in 0..self.entries.len()
            invariant
                res.deep_view().no_duplicates(),
                res@.len() <= i,
                forall|key: Seq<char>| #[trigger]
                    res.deep_view().contains(key) <==> key_index(self.entries@, key) < i,
        {
            let index: usize = self.find(&self.entries[i].key);
            let ghost before = res.deep_view();
            proof {
                seqs::first_index_found(self.entries@, has_key(self.entries@[i as int].key@));
                if index > i {
                    assert(!has_key::<V>(self.entries@[i as int].key@)(self.entries@[i as int]));
                }
            }
            if index == i {
                append(&mut res, self.entries[i].key.clone());
                proof {
                    let added = self.entries@[i as int].key@;
                    assert(!before.contains(added));
                    assert(res.deep_view() == before.push(added));
                    assert forall|key: Seq<char>| #[trigger]
                        res.deep_view().contains(key) <==> key_index(self.entries@, key) < i + 1 by {
                        seqs::first_index_found(self.entries@, has_key(key));
                        if key_index(self.entries@, key) == i {
                            assert(res.deep_view()[before.len() as int] == added);
                        }
                        if before.contains(key) {
                            let k = choose|k: int| 0 <= k < before.len() && before[k] == key;
                            assert(res.deep_view()[k] == key);
                        }
                    }
                }
            } else {
                proof {
                    assert forall|key: Seq<char>| #[trigger]
                        res.deep_view().contains(key) <==> key_index(self.entries@, key) < i + 1 by {
                        seqs::first_index_found(self.entries@, has_key(key));
                    }
                }
            }
        }
        res
    }
}

impl<V: DeepView> DeepView for TextMap<V> {
    type V = Map<Seq<char>, V::V>;

    open spec fn deep_view(&self) -> Map<Seq<char>, V::V> {
        self@.map_values(|value: V| value.deep_view())
    }
}

} // verus!
