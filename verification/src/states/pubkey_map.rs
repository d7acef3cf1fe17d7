use crate::states::pubkey::Pubkey;
use crate::utils::first_match::{
    first_match, is_first_match, lemma_first_match_at, lemma_first_match_facts,
    lemma_first_match_none,
};
use vstd::prelude::*;

verus! {

/// Whether an entry stands under `key`.
pub open spec fn has_key<V>(key: Pubkey) -> spec_fn((Pubkey, V)) -> bool {
    |entry: (Pubkey, V)| entry.0 == key
}

/// The value that stands under `key`: that of the first entry with that key.
pub open spec fn lookup<V>(entries: Seq<(Pubkey, V)>, key: Pubkey) -> Option<V> {
    match first_match(entries, has_key(key)) {
        Some(i) => Some(entries[i].1),
        None => None,
    }
}

/// The entries after `value` has been put under `key`: in the place of the entry
/// that stood under it, or at the end where there was none.
pub open spec fn insert_spec<V>(entries: Seq<(Pubkey, V)>, key: Pubkey, value: V) -> Seq<
    (Pubkey, V),
> {
    match first_match(entries, has_key(key)) {
        Some(i) => entries.update(i, (key, value)),
        None => entries.push((key, value)),
    }
}

/// No key stands twice.
pub open spec fn distinct_keys<V>(entries: Seq<(Pubkey, V)>) -> bool {
    forall|i: int, j: int| 0 <= i < j < entries.len() ==> entries[i].0 != entries[j].0
}

/// Putting a value under a key keeps the keys distinct, finds that value under
/// that key afterwards, and leaves what stands under every other key.
pub proof fn lemma_insert_spec<V>(entries: Seq<(Pubkey, V)>, key: Pubkey, value: V, other: Pubkey)
    ensures
        distinct_keys(entries) ==> distinct_keys(insert_spec(entries, key, value)),
        lookup(insert_spec(entries, key, value), key) == Some(value),
        other != key ==> lookup(insert_spec(entries, key, value), other) == lookup(entries, other),
{
    let after = insert_spec(entries, key, value);
    lemma_first_match_facts(entries, has_key::<V>(key));
    lemma_first_match_facts(entries, has_key::<V>(other));
    match first_match(entries, has_key::<V>(key)) {
        Some(i) => {
            assert(is_first_match(after, has_key::<V>(key), i));
            lemma_first_match_at(after, has_key::<V>(key), i);
        },
        None => {
            assert(is_first_match(after, has_key::<V>(key), entries.len() as int));
            lemma_first_match_at(after, has_key::<V>(key), entries.len() as int);
        },
    }
    if other != key {
        match first_match(entries, has_key::<V>(other)) {
            Some(k) => {
                assert(is_first_match(after, has_key::<V>(other), k));
                lemma_first_match_at(after, has_key::<V>(other), k);
            },
            None => {
                lemma_first_match_none(after, has_key::<V>(other));
            },
        }
    }
}

/// A map from addresses to values that keeps its entries in the order in which
/// their keys first came.
#[derive(Debug)]
pub struct PubkeyMap<V> {
    entries: Vec<(Pubkey, V)>,
}

impl<V> View for PubkeyMap<V> {
    type V = Seq<(Pubkey, V)>;

    closed spec fn view(&self) -> Seq<(Pubkey, V)> {
        self.entries@
    }
}

impl<V> PubkeyMap<V> {
    /// No key stands twice: every map is built by `new` and `insert` alone.
    #[verifier::type_invariant]
    closed spec fn inv(&self) -> bool {
        distinct_keys(self.entries@)
    }

    /// The empty map.
    pub fn new() -> (map: Self)
        ensures
            map@ == Seq::<(Pubkey, V)>::empty(),
    {
        PubkeyMap { entries: Vec::new() }
    }

    /// The number of entries.
    pub fn len(&self) -> (n: usize)
        ensures
            n == self@.len(),
    {
        self.entries.len()
    }

    /// Whether the map has no entry.
    pub fn is_empty(&self) -> (empty: bool)
        ensures
            empty == (self@.len() == 0),
    {
        self.entries.len() == 0
    }

    /// The place of the entry that stands under `key`. No other entry stands
    /// under it: the keys of a map are distinct.
    pub fn position(&self, key: &Pubkey) -> (r: Option<usize>)
        ensures
            r matches Some(i) ==> first_match(self@, has_key(*key)) == Some(i as int),
            r is None ==> first_match(self@, has_key(*key)) is None,
            distinct_keys(self@),
    {
        proof {
            use_type_invariant(self);
        }
        let mut i: usize = 0;
        while i < self.entries.len()
            invariant
                i <= self.entries@.len(),
                distinct_keys(self.entries@),
                forall|j: int| 0 <= j < i ==> !has_key::<V>(*key)(#[trigger] self.entries@[j]),
            decreases self.entries@.len() - i,
        {
            if self.entries[i].0 == *key {
                proof {
                    lemma_first_match_at(self.entries@, has_key::<V>(*key), i as int);
                }
                return Some(i);
            }
            i = i + 1;
        }
        proof {
            lemma_first_match_none(self.entries@, has_key::<V>(*key));
        }
        None
    }

    /// Whether a value stands under `key`.
    pub fn contains_key(&self, key: &Pubkey) -> (found: bool)
        ensures
            found == lookup(self@, *key).is_some(),
    {
        self.position(key).is_some()
    }

    /// The value that stands under `key`.
    pub fn get(&self, key: &Pubkey) -> (r: Option<&V>)
        ensures
            r matches Some(value) ==> lookup(self@, *key) == Some(*value),
            r is None ==> lookup(self@, *key) is None,
    {
        match self.position(key) {
            Some(i) => {
                proof {
                    lemma_first_match_facts(self@, has_key::<V>(*key));
                }
                Some(&self.entries[i].1)
            },
            None => None,
        }
    }

    /// The entry at place `i`, in the order in which the keys first came.
    pub fn entry_at(&self, i: usize) -> (entry: &(Pubkey, V))
        requires
            i < self@.len(),
        ensures
            *entry == self@[i as int],
    {
        &self.entries[i]
    }

    /// Puts `value` under `key`, in the place of what stood there.
    pub fn insert(&mut self, key: Pubkey, value: V)
        ensures
            final(self)@ == insert_spec(old(self)@, key, value),
    {
        proof {
            use_type_invariant(&*self);
            lemma_insert_spec(self.entries@, key, value, key);
            lemma_first_match_facts(self@, has_key::<V>(key));
        }
        let place = self.position(&key);
        let mut entries: Vec<(Pubkey, V)> = Vec::new();
        core::mem::swap(&mut self.entries, &mut entries);
        match place {
            Some(i) => {
                entries.set(i, (key, value));
            },
            None => {
                entries.push((key, value));
            },
        }
        core::mem::swap(&mut self.entries, &mut entries);
    }

    /// Removes every entry.
    pub fn clear(&mut self)
        ensures
            final(self)@ == Seq::<(Pubkey, V)>::empty(),
    {
        let mut entries: Vec<(Pubkey, V)> = Vec::new();
        core::mem::swap(&mut self.entries, &mut entries);
    }
}

} // verus!
