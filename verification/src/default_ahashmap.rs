//! A map from identifiers to values that answers with a default where an
//! identifier has no value of its own, and that makes a fresh value the
//! first time an identifier is written to.

use crate::tables::{
    slots, slots_clear, slots_clone, slots_get, slots_insert, slots_new, slots_remove,
};
use ahash::AHashMap;
use vstd::prelude::*;

verus! {

/// A type with a blank value: the value that a shard has before anything
/// was stored in it.
pub trait Blank: Sized {
    /// Whether the value is blank.
    spec fn is_blank(&self) -> bool;

    /// Makes a blank value.
    fn blank() -> (fresh: Self)
        ensures
            fresh.is_blank(),
    ;
}

/// A type of which a value can be made a second time.
pub trait Twin: Sized {
    /// `other` holds what `self` holds, and is in order if `self` is.
    spec fn alike(&self, other: &Self) -> bool;

    /// Makes a second value that holds what this one holds.
    fn twin(&self) -> (copy: Self)
        ensures
            self.alike(&copy),
    ;
}

/// A copy of a list of values that are copied bit by bit.
pub fn copied<T: Copy>(list: &Vec<T>) -> (copy: Vec<T>)
    ensures
        copy@ == list@,
{
    let mut copy: Vec<T> = Vec::new();
    let mut i: usize = 0;
    while i < list.len()
        invariant
            i <= list@.len(),
            copy@ == list@.take(i as int),
        decreases list@.len() - i,
    {
        copy.push(list[i]);
        assert(copy@ =~= list@.take(i + 1));
        i += 1;
    }
    assert(list@.take(i as int) =~= list@);
    copy
}

impl<T> Blank for Option<T> {
    open spec fn is_blank(&self) -> bool {
        *self is None
    }

    fn blank() -> (fresh: Self) {
        None
    }
}

/// A map keyed by 64-bit identifiers. Reading an identifier that has no
/// value gives a blank value.
///
/// The values lie in a vector, in the order in which their identifiers were
/// first written; a hash table says where the value of an identifier lies.
pub struct DefaultAHashMap<V> {
    index: AHashMap<u64, usize>,
    keys: Vec<u64>,
    values: Vec<V>,
    default: V,
}

impl<V> View for DefaultAHashMap<V> {
    type V = Map<u64, V>;

    closed spec fn view(&self) -> Map<u64, V> {
        Map::new(
            |key: u64| slots(self.index).dom().contains(key),
            |key: u64| self.values@[slots(self.index)[key] as int],
        )
    }
}

impl<V> DefaultAHashMap<V> {
    /// The identifiers that have a value, in the order in which they were
    /// first written.
    pub closed spec fn order(&self) -> Seq<u64> {
        self.keys@
    }

    /// The value that is read where an identifier has none.
    pub closed spec fn default_value(&self) -> V {
        self.default
    }

    /// The table, the identifiers and the values fit together.
    pub closed spec fn wf(&self) -> bool {
        &&& self.keys@.len() == self.values@.len()
        &&& forall|key: u64| #[trigger]
            slots(self.index).dom().contains(key) ==> slots(self.index)[key] < self.keys@.len()
                && self.keys@[slots(self.index)[key] as int] == key
        &&& forall|i: int|
            0 <= i < self.keys@.len() ==> slots(self.index).dom().contains(#[trigger] self.keys@[i])
                && slots(self.index)[self.keys@[i]] == i
    }

    /// What `order` and the view have to do with one another.
    pub proof fn order_lists_the_domain(&self)
        requires
            self.wf(),
        ensures
            self.order().no_duplicates(),
            self.order().to_set() == self@.dom(),
            self.order().len() == self@.dom().len(),
            self@.dom().finite(),
    {
        assert(self.order().to_set() =~= self@.dom()) by {
            assert forall|key: u64| self.order().to_set().contains(key) == self@.dom().contains(key) by {
                if self@.dom().contains(key) {
                    assert(self.keys@[slots(self.index)[key] as int] == key);
                }
            }
        }
        self.order().unique_seq_to_set();
    }

    /// The number of identifiers that have a value.
    pub fn len(&self) -> (count: usize)
        requires
            self.wf(),
        ensures
            count == self.order().len(),
            count == self@.dom().len(),
    {
        proof {
            self.order_lists_the_domain();
        }
        self.keys.len()
    }

    /// Whether no identifier has a value.
    pub fn is_empty(&self) -> (none: bool)
        requires
            self.wf(),
        ensures
            none == (self.order().len() == 0),
            none == (self@ =~= Map::<u64, V>::empty()),
    {
        proof {
            self.order_lists_the_domain();
            if self.keys@.len() > 0 {
                assert(self@.dom().contains(self.keys@[0]));
            }
        }
        self.keys.len() == 0
    }

    /// Whether the identifier has a value of its own.
    pub fn contains_key(&self, key: u64) -> (found: bool)
        ensures
            found == self@.dom().contains(key),
    {
        slots_get(&self.index, key).is_some()
    }

    /// The value of the identifier, or the default where it has none.
    pub fn get(&self, key: u64) -> (value: &V)
        requires
            self.wf(),
        ensures
            *value == if self@.dom().contains(key) {
                self@[key]
            } else {
                self.default_value()
            },
    {
        match slots_get(&self.index, key) {
            Some(position) => &self.values[position],
            None => &self.default,
        }
    }

    /// The identifier at a position of `order`.
    pub fn key_at(&self, position: usize) -> (key: u64)
        requires
            self.wf(),
            position < self.order().len(),
        ensures
            key == self.order()[position as int],
            self@.dom().contains(key),
    {
        self.keys[position]
    }

    /// The value of the identifier at a position of `order`.
    pub fn value_at(&self, position: usize) -> (value: &V)
        requires
            self.wf(),
            position < self.order().len(),
        ensures
            *value == self@[self.order()[position as int]],
    {
        &self.values[position]
    }

    /// The value of the identifier at a position of `order`, to be changed
    /// in place.
    pub fn value_at_mut(&mut self, position: usize) -> (value: &mut V)
        requires
            old(self).wf(),
            position < old(self).order().len(),
        ensures
            *value == old(self)@[old(self).order()[position as int]],
            final(self).wf(),
            final(self)@ == old(self)@.insert(old(self).order()[position as int], *final(value)),
            final(self).default_value() == old(self).default_value(),
            final(self).order() == old(self).order(),
    {
        proof {
            let touched = *self;
            let key = touched.keys@[position as int];
            assert forall|values: Vec<V>|
                values@.len() == touched.values@.len() && (forall|i: int|
                    0 <= i < values@.len() && i != position ==> values@[i] == touched.values@[i]) implies (
            #[trigger] DefaultAHashMap {
                index: touched.index,
                keys: touched.keys,
                values,
                default: touched.default,
            }@) =~= old(self)@.insert(key, values@[position as int]) by {}
        }
        &mut self.values[position]
    }

    /// The value that is read where an identifier has none.
    pub fn default_entry(&self) -> (value: &V)
        ensures
            *value == self.default_value(),
    {
        &self.default
    }

    /// The identifiers that have a value, in the order in which they were
    /// first written.
    pub fn keys(&self) -> (keys: Vec<u64>)
        ensures
            keys@ == self.order(),
    {
        self.keys.clone()
    }

    /// Gives the identifier a value. The value that it had is handed back.
    pub fn insert(&mut self, key: u64, value: V) -> (previous: Option<V>)
        requires
            old(self).wf(),
        ensures
            final(self).wf(),
            final(self)@ == old(self)@.insert(key, value),
            final(self).default_value() == old(self).default_value(),
            previous == if old(self)@.dom().contains(key) {
                Some(old(self)@[key])
            } else {
                None::<V>
            },
            final(self).order() == if old(self)@.dom().contains(key) {
                old(self).order()
            } else {
                old(self).order().push(key)
            },
    {
        match slots_get(&self.index, key) {
            Some(position) => {
                let mut replaced = value;
                std::mem::swap(&mut self.values[position], &mut replaced);
                assert(self@ =~= old(self)@.insert(key, value));
                Some(replaced)
            },
            None => {
                let position = self.keys.len();
                self.keys.push(key);
                self.values.push(value);
                slots_insert(&mut self.index, key, position);
                assert(self@ =~= old(self)@.insert(key, value));
                None
            },
        }
    }

    /// Takes the value of the identifier away and hands it back. The
    /// identifier that was written last takes the place of the removed one
    /// in `order`.
    pub fn remove(&mut self, key: u64) -> (previous: Option<V>)
        requires
            old(self).wf(),
        ensures
            final(self).wf(),
            final(self)@ == old(self)@.remove(key),
            final(self).default_value() == old(self).default_value(),
            previous == if old(self)@.dom().contains(key) {
                Some(old(self)@[key])
            } else {
                None::<V>
            },
            !old(self)@.dom().contains(key) ==> final(self).order() == old(self).order(),
            old(self)@.dom().contains(key) ==> exists|position: int|
                0 <= position < old(self).order().len() && #[trigger] old(self).order()[position] == key
                    && final(self).order() == old(self).order().update(
                    position,
                    old(self).order().last(),
                ).drop_last(),
    {
        match slots_remove(&mut self.index, key) {
            Some(position) => {
                assert(old(self).order()[position as int] == key);
                let last = self.keys.len() - 1;
                let value = self.values.swap_remove(position);
                self.keys.swap_remove(position);
                if position != last {
                    let moved = self.keys[position];
                    slots_insert(&mut self.index, moved, position);
                }
                proof {
                    assert forall|other: u64| #[trigger] slots(self.index).dom().contains(other) implies slots(
                        self.index,
                    )[other] < self.keys@.len() && self.keys@[slots(self.index)[other] as int] == other by {
                        if other != old(self).keys@[last as int] {
                            assert(slots(old(self).index).dom().contains(other));
                            assert(slots(old(self).index)[other] != last);
                        }
                    }
                    assert(self@ =~= old(self)@.remove(key)) by {
                        assert forall|other: u64| self@.dom().contains(other) implies self@[other] == old(
                            self,
                        )@[other] by {
                            if other != old(self).keys@[last as int] {
                                assert(slots(old(self).index).dom().contains(other));
                                assert(slots(old(self).index)[other] != last);
                            }
                        }
                    }
                }
                Some(value)
            },
            None => {
                assert(self@ =~= old(self)@.remove(key));
                None
            },
        }
    }

    /// The values, in the order in which their identifiers were first
    /// written.
    pub fn values(&self) -> (values: &[V])
        requires
            self.wf(),
        ensures
            values@.len() == self.order().len(),
            forall|i: int| 0 <= i < values@.len() ==> values@[i] == #[trigger] self@[self.order()[i]],
    {
        self.values.as_slice()
    }

    /// Keeps the values of which `keep` says so and takes the others away.
    /// A value that stays is not changed.
    pub fn retain<F: Fn(u64, &V) -> bool>(&mut self, keep: F)
        requires
            old(self).wf(),
            forall|key: u64, value: &V| call_requires(keep, (key, value)),
        ensures
            final(self).wf(),
            final(self).default_value() == old(self).default_value(),
            final(self)@.dom().subset_of(old(self)@.dom()),
            forall|key: u64| #[trigger]
                final(self)@.dom().contains(key) ==> final(self)@[key] == old(self)@[key] && call_ensures(
                    keep,
                    (key, &old(self)@[key]),
                    true,
                ),
            forall|key: u64|
                old(self)@.dom().contains(key) && !(#[trigger] final(self)@.dom().contains(key))
                    ==> call_ensures(keep, (key, &old(self)@[key]), false),
    {
        let mut i: usize = 0;
        while i < self.keys.len()
            invariant
                self.wf(),
                i <= self.order().len(),
                self.default_value() == old(self).default_value(),
                self@.dom().subset_of(old(self)@.dom()),
                forall|key: u64, value: &V| call_requires(keep, (key, value)),
                forall|key: u64| #[trigger] self@.dom().contains(key) ==> self@[key] == old(self)@[key],
                forall|j: int|
                    0 <= j < i ==> call_ensures(
                        keep,
                        (#[trigger] self.order()[j], &old(self)@[self.order()[j]]),
                        true,
                    ),
                forall|key: u64|
                    old(self)@.dom().contains(key) && !(#[trigger] self@.dom().contains(key))
                        ==> call_ensures(keep, (key, &old(self)@[key]), false),
            decreases self.order().len() - i,
        {
            let key = self.keys[i];
            let ghost before = *self;
            assert(before@.dom().contains(key));
            if keep(key, &self.values[i]) {
                i += 1;
            } else {
                self.remove(key);
                proof {
                    before.order_lists_the_domain();
                    assert forall|j: int| 0 <= j < i implies self.order()[j] == before.order()[j] by {
                        let position = choose|position: int|
                            0 <= position < before.order().len() && #[trigger] before.order()[position]
                                == key && self.order() == before.order().update(
                                position,
                                before.order().last(),
                            ).drop_last();
                        assert(before.order()[i as int] == key);
                        assert(position == i);
                    }
                }
            }
        }
        proof {
            self.order_lists_the_domain();
            assert forall|key: u64| #[trigger] self@.dom().contains(key) implies call_ensures(
                keep,
                (key, &old(self)@[key]),
                true,
            ) by {
                assert(self.order().to_set().contains(key));
                let j = choose|j: int| 0 <= j < self.order().len() && self.order()[j] == key;
                assert(call_ensures(keep, (self.order()[j], &old(self)@[self.order()[j]]), true));
            }
        }
    }

    /// Takes every value away. The default stays.
    pub fn clear(&mut self)
        ensures
            final(self).wf(),
            final(self)@ == Map::<u64, V>::empty(),
            final(self).order() == Seq::<u64>::empty(),
            final(self).default_value() == old(self).default_value(),
    {
        slots_clear(&mut self.index);
        self.keys.clear();
        self.values.clear();
        assert(self@ =~= Map::<u64, V>::empty());
    }
}

impl<V: Blank> DefaultAHashMap<V> {
    /// A map in which no identifier has a value, with a blank default.
    pub fn new() -> (map: Self)
        ensures
            map.wf(),
            map@ == Map::<u64, V>::empty(),
            map.order() == Seq::<u64>::empty(),
            map.default_value().is_blank(),
    {
        let map = DefaultAHashMap {
            index: slots_new(),
            keys: Vec::new(),
            values: Vec::new(),
            default: V::blank(),
        };
        assert(map@ =~= Map::<u64, V>::empty());
        map
    }

    /// Makes sure that the identifier has a value of its own: one that has
    /// none gets a blank one. Tells where the value lies.
    pub fn touch(&mut self, key: u64) -> (position: usize)
        requires
            old(self).wf(),
        ensures
            final(self).wf(),
            final(self).default_value() == old(self).default_value(),
            position < final(self).order().len(),
            final(self).order()[position as int] == key,
            old(self)@.dom().contains(key) ==> final(self)@ == old(self)@ && final(self).order() == old(
                self,
            ).order(),
            !old(self)@.dom().contains(key) ==> final(self)@.dom() == old(self)@.dom().insert(key)
                && final(self)@[key].is_blank() && final(self).order() == old(self).order().push(key)
                && forall|other: u64|
                old(self)@.dom().contains(other) ==> final(self)@[other] == old(self)@[other],
    {
        match slots_get(&self.index, key) {
            Some(position) => position,
            None => {
                let position = self.keys.len();
                self.keys.push(key);
                self.values.push(V::blank());
                slots_insert(&mut self.index, key, position);
                assert(self@.dom() =~= old(self)@.dom().insert(key));
                position
            },
        }
    }
}

impl<V: Blank> DefaultAHashMap<V> {
    /// The value of the identifier, to be changed in place. An identifier
    /// that has no value gets a blank one first.
    pub fn get_mut(&mut self, key: u64) -> (value: &mut V)
        requires
            old(self).wf(),
        ensures
            old(self)@.dom().contains(key) ==> *value == old(self)@[key],
            !old(self)@.dom().contains(key) ==> value.is_blank(),
            final(self).wf(),
            final(self)@ == old(self)@.insert(key, *final(value)),
            final(self).default_value() == old(self).default_value(),
            final(self).order() == if old(self)@.dom().contains(key) {
                old(self).order()
            } else {
                old(self).order().push(key)
            },
    {
        let position = self.touch(key);
        proof {
            let touched = *self;
            assert forall|values: Vec<V>|
                values@.len() == touched.values@.len() && (forall|i: int|
                    0 <= i < values@.len() && i != position ==> values@[i] == touched.values@[i]) implies (
            #[trigger] DefaultAHashMap {
                index: touched.index,
                keys: touched.keys,
                values,
                default: touched.default,
            }@) =~= old(self)@.insert(key, values@[position as int]) by {}
        }
        &mut self.values[position]
    }
}

impl<V: Twin> Clone for DefaultAHashMap<V> {
    /// A second map with the same identifiers in the same order; each value
    /// and the default are made a second time.
    fn clone(&self) -> (copy: Self)
        ensures
            self.wf() ==> copy.wf(),
            copy.order() == self.order(),
            copy@.dom() == self@.dom(),
            self.wf() ==> forall|key: u64| #[trigger]
                self@.dom().contains(key) ==> self@[key].alike(&copy@[key]),
            self.default_value().alike(&copy.default_value()),
    {
        let mut values: Vec<V> = Vec::new();
        let mut i: usize = 0;
        while i < self.values.len()
            invariant
                i <= self.values@.len(),
                values@.len() == i,
                forall|j: int| 0 <= j < i ==> self.values@[j].alike(&#[trigger] values@[j]),
            decreases self.values@.len() - i,
        {
            values.push(self.values[i].twin());
            i += 1;
        }
        let copy = DefaultAHashMap {
            index: slots_clone(&self.index),
            keys: copied(&self.keys),
            values,
            default: self.default.twin(),
        };
        assert(copy@.dom() =~= self@.dom());
        copy
    }
}

impl<V: Blank> Default for DefaultAHashMap<V> {
    fn default() -> (map: Self)
        ensures
            map.wf(),
            map@ == Map::<u64, V>::empty(),
            map.order() == Seq::<u64>::empty(),
            map.default_value().is_blank(),
    {
        DefaultAHashMap::new()
    }
}

} // verus!
