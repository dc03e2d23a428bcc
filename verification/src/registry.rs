//! Records by key.
use crate::text::same_text;
use vstd::prelude::*;

verus! {

/// Records by key. No key occurs twice.
#[derive(Debug)]
pub struct Registry<T> {
    items: Vec<(String, T)>,
}

/// The items as a map, a later one replacing an earlier one of the same key.
pub open spec fn items_map<T>(items: Seq<(String, T)>) -> Map<Seq<char>, T>
    decreases items.len(),
{
    if items.len() == 0 {
        Map::empty()
    } else {
        items_map(items.drop_last()).insert(items.last().0@, items.last().1)
    }
}

/// No key occurs twice.
pub open spec fn distinct_items<T>(items: Seq<(String, T)>) -> bool {
    forall|i: int, j: int|
        0 <= i < j < items.len() ==> (#[trigger] items[i]).0@ != (#[trigger] items[j]).0@
}

/// Under distinct keys, an item is found under its key.
pub proof fn lemma_item_is_mapped<T>(items: Seq<(String, T)>, i: int)
    requires
        distinct_items(items),
        0 <= i < items.len(),
    ensures
        items_map(items).contains_key(items[i].0@),
        items_map(items)[items[i].0@] == items[i].1,
    decreases items.len(),
{
    let init = items.drop_last();
    if i < init.len() {
        lemma_item_is_mapped(init, i);
        assert(init[i] == items[i]);
        assert(items[i].0@ != items[items.len() - 1].0@);
    }
}

/// A mapped key is the key of some item.
pub proof fn lemma_mapped_key_has_item<T>(items: Seq<(String, T)>, key: Seq<char>) -> (i: int)
    requires
        items_map(items).contains_key(key),
    ensures
        0 <= i < items.len(),
        items[i].0@ == key,
    decreases items.len(),
{
    if items.len() == 0 {
        0
    } else if items.last().0@ == key {
        items.len() - 1
    } else {
        let i = lemma_mapped_key_has_item(items.drop_last(), key);
        assert(items.drop_last()[i] == items[i]);
        i
    }
}

/// The items but those under a key, in their order.
pub open spec fn items_without<T>(items: Seq<(String, T)>, key: Seq<char>) -> Seq<(String, T)>
    decreases items.len(),
{
    if items.len() == 0 {
        items
    } else if items.last().0@ == key {
        items_without(items.drop_last(), key)
    } else {
        items_without(items.drop_last(), key).push(items.last())
    }
}

/// Where no item is under a key, none goes.
proof fn lemma_none_without<T>(items: Seq<(String, T)>, key: Seq<char>)
    requires
        forall|i: int| 0 <= i < items.len() ==> (#[trigger] items[i]).0@ != key,
    ensures
        items_without(items, key) == items,
    decreases items.len(),
{
    if items.len() > 0 {
        let init = items.drop_last();
        assert forall|i: int| 0 <= i < init.len() implies (#[trigger] init[i]).0@ != key by {
            assert(init[i] == items[i]);
        }
        lemma_none_without(init, key);
        assert(items[items.len() - 1].0@ != key);
        assert(init.push(items.last()) =~= items);
    }
}

/// Under distinct keys, one item goes.
proof fn lemma_one_without<T>(items: Seq<(String, T)>, at: int)
    requires
        distinct_items(items),
        0 <= at < items.len(),
    ensures
        items_without(items, items[at].0@) == items.remove(at),
    decreases items.len(),
{
    let init = items.drop_last();
    let key = items[at].0@;
    if at == items.len() - 1 {
        assert forall|i: int| 0 <= i < init.len() implies (#[trigger] init[i]).0@ != key by {
            assert(init[i] == items[i]);
            assert(items[i].0@ != items[at].0@);
        }
        lemma_none_without(init, key);
        assert(items.remove(at) =~= init);
    } else {
        lemma_one_without(init, at);
        assert(init[at] == items[at]);
        assert(items[at].0@ != items[items.len() - 1].0@);
        assert(items.remove(at) =~= init.remove(at).push(items.last()));
    }
}

/// Dropping one item removes its key from the map and nothing else.
proof fn lemma_removed_item<T>(before: Seq<(String, T)>, at: int)
    requires
        distinct_items(before),
        0 <= at < before.len(),
    ensures
        distinct_items(before.remove(at)),
        items_map(before.remove(at)) == items_map(before).remove(before[at].0@),
{
    let after = before.remove(at);
    let expected = items_map(before).remove(before[at].0@);
    let got = items_map(after);
    assert forall|a: int, b: int| 0 <= a < b < after.len() implies (#[trigger] after[a]).0@ != (
    #[trigger] after[b]).0@ by {
        let i = if a < at { a } else { a + 1 };
        let j = if b < at { b } else { b + 1 };
        assert(before[i].0@ != before[j].0@);
    }
    assert forall|k: Seq<char>| #[trigger] got.dom().contains(k) <==> expected.dom().contains(k) by {
        lemma_removed_item_at(before, at, k);
    }
    assert forall|k: Seq<char>| got.dom().contains(k) implies #[trigger] got[k] == expected[k] by {
        lemma_removed_item_at(before, at, k);
    }
    assert(got =~= expected);
}

proof fn lemma_removed_item_at<T>(before: Seq<(String, T)>, at: int, k: Seq<char>)
    requires
        distinct_items(before),
        distinct_items(before.remove(at)),
        0 <= at < before.len(),
    ensures
        ({
            let expected = items_map(before).remove(before[at].0@);
            let got = items_map(before.remove(at));
            &&& got.contains_key(k) <==> expected.contains_key(k)
            &&& got.contains_key(k) ==> got[k] == expected[k]
        }),
{
    let after = before.remove(at);
    if items_map(before).contains_key(k) && k != before[at].0@ {
        let i = lemma_mapped_key_has_item(before, k);
        lemma_item_is_mapped(before, i);
        let j = if i < at { i } else { i - 1 };
        assert(after[j] == before[i]);
        lemma_item_is_mapped(after, j);
    }
    if items_map(after).contains_key(k) {
        let j = lemma_mapped_key_has_item(after, k);
        let i = if j < at { j } else { j + 1 };
        assert(after[j] == before[i]);
        lemma_item_is_mapped(before, i);
        lemma_item_is_mapped(after, j);
        if i < at {
            assert(before[i].0@ != before[at].0@);
        } else {
            assert(before[at].0@ != before[i].0@);
        }
    }
}

/// Under distinct keys, the map has as many keys as there are items.
proof fn lemma_item_count<T>(items: Seq<(String, T)>)
    requires
        distinct_items(items),
    ensures
        items_map(items).dom().finite(),
        items_map(items).dom().len() == items.len(),
    decreases items.len(),
{
    if items.len() > 0 {
        let init = items.drop_last();
        lemma_item_count(init);
        if items_map(init).contains_key(items.last().0@) {
            let i = lemma_mapped_key_has_item(init, items.last().0@);
            assert(init[i] == items[i]);
            assert(items[i].0@ != items[items.len() - 1].0@);
        }
        assert(items_map(items).dom() =~= items_map(init).dom().insert(items.last().0@));
    } else {
        assert(items_map(items).dom() =~= Set::empty());
    }
}

impl<T> Registry<T> {
    /// The records in the order in which they were added.
    pub closed spec fn items(&self) -> Seq<(String, T)> {
        self.items@
    }

    pub open spec fn view(&self) -> Map<Seq<char>, T> {
        items_map(self.items())
    }

    #[verifier::type_invariant]
    spec fn keys_are_distinct(&self) -> bool {
        distinct_items(self.items@)
    }

    /// No records.
    pub fn new() -> (registry: Registry<T>)
        ensures
            registry@ == Map::<Seq<char>, T>::empty(),
            registry.items() == Seq::<(String, T)>::empty(),
    {
        let registry = Registry { items: Vec::new() };
        assert(registry.items() =~= Seq::empty());
        registry
    }

    /// Number of records, the keys of which are distinct.
    pub fn len(&self) -> (n: usize)
        ensures
            n == self.items().len(),
            n == self@.dom().len(),
            self@.dom().finite(),
            distinct_items(self.items()),
    {
        proof {
            use_type_invariant(self);
            lemma_item_count(self.items@);
        }
        self.items.len()
    }

    /// The key at a position.
    pub fn key_at(&self, i: usize) -> (key: &String)
        requires
            i < self.items().len(),
        ensures
            *key == self.items()[i as int].0,
    {
        &self.items[i].0
    }

    /// The record at a position.
    pub fn value_at(&self, i: usize) -> (value: &T)
        requires
            i < self.items().len(),
        ensures
            *value == self.items()[i as int].1,
            self@.contains_key(self.items()[i as int].0@),
            self@[self.items()[i as int].0@] == *value,
    {
        proof {
            use_type_invariant(self);
            lemma_item_is_mapped(self.items@, i as int);
        }
        &self.items[i].1
    }

    /// Position of a key.
    fn position(&self, key: &str) -> (found: Option<usize>)
        ensures
            match found {
                Some(i) => i < self.items@.len() && self.items@[i as int].0@ == key@,
                None => !self@.contains_key(key@),
            },
    {
        let mut i: usize = 0;
        while i < self.items.len()
            invariant
                i <= self.items@.len(),
                forall|j: int| 0 <= j < i ==> (#[trigger] self.items@[j]).0@ != key@,
            decreases self.items.len() - i,
        {
            if same_text(self.items[i].0.as_str(), key) {
                return Some(i);
            }
            i += 1;
        }
        proof {
            if self@.contains_key(key@) {
                let j = lemma_mapped_key_has_item(self.items@, key@);
                assert(self.items@[j].0@ != key@);
            }
        }
        None
    }

    /// The record under a key.
    pub fn get(&self, key: &str) -> (record: Option<&T>)
        ensures
            match record {
                Some(value) => self@.contains_key(key@) && self@[key@] == *value,
                None => !self@.contains_key(key@),
            },
    {
        proof {
            use_type_invariant(self);
        }
        match self.position(key) {
            Some(i) => {
                proof {
                    lemma_item_is_mapped(self.items@, i as int);
                }
                Some(&self.items[i].1)
            },
            None => None,
        }
    }

    /// Whether a key has a record.
    pub fn contains_key(&self, key: &str) -> (b: bool)
        ensures
            b == self@.contains_key(key@),
    {
        self.get(key).is_some()
    }

    /// Removes the record under a key.
    pub fn remove(&mut self, key: &str) -> (removed: Option<T>)
        ensures
            final(self)@ == old(self)@.remove(key@),
            final(self).items() == items_without(old(self).items(), key@),
            match removed {
                Some(value) => old(self)@.contains_key(key@) && old(self)@[key@] == value,
                None => !old(self)@.contains_key(key@) && final(self)@ == old(self)@,
            },
    {
        proof {
            use_type_invariant(&*self);
        }
        match self.position(key) {
            Some(i) => {
                let mut items: Vec<(String, T)> = Vec::new();
                std::mem::swap(&mut self.items, &mut items);
                proof {
                    lemma_one_without(items@, i as int);
                    lemma_removed_item(items@, i as int);
                    lemma_item_is_mapped(items@, i as int);
                }
                let (_, value) = items.remove(i);
                std::mem::swap(&mut self.items, &mut items);
                Some(value)
            },
            None => {
                proof {
                    assert forall|j: int| 0 <= j < self.items@.len() implies (
                    #[trigger] self.items@[j]).0@ != key@ by {
                        lemma_item_is_mapped(self.items@, j);
                    }
                    lemma_none_without(self.items@, key@);
                }
                assert(self@.remove(key@) =~= self@);
                None
            },
        }
    }

    /// Adds a record at the end; the one under the same key goes, and is returned.
    pub fn insert(&mut self, key: String, value: T) -> (displaced: Option<T>)
        ensures
            final(self)@ == old(self)@.insert(key@, value),
            final(self).items() == items_without(old(self).items(), key@).push((key, value)),
            match displaced {
                Some(before) => old(self)@.contains_key(key@) && old(self)@[key@] == before,
                None => !old(self)@.contains_key(key@),
            },
    {
        let displaced = self.remove(key.as_str());
        proof {
            use_type_invariant(&*self);
        }
        let ghost before = self.items@;
        let mut items: Vec<(String, T)> = Vec::new();
        std::mem::swap(&mut self.items, &mut items);
        items.push((key, value));
        proof {
            let after = items@;
            assert(after.drop_last() =~= before);
            assert forall|a: int, b: int| 0 <= a < b < after.len() implies (#[trigger] after[a]).0@
                != (#[trigger] after[b]).0@ by {
                assert(after[a] == before[a]);
                if b < before.len() {
                    assert(after[b] == before[b]);
                } else {
                    lemma_item_is_mapped(before, a);
                }
            }
        }
        std::mem::swap(&mut self.items, &mut items);
        proof {
            assert(old(self)@.remove(key@).insert(key@, value) =~= old(self)@.insert(key@, value));
        }
        displaced
    }
}

/// Taking a key out leaves every other item, in its order.
pub proof fn law_items_keep_their_order<T>(
    a: Seq<(String, T)>,
    b: Seq<(String, T)>,
    item: (String, T),
    key: Seq<char>,
)
    ensures
        items_without(a + b, key) == items_without(a, key) + items_without(b, key),
        item.0@ != key ==> items_without(seq![item], key) == seq![item],
        item.0@ == key ==> items_without(seq![item], key) == Seq::<(String, T)>::empty(),
    decreases b.len(),
{
    assert(seq![item].drop_last() =~= Seq::<(String, T)>::empty());
    assert(items_without(Seq::<(String, T)>::empty(), key) =~= Seq::<(String, T)>::empty());
    assert(Seq::<(String, T)>::empty().push(item) =~= seq![item]);
    if b.len() == 0 {
        assert(a + b =~= a);
        assert(items_without(a, key) + items_without(b, key) =~= items_without(a, key));
    } else {
        assert((a + b).drop_last() =~= a + b.drop_last());
        assert((a + b).last() == b.last());
        law_items_keep_their_order(a, b.drop_last(), item, key);
        assert(items_without(a + b, key) =~= items_without(a, key) + items_without(b, key));
    }
}

} // verus!
