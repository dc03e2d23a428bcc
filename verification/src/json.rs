//! JSON values of the daemon: requests, results and journal entries.
use crate::text::same_text;
use vstd::prelude::*;

verus! {

/// A JSON value. Integers are exact; any other number is kept as its text.
#[derive(Debug)]
pub enum Json {
    Null,
    Bool(bool),
    Integer(i128),
    Real(String),
    Str(String),
    Array(Vec<Json>),
    Object(JsonObject),
}

/// The members of a JSON object. No key occurs twice.
#[derive(Debug)]
pub struct JsonObject {
    members: Vec<(String, Json)>,
}

/// Mathematical value of a [`Json`].
#[verifier::ext_equal]
pub enum JsonV {
    Null,
    Bool(bool),
    Integer(int),
    Real(Seq<char>),
    Str(Seq<char>),
    Array(Seq<JsonV>),
    Object(Map<Seq<char>, JsonV>),
}

/// The members in order, a later one replacing an earlier one of the same key.
spec fn members_view(members: Seq<(String, Json)>) -> Map<Seq<char>, JsonV>
    decreases members,
{
    if members.len() == 0 {
        Map::empty()
    } else {
        members_view(members.drop_last()).insert(members.last().0@, members.last().1.view())
    }
}

/// The items in order.
pub open spec fn items_view(items: Seq<Json>) -> Seq<JsonV>
    decreases items,
{
    if items.len() == 0 {
        Seq::empty()
    } else {
        items_view(items.drop_last()).push(items.last().view())
    }
}

/// No two members share a key.
spec fn distinct_keys(members: Seq<(String, Json)>) -> bool {
    forall|i: int, j: int|
        0 <= i < j < members.len() ==> #[trigger] members[i].0@ != #[trigger] members[j].0@
}

impl Json {
    pub open spec fn view(&self) -> JsonV
        decreases self,
    {
        match self {
            Json::Null => JsonV::Null,
            Json::Bool(b) => JsonV::Bool(*b),
            Json::Integer(n) => JsonV::Integer(*n as int),
            Json::Real(s) => JsonV::Real(s@),
            Json::Str(s) => JsonV::Str(s@),
            Json::Array(items) => JsonV::Array(items_view(items@)),
            Json::Object(object) => JsonV::Object(object.view()),
        }
    }
}

impl JsonObject {
    pub closed spec fn view(&self) -> Map<Seq<char>, JsonV>
        decreases self,
    {
        members_view(self.members@)
    }

    #[verifier::type_invariant]
    spec fn keys_are_distinct(&self) -> bool {
        distinct_keys(self.members@)
    }
}

/// Under distinct keys, each member is what the view holds under its key.
proof fn lemma_member_is_viewed(members: Seq<(String, Json)>, i: int)
    requires
        distinct_keys(members),
        0 <= i < members.len(),
    ensures
        members_view(members).contains_key(members[i].0@),
        members_view(members)[members[i].0@] == members[i].1@,
    decreases members.len(),
{
    let init = members.drop_last();
    assert(distinct_keys(init));
    if i < init.len() {
        lemma_member_is_viewed(init, i);
        assert(init[i] == members[i]);
        assert(members[i].0@ != members[members.len() - 1].0@);
    }
}

/// A key that no member has is not in the view.
proof fn lemma_absent_key(members: Seq<(String, Json)>, key: Seq<char>)
    requires
        forall|i: int| 0 <= i < members.len() ==> #[trigger] members[i].0@ != key,
    ensures
        !members_view(members).contains_key(key),
    decreases members.len(),
{
    if members.len() > 0 {
        let init = members.drop_last();
        assert forall|i: int| 0 <= i < init.len() implies #[trigger] init[i].0@ != key by {
            assert(init[i] == members[i]);
        }
        lemma_absent_key(init, key);
        assert(members[members.len() - 1].0@ != key);
    }
}

/// A key of the view is the key of some member.
proof fn lemma_viewed_key_has_member(members: Seq<(String, Json)>, key: Seq<char>) -> (i: int)
    requires
        members_view(members).contains_key(key),
    ensures
        0 <= i < members.len(),
        members[i].0@ == key,
    decreases members.len(),
{
    if members.len() == 0 {
        0
    } else if members.last().0@ == key {
        members.len() - 1
    } else {
        let i = lemma_viewed_key_has_member(members.drop_last(), key);
        assert(members.drop_last()[i] == members[i]);
        i
    }
}

/// Under distinct keys, the view has as many keys as there are members.
proof fn lemma_member_count(members: Seq<(String, Json)>)
    requires
        distinct_keys(members),
    ensures
        members_view(members).dom().finite(),
        members_view(members).dom().len() == members.len(),
    decreases members.len(),
{
    if members.len() > 0 {
        let init = members.drop_last();
        assert(distinct_keys(init));
        lemma_member_count(init);
        assert forall|i: int| 0 <= i < init.len() implies #[trigger] init[i].0@
            != members.last().0@ by {
            assert(init[i] == members[i]);
        }
        lemma_absent_key(init, members.last().0@);
        assert(members_view(members).dom() =~= members_view(init).dom().insert(members.last().0@));
    } else {
        assert(members_view(members).dom() =~= Set::empty());
    }
}

/// Members and entries that agree position by position have the same map.
proof fn lemma_members_as_entries(
    members: Seq<(String, Json)>,
    entries: Seq<(Seq<char>, JsonV)>,
)
    requires
        members.len() == entries.len(),
        forall|i: int|
            0 <= i < members.len() ==> #[trigger] entries[i] == (members[i].0@, members[i].1@),
    ensures
        members_view(members) == entries_map(entries),
    decreases members.len(),
{
    if members.len() > 0 {
        assert forall|i: int| 0 <= i < members.drop_last().len() implies
            #[trigger] entries.drop_last()[i] == (members.drop_last()[i].0@, members.drop_last()[i].1@) by {
            assert(entries[i] == (members[i].0@, members[i].1@));
        }
        lemma_members_as_entries(members.drop_last(), entries.drop_last());
        assert(entries[entries.len() - 1] == (members.last().0@, members.last().1@));
    }
}

/// Two member lists with distinct keys that agree member by member have the
/// same view.
proof fn lemma_same_members(a: Seq<(String, Json)>, b: Seq<(String, Json)>)
    requires
        a.len() == b.len(),
        forall|i: int|
            0 <= i < a.len() ==> (#[trigger] a[i]).0@ == b[i].0@ && a[i].1@ == b[i].1@,
    ensures
        members_view(a) == members_view(b),
    decreases a.len(),
{
    if a.len() > 0 {
        assert forall|i: int| 0 <= i < a.drop_last().len() implies (#[trigger] a.drop_last()[i]).0@
            == b.drop_last()[i].0@ && a.drop_last()[i].1@ == b.drop_last()[i].1@ by {
            assert(a.drop_last()[i] == a[i]);
        }
        lemma_same_members(a.drop_last(), b.drop_last());
        assert(a[a.len() - 1].0@ == b[b.len() - 1].0@);
    }
}

/// The items of the view are the views of the items.
pub proof fn lemma_items_view(items: Seq<Json>)
    ensures
        items_view(items).len() == items.len(),
        forall|i: int| 0 <= i < items.len() ==> #[trigger] items_view(items)[i] == items[i]@,
    decreases items.len(),
{
    if items.len() > 0 {
        let init = items.drop_last();
        lemma_items_view(init);
        assert forall|i: int| 0 <= i < items.len() implies #[trigger] items_view(items)[i]
            == items[i]@ by {
            if i < init.len() {
                assert(items_view(items)[i] == items_view(init)[i]);
                assert(init[i] == items[i]);
            }
        }
    }
}

impl JsonV {
    /// Member of an object; absent for any other value.
    pub open spec fn get(self, key: Seq<char>) -> Option<JsonV> {
        match self {
            JsonV::Object(members) => if members.contains_key(key) {
                Some(members[key])
            } else {
                None
            },
            _ => None,
        }
    }

    /// Text member of an object.
    pub open spec fn get_str(self, key: Seq<char>) -> Option<Seq<char>> {
        match self.get(key) {
            Some(JsonV::Str(s)) => Some(s),
            _ => None,
        }
    }

    /// Member of an object that fits a signed 64-bit integer.
    pub open spec fn get_i64(self, key: Seq<char>) -> Option<int> {
        match self.get(key) {
            Some(JsonV::Integer(n)) => if i64::MIN <= n <= i64::MAX {
                Some(n)
            } else {
                None
            },
            _ => None,
        }
    }

    /// Truth value under a key of an object.
    pub open spec fn get_bool(self, key: Seq<char>) -> Option<bool> {
        match self.get(key) {
            Some(JsonV::Bool(b)) => Some(b),
            _ => None,
        }
    }

    /// The value with a member added or replaced; not an object: unchanged.
    pub open spec fn with(self, key: Seq<char>, value: JsonV) -> JsonV {
        match self {
            JsonV::Object(members) => JsonV::Object(members.insert(key, value)),
            _ => self,
        }
    }
}

/// The entries as a map, a later one replacing an earlier one of the same key.
pub open spec fn entries_map(entries: Seq<(Seq<char>, JsonV)>) -> Map<Seq<char>, JsonV>
    decreases entries.len(),
{
    if entries.len() == 0 {
        Map::empty()
    } else {
        entries_map(entries.drop_last()).insert(entries.last().0, entries.last().1)
    }
}

/// No key occurs twice.
pub open spec fn distinct_entries(entries: Seq<(Seq<char>, JsonV)>) -> bool {
    forall|i: int, j: int|
        0 <= i < j < entries.len() ==> (#[trigger] entries[i]).0 != (#[trigger] entries[j]).0
}

/// Under distinct keys, an entry is found under its key.
pub proof fn lemma_entry_is_mapped(entries: Seq<(Seq<char>, JsonV)>, i: int)
    requires
        distinct_entries(entries),
        0 <= i < entries.len(),
    ensures
        entries_map(entries).contains_key(entries[i].0),
        entries_map(entries)[entries[i].0] == entries[i].1,
    decreases entries.len(),
{
    let init = entries.drop_last();
    if i < init.len() {
        lemma_entry_is_mapped(init, i);
        assert(init[i] == entries[i]);
        assert(entries[i].0 != entries[entries.len() - 1].0);
    }
}

/// A mapped key is the key of some entry.
pub proof fn lemma_mapped_key_has_entry(entries: Seq<(Seq<char>, JsonV)>, key: Seq<char>) -> (i:
    int)
    requires
        entries_map(entries).contains_key(key),
    ensures
        0 <= i < entries.len(),
        entries[i].0 == key,
    decreases entries.len(),
{
    if entries.len() == 0 {
        0
    } else if entries.last().0 == key {
        entries.len() - 1
    } else {
        let i = lemma_mapped_key_has_entry(entries.drop_last(), key);
        assert(entries.drop_last()[i] == entries[i]);
        i
    }
}

/// Rewriting every value by `f` rewrites the map by `f`.
pub proof fn lemma_rewritten_entries(
    source: Seq<(Seq<char>, JsonV)>,
    done: Seq<(Seq<char>, JsonV)>,
    f: spec_fn(JsonV) -> JsonV,
)
    requires
        distinct_entries(source),
        done.len() == source.len(),
        forall|j: int| 0 <= j < done.len() ==> #[trigger] done[j] == (source[j].0, f(source[j].1)),
    ensures
        distinct_entries(done),
        entries_map(done) == entries_map(source).map_values(f),
{
    assert forall|a: int, b: int| 0 <= a < b < done.len() implies (#[trigger] done[a]).0 != (
    #[trigger] done[b]).0 by {
        assert(source[a].0 != source[b].0);
    }
    let got = entries_map(done);
    let expected = entries_map(source).map_values(f);
    assert forall|k: Seq<char>| #[trigger] got.dom().contains(k) <==> expected.dom().contains(k) by {
        if got.contains_key(k) {
            let j = lemma_mapped_key_has_entry(done, k);
            assert(done[j].0 == source[j].0);
            lemma_entry_is_mapped(source, j);
        }
        if entries_map(source).contains_key(k) {
            let j = lemma_mapped_key_has_entry(source, k);
            assert(done[j].0 == source[j].0);
            lemma_entry_is_mapped(done, j);
        }
    }
    assert forall|k: Seq<char>| got.dom().contains(k) implies #[trigger] got[k] == expected[k] by {
        let j = lemma_mapped_key_has_entry(done, k);
        assert(done[j].0 == source[j].0);
        lemma_entry_is_mapped(source, j);
        lemma_entry_is_mapped(done, j);
    }
    assert(got =~= expected);
}

impl JsonObject {
    /// The members in the order in which they were added.
    pub closed spec fn entries(&self) -> Seq<(Seq<char>, JsonV)> {
        Seq::new(self.members@.len(), |i: int| (self.members@[i].0@, self.members@[i].1@))
    }

    /// The view is the map of the entries.
    pub proof fn lemma_view_of_entries(&self)
        ensures
            self@ == entries_map(self.entries()),
    {
        lemma_members_as_entries(self.members@, self.entries());
    }

    /// Number of members, the keys of which are distinct.
    pub fn count(&self) -> (n: usize)
        ensures
            n == self.entries().len(),
            n == self@.dom().len(),
            self@.dom().finite(),
            distinct_entries(self.entries()),
            self@ == entries_map(self.entries()),
    {
        proof {
            use_type_invariant(self);
            lemma_member_count(self.members@);
            self.lemma_view_of_entries();
            assert forall|i: int, j: int| 0 <= i < j < self.entries().len() implies
                (#[trigger] self.entries()[i]).0 != (#[trigger] self.entries()[j]).0 by {
                assert(self.members@[i].0@ != self.members@[j].0@);
            }
        }
        self.members.len()
    }

    /// The key at a position.
    pub fn key_at(&self, i: usize) -> (key: &String)
        requires
            i < self.entries().len(),
        ensures
            key@ == self.entries()[i as int].0,
    {
        &self.members[i].0
    }

    /// The value at a position.
    pub fn value_at(&self, i: usize) -> (value: &Json)
        requires
            i < self.entries().len(),
        ensures
            value@ == self.entries()[i as int].1,
    {
        &self.members[i].1
    }

    /// Adds a member under a key that the object does not have.
    pub fn push_new(&mut self, key: String, value: Json)
        requires
            forall|i: int| 0 <= i < old(self).entries().len() ==> (#[trigger] old(self).entries()[i]).0
                != key@,
        ensures
            final(self).entries() == old(self).entries().push((key@, value@)),
            final(self)@ == old(self)@.insert(key@, value@),
    {
        proof {
            use_type_invariant(&*self);
        }
        let ghost before = self.members@;
        let mut members: Vec<(String, Json)> = Vec::new();
        std::mem::swap(&mut self.members, &mut members);
        members.push((key, value));
        proof {
            let after = members@;
            assert forall|a: int, b: int| 0 <= a < b < after.len() implies #[trigger] after[a].0@
                != #[trigger] after[b].0@ by {
                assert(after[a] == before[a]);
                if b < before.len() {
                    assert(after[b] == before[b]);
                } else {
                    assert(old(self).entries()[a].0 != key@);
                }
            }
            assert(after.drop_last() =~= before);
        }
        std::mem::swap(&mut self.members, &mut members);
        assert(self.entries() =~= old(self).entries().push((key@, value@)));
    }

    /// An object without members.
    pub fn new() -> (object: JsonObject)
        ensures
            object@ == Map::<Seq<char>, JsonV>::empty(),
            object.entries() == Seq::<(Seq<char>, JsonV)>::empty(),
    {
        let object = JsonObject { members: Vec::new() };
        assert(object.entries() =~= Seq::empty());
        object
    }

    /// Position of a key.
    fn position(&self, key: &str) -> (found: Option<usize>)
        ensures
            match found {
                Some(i) => i < self.members@.len() && self.members@[i as int].0@ == key@,
                None => forall|i: int|
                    0 <= i < self.members@.len() ==> #[trigger] self.members@[i].0@ != key@,
            },
    {
        let mut i: usize = 0;
        while i < self.members.len()
            invariant
                i <= self.members@.len(),
                forall|j: int| 0 <= j < i ==> #[trigger] self.members@[j].0@ != key@,
            decreases self.members.len() - i,
        {
            if same_text(self.members[i].0.as_str(), key) {
                return Some(i);
            }
            i += 1;
        }
        None
    }

    /// The member under a key.
    pub fn get(&self, key: &str) -> (member: Option<&Json>)
        ensures
            match member {
                Some(value) => self@.contains_key(key@) && self@[key@] == value@,
                None => !self@.contains_key(key@),
            },
    {
        proof {
            use_type_invariant(self);
        }
        match self.position(key) {
            Some(i) => {
                proof {
                    lemma_member_is_viewed(self.members@, i as int);
                }
                Some(&self.members[i].1)
            },
            None => {
                proof {
                    lemma_absent_key(self.members@, key@);
                }
                None
            },
        }
    }

    /// Adds a member, or replaces the one of the same key.
    pub fn put(&mut self, key: &str, value: Json)
        ensures
            final(self)@ == old(self)@.insert(key@, value@),
    {
        proof {
            use_type_invariant(&*self);
        }
        let ghost before = self.members@;
        let ghost after;
        match self.position(key) {
            Some(i) => {
                let name = self.members[i].0.clone();
                let mut members: Vec<(String, Json)> = Vec::new();
                std::mem::swap(&mut self.members, &mut members);
                members.set(i, (name, value));
                proof {
                    after = members@;
                    assert forall|a: int, b: int| 0 <= a < b < after.len() implies
                        #[trigger] after[a].0@ != #[trigger] after[b].0@ by {
                        assert(before[a].0@ != before[b].0@);
                    }
                    assert(distinct_keys(after));
                    assert(after[i as int].0@ == key@);
                    lemma_replaced_member(before, after, i as int);
                }
                std::mem::swap(&mut self.members, &mut members);
            },
            None => {
                let mut members: Vec<(String, Json)> = Vec::new();
                std::mem::swap(&mut self.members, &mut members);
                members.push((key.to_owned(), value));
                proof {
                    after = members@;
                    assert forall|a: int, b: int| 0 <= a < b < after.len() implies
                        #[trigger] after[a].0@ != #[trigger] after[b].0@ by {
                        assert(after[a] == before[a]);
                        if b < before.len() {
                            assert(after[b] == before[b]);
                        }
                    }
                    assert(after.drop_last() =~= before);
                }
                std::mem::swap(&mut self.members, &mut members);
            },
        }
    }
}

/// Replacing the value of one member changes the view at its key only.
proof fn lemma_replaced_member(
    before: Seq<(String, Json)>,
    after: Seq<(String, Json)>,
    at: int,
)
    requires
        distinct_keys(before),
        distinct_keys(after),
        0 <= at < before.len(),
        after == before.update(at, after[at]),
        after[at].0@ == before[at].0@,
    ensures
        members_view(after) == members_view(before).insert(after[at].0@, after[at].1@),
{
    let expected = members_view(before).insert(after[at].0@, after[at].1@);
    let got = members_view(after);
    lemma_member_is_viewed(after, at);
    assert forall|k: Seq<char>| #[trigger] got.dom().contains(k) <==> expected.dom().contains(k) by {
        if members_view(before).contains_key(k) {
            let i = lemma_viewed_key_has_member(before, k);
            lemma_member_is_viewed(before, i);
            lemma_member_is_viewed(after, i);
        }
        if got.contains_key(k) {
            let i = lemma_viewed_key_has_member(after, k);
            lemma_member_is_viewed(before, i);
            lemma_member_is_viewed(after, i);
        }
    }
    assert forall|k: Seq<char>| got.dom().contains(k) implies #[trigger] got[k] == expected[k] by {
        if members_view(before).contains_key(k) {
            let i = lemma_viewed_key_has_member(before, k);
            lemma_member_is_viewed(before, i);
            lemma_member_is_viewed(after, i);
        }
        if got.contains_key(k) {
            let i = lemma_viewed_key_has_member(after, k);
            lemma_member_is_viewed(before, i);
            lemma_member_is_viewed(after, i);
        }
    }
    assert(got =~= expected);
}

/// Dropping one member removes its key from the view and nothing else.
proof fn lemma_removed_member(before: Seq<(String, Json)>, at: int)
    requires
        distinct_keys(before),
        0 <= at < before.len(),
    ensures
        distinct_keys(before.remove(at)),
        members_view(before.remove(at)) == members_view(before).remove(before[at].0@),
{
    let after = before.remove(at);
    let expected = members_view(before).remove(before[at].0@);
    let got = members_view(after);
    assert forall|a: int, b: int| 0 <= a < b < after.len() implies #[trigger] after[a].0@
        != #[trigger] after[b].0@ by {
        let i = if a < at { a } else { a + 1 };
        let j = if b < at { b } else { b + 1 };
        assert(before[i].0@ != before[j].0@);
    }
    assert forall|k: Seq<char>| #[trigger] got.dom().contains(k) <==> expected.dom().contains(k) by {
        if members_view(before).contains_key(k) && k != before[at].0@ {
            let i = lemma_viewed_key_has_member(before, k);
            lemma_member_is_viewed(before, i);
            let j = if i < at { i } else { i - 1 };
            assert(after[j] == before[i]);
            lemma_member_is_viewed(after, j);
        }
        if got.contains_key(k) {
            let j = lemma_viewed_key_has_member(after, k);
            let i = if j < at { j } else { j + 1 };
            assert(after[j] == before[i]);
            lemma_member_is_viewed(before, i);
            lemma_member_is_viewed(after, j);
            if i < at {
                assert(before[i].0@ != before[at].0@);
            } else {
                assert(before[at].0@ != before[i].0@);
            }
        }
    }
    assert forall|k: Seq<char>| got.dom().contains(k) implies #[trigger] got[k] == expected[k] by {
        if members_view(before).contains_key(k) && k != before[at].0@ {
            let i = lemma_viewed_key_has_member(before, k);
            lemma_member_is_viewed(before, i);
            let j = if i < at { i } else { i - 1 };
            assert(after[j] == before[i]);
            lemma_member_is_viewed(after, j);
        }
        if got.contains_key(k) {
            let j = lemma_viewed_key_has_member(after, k);
            let i = if j < at { j } else { j + 1 };
            assert(after[j] == before[i]);
            lemma_member_is_viewed(before, i);
            lemma_member_is_viewed(after, j);
            if i < at {
                assert(before[i].0@ != before[at].0@);
            } else {
                assert(before[at].0@ != before[i].0@);
            }
        }
    }
    assert(got =~= expected);
}

impl JsonObject {
    /// Number of members.
    pub fn len(&self) -> (n: usize)
        ensures
            n == self@.dom().len(),
            self@.dom().finite(),
    {
        proof {
            use_type_invariant(self);
            lemma_member_count(self.members@);
        }
        self.members.len()
    }

    /// Removes the member under a key, if there is one.
    pub fn remove(&mut self, key: &str)
        ensures
            final(self)@ == old(self)@.remove(key@),
    {
        proof {
            use_type_invariant(&*self);
        }
        match self.position(key) {
            Some(i) => {
                let mut members: Vec<(String, Json)> = Vec::new();
                std::mem::swap(&mut self.members, &mut members);
                proof {
                    lemma_removed_member(members@, i as int);
                }
                let _ = members.remove(i);
                std::mem::swap(&mut self.members, &mut members);
            },
            None => {
                proof {
                    lemma_absent_key(self.members@, key@);
                    assert(self@.remove(key@) =~= self@);
                }
            },
        }
    }

    /// The keys, each once.
    pub fn keys(&self) -> (keys: Vec<String>)
        ensures
            keys@.len() == self@.dom().len(),
            forall|i: int| 0 <= i < keys@.len() ==> self@.contains_key(#[trigger] keys@[i]@),
            forall|i: int, j: int|
                0 <= i < j < keys@.len() ==> #[trigger] keys@[i]@ != #[trigger] keys@[j]@,
            forall|k: Seq<char>| #[trigger]
                self@.contains_key(k) ==> exists|i: int|
                    0 <= i < keys@.len() && #[trigger] keys@[i]@ == k,
    {
        proof {
            use_type_invariant(self);
            lemma_member_count(self.members@);
        }
        let mut keys: Vec<String> = Vec::new();
        let mut i: usize = 0;
        while i < self.members.len()
            invariant
                i <= self.members@.len(),
                keys@.len() == i,
                forall|j: int| 0 <= j < i ==> #[trigger] keys@[j]@ == self.members@[j].0@,
            decreases self.members.len() - i,
        {
            keys.push(self.members[i].0.clone());
            i += 1;
        }
        proof {
            assert forall|j: int| 0 <= j < keys@.len() implies self@.contains_key(
                #[trigger] keys@[j]@,
            ) by {
                lemma_member_is_viewed(self.members@, j);
            }
            assert forall|a: int, b: int| 0 <= a < b < keys@.len() implies #[trigger] keys@[a]@
                != #[trigger] keys@[b]@ by {
                assert(self.members@[a].0@ != self.members@[b].0@);
            }
            assert forall|k: Seq<char>| #[trigger] self@.contains_key(k) implies exists|j: int|
                0 <= j < keys@.len() && #[trigger] keys@[j]@ == k by {
                let j = lemma_viewed_key_has_member(self.members@, k);
                assert(keys@[j]@ == k);
            }
        }
        keys
    }

    /// A copy of the object.
    pub fn copy(&self) -> (object: JsonObject)
        ensures
            object@ == self@,
        decreases self,
    {
        proof {
            use_type_invariant(self);
        }
        let mut members: Vec<(String, Json)> = Vec::new();
        let mut i: usize = 0;
        while i < self.members.len()
            invariant
                i <= self.members@.len(),
                members@.len() == i,
                forall|j: int|
                    0 <= j < i ==> (#[trigger] members@[j]).0@ == self.members@[j].0@
                        && members@[j].1@ == self.members@[j].1@,
            decreases self.members.len() - i,
        {
            let name = self.members[i].0.clone();
            let value = self.members[i].1.copy();
            members.push((name, value));
            i += 1;
        }
        proof {
            lemma_same_members(members@, self.members@);
            assert forall|a: int, b: int| 0 <= a < b < members@.len() implies
                #[trigger] members@[a].0@ != #[trigger] members@[b].0@ by {
                assert(self.members@[a].0@ != self.members@[b].0@);
            }
        }
        JsonObject { members }
    }
}

impl Json {
    /// A copy of the value.
    pub fn copy(&self) -> (value: Json)
        ensures
            value@ == self@,
        decreases self,
    {
        match self {
            Json::Null => Json::Null,
            Json::Bool(b) => Json::Bool(*b),
            Json::Integer(n) => Json::Integer(*n),
            Json::Real(s) => Json::Real(s.clone()),
            Json::Str(s) => Json::Str(s.clone()),
            Json::Array(items) => {
                let mut copies: Vec<Json> = Vec::new();
                let mut i: usize = 0;
                while i < items.len()
                    invariant
                        i <= items@.len(),
                        copies@.len() == i,
                        *self == Json::Array(*items),
                        forall|j: int| 0 <= j < i ==> #[trigger] copies@[j]@ == items@[j]@,
                    decreases items.len() - i,
                {
                    assert(decreases_to!(*self => self->Array_0));
                    assert(decreases_to!(self->Array_0 => items@));
                    assert(decreases_to!(items@ => items@[i as int]));
                    copies.push(items[i].copy());
                    i += 1;
                }
                proof {
                    lemma_items_view(copies@);
                    lemma_items_view(items@);
                    assert(items_view(copies@) =~= items_view(items@));
                }
                Json::Array(copies)
            },
            Json::Object(object) => Json::Object(object.copy()),
        }
    }

    /// A text value.
    pub fn text(s: &str) -> (value: Json)
        ensures
            value@ == JsonV::Str(s@),
    {
        Json::Str(s.to_owned())
    }

    /// The member under a key; absent for anything but an object.
    pub fn get(&self, key: &str) -> (member: Option<&Json>)
        ensures
            match member {
                Some(value) => self@.get(key@) == Some(value@),
                None => self@.get(key@) is None,
            },
    {
        match self {
            Json::Object(object) => object.get(key),
            _ => None,
        }
    }

    /// The text of a text value.
    pub fn as_str(&self) -> (text: Option<&str>)
        ensures
            match text {
                Some(s) => self@ == JsonV::Str(s@),
                None => !(self@ is Str),
            },
    {
        match self {
            Json::Str(s) => Some(s.as_str()),
            _ => None,
        }
    }

    /// The text under a key.
    pub fn get_str(&self, key: &str) -> (text: Option<&str>)
        ensures
            match text {
                Some(s) => self@.get_str(key@) == Some(s@),
                None => self@.get_str(key@) is None,
            },
    {
        match self.get(key) {
            Some(value) => value.as_str(),
            None => None,
        }
    }

    /// The truth value under a key.
    pub fn get_bool(&self, key: &str) -> (b: Option<bool>)
        ensures
            b == self@.get_bool(key@),
    {
        match self.get(key) {
            Some(Json::Bool(b)) => Some(*b),
            _ => None,
        }
    }

    /// The signed 64-bit integer under a key.
    pub fn get_i64(&self, key: &str) -> (n: Option<i64>)
        ensures
            match n {
                Some(v) => self@.get_i64(key@) == Some(v as int),
                None => self@.get_i64(key@) is None,
            },
    {
        match self.get(key) {
            Some(Json::Integer(n)) => {
                if i64::MIN as i128 <= *n && *n <= i64::MAX as i128 {
                    Some(*n as i64)
                } else {
                    None
                }
            },
            _ => None,
        }
    }

    /// A copy with a member added or replaced; not an object: a plain copy.
    pub fn with(&self, key: &str, value: Json) -> (r: Json)
        ensures
            r@ == self@.with(key@, value@),
    {
        match self {
            Json::Object(object) => {
                let mut members = object.copy();
                members.put(key, value);
                Json::Object(members)
            },
            _ => self.copy(),
        }
    }
}

/// `serde_json::Value`, carried opaquely between the functions below.
#[verifier::external_type_specification]
#[verifier::external_body]
pub struct ExValue(serde_json::Value);

/// No deeper than `levels`, and every number an integer of 64 bits.
pub open spec fn is_plain(json: JsonV, levels: nat) -> bool
    decreases levels,
{
    match json {
        JsonV::Array(items) => levels > 0 && forall|i: int|
            0 <= i < items.len() ==> is_plain(#[trigger] items[i], (levels - 1) as nat),
        JsonV::Object(members) => levels > 0 && forall|k: Seq<char>|
            members.contains_key(k) ==> is_plain(#[trigger] members[k], (levels - 1) as nat),
        JsonV::Integer(n) => i64::MIN <= n <= u64::MAX,
        JsonV::Real(_) => false,
        _ => true,
    }
}

/// Nesting that the parser accepts.
pub const MAX_NESTING: u8 = 127;

/// The `serde_json::Value` that [`to_value`] builds from a value.
pub uninterp spec fn value_of(json: JsonV) -> serde_json::Value;

/// The value that [`from_value`] reads out of a `serde_json::Value`.
pub uninterp spec fn json_of(value: serde_json::Value) -> JsonV;

/// Builds the `serde_json::Value` variant by variant (`Number::from_i128`,
/// `serde_json::Map::from_iter`). What is built depends on the value alone; a
/// plain value is read back from it unchanged. An integer beyond 64 bits becomes
/// null; the text of any other number goes through `serde_json::from_str`, and one
/// that this refuses becomes null.
#[verifier::external_body]
pub(crate) fn to_value(json: &Json) -> (value: serde_json::Value)
    ensures
        value == value_of(json@),
        is_plain(json@, MAX_NESTING as nat) ==> json_of(value) == json@,
{
    match json {
        Json::Null => serde_json::Value::Null,
        Json::Bool(b) => serde_json::Value::Bool(*b),
        Json::Integer(n) => serde_json::Number::from_i128(*n).into(),
        Json::Real(s) => serde_json::from_str(s).unwrap_or_default(),
        Json::Str(s) => serde_json::Value::String(s.clone()),
        Json::Array(items) => serde_json::Value::Array(items.iter().map(to_value).collect()),
        Json::Object(object) => serde_json::Value::Object(
            object.members.iter().map(|(k, v)| (k.clone(), to_value(v))).collect(),
        ),
    }
}

/// Reads a `serde_json::Value` variant by variant (`Number::as_i128`,
/// `Number::to_string`): the result depends on it alone.
#[verifier::external_body]
pub(crate) fn from_value(value: &serde_json::Value) -> (json: Json)
    ensures
        json@ == json_of(*value),
{
    match value {
        serde_json::Value::Null => Json::Null,
        serde_json::Value::Bool(b) => Json::Bool(*b),
        serde_json::Value::Number(n) => n.as_i128().map_or(Json::Real(n.to_string()), Json::Integer),
        serde_json::Value::String(s) => Json::Str(s.clone()),
        serde_json::Value::Array(items) => Json::Array(items.iter().map(from_value).collect()),
        serde_json::Value::Object(map) => Json::Object(
            JsonObject { members: map.iter().map(|(k, v)| (k.clone(), from_value(v))).collect() },
        ),
    }
}

} // verus!
