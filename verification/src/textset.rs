//! Sets of texts, kept in alphabetical order.
use crate::text::{lists, same_text};
use crate::workspace::{
    comes_before, lemma_text_less_total, lemma_text_less_transitive, text_less,
};
use vstd::prelude::*;

verus! {

/// Each text comes before those behind it.
pub open spec fn increasing(list: Seq<String>) -> bool {
    forall|i: int, j: int|
        0 <= i < j < list.len() ==> text_less((#[trigger] list[i])@, (#[trigger] list[j])@)
}

/// A set of texts.
#[derive(Debug)]
pub struct TextSet {
    items: Vec<String>,
}

impl TextSet {
    /// The texts, in alphabetical order.
    pub closed spec fn items(self) -> Seq<String> {
        self.items@
    }

    /// A text is in the set.
    pub open spec fn has(self, s: Seq<char>) -> bool {
        lists(self.items(), s)
    }

    /// The texts are in order, each once.
    #[verifier::type_invariant]
    spec fn ordered(self) -> bool {
        increasing(self.items@)
    }

    /// The empty set.
    pub fn new() -> (set: TextSet)
        ensures
            set.items() == Seq::<String>::empty(),
            forall|s: Seq<char>| !#[trigger] set.has(s),
    {
        TextSet { items: Vec::new() }
    }

    /// The texts of the set.
    pub fn as_vec(&self) -> (list: &Vec<String>)
        ensures
            list@ == self.items(),
            increasing(list@),
    {
        proof {
            use_type_invariant(self);
        }
        &self.items
    }

    /// Whether a text is in the set.
    pub fn contains(&self, s: &str) -> (b: bool)
        ensures
            b == self.has(s@),
    {
        crate::text::listed(&self.items, s)
    }

    /// Adds a text; says whether it is new.
    pub fn insert(&mut self, text: String) -> (inserted: bool)
        ensures
            inserted == !old(self).has(text@),
            forall|s: Seq<char>| #[trigger]
                final(self).has(s) <==> old(self).has(s) || s == text@,
            !inserted ==> final(self).items() == old(self).items(),
    {
        proof {
            use_type_invariant(&*self);
        }
        let ghost before = self.items@;
        let mut items: Vec<String> = Vec::new();
        std::mem::swap(&mut items, &mut self.items);
        let at: usize = place_of(&items, text.as_str());
        if at < items.len() && same_text(items[at].as_str(), text.as_str()) {
            assert(lists(before, text@));
            self.items = items;
            return false;
        }
        let ghost x = text@;
        proof {
            assert forall|i: int| 0 <= i < before.len() implies #[trigger] before[i]@ != x by {
                lemma_text_less_total(before[i]@, x);
                if i > at {
                    lemma_text_less_total(before[at as int]@, x);
                    lemma_text_less_transitive(x, before[at as int]@, before[i]@);
                    lemma_text_less_total(before[i]@, x);
                }
            }
        }
        items.insert(at, text);
        proof {
            lemma_inserted(before, at as int, text);
            assert(items@ == before.insert(at as int, text));
        }
        self.items = items;
        true
    }

    /// Takes a text out; says whether it was in.
    pub fn remove(&mut self, s: &str) -> (removed: bool)
        ensures
            removed == old(self).has(s@),
            forall|t: Seq<char>| #[trigger] final(self).has(t) <==> old(self).has(t) && t != s@,
    {
        proof {
            use_type_invariant(&*self);
        }
        let ghost before = self.items@;
        let mut items: Vec<String> = Vec::new();
        std::mem::swap(&mut items, &mut self.items);
        let at: usize = place_of(&items, s);
        if at < items.len() && same_text(items[at].as_str(), s) {
            let _ = items.remove(at);
            proof {
                lemma_removed(before, at as int);
                assert(items@ == before.remove(at as int));
                assert(lists(before, s@));
            }
            self.items = items;
            return true;
        }
        proof {
            assert forall|i: int| 0 <= i < before.len() implies #[trigger] before[i]@ != s@ by {
                lemma_text_less_total(before[i]@, s@);
                if i > at {
                    lemma_text_less_total(before[at as int]@, s@);
                    lemma_text_less_transitive(s@, before[at as int]@, before[i]@);
                    lemma_text_less_total(before[i]@, s@);
                }
            }
        }
        self.items = items;
        false
    }
}

/// Position of the first text that does not come before `s`.
fn place_of(items: &Vec<String>, s: &str) -> (at: usize)
    ensures
        at <= items@.len(),
        forall|i: int| 0 <= i < at ==> text_less((#[trigger] items@[i])@, s@),
        at < items@.len() ==> !text_less(items@[at as int]@, s@),
{
    let mut i: usize = 0;
    while i < items.len()
        invariant
            i <= items@.len(),
            forall|j: int| 0 <= j < i ==> text_less((#[trigger] items@[j])@, s@),
        decreases items.len() - i,
    {
        if !comes_before(items[i].as_str(), s) {
            return i;
        }
        i += 1;
    }
    i
}

/// What holds of the texts once one was put in at its place.
proof fn lemma_inserted(before: Seq<String>, at: int, text: String)
    requires
        increasing(before),
        0 <= at <= before.len(),
        forall|i: int| 0 <= i < at ==> text_less((#[trigger] before[i])@, text@),
        at < before.len() ==> !text_less(before[at]@, text@) && before[at]@ != text@,
        forall|i: int| 0 <= i < before.len() ==> #[trigger] before[i]@ != text@,
    ensures
        increasing(before.insert(at, text)),
        forall|s: Seq<char>| #[trigger]
            lists(before.insert(at, text), s) <==> lists(before, s) || s == text@,
        !lists(before, text@),
{
    let after = before.insert(at, text);
    assert forall|i: int, j: int| 0 <= i < j < after.len() implies text_less(
        (#[trigger] after[i])@,
        (#[trigger] after[j])@,
    ) by {
        if i == at {
            lemma_text_less_total(before[at]@, text@);
            if j - 1 > at {
                lemma_text_less_transitive(text@, before[at]@, before[j - 1]@);
            }
        }
    }
    assert forall|s: Seq<char>| #[trigger] lists(after, s) <==> lists(before, s) || s == text@ by {
        if lists(after, s) {
            let k = choose|k: int| 0 <= k < after.len() && #[trigger] after[k]@ == s;
            if k < at {
                assert(before[k]@ == s);
            } else if k > at {
                assert(before[k - 1]@ == s);
            }
        }
        if lists(before, s) {
            let k = choose|k: int| 0 <= k < before.len() && #[trigger] before[k]@ == s;
            if k < at {
                assert(after[k]@ == s);
            } else {
                assert(after[k + 1]@ == s);
            }
        }
        if s == text@ {
            assert(after[at]@ == s);
        }
    }
}

/// What holds of the texts once one was taken out.
proof fn lemma_removed(before: Seq<String>, at: int)
    requires
        increasing(before),
        0 <= at < before.len(),
    ensures
        increasing(before.remove(at)),
        forall|s: Seq<char>| #[trigger]
            lists(before.remove(at), s) <==> lists(before, s) && s != before[at]@,
{
    let after = before.remove(at);
    assert forall|s: Seq<char>| #[trigger] lists(after, s) <==> lists(before, s) && s
        != before[at]@ by {
        if lists(after, s) {
            let k = choose|k: int| 0 <= k < after.len() && #[trigger] after[k]@ == s;
            if k < at {
                assert(before[k]@ == s);
                assert(text_less(before[k]@, before[at]@));
                lemma_text_less_total(before[k]@, before[at]@);
            } else {
                assert(before[k + 1]@ == s);
                assert(text_less(before[at]@, before[k + 1]@));
                lemma_text_less_total(before[at]@, before[k + 1]@);
            }
        }
        if lists(before, s) && s != before[at]@ {
            let k = choose|k: int| 0 <= k < before.len() && #[trigger] before[k]@ == s;
            if k < at {
                assert(after[k]@ == s);
            } else {
                assert(after[k - 1]@ == s);
            }
        }
    }
}

} // verus!
