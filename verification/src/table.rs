//! The symbol tables: constants and state variables, each found by name.
use crate::literal::{Literal, SpecLiteral};
use crate::text::str_equal;
use vstd::prelude::*;
use vstd::string::*;

verus! {

/// The map that the bindings `entries` make: a later binding of a name
/// replaces an earlier one.
pub open spec fn bindings<K, V>(entries: Seq<(K, V)>) -> Map<K, V>
    decreases entries.len(),
{
    if entries.len() == 0 {
        Map::empty()
    } else {
        bindings(entries.drop_last()).insert(entries.last().0, entries.last().1)
    }
}

/// A name that no binding from `from` on has is bound as it is in the
/// bindings before `from`.
pub proof fn lemma_bindings_before<K, V>(entries: Seq<(K, V)>, from: int, name: K)
    requires
        0 <= from <= entries.len(),
        forall|j: int| from <= j < entries.len() ==> (#[trigger] entries[j]).0 != name,
    ensures
        bindings(entries).contains_key(name) == bindings(entries.take(from)).contains_key(name),
        bindings(entries).contains_key(name) ==> bindings(entries)[name] == bindings(
            entries.take(from),
        )[name],
    decreases entries.len(),
{
    if from == entries.len() {
        assert(entries.take(from) =~= entries);
    } else {
        let shorter = entries.drop_last();
        assert(shorter.take(from) =~= entries.take(from));
        lemma_bindings_before(shorter, from, name);
    }
}

/// The model of the constants that are in scope: each name with its value.
pub type SpecConstants = Map<Seq<char>, SpecLiteral>;

/// The model of the state slots that are declared: each name with the index
/// of its slot.
pub type SpecVariables = Map<Seq<char>, u32>;

/// The constants that are in scope, by name.
#[derive(Debug)]
pub struct Constants {
    pub entries: Vec<(String, Literal)>,
}

impl View for Constants {
    type V = SpecConstants;

    open spec fn view(&self) -> SpecConstants {
        bindings(self.entries.deep_view())
    }
}

impl Constants {
    /// A table without constants.
    pub fn new() -> (table: Constants)
        ensures
            table@ == Map::<Seq<char>, SpecLiteral>::empty(),
    {
        let table = Constants { entries: Vec::new() };
        proof {
            assert(table.entries.deep_view() =~= Seq::empty());
        }
        table
    }

    /// Binds `name` to `value`. An earlier binding of `name` is replaced.
    pub fn insert(&mut self, name: &str, value: Literal)
        ensures
            final(self)@ == old(self)@.insert(name@, value.deep_view()),
    {
        let ghost before = self.entries.deep_view();
        self.entries.push((name.to_owned(), value));
        proof {
            let after = self.entries.deep_view();
            assert(after.drop_last() =~= before);
            assert(after.last() == (name@, value.deep_view()));
        }
    }

    /// The constant that `name` is bound to, if any.
    pub fn get(&self, name: &str) -> (found: Option<Literal>)
        ensures
            match found {
                Some(value) => self@.contains_key(name@) && self@[name@] == value.deep_view(),
                None => !self@.contains_key(name@),
            },
    {
        let ghost all = self.entries.deep_view();
        let mut i: usize = self.entries.len();
        while i > 0
            invariant
                i <= self.entries.len(),
                all == self.entries.deep_view(),
                all.len() == self.entries.len(),
                forall|j: int| i <= j < all.len() ==> (#[trigger] all[j]).0 != name@,
            decreases i,
        {
            i = i - 1;
            if str_equal(self.entries[i].0.as_str(), name) {
                let value = self.entries[i].1.clone();
                proof {
                    lemma_bindings_before(all, i + 1, name@);
                    assert(all.take(i + 1).drop_last() =~= all.take(i as int));
                    assert(all.take(i + 1).last() == all[i as int]);
                    assert(all[i as int] == self.entries[i as int].deep_view());
                }
                return Some(value);
            }
        }
        proof {
            lemma_bindings_before(all, 0, name@);
            assert(all.take(0) =~= Seq::empty());
        }
        None
    }
}

/// The state slots that are declared, by name.
#[derive(Debug)]
pub struct StateVariables {
    pub entries: Vec<(String, u32)>,
}

impl View for StateVariables {
    type V = SpecVariables;

    open spec fn view(&self) -> SpecVariables {
        bindings(self.entries.deep_view())
    }
}

impl StateVariables {
    /// A table without state slots.
    pub fn new() -> (table: StateVariables)
        ensures
            table@ == Map::<Seq<char>, u32>::empty(),
    {
        let table = StateVariables { entries: Vec::new() };
        proof {
            assert(table.entries.deep_view() =~= Seq::empty());
        }
        table
    }

    /// Binds `name` to the slot `index`. An earlier binding of `name` is
    /// replaced.
    pub fn insert(&mut self, name: &str, index: u32)
        ensures
            final(self)@ == old(self)@.insert(name@, index),
    {
        let ghost before = self.entries.deep_view();
        self.entries.push((name.to_owned(), index));
        proof {
            let after = self.entries.deep_view();
            assert(after.drop_last() =~= before);
            assert(after.last() == (name@, index));
        }
    }

    /// The slot that `name` is bound to, if any.
    pub fn get(&self, name: &str) -> (found: Option<u32>)
        ensures
            match found {
                Some(index) => self@.contains_key(name@) && self@[name@] == index,
                None => !self@.contains_key(name@),
            },
    {
        let ghost all = self.entries.deep_view();
        let mut i: usize = self.entries.len();
        while i > 0
            invariant
                i <= self.entries.len(),
                all == self.entries.deep_view(),
                all.len() == self.entries.len(),
                forall|j: int| i <= j < all.len() ==> (#[trigger] all[j]).0 != name@,
            decreases i,
        {
            i = i - 1;
            if str_equal(self.entries[i].0.as_str(), name) {
                let index = self.entries[i].1;
                proof {
                    lemma_bindings_before(all, i + 1, name@);
                    assert(all.take(i + 1).drop_last() =~= all.take(i as int));
                    assert(all.take(i + 1).last() == all[i as int]);
                    assert(all[i as int] == self.entries[i as int].deep_view());
                }
                return Some(index);
            }
        }
        proof {
            lemma_bindings_before(all, 0, name@);
            assert(all.take(0) =~= Seq::empty());
        }
        None
    }
}

} // verus!
