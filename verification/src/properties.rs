//! The property set of an event: a finite map from names to JSON values.

use crate::json::{json_clone, json_of, object_insert, object_members, object_new, Json};
use serde_json::Value;
use vstd::prelude::*;

verus! {

/// A map from property names to JSON values in which no name occurs twice.
///
/// Its view is the map from each name to the document its value stands for.
#[derive(Debug)]
pub struct Properties {
    entries: Vec<(String, Value)>,
}

/// The name of the entry at `index`.
spec fn name_at(entries: Seq<(String, Value)>, index: int) -> Seq<char> {
    entries[index].0@
}

/// No two entries carry the same name.
spec fn distinct_names(entries: Seq<(String, Value)>) -> bool {
    forall|i: int, j: int|
        0 <= i < j < entries.len() ==> #[trigger] name_at(entries, i) != #[trigger] name_at(
            entries,
            j,
        )
}

/// Some entry carries `name`.
spec fn has_name(entries: Seq<(String, Value)>, name: Seq<char>) -> bool {
    exists|i: int| 0 <= i < entries.len() && #[trigger] name_at(entries, i) == name
}

/// The map that a list of entries denotes: each entry in turn is inserted.
spec fn members_of(entries: Seq<(String, Value)>) -> Map<Seq<char>, Json>
    decreases entries.len(),
{
    if entries.len() == 0 {
        Map::empty()
    } else {
        members_of(entries.drop_last()).insert(entries.last().0@, json_of(entries.last().1))
    }
}

/// The names in the denoted map are exactly those of the entries.
proof fn lemma_members_names(entries: Seq<(String, Value)>, name: Seq<char>)
    ensures
        members_of(entries).contains_key(name) <==> has_name(entries, name),
    decreases entries.len(),
{
    if entries.len() > 0 {
        let front = entries.drop_last();
        lemma_members_names(front, name);
        if has_name(front, name) {
            let i = choose|i: int| 0 <= i < front.len() && #[trigger] name_at(front, i) == name;
            assert(name_at(entries, i) == name);
        }
        if has_name(entries, name) {
            let i = choose|i: int| 0 <= i < entries.len() && #[trigger] name_at(entries, i) == name;
            if i < front.len() {
                assert(name_at(front, i) == name);
            }
        }
        assert(name_at(entries, entries.len() - 1) == entries.last().0@);
    }
}

/// With distinct names, every entry's value is the one the denoted map holds.
proof fn lemma_members_value(entries: Seq<(String, Value)>, index: int)
    requires
        distinct_names(entries),
        0 <= index < entries.len(),
    ensures
        members_of(entries).contains_key(name_at(entries, index)),
        members_of(entries)[name_at(entries, index)] == json_of(entries[index].1),
    decreases entries.len(),
{
    let front = entries.drop_last();
    let last = entries.len() - 1;
    if index < last {
        assert forall|i: int, j: int| 0 <= i < j < front.len() implies #[trigger] name_at(front, i)
            != #[trigger] name_at(front, j) by {
            assert(name_at(entries, i) != name_at(entries, j));
        }
        lemma_members_value(front, index);
        assert(name_at(front, index) == name_at(entries, index));
        assert(name_at(entries, index) != name_at(entries, last));
    }
}

/// With distinct names, the denoted map has as many members as there are entries.
proof fn lemma_members_len(entries: Seq<(String, Value)>)
    requires
        distinct_names(entries),
    ensures
        members_of(entries).dom().finite(),
        members_of(entries).len() == entries.len(),
    decreases entries.len(),
{
    if entries.len() > 0 {
        let front = entries.drop_last();
        let last = entries.len() - 1;
        assert forall|i: int, j: int| 0 <= i < j < front.len() implies #[trigger] name_at(front, i)
            != #[trigger] name_at(front, j) by {
            assert(name_at(entries, i) != name_at(entries, j));
        }
        lemma_members_len(front);
        lemma_members_names(front, entries.last().0@);
        if has_name(front, entries.last().0@) {
            let i = choose|i: int|
                0 <= i < front.len() && #[trigger] name_at(front, i) == entries.last().0@;
            assert(name_at(entries, i) != name_at(entries, last));
        }
    }
}

/// Lists that agree entry by entry, on names and on documents, denote the same map.
proof fn lemma_members_agree(left: Seq<(String, Value)>, right: Seq<(String, Value)>)
    requires
        left.len() == right.len(),
        forall|i: int|
            0 <= i < left.len() ==> left[i].0@ == right[i].0@ && json_of(left[i].1) == json_of(
                right[i].1,
            ),
    ensures
        members_of(left) == members_of(right),
    decreases left.len(),
{
    if left.len() > 0 {
        lemma_members_agree(left.drop_last(), right.drop_last());
    }
}

/// Appending an entry under a new or old name inserts it into the denoted map.
proof fn lemma_members_push(entries: Seq<(String, Value)>, entry: (String, Value))
    ensures
        members_of(entries.push(entry)) == members_of(entries).insert(entry.0@, json_of(entry.1)),
{
    assert(entries.push(entry).drop_last() == entries);
}

/// With distinct names, taking an entry out removes its name from the denoted map.
proof fn lemma_members_remove(entries: Seq<(String, Value)>, index: int)
    requires
        distinct_names(entries),
        0 <= index < entries.len(),
    ensures
        distinct_names(entries.remove(index)),
        members_of(entries.remove(index)) == members_of(entries).remove(name_at(entries, index)),
{
    let rest = entries.remove(index);
    let gone = name_at(entries, index);
    assert forall|i: int, j: int| 0 <= i < j < rest.len() implies #[trigger] name_at(rest, i)
        != #[trigger] name_at(rest, j) by {
        let i0 = if i < index { i } else { i + 1 };
        let j0 = if j < index { j } else { j + 1 };
        assert(name_at(rest, i) == name_at(entries, i0));
        assert(name_at(rest, j) == name_at(entries, j0));
    }
    assert forall|name: Seq<char>|
        members_of(rest).contains_key(name) <==> #[trigger] members_of(entries).remove(
            gone,
        ).contains_key(name) by {
        lemma_members_names(rest, name);
        lemma_members_names(entries, name);
        if has_name(rest, name) {
            let i = choose|i: int| 0 <= i < rest.len() && #[trigger] name_at(rest, i) == name;
            let i0 = if i < index { i } else { i + 1 };
            assert(name_at(entries, i0) == name);
            if i0 < index {
                assert(name_at(entries, i0) != name_at(entries, index));
            } else {
                assert(name_at(entries, index) != name_at(entries, i0));
            }
        }
        if has_name(entries, name) && name != gone {
            let i = choose|i: int| 0 <= i < entries.len() && #[trigger] name_at(entries, i) == name;
            let i1 = if i < index { i } else { i - 1 };
            assert(name_at(rest, i1) == name);
        }
    }
    assert forall|name: Seq<char>| members_of(rest).contains_key(name) implies members_of(
        rest,
    )[name] == #[trigger] members_of(entries).remove(gone)[name] by {
        lemma_members_names(rest, name);
        let i = choose|i: int| 0 <= i < rest.len() && #[trigger] name_at(rest, i) == name;
        let i0 = if i < index { i } else { i + 1 };
        lemma_members_value(rest, i);
        lemma_members_value(entries, i0);
        assert(name_at(entries, i0) == name);
    }
    assert(members_of(rest) =~= members_of(entries).remove(gone));
}

impl View for Properties {
    type V = Map<Seq<char>, Json>;

    closed spec fn view(&self) -> Map<Seq<char>, Json> {
        members_of(self.entries@)
    }
}

impl Properties {
    #[verifier::type_invariant]
    spec fn well_formed(self) -> bool {
        distinct_names(self.entries@)
    }

    /// The empty property set.
    pub fn new() -> (properties: Properties)
        ensures
            properties@ == Map::<Seq<char>, Json>::empty(),
    {
        Properties { entries: Vec::new() }
    }

    /// Where the entry named `name` stands, if there is one.
    fn position(&self, name: &str) -> (found: Option<usize>)
        ensures
            match found {
                Some(index) => index < self.entries@.len() && name_at(self.entries@, index as int)
                    == name@,
                None => !has_name(self.entries@, name@),
            },
    {
        let wanted = name.to_owned();
        let mut index: usize = 0;
        while index < self.entries.len()
            invariant
                index <= self.entries@.len(),
                wanted@ == name@,
                forall|i: int| 0 <= i < index ==> #[trigger] name_at(self.entries@, i) != name@,
            decreases self.entries@.len() - index,
        {
            if self.entries[index].0 == wanted {
                return Some(index);
            }
            index += 1;
        }
        None
    }

    /// The number of properties.
    pub fn len(&self) -> (count: usize)
        ensures
            self@.dom().finite(),
            count == self@.len(),
    {
        proof {
            use_type_invariant(self);
            lemma_members_len(self.entries@);
        }
        self.entries.len()
    }

    /// Whether there is no property at all.
    pub fn is_empty(&self) -> (empty: bool)
        ensures
            empty <==> self@ == Map::<Seq<char>, Json>::empty(),
    {
        proof {
            use_type_invariant(self);
            lemma_members_len(self.entries@);
            if self.entries@.len() == 0 {
                assert(self@ =~= Map::<Seq<char>, Json>::empty());
            }
        }
        self.entries.len() == 0
    }

    /// Whether a property is set under `name`.
    pub fn contains_key(&self, name: &str) -> (present: bool)
        ensures
            present == self@.contains_key(name@),
    {
        proof {
            lemma_members_names(self.entries@, name@);
        }
        self.position(name).is_some()
    }

    /// The value set under `name`, if any.
    pub fn get(&self, name: &str) -> (found: Option<&Value>)
        ensures
            match found {
                Some(value) => self@.contains_key(name@) && json_of(*value) == self@[name@],
                None => !self@.contains_key(name@),
            },
    {
        proof {
            use_type_invariant(self);
            lemma_members_names(self.entries@, name@);
        }
        match self.position(name) {
            Some(index) => {
                proof {
                    lemma_members_value(self.entries@, index as int);
                }
                Some(&self.entries[index].1)
            },
            None => None,
        }
    }

    /// Sets `name` to `value` and hands back the value it replaces, if any.
    pub fn insert(&mut self, name: String, value: Value) -> (previous: Option<Value>)
        ensures
            final(self)@ == old(self)@.insert(name@, json_of(value)),
            match previous {
                Some(replaced) => old(self)@.contains_key(name@) && json_of(replaced) == old(
                    self,
                )@[name@],
                None => !old(self)@.contains_key(name@),
            },
    {
        proof {
            use_type_invariant(&*self);
            lemma_members_names(self.entries@, name@);
        }
        let previous = self.remove(name.as_str());
        proof {
            use_type_invariant(&*self);
            lemma_members_names(self.entries@, name@);
            lemma_members_push(self.entries@, (name, value));
            assert(old(self)@.remove(name@).insert(name@, json_of(value)) =~= old(self)@.insert(
                name@,
                json_of(value),
            ));
            assert forall|i: int, j: int|
                0 <= i < j < self.entries@.push((name, value)).len() implies #[trigger] name_at(
                self.entries@.push((name, value)),
                i,
            ) != #[trigger] name_at(self.entries@.push((name, value)), j) by {
                assert(name_at(self.entries@.push((name, value)), i) == name_at(self.entries@, i));
                if j < self.entries@.len() {
                    assert(name_at(self.entries@.push((name, value)), j) == name_at(
                        self.entries@,
                        j,
                    ));
                }
            }
        }
        let mut entries: Vec<(String, Value)> = Vec::new();
        core::mem::swap(&mut self.entries, &mut entries);
        entries.push((name, value));
        self.entries = entries;
        previous
    }

    /// Sets `name` to `value` unless a value is already set under it.
    ///
    /// Returns whether the value was taken.
    pub fn insert_if_absent(&mut self, name: String, value: Value) -> (added: bool)
        ensures
            added == !old(self)@.contains_key(name@),
            final(self)@ == if old(self)@.contains_key(name@) {
                old(self)@
            } else {
                old(self)@.insert(name@, json_of(value))
            },
    {
        if self.contains_key(name.as_str()) {
            false
        } else {
            self.insert(name, value);
            true
        }
    }

    /// Takes out the property named `name` and hands back its value, if it was set.
    pub fn remove(&mut self, name: &str) -> (removed: Option<Value>)
        ensures
            final(self)@ == old(self)@.remove(name@),
            match removed {
                Some(value) => old(self)@.contains_key(name@) && json_of(value) == old(
                    self,
                )@[name@],
                None => !old(self)@.contains_key(name@),
            },
    {
        proof {
            use_type_invariant(&*self);
            lemma_members_names(self.entries@, name@);
        }
        match self.position(name) {
            Some(index) => {
                proof {
                    lemma_members_value(self.entries@, index as int);
                    lemma_members_remove(self.entries@, index as int);
                }
                let mut entries: Vec<(String, Value)> = Vec::new();
                core::mem::swap(&mut self.entries, &mut entries);
                let entry = entries.remove(index);
                self.entries = entries;
                Some(entry.1)
            },
            None => {
                proof {
                    assert(old(self)@.remove(name@) =~= old(self)@);
                }
                None
            },
        }
    }

    /// The names of all properties, each once, in no particular order.
    pub fn keys(&self) -> (names: Vec<String>)
        ensures
            names@.len() == self@.len(),
            forall|i: int| 0 <= i < names@.len() ==> self@.contains_key(#[trigger] names@[i]@),
            forall|name: Seq<char>|
                self@.contains_key(name) ==> exists|i: int|
                    0 <= i < names@.len() && #[trigger] names@[i]@ == name,
            forall|i: int, j: int| 0 <= i < j < names@.len() ==> names@[i]@ != names@[j]@,
    {
        proof {
            use_type_invariant(self);
            lemma_members_len(self.entries@);
        }
        let mut names: Vec<String> = Vec::new();
        let mut index: usize = 0;
        while index < self.entries.len()
            invariant
                index <= self.entries@.len(),
                names@.len() == index,
                forall|i: int| 0 <= i < index ==> #[trigger] names@[i]@ == name_at(self.entries@, i),
            decreases self.entries@.len() - index,
        {
            names.push(self.entries[index].0.clone());
            index += 1;
        }
        proof {
            assert forall|i: int| 0 <= i < names@.len() implies self@.contains_key(
                #[trigger] names@[i]@,
            ) by {
                lemma_members_names(self.entries@, names@[i]@);
                assert(name_at(self.entries@, i) == names@[i]@);
            }
            assert forall|name: Seq<char>| self@.contains_key(name) implies exists|i: int|
                0 <= i < names@.len() && #[trigger] names@[i]@ == name by {
                lemma_members_names(self.entries@, name);
                let i = choose|i: int|
                    0 <= i < self.entries@.len() && #[trigger] name_at(self.entries@, i) == name;
                assert(names@[i]@ == name);
            }
            assert forall|i: int, j: int| 0 <= i < j < names@.len() implies names@[i]@
                != names@[j]@ by {
                assert(name_at(self.entries@, i) != name_at(self.entries@, j));
            }
        }
        names
    }

    /// The same properties as a `serde_json` object.
    pub fn to_object(&self) -> (object: serde_json::Map<String, Value>)
        ensures
            object_members(object) == self@,
    {
        let mut object = object_new();
        let mut index: usize = 0;
        while index < self.entries.len()
            invariant
                index <= self.entries@.len(),
                object_members(object) == members_of(self.entries@.take(index as int)),
            decreases self.entries@.len() - index,
        {
            let name = self.entries[index].0.clone();
            let value = json_clone(&self.entries[index].1);
            proof {
                let upto = self.entries@.take(index as int + 1);
                assert(upto.drop_last() == self.entries@.take(index as int));
                assert(upto.last() == self.entries@[index as int]);
            }
            object_insert(&mut object, name, value);
            index += 1;
        }
        proof {
            assert(self.entries@.take(index as int) == self.entries@);
        }
        object
    }
}

impl Clone for Properties {
    fn clone(&self) -> (copy: Properties)
        ensures
            copy@ == self@,
    {
        let mut entries: Vec<(String, Value)> = Vec::new();
        let mut index: usize = 0;
        while index < self.entries.len()
            invariant
                index <= self.entries@.len(),
                entries@.len() == index,
                forall|i: int|
                    0 <= i < index ==> (#[trigger] entries@[i]).0@ == self.entries@[i].0@
                        && json_of(entries@[i].1) == json_of(self.entries@[i].1),
            decreases self.entries@.len() - index,
        {
            let name = self.entries[index].0.clone();
            let value = json_clone(&self.entries[index].1);
            entries.push((name, value));
            index += 1;
        }
        proof {
            use_type_invariant(self);
            lemma_members_agree(entries@, self.entries@);
            assert forall|i: int, j: int| 0 <= i < j < entries@.len() implies #[trigger] name_at(
                entries@,
                i,
            ) != #[trigger] name_at(entries@, j) by {
                assert(name_at(self.entries@, i) != name_at(self.entries@, j));
            }
        }
        Properties { entries }
    }
}

} // verus!
