//! The flat attribute map in which a record is stored: attribute name to a
//! string or a set of strings.

use vstd::prelude::*;

verus! {

/// What an attribute holds, as the contracts see it.
pub enum AttrModel {
    Text(Seq<char>),
    TextSet(Seq<Seq<char>>),
    /// Any kind of value that no record of this library writes.
    Other,
}

/// The value stored under one attribute name.
#[derive(Debug, Clone, PartialEq)]
pub enum AttrValue {
    /// A string scalar.
    S(String),
    /// A set of strings, for a multi-valued field.
    Ss(Vec<String>),
    /// Any other kind of value (a number, a binary, a nested document).
    Other,
}

pub open spec fn texts_view(v: Seq<String>) -> Seq<Seq<char>> {
    v.map_values(|s: String| s@)
}

impl View for AttrValue {
    type V = AttrModel;

    open spec fn view(&self) -> AttrModel {
        match self {
            AttrValue::S(s) => AttrModel::Text(s@),
            AttrValue::Ss(v) => AttrModel::TextSet(texts_view(v@)),
            AttrValue::Other => AttrModel::Other,
        }
    }
}

/// The model of an attribute map: attribute name to value.
pub type AttrMapModel = Map<Seq<char>, AttrModel>;

/// An attribute map: each name occurs at most once.
pub struct AttributeMap {
    entries: Vec<(String, AttrValue)>,
    model: Ghost<AttrMapModel>,
}

impl View for AttributeMap {
    type V = AttrMapModel;

    closed spec fn view(&self) -> AttrMapModel {
        self.model@
    }
}

impl AttributeMap {
    /// The entries hold distinct names, and the model maps exactly those names
    /// to their values.
    pub closed spec fn wf(&self) -> bool {
        &&& forall|i: int, j: int|
            0 <= i < j < self.entries@.len() ==> #[trigger] self.entries@[i].0@
                != #[trigger] self.entries@[j].0@
        &&& forall|i: int|
            0 <= i < self.entries@.len() ==> {
                &&& self.model@.contains_key(#[trigger] self.entries@[i].0@)
                &&& self.model@[self.entries@[i].0@] == self.entries@[i].1@
            }
        &&& forall|k: Seq<char>|
            #[trigger] self.model@.contains_key(k) ==> exists|i: int|
                0 <= i < self.entries@.len() && #[trigger] self.entries@[i].0@ == k
    }

    /// An empty map.
    pub fn new() -> (r: AttributeMap)
        ensures
            r.wf(),
            r@ == Map::<Seq<char>, AttrModel>::empty(),
    {
        AttributeMap { entries: Vec::new(), model: Ghost(Map::empty()) }
    }

    /// Sets `name` to `value`, replacing what `name` held before.
    pub fn insert(&mut self, name: String, value: AttrValue)
        requires
            old(self).wf(),
        ensures
            final(self).wf(),
            final(self)@ == old(self)@.insert(name@, value@),
    {
        let ghost old_model = self.model@;
        let ghost old_entries = self.entries@;
        let ghost key = name@;
        let ghost val = value@;
        let mut i: usize = 0;
        while i < self.entries.len()
            invariant
                self.wf(),
                self.model@ == old_model,
                self.entries@ == old_entries,
                old_model == old(self)@,
                name@ == key,
                value@ == val,
                i <= self.entries@.len(),
                forall|j: int| 0 <= j < i ==> #[trigger] self.entries@[j].0@ != key,
            decreases self.entries@.len() - i,
        {
            if self.entries[i].0.eq(&name) {
                self.entries.set(i, (name, value));
                assert(self.entries@[i as int].0@ == key);
                self.model = Ghost(old_model.insert(key, val));
                assert forall|k: Seq<char>| #[trigger] self.model@.contains_key(k) implies exists|j: int|
                    0 <= j < self.entries@.len() && #[trigger] self.entries@[j].0@ == k by {
                    if k != key {
                        let j = choose|j: int| 0 <= j < old_entries.len() && #[trigger] old_entries[j].0@ == k;
                        assert(self.entries@[j].0@ == k);
                    } else {
                        assert(self.entries@[i as int].0@ == k);
                    }
                }
                return;
            }
            i += 1;
        }
        self.entries.push((name, value));
        self.model = Ghost(old_model.insert(key, val));
        assert forall|k: Seq<char>| #[trigger] self.model@.contains_key(k) implies exists|j: int|
            0 <= j < self.entries@.len() && #[trigger] self.entries@[j].0@ == k by {
            if k != key {
                let j = choose|j: int| 0 <= j < old_entries.len() && #[trigger] old_entries[j].0@ == k;
                assert(self.entries@[j].0@ == k);
            } else {
                assert(self.entries@[old_entries.len() as int].0@ == k);
            }
        }
    }

    /// The value stored under `name`, if any.
    pub fn get(&self, name: &str) -> (r: Option<&AttrValue>)
        requires
            self.wf(),
        ensures
            match r {
                Some(v) => self@.contains_key(name@) && self@[name@] == v@,
                None => !self@.contains_key(name@),
            },
    {
        let wanted = name.to_owned();
        let mut i: usize = 0;
        while i < self.entries.len()
            invariant
                self.wf(),
                wanted@ == name@,
                i <= self.entries@.len(),
                forall|j: int| 0 <= j < i ==> #[trigger] self.entries@[j].0@ != name@,
            decreases self.entries@.len() - i,
        {
            if self.entries[i].0.eq(&wanted) {
                return Some(&self.entries[i].1);
            }
            i += 1;
        }
        None
    }

    /// The entries, each name once, in no particular order.
    pub fn into_entries(self) -> (r: Vec<(String, AttrValue)>)
        requires
            self.wf(),
        ensures
            forall|i: int, j: int| 0 <= i < j < r@.len() ==> #[trigger] r@[i].0@ != #[trigger] r@[j].0@,
            forall|i: int|
                0 <= i < r@.len() ==> self@.contains_key(#[trigger] r@[i].0@) && self@[r@[i].0@]
                    == r@[i].1@,
            forall|k: Seq<char>|
                #[trigger] self@.contains_key(k) ==> exists|i: int| 0 <= i < r@.len() && #[trigger] r@[i].0@ == k,
    {
        self.entries
    }
}

} // verus!
