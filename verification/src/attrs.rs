//! Custom attributes of a graph, a node or an edge: a map from attribute
//! names to values that keeps the order in which the names were first given.
//!
//! The renderer writes the attributes in that order, so the same map always
//! gives the same text.

use vstd::prelude::*;

verus! {

/// No two entries of `entries` have the same name.
pub open spec fn distinct_names(entries: Seq<(Seq<char>, Seq<char>)>) -> bool {
    forall|i: int, j: int|
        0 <= i < entries.len() && 0 <= j < entries.len() && i != j ==> (#[trigger] entries[i]).0
            != (#[trigger] entries[j]).0
}

/// Some entry of `entries` has the name `name`.
pub open spec fn has_name(entries: Seq<(Seq<char>, Seq<char>)>, name: Seq<char>) -> bool {
    exists|i: int| 0 <= i < entries.len() && (#[trigger] entries[i]).0 == name
}

/// A map from attribute names to attribute values, in insertion order.
///
/// Its view is the sequence of its `(name, value)` pairs. A map is well
/// formed when no name occurs twice in it, which `new` establishes and
/// `insert` keeps; a name stays where it was first inserted.
pub struct Attrs {
    entries: Vec<(String, String)>,
}

impl View for Attrs {
    type V = Seq<(Seq<char>, Seq<char>)>;

    closed spec fn view(&self) -> Seq<(Seq<char>, Seq<char>)> {
        Seq::new(self.entries@.len(), |i: int| (self.entries@[i].0@, self.entries@[i].1@))
    }
}

impl Attrs {
    /// No name occurs twice in the map.
    pub open spec fn wf(&self) -> bool {
        distinct_names(self@)
    }

    /// The empty map.
    pub fn new() -> (attrs: Attrs)
        ensures
            attrs@ == Seq::<(Seq<char>, Seq<char>)>::empty(),
            attrs.wf(),
    {
        Attrs { entries: Vec::new() }
    }

    /// The number of attributes.
    pub fn len(&self) -> (n: usize)
        ensures
            n == self@.len(),
    {
        self.entries.len()
    }

    /// The name of the attribute at position `i`.
    pub fn name(&self, i: usize) -> (s: &str)
        requires
            i < self@.len(),
        ensures
            s@ == self@[i as int].0,
    {
        self.entries[i].0.as_str()
    }

    /// The value of the attribute at position `i`.
    pub fn value(&self, i: usize) -> (s: &str)
        requires
            i < self@.len(),
        ensures
            s@ == self@[i as int].1,
    {
        self.entries[i].1.as_str()
    }

    /// The position of the attribute named `name`, if there is one.
    pub fn position(&self, name: &str) -> (r: Option<usize>)
        ensures
            r is Some <==> has_name(self@, name@),
            r matches Some(i) ==> i < self@.len() && self@[i as int].0 == name@ && forall|j: int|
                0 <= j < i ==> (#[trigger] self@[j]).0 != name@,
    {
        let wanted = name.to_owned();
        let mut i: usize = 0;
        while i < self.entries.len()
            invariant
                i <= self.entries.len(),
                wanted@ == name@,
                forall|j: int| 0 <= j < i ==> (#[trigger] self@[j]).0 != name@,
            decreases self.entries.len() - i,
        {
            if self.entries[i].0 == wanted {
                assert(self@[i as int].0 == name@);
                return Some(i);
            }
            i = i + 1;
        }
        None
    }

    /// Sets the attribute `name` to `value`. A name that the map holds
    /// already keeps its position and gets the new value; a new name goes to
    /// the end.
    pub fn insert(&mut self, name: &str, value: &str)
        requires
            old(self).wf(),
        ensures
            final(self).wf(),
            !has_name(old(self)@, name@) ==> final(self)@ == old(self)@.push((name@, value@)),
            has_name(old(self)@, name@) ==> exists|i: int|
                0 <= i < old(self)@.len() && (#[trigger] old(self)@[i]).0 == name@ && final(self)@
                    == old(self)@.update(i, (name@, value@)),
    {
        let entry = (name.to_owned(), value.to_owned());
        match self.position(name) {
            Some(i) => {
                self.entries.set(i, entry);
                assert(self@ =~= old(self)@.update(i as int, (name@, value@)));
            },
            None => {
                self.entries.push(entry);
                assert(self@ =~= old(self)@.push((name@, value@)));
            },
        }
    }
}

} // verus!
