//! The payload store: named parameters, each a tagged value, with at most one
//! value per name.

use vstd::prelude::*;
use std::sync::Arc;
use crate::param::ParamValue;

verus! {

/// One named parameter. The value sits behind a shared handle, so that the
/// copies of a store made for delivery share it instead of copying it.
struct Param {
    name: String,
    value: Arc<ParamValue>,
}

/// `Arc::clone`: another handle on the same allocation, and so on the same
/// value.
#[verifier::external_body]
fn share(value: &Arc<ParamValue>) -> (shared: Arc<ParamValue>)
    ensures
        shared == *value,
{
    Arc::clone(value)
}

/// Whether entry `i` of `entries` carries the name `name`.
spec fn names(entries: Seq<Param>, i: int, name: Seq<char>) -> bool {
    0 <= i < entries.len() && entries[i].name@ == name
}

/// The mapping a list of entries with distinct names stands for.
spec fn mapping(entries: Seq<Param>) -> Map<Seq<char>, ParamValue> {
    Map::new(
        |name: Seq<char>| exists|i: int| names(entries, i, name),
        |name: Seq<char>| *entries[choose|i: int| names(entries, i, name)].value,
    )
}

/// No name occurs twice among `entries`.
spec fn distinct(entries: Seq<Param>) -> bool {
    forall|i: int, j: int, name: Seq<char>|
        names(entries, i, name) && names(entries, j, name) ==> i == j
}

/// Replacing the value of an entry is an update of the mapping at its name.
proof fn lemma_replace(entries: Seq<Param>, i: int, param: Param)
    requires
        distinct(entries),
        names(entries, i, param.name@),
    ensures
        distinct(entries.update(i, param)),
        mapping(entries.update(i, param)) == mapping(entries).insert(param.name@, *param.value),
{
    let after = entries.update(i, param);
    // The entries carry the same names at the same places as before.
    assert forall|k: int, name: Seq<char>| names(after, k, name) <==> names(entries, k, name) by {}
}

/// Appending an entry under a fresh name is an insertion into the mapping.
proof fn lemma_append(entries: Seq<Param>, param: Param)
    requires
        distinct(entries),
        !mapping(entries).dom().contains(param.name@),
    ensures
        distinct(entries.push(param)),
        mapping(entries.push(param)) == mapping(entries).insert(param.name@, *param.value),
{
    let after = entries.push(param);
    let last: int = entries.len() as int;
    // The only new place is the last, and it carries the new name.
    assert forall|k: int, name: Seq<char>|
        names(after, k, name) <==> names(entries, k, name) || (k == last && name == param.name@)
    by {}
    assert(names(after, last, param.name@));
}

/// A mapping from parameter names to tagged values.
pub struct PayloadStore {
    entries: Vec<Param>,
}

impl View for PayloadStore {
    type V = Map<Seq<char>, ParamValue>;

    closed spec fn view(&self) -> Map<Seq<char>, ParamValue> {
        mapping(self.entries@)
    }
}

impl PayloadStore {
    #[verifier::type_invariant]
    spec fn well_formed(self) -> bool {
        distinct(self.entries@)
    }

    /// A store that holds nothing.
    pub fn new() -> (store: Self)
        ensures
            store@ == Map::<Seq<char>, ParamValue>::empty(),
    {
        let store = PayloadStore { entries: Vec::new() };
        store
    }

    /// Where `name` is stored, if it is.
    fn position(&self, name: &String) -> (found: Option<usize>)
        ensures
            match found {
                Some(i) => names(self.entries@, i as int, name@),
                None => !self@.dom().contains(name@),
            },
    {
        let mut i: usize = 0;
        while i < self.entries.len()
            invariant
                i <= self.entries.len(),
                forall|k: int| 0 <= k < i ==> !names(self.entries@, k, name@),
            decreases self.entries.len() - i,
        {
            if self.entries[i].name == *name {
                return Some(i);
            }
            i += 1;
        }
        None
    }

    /// Stores `value` under `name`, in place of any value stored there before.
    pub fn insert(self, name: String, value: ParamValue) -> (store: Self)
        ensures
            store@ == self@.insert(name@, value),
    {
        proof {
            use_type_invariant(&self);
        }
        let param = Param { name, value: Arc::new(value) };
        let found = self.position(&param.name);
        let mut entries = self.entries;
        match found {
            Some(i) => {
                proof {
                    lemma_replace(entries@, i as int, param);
                }
                entries.set(i, param);
            },
            None => {
                proof {
                    lemma_append(entries@, param);
                }
                entries.push(param);
            },
        }
        PayloadStore { entries }
    }

    /// The value stored under `name`, if there is one.
    pub fn get(&self, name: &String) -> (found: Option<&ParamValue>)
        ensures
            found == (if self@.dom().contains(name@) {
                Some(&self@[name@])
            } else {
                None
            }),
    {
        proof {
            use_type_invariant(self);
        }
        match self.position(name) {
            Some(i) => {
                Some(&*self.entries[i].value)
            },
            None => None,
        }
    }
}

impl Clone for PayloadStore {
    /// A store of its own with the same names and, shared with this one, the
    /// same values.
    fn clone(&self) -> (copy: Self)
        ensures
            copy@ == self@,
    {
        proof {
            use_type_invariant(self);
        }
        let mut entries: Vec<Param> = Vec::new();
        let mut i: usize = 0;
        while i < self.entries.len()
            invariant
                i <= self.entries.len(),
                entries@ == self.entries@.subrange(0, i as int),
            decreases self.entries.len() - i,
        {
            let param = Param {
                name: self.entries[i].name.clone(),
                value: share(&self.entries[i].value),
            };
            entries.push(param);
            i += 1;
        }
        assert(entries@ =~= self.entries@);
        PayloadStore { entries }
    }
}

} // verus!
