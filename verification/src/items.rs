//! Named entries and the mapping protocol: lookups and updates of
//! insertion-ordered namespaces.

use vstd::prelude::*;

use crate::check::{lemma_bind_within, lemma_reads_within, lemma_unbind_within};
use crate::error::Error;
use crate::heap::{bind, lookup, unbind, Heap};
use crate::lookup::position_of;
use crate::object::{Attr, AttrView, ObjRef, Payload, PayloadView};
use crate::vm::Vm;

verus! {

/// A copy of `entries`, name by name.
pub fn clone_entries(entries: &Vec<Attr>) -> (r: Vec<Attr>)
    ensures
        r.deep_view() == entries.deep_view(),
{
    let mut out: Vec<Attr> = Vec::new();
    let mut i: usize = 0;
    while i < entries.len()
        invariant
            i <= entries.len(),
            out.len() == i,
            forall|j: int| 0 <= j < i ==> out@[j]@ == entries@[j]@,
        decreases entries.len() - i,
    {
        let name = entries[i].name.clone();
        out.push(Attr { name, value: entries[i].value });
        i += 1;
    }
    out
}

/// A copy of `refs`.
pub fn clone_refs(refs: &Vec<ObjRef>) -> (r: Vec<ObjRef>)
    ensures
        r@ == refs@,
{
    let mut out: Vec<ObjRef> = Vec::new();
    let mut i: usize = 0;
    while i < refs.len()
        invariant
            i <= refs.len(),
            out.len() == i,
            forall|j: int| 0 <= j < i ==> out@[j] == refs@[j],
        decreases refs.len() - i,
    {
        out.push(refs[i]);
        i += 1;
    }
    out
}

/// Binds `name` to `value`: rebinds the first entry of that name in place,
/// or adds a new entry at the end.
pub fn bind_entry(entries: &mut Vec<Attr>, name: &str, value: ObjRef)
    ensures
        final(entries).deep_view() == bind(old(entries).deep_view(), name@, value),
{
    let k = position_of(entries, name);
    let attr = Attr { name: name.to_owned(), value };
    if k < entries.len() {
        entries[k] = attr;
    } else {
        entries.push(attr);
    }
}

/// Removes the first entry called `name`; says whether there was one.
pub fn unbind_entry(entries: &mut Vec<Attr>, name: &str) -> (found: bool)
    ensures
        final(entries).deep_view() == unbind(old(entries).deep_view(), name@),
        found == (lookup(old(entries).deep_view(), name@) is Some),
{
    let k = position_of(entries, name);
    if k < entries.len() {
        entries.remove(k);
        true
    } else {
        false
    }
}

impl Heap {
    /// Whether `o` can be read by key: its type exposes the subscript
    /// operation of the mapping protocol.
    pub open spec fn readable(self, o: ObjRef) -> bool {
        match self.mapping_methods(self.class_of(o)) {
            Some(m) => m.subscript,
            None => false,
        }
    }

    /// Whether `o` can be written by key: its type exposes the assignment
    /// operation of the mapping protocol, and `o` stores entries.
    pub open spec fn writable(self, o: ObjRef) -> bool {
        &&& self.payload(o) is Dict
        &&& match self.mapping_methods(self.class_of(o)) {
            Some(m) => m.ass_subscript,
            None => false,
        }
    }

    /// The item of `o` under `key`.
    pub open spec fn get_item(self, o: ObjRef, key: Seq<char>) -> Result<ObjRef, Error> {
        if self.readable(o) {
            match lookup(self.entries(o), key) {
                Some(v) => Ok(v),
                None => Err(Error::KeyMissing),
            }
        } else {
            Err(Error::NotSubscriptable { class: self.class_of(o) })
        }
    }

    /// Stores `value` under `key` in `o`.
    pub open spec fn set_item(self, o: ObjRef, key: Seq<char>, value: ObjRef) -> (
        Heap,
        Result<(), Error>,
    ) {
        if self.writable(o) {
            (self.with_payload(o, PayloadView::Dict(bind(self.entries(o), key, value))), Ok(()))
        } else {
            (self, Err(Error::NoItemAssignment { class: self.class_of(o) }))
        }
    }

    /// Removes the item under `key` from `o`.
    pub open spec fn del_item(self, o: ObjRef, key: Seq<char>) -> (Heap, Result<(), Error>) {
        if self.writable(o) {
            if lookup(self.entries(o), key) is Some {
                (self.with_payload(o, PayloadView::Dict(unbind(self.entries(o), key))), Ok(()))
            } else {
                (self, Err(Error::KeyMissing))
            }
        } else {
            (self, Err(Error::NoItemDeletion { class: self.class_of(o) }))
        }
    }

    /// Stores the entries of `stores` from position `from` on into `o`, in
    /// order, and stops at the first store that fails.
    pub open spec fn store_all(self, o: ObjRef, stores: Seq<AttrView>, from: int) -> (
        Heap,
        Result<(), Error>,
    )
        decreases stores.len() - from,
    {
        if from < 0 || from >= stores.len() {
            (self, Ok(()))
        } else {
            let (h, r) = self.set_item(o, stores[from].name, stores[from].value);
            match r {
                Ok(()) => h.store_all(o, stores, from + 1),
                Err(e) => (h, Err(e)),
            }
        }
    }
}

impl Vm {
    /// Whether `o` can be written by key.
    pub fn writable(&self, o: ObjRef) -> (r: bool)
        ensures
            r == self@.writable(o),
    {
        let stores = match self.payload(o) {
            Some(Payload::Dict(_)) => true,
            _ => false,
        };
        stores && match self.mapping_methods(self.class_of(o)) {
            Some(m) => m.ass_subscript,
            None => false,
        }
    }

    /// The item of `o` under `key`.
    pub fn get_item(&self, o: ObjRef, key: &str) -> (r: Result<ObjRef, Error>)
        ensures
            r == self@.get_item(o, key@),
    {
        let readable = match self.mapping_methods(self.class_of(o)) {
            Some(m) => m.subscript,
            None => false,
        };
        if !readable {
            return Err(Error::NotSubscriptable { class: self.class_of(o) });
        }
        let found = match self.payload(o) {
            Some(Payload::Dict(entries)) => crate::lookup::lookup_entry(entries, key),
            _ => None,
        };
        match found {
            Some(v) => Ok(v),
            None => Err(Error::KeyMissing),
        }
    }

    /// Stores `value` under `key` in `o`.
    pub fn set_item(&mut self, o: ObjRef, key: &str, value: ObjRef) -> (r: Result<(), Error>)
        ensures
            (final(self)@, r) == old(self)@.set_item(o, key@, value),
            old(self)@.leads_to(final(self)@),
            old(self)@.intact() && old(self)@.has(value) ==> final(self)@.intact(),
    {
        proof {
            if self@.intact() && self@.has(value) {
                lemma_reads_within(self@, o);
                lemma_bind_within(self@, self@.entries(o), key@, value);
                lemma_bind_within(self@, Seq::empty(), key@, value);
            }
        }
        if !self.writable(o) {
            return Err(Error::NoItemAssignment { class: self.class_of(o) });
        }
        let mut entries = match self.payload(o) {
            Some(Payload::Dict(entries)) => clone_entries(entries),
            _ => Vec::new(),
        };
        bind_entry(&mut entries, key, value);
        self.set_payload(o, Payload::Dict(entries));
        Ok(())
    }

    /// Removes the item under `key` from `o`.
    pub fn del_item(&mut self, o: ObjRef, key: &str) -> (r: Result<(), Error>)
        ensures
            (final(self)@, r) == old(self)@.del_item(o, key@),
            old(self)@.leads_to(final(self)@),
            old(self)@.intact() ==> final(self)@.intact(),
    {
        proof {
            if self@.intact() {
                lemma_reads_within(self@, o);
                lemma_unbind_within(self@, self@.entries(o), key@);
            }
        }
        if !self.writable(o) {
            return Err(Error::NoItemDeletion { class: self.class_of(o) });
        }
        let mut entries = match self.payload(o) {
            Some(Payload::Dict(entries)) => clone_entries(entries),
            _ => Vec::new(),
        };
        let found = unbind_entry(&mut entries, key);
        if found {
            self.set_payload(o, Payload::Dict(entries));
            Ok(())
        } else {
            Err(Error::KeyMissing)
        }
    }

    /// Stores every entry of `stores` into `o`, in order, and stops at the
    /// first store that fails.
    pub fn store_all(&mut self, o: ObjRef, stores: &Vec<Attr>) -> (r: Result<(), Error>)
        ensures
            (final(self)@, r) == old(self)@.store_all(o, stores.deep_view(), 0),
            old(self)@.leads_to(final(self)@),
            old(self)@.intact() && old(self)@.values_in(stores.deep_view())
                ==> final(self)@.intact(),
    {
        let ghost view = stores.deep_view();
        let mut i: usize = 0;
        while i < stores.len()
            invariant
                old(self)@.leads_to(self@),
                i <= stores.len(),
                view == stores.deep_view(),
                old(self)@.store_all(o, view, 0) == self@.store_all(o, view, i as int),
                old(self)@.intact() && old(self)@.values_in(view) ==> self@.intact(),
            decreases stores.len() - i,
        {
            assert(old(self)@.values_in(view) ==> old(self)@.has(view[i as int].value));
            match self.set_item(o, stores[i].name.as_str(), stores[i].value) {
                Ok(()) => {},
                Err(e) => {
                    return Err(e);
                },
            }
            i += 1;
        }
        Ok(())
    }
}

} // verus!
