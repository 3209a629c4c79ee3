//! Resolution: slots and attributes along the ancestors of a type, and the
//! relations between types.

use vstd::prelude::*;

use crate::check::lemma_attr_within;
use crate::heap::{lookup, position, Heap};
use crate::object::{
    Attr, CallSlot, Capability, IterSlot, MappingMethods, NextSlot, ObjRef, Payload,
    SequenceMethods, Slot, TypeData,
};
use crate::outside::str_eq;
use crate::vm::Vm;

verus! {

impl Heap {
    pub open spec fn call_slot(self, cls: ObjRef) -> Option<CallSlot> {
        match self.resolve(cls, Capability::Call) {
            Some(Slot::Call(s)) => Some(s),
            _ => None,
        }
    }

    pub open spec fn iter_slot(self, cls: ObjRef) -> Option<IterSlot> {
        match self.resolve(cls, Capability::Iter) {
            Some(Slot::Iter(s)) => Some(s),
            _ => None,
        }
    }

    pub open spec fn next_slot(self, cls: ObjRef) -> Option<NextSlot> {
        match self.resolve(cls, Capability::IterNext) {
            Some(Slot::IterNext(s)) => Some(s),
            _ => None,
        }
    }

    pub open spec fn mapping_methods(self, cls: ObjRef) -> Option<MappingMethods> {
        match self.resolve(cls, Capability::Mapping) {
            Some(Slot::Mapping(s)) => Some(s),
            _ => None,
        }
    }

    pub open spec fn sequence_methods(self, cls: ObjRef) -> Option<SequenceMethods> {
        match self.resolve(cls, Capability::Sequence) {
            Some(Slot::Sequence(s)) => Some(s),
            _ => None,
        }
    }
}

/// The position of the first entry called `name`, or the number of entries
/// where there is none.
pub fn position_of(entries: &Vec<Attr>, name: &str) -> (r: usize)
    ensures
        r == position(entries.deep_view(), name@, 0),
        r <= entries.len(),
{
    let ghost view = entries.deep_view();
    let mut k: usize = 0;
    while k < entries.len()
        invariant
            k <= entries.len(),
            view == entries.deep_view(),
            position(view, name@, 0) == position(view, name@, k as int),
        decreases entries.len() - k,
    {
        if str_eq(entries[k].name.as_str(), name) {
            return k;
        }
        k += 1;
    }
    k
}

/// The value of the first entry called `name`.
pub fn lookup_entry(entries: &Vec<Attr>, name: &str) -> (r: Option<ObjRef>)
    ensures
        r == lookup(entries.deep_view(), name@),
{
    let k = position_of(entries, name);
    if k < entries.len() {
        Some(entries[k].value)
    } else {
        None
    }
}

impl Vm {
    /// The native data of `o`, if `o` lies in the arena.
    pub fn payload(&self, o: ObjRef) -> (r: Option<&Payload>)
        ensures
            match r {
                Some(p) => self@.has(o) && p@ == self@.payload(o),
                None => !self@.has(o),
            },
    {
        match self.object(o) {
            Some(obj) => Some(&obj.payload),
            None => None,
        }
    }

    /// The descriptor of `t`, if `t` is a type.
    pub fn type_data(&self, t: ObjRef) -> (r: Option<&TypeData>)
        ensures
            match r {
                Some(td) => self@.is_type(t) && td@ == self@.type_view(t),
                None => !self@.is_type(t),
            },
    {
        match self.payload(t) {
            Some(Payload::Type(td)) => Some(td),
            _ => None,
        }
    }

    pub fn is_type(&self, o: ObjRef) -> (r: bool)
        ensures
            r == self@.is_type(o),
    {
        self.type_data(o).is_some()
    }

    /// The nearest slot for `cap` along the ancestors of type `cls`.
    pub fn resolve(&self, cls: ObjRef, cap: Capability) -> (r: Option<Slot>)
        ensures
            r == self@.resolve(cls, cap),
            r matches Some(s) ==> s.capability() == cap,
    {
        match self.type_data(cls) {
            None => None,
            Some(td) => {
                let mut i: usize = 0;
                while i < td.mro.len()
                    invariant
                        i <= td.mro.len(),
                        td@ == self@.type_view(cls),
                        self@.resolve(cls, cap) == self@.find_slot(td.mro@, i as int, cap),
                    decreases td.mro.len() - i,
                {
                    match self.type_data(td.mro[i]) {
                        Some(ancestor) => {
                            match ancestor.slots.get(cap) {
                                Some(s) => {
                                    return Some(s);
                                },
                                None => {},
                            }
                        },
                        None => {},
                    }
                    i += 1;
                }
                None
            },
        }
    }

    pub fn call_slot(&self, cls: ObjRef) -> (r: Option<CallSlot>)
        ensures
            r == self@.call_slot(cls),
    {
        match self.resolve(cls, Capability::Call) {
            Some(Slot::Call(s)) => Some(s),
            _ => None,
        }
    }

    pub fn iter_slot(&self, cls: ObjRef) -> (r: Option<IterSlot>)
        ensures
            r == self@.iter_slot(cls),
    {
        match self.resolve(cls, Capability::Iter) {
            Some(Slot::Iter(s)) => Some(s),
            _ => None,
        }
    }

    pub fn next_slot(&self, cls: ObjRef) -> (r: Option<NextSlot>)
        ensures
            r == self@.next_slot(cls),
    {
        match self.resolve(cls, Capability::IterNext) {
            Some(Slot::IterNext(s)) => Some(s),
            _ => None,
        }
    }

    pub fn mapping_methods(&self, cls: ObjRef) -> (r: Option<MappingMethods>)
        ensures
            r == self@.mapping_methods(cls),
    {
        match self.resolve(cls, Capability::Mapping) {
            Some(Slot::Mapping(s)) => Some(s),
            _ => None,
        }
    }

    pub fn sequence_methods(&self, cls: ObjRef) -> (r: Option<SequenceMethods>)
        ensures
            r == self@.sequence_methods(cls),
    {
        match self.resolve(cls, Capability::Sequence) {
            Some(Slot::Sequence(s)) => Some(s),
            _ => None,
        }
    }

    /// Whether `b` is among the ancestors of `a`.
    pub fn is_subclass(&self, a: ObjRef, b: ObjRef) -> (r: bool)
        ensures
            r == self@.is_subclass(a, b),
    {
        match self.type_data(a) {
            None => {
                false
            },
            Some(td) => {
                let mut i: usize = 0;
                while i < td.mro.len()
                    invariant
                        i <= td.mro.len(),
                        td@ == self@.type_view(a),
                        forall|j: int| 0 <= j < i ==> td.mro@[j] != b,
                    decreases td.mro.len() - i,
                {
                    if td.mro[i].id == b.id {
                        return true;
                    }
                    i += 1;
                }
                false
            },
        }
    }

    /// Whether the type of `o` has `cls` among its ancestors.
    pub fn is_instance(&self, o: ObjRef, cls: ObjRef) -> (r: bool)
        ensures
            r == self@.is_instance(o, cls),
    {
        self.is_subclass(self.class_of(o), cls)
    }

    /// The attribute `name` as type `cls` or its nearest ancestor defines it.
    pub fn class_attr(&self, cls: ObjRef, name: &str) -> (r: Option<ObjRef>)
        ensures
            r == self@.class_attr(cls, name@),
            self@.intact() ==> self@.has_some(r),
    {
        proof {
            if self@.intact() {
                lemma_attr_within(self@, cls, name@);
            }
        }
        match self.type_data(cls) {
            None => None,
            Some(td) => {
                let mut i: usize = 0;
                while i < td.mro.len()
                    invariant
                        i <= td.mro.len(),
                        td@ == self@.type_view(cls),
                        self@.class_attr(cls, name@) == self@.find_attr(td.mro@, i as int, name@),
                        self@.intact() ==> self@.has_some(self@.class_attr(cls, name@)),
                    decreases td.mro.len() - i,
                {
                    match self.object(td.mro[i]) {
                        Some(ancestor) => {
                            match lookup_entry(&ancestor.attrs, name) {
                                Some(v) => {
                                    return Some(v);
                                },
                                None => {},
                            }
                        },
                        None => {},
                    }
                    i += 1;
                }
                None
            },
        }
    }

    /// The attribute `name` of `o`, or `None` where it has none.
    pub fn get_attr(&self, o: ObjRef, name: &str) -> (r: Option<ObjRef>)
        ensures
            r == self@.get_attr(o, name@),
            self@.intact() ==> self@.has_some(r),
    {
        proof {
            if self@.intact() {
                lemma_attr_within(self@, o, name@);
            }
        }
        let own = if self.is_type(o) {
            self.class_attr(o, name)
        } else {
            match self.object(o) {
                Some(obj) => lookup_entry(&obj.attrs, name),
                None => None,
            }
        };
        match own {
            Some(v) => Some(v),
            None => self.class_attr(self.class_of(o), name),
        }
    }
}

} // verus!
