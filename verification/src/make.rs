//! Making objects and reading them back: the plain values, containers,
//! cells, functions and types that a program is built from.

use vstd::prelude::*;

use crate::heap::{
    bind, lookup, unbind, Heap, CELL_TYPE, DICT_TYPE, FALSE, FUNCTION_TYPE, INT_TYPE, LIST_TYPE,
    MODULE_TYPE, NONE, OBJECT_TYPE, STR_TYPE, TRUE, TUPLE_TYPE, TYPE_TYPE,
};
use crate::check::{
    lemma_bind_within, lemma_linearize_within, lemma_reads_within, lemma_unbind_within,
};
use crate::error::Error;
use crate::items::{bind_entry, clone_entries, clone_refs, unbind_entry};
use crate::object::{
    Attr, ObjRef, Object, ObjectView, Payload, PayloadView, Routine, Slots, TypeData, TypeView,
};
use crate::roots::{BYTEARRAY_TYPE, BYTES_TYPE};
use crate::vm::Vm;

verus! {

impl Heap {
    /// A new object of the built-in type at `class`, without attributes.
    pub open spec fn plain(class: usize, payload: PayloadView) -> ObjectView {
        ObjectView { class: ObjRef { id: class }, payload, attrs: Seq::empty() }
    }

    /// The type object that the next allocation of a class gives: an
    /// instance of `meta` that derives from `bases` (from `object` where
    /// there are none), with the ancestors linearized.
    pub open spec fn class_object(
        self,
        meta: ObjRef,
        name: Seq<char>,
        bases: Seq<ObjRef>,
        slots: Slots,
    ) -> ObjectView {
        ObjectView {
            class: meta,
            payload: PayloadView::Type(
                TypeView {
                    name,
                    bases: self.parents(bases),
                    mro: seq![self.next_ref()] + self.linearize(self.parents(bases))->0,
                    slots,
                },
            ),
            attrs: Seq::empty(),
        }
    }

    /// The name of type `t`.
    pub open spec fn name_of(self, t: ObjRef) -> Seq<char> {
        self.type_view(t).name
    }
}

/// The `None` object.
pub open spec fn spec_none() -> ObjRef {
    ObjRef { id: NONE }
}

#[verifier::when_used_as_spec(spec_none)]
pub fn none() -> (r: ObjRef)
    ensures
        r == spec_none(),
{
    ObjRef { id: NONE }
}

/// The object `True` or `False`.
pub open spec fn spec_bool_object(b: bool) -> ObjRef {
    if b {
        ObjRef { id: TRUE }
    } else {
        ObjRef { id: FALSE }
    }
}

#[verifier::when_used_as_spec(spec_bool_object)]
pub fn bool_object(b: bool) -> (r: ObjRef)
    ensures
        r == spec_bool_object(b),
{
    if b {
        ObjRef { id: TRUE }
    } else {
        ObjRef { id: FALSE }
    }
}

/// The type `type`, the default metaclass.
pub open spec fn spec_type_type() -> ObjRef {
    ObjRef { id: TYPE_TYPE }
}

#[verifier::when_used_as_spec(spec_type_type)]
pub fn type_type() -> (r: ObjRef)
    ensures
        r == spec_type_type(),
{
    ObjRef { id: TYPE_TYPE }
}

/// The type `object`, the root of every class.
pub open spec fn spec_object_type() -> ObjRef {
    ObjRef { id: OBJECT_TYPE }
}

#[verifier::when_used_as_spec(spec_object_type)]
pub fn object_type() -> (r: ObjRef)
    ensures
        r == spec_object_type(),
{
    ObjRef { id: OBJECT_TYPE }
}

impl Vm {
    pub fn new_int(&mut self, value: i64) -> (r: ObjRef)
        ensures
            final(self)@ == old(self)@.push(Heap::plain(INT_TYPE, PayloadView::Int(value))),
            r == old(self)@.next_ref(),
            old(self)@.leads_to(final(self)@),
            old(self)@.intact() ==> final(self)@.intact() && final(self)@.has(r),
    {
        self.new_object(ObjRef { id: INT_TYPE }, Payload::Int(value))
    }

    pub fn new_str(&mut self, text: &str) -> (r: ObjRef)
        ensures
            final(self)@ == old(self)@.push(Heap::plain(STR_TYPE, PayloadView::Str(text@))),
            r == old(self)@.next_ref(),
            old(self)@.leads_to(final(self)@),
            old(self)@.intact() ==> final(self)@.intact() && final(self)@.has(r),
    {
        self.new_object(ObjRef { id: STR_TYPE }, Payload::Str(text.to_owned()))
    }

    /// A new bytes object that holds `data`.
    pub fn new_bytes(&mut self, data: Vec<u8>) -> (r: ObjRef)
        ensures
            final(self)@ == old(self)@.push(Heap::plain(BYTES_TYPE, PayloadView::Bytes(data@))),
            r == old(self)@.next_ref(),
            old(self)@.leads_to(final(self)@),
            old(self)@.intact() ==> final(self)@.intact() && final(self)@.has(r),
    {
        self.new_object(ObjRef { id: BYTES_TYPE }, Payload::Bytes(data))
    }

    /// A new bytearray that holds `data`.
    pub fn new_bytearray(&mut self, data: Vec<u8>) -> (r: ObjRef)
        ensures
            final(self)@ == old(self)@.push(
                Heap::plain(BYTEARRAY_TYPE, PayloadView::Bytes(data@)),
            ),
            r == old(self)@.next_ref(),
            old(self)@.leads_to(final(self)@),
            old(self)@.intact() ==> final(self)@.intact() && final(self)@.has(r),
    {
        self.new_object(ObjRef { id: BYTEARRAY_TYPE }, Payload::Bytes(data))
    }

    pub fn new_tuple(&mut self, items: Vec<ObjRef>) -> (r: ObjRef)
        ensures
            final(self)@ == old(self)@.push(Heap::plain(TUPLE_TYPE, PayloadView::Tuple(items@))),
            r == old(self)@.next_ref(),
            old(self)@.leads_to(final(self)@),
            old(self)@.intact() && old(self)@.refs_in(items@) ==> final(self)@.intact()
                && final(self)@.has(r),
    {
        self.new_object(ObjRef { id: TUPLE_TYPE }, Payload::Tuple(items))
    }

    pub fn new_list(&mut self, items: Vec<ObjRef>) -> (r: ObjRef)
        ensures
            final(self)@ == old(self)@.push(Heap::plain(LIST_TYPE, PayloadView::List(items@))),
            r == old(self)@.next_ref(),
            old(self)@.leads_to(final(self)@),
            old(self)@.intact() && old(self)@.refs_in(items@) ==> final(self)@.intact()
                && final(self)@.has(r),
    {
        self.new_object(ObjRef { id: LIST_TYPE }, Payload::List(items))
    }

    /// A new, empty dictionary.
    pub fn new_dict(&mut self) -> (r: ObjRef)
        ensures
            final(self)@ == old(self)@.push(
                Heap::plain(DICT_TYPE, PayloadView::Dict(Seq::empty())),
            ),
            r == old(self)@.next_ref(),
            old(self)@.leads_to(final(self)@),
            old(self)@.intact() ==> final(self)@.intact() && final(self)@.has(r),
    {
        let entries: Vec<Attr> = Vec::new();
        assert(entries.deep_view() =~= Seq::empty());
        self.new_object(ObjRef { id: DICT_TYPE }, Payload::Dict(entries))
    }

    /// A new cell, empty or holding `content`.
    pub fn new_cell(&mut self, content: Option<ObjRef>) -> (r: ObjRef)
        ensures
            final(self)@ == old(self)@.push(Heap::plain(CELL_TYPE, PayloadView::Cell(content))),
            r == old(self)@.next_ref(),
            old(self)@.leads_to(final(self)@),
            old(self)@.intact() && old(self)@.has_some(content) ==> final(self)@.intact()
                && final(self)@.has(r),
    {
        self.new_object(ObjRef { id: CELL_TYPE }, Payload::Cell(content))
    }

    /// A new function object that runs `routine` when it is called.
    pub fn new_function(&mut self, routine: Routine) -> (r: ObjRef)
        ensures
            final(self)@ == old(self)@.push(
                Heap::plain(FUNCTION_TYPE, PayloadView::Function(routine@)),
            ),
            r == old(self)@.next_ref(),
            old(self)@.leads_to(final(self)@),
            old(self)@.intact() && old(self)@.keeps(PayloadView::Function(routine@))
                ==> final(self)@.intact() && final(self)@.has(r),
    {
        self.new_object(ObjRef { id: FUNCTION_TYPE }, Payload::Function(routine))
    }

    /// A new module object, without attributes.
    pub fn new_module(&mut self) -> (r: ObjRef)
        ensures
            final(self)@ == old(self)@.push(Heap::plain(MODULE_TYPE, PayloadView::Instance)),
            r == old(self)@.next_ref(),
            old(self)@.leads_to(final(self)@),
            old(self)@.intact() ==> final(self)@.intact() && final(self)@.has(r),
    {
        self.new_object(ObjRef { id: MODULE_TYPE }, Payload::Instance)
    }

    /// A new type: an instance of `meta` called `name` that derives from
    /// `bases` and has `slots` as its own slot table. Bases whose ancestors
    /// cannot be linearized are refused, and nothing is made.
    pub fn new_type(&mut self, meta: ObjRef, name: &str, bases: Vec<ObjRef>, slots: Slots) -> (r:
        Result<ObjRef, Error>)
        ensures
            match old(self)@.linearize(old(self)@.parents(bases@)) {
                Some(_) => final(self)@ == old(self)@.push(
                    old(self)@.class_object(meta, name@, bases@, slots),
                ) && r == Ok::<ObjRef, Error>(old(self)@.next_ref()),
                None => final(self)@ == old(self)@ && r == Err::<ObjRef, Error>(
                    Error::InconsistentMro,
                ),
            },
            old(self)@.leads_to(final(self)@),
            old(self)@.intact() && old(self)@.has(meta) && old(self)@.refs_in(bases@)
                ==> final(self)@.intact() && final(self)@.has_ok(r),
    {
        proof {
            if self@.intact() && self@.refs_in(bases@) {
                lemma_linearize_within(self@, bases@);
            }
        }
        let r = ObjRef { id: self.len() };
        let parents = self.parents(bases);
        let mut line = match self.linearize(&parents) {
            Some(line) => line,
            None => {
                return Err(Error::InconsistentMro);
            },
        };
        let mut mro: Vec<ObjRef> = Vec::new();
        mro.push(r);
        mro.append(&mut line);
        let descriptor = TypeData { name: name.to_owned(), bases: parents, mro, slots };
        let attrs: Vec<Attr> = Vec::new();
        assert(attrs.deep_view() =~= Seq::empty());
        Ok(self.allocate(Object { class: meta, payload: Payload::Type(descriptor), attrs }))
    }

    /// Binds the own attribute `name` of `o` to `value`.
    pub fn set_attr(&mut self, o: ObjRef, name: &str, value: ObjRef)
        ensures
            final(self)@ == old(self)@.with_attrs(o, bind(old(self)@.attrs(o), name@, value)),
            old(self)@.leads_to(final(self)@),
            old(self)@.intact() && old(self)@.has(value) ==> final(self)@.intact(),
    {
        proof {
            if self@.intact() && self@.has(value) {
                lemma_reads_within(self@, o);
                lemma_bind_within(self@, self@.attrs(o), name@, value);
            }
        }
        let mut attrs = match self.object(o) {
            Some(obj) => clone_entries(&obj.attrs),
            None => Vec::new(),
        };
        bind_entry(&mut attrs, name, value);
        self.set_attrs(o, attrs);
    }

    /// Removes the own attribute `name` of `o`; says whether there was one.
    pub fn del_attr(&mut self, o: ObjRef, name: &str) -> (found: bool)
        ensures
            final(self)@ == old(self)@.with_attrs(o, unbind(old(self)@.attrs(o), name@)),
            found == (lookup(old(self)@.attrs(o), name@) is Some),
            old(self)@.leads_to(final(self)@),
            old(self)@.intact() ==> final(self)@.intact(),
    {
        proof {
            if self@.intact() {
                lemma_reads_within(self@, o);
                lemma_unbind_within(self@, self@.attrs(o), name@);
            }
        }
        let mut attrs = match self.object(o) {
            Some(obj) => clone_entries(&obj.attrs),
            None => Vec::new(),
        };
        let found = unbind_entry(&mut attrs, name);
        self.set_attrs(o, attrs);
        found
    }

    /// Whether `o` is the `None` value.
    pub fn is_none(&self, o: ObjRef) -> (r: bool)
        ensures
            r == (self@.payload(o) is NoneValue),
    {
        match self.payload(o) {
            Some(Payload::NoneValue) => true,
            _ => false,
        }
    }

    /// The integer that `o` holds natively, if it is an integer object.
    pub fn int_value(&self, o: ObjRef) -> (r: Option<i64>)
        ensures
            r == match self@.payload(o) {
                PayloadView::Int(i) => Some(i),
                _ => None,
            },
    {
        match self.payload(o) {
            Some(Payload::Int(i)) => Some(*i),
            _ => None,
        }
    }

    /// The text that `o` holds, if it is a string object.
    pub fn str_value(&self, o: ObjRef) -> (r: Option<String>)
        ensures
            match r {
                Some(s) => self@.payload(o) == PayloadView::Str(s@),
                None => !(self@.payload(o) is Str),
            },
    {
        match self.payload(o) {
            Some(Payload::Str(s)) => Some(s.clone()),
            _ => None,
        }
    }

    /// The elements that `o` stores, in order.
    pub fn elements(&self, o: ObjRef) -> (r: Vec<ObjRef>)
        ensures
            r@ == self@.elements(o),
    {
        match self.payload(o) {
            Some(Payload::Tuple(items)) => clone_refs(items),
            Some(Payload::List(items)) => clone_refs(items),
            _ => Vec::new(),
        }
    }

    /// The entries that `o` stores, in order.
    pub fn entries(&self, o: ObjRef) -> (r: Vec<Attr>)
        ensures
            r.deep_view() == self@.entries(o),
    {
        match self.payload(o) {
            Some(Payload::Dict(entries)) => clone_entries(entries),
            _ => Vec::new(),
        }
    }

    /// The own attributes of `o`, in order.
    pub fn attrs(&self, o: ObjRef) -> (r: Vec<Attr>)
        ensures
            r.deep_view() == self@.attrs(o),
    {
        match self.object(o) {
            Some(obj) => clone_entries(&obj.attrs),
            None => Vec::new(),
        }
    }

    /// What the cell `o` holds: `None` where `o` is no cell, `Some(None)`
    /// where it is an empty one.
    pub fn cell_value(&self, o: ObjRef) -> (r: Option<Option<ObjRef>>)
        ensures
            r == match self@.payload(o) {
                PayloadView::Cell(c) => Some(c),
                _ => None,
            },
    {
        match self.payload(o) {
            Some(Payload::Cell(c)) => Some(*c),
            _ => None,
        }
    }

    /// The name of type `t`; the empty text where `t` is no type.
    pub fn name_of(&self, t: ObjRef) -> (r: String)
        ensures
            r@ == self@.name_of(t),
    {
        match self.type_data(t) {
            Some(td) => td.name.clone(),
            None => String::new(),
        }
    }
}

} // verus!
