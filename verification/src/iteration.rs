//! Cursors: how an iterator is obtained from an object and how it advances,
//! and the sequence protocol underneath.

use vstd::prelude::*;

use crate::check::lemma_reads_within;
use crate::error::{Error, ErrorKind};
use crate::heap::{Heap, ITERATOR_TYPE, LIST_ITERATOR_TYPE};
use crate::object::{
    ArgsView, CallSlot, FuncArgs, IterSlot, NextSlot, ObjRef, ObjectView, Payload, PayloadView,
};
use crate::vm::Vm;

verus! {

/// What one pull of an iterator gives: an item, or the end.
#[derive(Clone, Copy, Debug, PartialEq, Eq, Structural)]
pub enum PyIterReturn {
    Return(ObjRef),
    StopIteration,
}

impl Heap {
    /// Whether the item of a pull, if the pull gave one, lies in the arena.
    pub open spec fn has_pulled(self, r: Result<PyIterReturn, Error>) -> bool {
        r matches Ok(PyIterReturn::Return(v)) ==> self.has(v)
    }
}

/// Whether an error of indexed access means that the index is past the end.
pub open spec fn spec_ends_walk(e: Error) -> bool {
    e.spec_kind() == ErrorKind::IndexError || e.spec_kind() == ErrorKind::StopIteration
}

#[verifier::when_used_as_spec(spec_ends_walk)]
pub fn ends_walk(e: Error) -> (r: bool)
    ensures
        r == spec_ends_walk(e),
{
    match e.kind() {
        ErrorKind::IndexError => true,
        ErrorKind::StopIteration => true,
        _ => false,
    }
}

impl Heap {
    /// Whether `a` and `b` are the same object, or hold the same integer,
    /// truth value or text, or are both `None`.
    pub open spec fn same_value(self, a: ObjRef, b: ObjRef) -> bool {
        a == b || match (self.payload(a), self.payload(b)) {
            (PayloadView::Int(x), PayloadView::Int(y)) => x == y,
            (PayloadView::Bool(x), PayloadView::Bool(y)) => x == y,
            (PayloadView::Str(x), PayloadView::Str(y)) => x == y,
            (PayloadView::NoneValue, PayloadView::NoneValue) => true,
            _ => false,
        }
    }

    /// Whether `o` can be read by index: its type exposes the item
    /// operation of the sequence protocol.
    pub open spec fn indexable(self, o: ObjRef) -> bool {
        match self.sequence_methods(self.class_of(o)) {
            Some(m) => m.item,
            None => false,
        }
    }

    /// The item of `o` at `index`, through the sequence protocol.
    pub open spec fn item(self, o: ObjRef, index: int) -> Result<ObjRef, Error> {
        if !self.indexable(o) {
            Err(Error::NotSequence { class: self.class_of(o) })
        } else if 0 <= index < self.elements(o).len() {
            Ok(self.elements(o)[index])
        } else {
            Err(Error::IndexOutOfRange)
        }
    }

    /// The number of items of `o`, through the sequence protocol or else
    /// the mapping protocol.
    pub open spec fn length(self, o: ObjRef) -> Result<nat, Error> {
        let by_sequence = match self.sequence_methods(self.class_of(o)) {
            Some(m) => m.length,
            None => false,
        };
        let by_mapping = match self.mapping_methods(self.class_of(o)) {
            Some(m) => m.length,
            None => false,
        };
        if by_sequence {
            Ok(self.elements(o).len())
        } else if by_mapping {
            Ok(self.entries(o).len())
        } else {
            Err(Error::NoLength { class: self.class_of(o) })
        }
    }

    /// A new cursor object of the built-in iterator type `class`.
    pub open spec fn cursor(class: usize, payload: PayloadView) -> ObjectView {
        ObjectView { class: ObjRef { id: class }, payload, attrs: Seq::empty() }
    }

    /// The iterator of `o` as the resolved slot `slot` makes it. Without a
    /// slot, `o` is walked by index from 0, which takes the item operation
    /// of the sequence protocol.
    pub open spec fn make_iter(self, o: ObjRef, slot: Option<IterSlot>) -> (
        Heap,
        Result<ObjRef, Error>,
    ) {
        match slot {
            Some(IterSlot::Elements) => (
                self.push(
                    Heap::cursor(
                        LIST_ITERATOR_TYPE,
                        PayloadView::ElementsIter { source: o, pos: 0 },
                    ),
                ),
                Ok(self.next_ref()),
            ),
            Some(IterSlot::Identity) => (self, Ok(o)),
            None => if self.indexable(o) {
                (
                    self.push(
                        Heap::cursor(
                            ITERATOR_TYPE,
                            PayloadView::SubscriptIter { source: o, pos: 0, done: false },
                        ),
                    ),
                    Ok(self.next_ref()),
                )
            } else {
                (self, Err(Error::NotSequence { class: self.class_of(o) }))
            },
        }
    }

    /// The iterator of `o`: made through the iterate slot of its type, or,
    /// where the type has none but defines `__getitem__`, by index.
    pub open spec fn get_iter(self, o: ObjRef) -> (Heap, Result<ObjRef, Error>) {
        match self.iter_plan(o) {
            Ok(slot) => self.make_iter(o, slot),
            Err(e) => (self, Err(e)),
        }
    }

    /// One pull of the cursor `it` through the resolved slot `slot`. A
    /// cursor whose native data does not fit the slot is at its end. A
    /// cursor that has reached its end stays there, whatever becomes of its
    /// source. A cursor that reads by index asks at every pull for the item
    /// operation that the type of its source exposes then.
    pub open spec fn advance_through(self, slot: NextSlot, it: ObjRef) -> (
        Heap,
        Result<PyIterReturn, Error>,
    ) {
        match (slot, self.payload(it)) {
            (NextSlot::Elements, PayloadView::ElementsIter { source, pos }) => {
                if pos < self.elements(source).len() && pos < usize::MAX {
                    (
                        self.with_payload(
                            it,
                            PayloadView::ElementsIter { source, pos: (pos + 1) as usize },
                        ),
                        Ok(PyIterReturn::Return(self.elements(source)[pos as int])),
                    )
                } else {
                    (
                        self.with_payload(
                            it,
                            PayloadView::ElementsIter { source, pos: usize::MAX },
                        ),
                        Ok(PyIterReturn::StopIteration),
                    )
                }
            },
            (NextSlot::Subscript, PayloadView::SubscriptIter { source, pos, done }) => {
                if done || pos == usize::MAX {
                    (self, Ok(PyIterReturn::StopIteration))
                } else {
                    match self.item(source, pos as int) {
                        Ok(v) => (
                            self.with_payload(
                                it,
                                PayloadView::SubscriptIter {
                                    source,
                                    pos: (pos + 1) as usize,
                                    done: false,
                                },
                            ),
                            Ok(PyIterReturn::Return(v)),
                        ),
                        Err(e) => if spec_ends_walk(e) {
                            (
                                self.with_payload(
                                    it,
                                    PayloadView::SubscriptIter { source, pos, done: true },
                                ),
                                Ok(PyIterReturn::StopIteration),
                            )
                        } else {
                            (self, Err(e))
                        },
                    }
                }
            },
            (
                NextSlot::Sentinel,
                PayloadView::SentinelIter { callable, call, sentinel, pulls, done },
            ) => {
                if done {
                    (self, Ok(PyIterReturn::StopIteration))
                } else if pulls == usize::MAX {
                    (self, Err(Error::CursorOverflow))
                } else {
                    let (h, r) = self.invoke(call, callable, ArgsView::none());
                    match r {
                        Ok(v) => if h.same_value(v, sentinel) {
                            (
                                h.with_payload(
                                    it,
                                    PayloadView::SentinelIter {
                                        callable,
                                        call,
                                        sentinel,
                                        pulls,
                                        done: true,
                                    },
                                ),
                                Ok(PyIterReturn::StopIteration),
                            )
                        } else {
                            (
                                h.with_payload(
                                    it,
                                    PayloadView::SentinelIter {
                                        callable,
                                        call,
                                        sentinel,
                                        pulls: (pulls + 1) as usize,
                                        done: false,
                                    },
                                ),
                                Ok(PyIterReturn::Return(v)),
                            )
                        },
                        Err(e) => (h, Err(e)),
                    }
                }
            },
            (NextSlot::Reversed, PayloadView::ReverseIter { source, remaining }) => {
                if remaining == 0 {
                    (self, Ok(PyIterReturn::StopIteration))
                } else {
                    match self.item(source, remaining - 1) {
                        Ok(v) => (
                            self.with_payload(
                                it,
                                PayloadView::ReverseIter {
                                    source,
                                    remaining: (remaining - 1) as usize,
                                },
                            ),
                            Ok(PyIterReturn::Return(v)),
                        ),
                        Err(e) => if spec_ends_walk(e) {
                            (
                                self.with_payload(
                                    it,
                                    PayloadView::ReverseIter { source, remaining: 0 },
                                ),
                                Ok(PyIterReturn::StopIteration),
                            )
                        } else {
                            (self, Err(e))
                        },
                    }
                }
            },
            _ => (self, Ok(PyIterReturn::StopIteration)),
        }
    }

    /// One pull of `it`: resolves the advance slot of its type, then goes
    /// through it.
    pub open spec fn advance(self, it: ObjRef) -> (Heap, Result<PyIterReturn, Error>) {
        match self.next_slot(self.class_of(it)) {
            Some(slot) => self.advance_through(slot, it),
            None => (self, Err(Error::NotAnIterator { class: self.class_of(it) })),
        }
    }

    /// A bound on the number of items that `it` can still give.
    pub open spec fn pulls_left(self, it: ObjRef) -> nat {
        match self.payload(it) {
            PayloadView::ElementsIter { pos, .. } => (usize::MAX - pos) as nat,
            PayloadView::SubscriptIter { pos, .. } => (usize::MAX - pos) as nat,
            PayloadView::SentinelIter { pulls, .. } => (usize::MAX - pulls) as nat,
            PayloadView::ReverseIter { remaining, .. } => remaining as nat,
            _ => 0,
        }
    }
}

/// A call never removes an object.
pub proof fn lemma_invoke_grows(h: Heap, slot: CallSlot, callee: ObjRef, args: ArgsView)
    ensures
        h.invoke(slot, callee, args).0.objects.len() >= h.objects.len(),
{
    match slot {
        CallSlot::Function => {},
        CallSlot::Construct => {},
    }
}

/// A pull that gives an item uses up one of the pulls that are left.
pub proof fn lemma_advance_progress(h: Heap, it: ObjRef)
    ensures
        h.advance(it).1 matches Ok(PyIterReturn::Return(_)) ==> h.advance(it).0.pulls_left(it)
            < h.pulls_left(it),
        h.advance(it).1 matches Ok(PyIterReturn::Return(_)) ==> h.has(it),
        h.advance(it).0.objects.len() >= h.objects.len(),
{
    match h.payload(it) {
        PayloadView::SentinelIter { callable, call, sentinel, pulls, done } => {
            lemma_invoke_grows(h, call, callable, ArgsView::none());
        },
        _ => {},
    }
}

impl Vm {
    /// The element of `o` at `index`, if `o` stores that many.
    pub fn element_at(&self, o: ObjRef, index: usize) -> (r: Option<ObjRef>)
        ensures
            r == if index < self@.elements(o).len() {
                Some(self@.elements(o)[index as int])
            } else {
                None
            },
    {
        match self.payload(o) {
            Some(Payload::Tuple(items)) => if index < items.len() {
                Some(items[index])
            } else {
                None
            },
            Some(Payload::List(items)) => if index < items.len() {
                Some(items[index])
            } else {
                None
            },
            _ => None,
        }
    }

    /// The number of elements that `o` stores.
    pub fn element_count(&self, o: ObjRef) -> (r: usize)
        ensures
            r == self@.elements(o).len(),
    {
        match self.payload(o) {
            Some(Payload::Tuple(items)) => items.len(),
            Some(Payload::List(items)) => items.len(),
            _ => 0,
        }
    }

    /// The number of entries that `o` stores.
    pub fn entry_count(&self, o: ObjRef) -> (r: usize)
        ensures
            r == self@.entries(o).len(),
    {
        match self.payload(o) {
            Some(Payload::Dict(entries)) => {
                entries.len()
            },
            _ => 0,
        }
    }

    /// Whether `a` and `b` are the same object or hold the same plain value.
    pub fn same_value(&self, a: ObjRef, b: ObjRef) -> (r: bool)
        ensures
            r == self@.same_value(a, b),
    {
        if a.id == b.id {
            return true;
        }
        match (self.payload(a), self.payload(b)) {
            (Some(Payload::Int(x)), Some(Payload::Int(y))) => *x == *y,
            (Some(Payload::Bool(x)), Some(Payload::Bool(y))) => *x == *y,
            (Some(Payload::Str(x)), Some(Payload::Str(y))) => *x == *y,
            (Some(Payload::NoneValue), Some(Payload::NoneValue)) => true,
            _ => false,
        }
    }

    pub fn indexable(&self, o: ObjRef) -> (r: bool)
        ensures
            r == self@.indexable(o),
    {
        match self.sequence_methods(self.class_of(o)) {
            Some(m) => m.item,
            None => false,
        }
    }

    /// The item of `o` at `index`, through the sequence protocol.
    pub fn item(&self, o: ObjRef, index: usize) -> (r: Result<ObjRef, Error>)
        ensures
            r == self@.item(o, index as int),
    {
        if !self.indexable(o) {
            return Err(Error::NotSequence { class: self.class_of(o) });
        }
        match self.element_at(o, index) {
            Some(v) => Ok(v),
            None => Err(Error::IndexOutOfRange),
        }
    }

    /// The number of items of `o`.
    pub fn length(&self, o: ObjRef) -> (r: Result<usize, Error>)
        ensures
            match (r, self@.length(o)) {
                (Ok(n), Ok(m)) => n == m,
                (Err(e), Err(f)) => e == f,
                _ => false,
            },
    {
        let by_sequence = match self.sequence_methods(self.class_of(o)) {
            Some(m) => m.length,
            None => false,
        };
        let by_mapping = match self.mapping_methods(self.class_of(o)) {
            Some(m) => m.length,
            None => false,
        };
        if by_sequence {
            Ok(self.element_count(o))
        } else if by_mapping {
            Ok(self.entry_count(o))
        } else {
            Err(Error::NoLength { class: self.class_of(o) })
        }
    }

    /// The iterator of `o` as the resolved slot `slot` makes it.
    pub fn make_iter(&mut self, o: ObjRef, slot: Option<IterSlot>) -> (r: Result<ObjRef, Error>)
        ensures
            (final(self)@, r) == old(self)@.make_iter(o, slot),
            old(self)@.leads_to(final(self)@),
            old(self)@.intact() && old(self)@.has(o) ==> final(self)@.intact()
                && final(self)@.has_ok(r),
    {
        match slot {
            Some(IterSlot::Elements) => Ok(
                self.new_object(
                    ObjRef { id: LIST_ITERATOR_TYPE },
                    Payload::ElementsIter { source: o, pos: 0 },
                ),
            ),
            Some(IterSlot::Identity) => Ok(o),
            None => if self.indexable(o) {
                Ok(
                    self.new_object(
                        ObjRef { id: ITERATOR_TYPE },
                        Payload::SubscriptIter { source: o, pos: 0, done: false },
                    ),
                )
            } else {
                Err(Error::NotSequence { class: self.class_of(o) })
            },
        }
    }

    /// The iterator of `o`.
    pub fn get_iter(&mut self, o: ObjRef) -> (r: Result<ObjRef, Error>)
        ensures
            (final(self)@, r) == old(self)@.get_iter(o),
            old(self)@.leads_to(final(self)@),
            old(self)@.intact() && old(self)@.has(o) ==> final(self)@.intact()
                && final(self)@.has_ok(r),
    {
        let class = self.class_of(o);
        let slot = self.iter_slot(class);
        if slot.is_none() && self.class_attr(class, crate::protocol::GETITEM).is_none() {
            return Err(Error::NotIterable { class });
        }
        self.make_iter(o, slot)
    }

    /// One pull of the cursor `it` through the resolved slot `slot`.
    pub fn advance_through(&mut self, slot: NextSlot, it: ObjRef) -> (r: Result<
        PyIterReturn,
        Error,
    >)
        ensures
            (final(self)@, r) == old(self)@.advance_through(slot, it),
            old(self)@.leads_to(final(self)@),
            old(self)@.intact() && old(self)@.has(it) ==> final(self)@.intact()
                && final(self)@.has_pulled(r),
    {
        proof {
            if self@.intact() {
                lemma_reads_within(self@, it);
                match self@.payload(it) {
                    PayloadView::ElementsIter { source, .. } => {
                        lemma_reads_within(self@, source);
                    },
                    PayloadView::ReverseIter { source, .. } => {
                        lemma_reads_within(self@, source);
                    },
                    _ => {},
                }
            }
        }
        match slot {
            NextSlot::Elements => {
                let state = match self.payload(it) {
                    Some(Payload::ElementsIter { source, pos }) => Some((*source, *pos)),
                    _ => None,
                };
                match state {
                    Some((source, pos)) => {
                        let item = if pos < usize::MAX {
                            self.element_at(source, pos)
                        } else {
                            None
                        };
                        match item {
                            Some(v) => {
                                self.set_payload(
                                    it,
                                    Payload::ElementsIter { source, pos: pos + 1 },
                                );
                                Ok(PyIterReturn::Return(v))
                            },
                            None => {
                                self.set_payload(
                                    it,
                                    Payload::ElementsIter { source, pos: usize::MAX },
                                );
                                Ok(PyIterReturn::StopIteration)
                            },
                        }
                    },
                    None => Ok(PyIterReturn::StopIteration),
                }
            },
            NextSlot::Subscript => {
                let state = match self.payload(it) {
                    Some(Payload::SubscriptIter { source, pos, done }) => Some(
                        (*source, *pos, *done),
                    ),
                    _ => None,
                };
                match state {
                    Some((source, pos, done)) => {
                        if done || pos == usize::MAX {
                            return Ok(PyIterReturn::StopIteration);
                        }
                        match self.item(source, pos) {
                            Ok(v) => {
                                self.set_payload(
                                    it,
                                    Payload::SubscriptIter { source, pos: pos + 1, done: false },
                                );
                                Ok(PyIterReturn::Return(v))
                            },
                            Err(e) => if ends_walk(e) {
                                self.set_payload(
                                    it,
                                    Payload::SubscriptIter { source, pos, done: true },
                                );
                                Ok(PyIterReturn::StopIteration)
                            } else {
                                Err(e)
                            },
                        }
                    },
                    None => Ok(PyIterReturn::StopIteration),
                }
            },
            NextSlot::Sentinel => {
                let state = match self.payload(it) {
                    Some(Payload::SentinelIter { callable, call, sentinel, pulls, done }) => Some(
                        (*callable, *call, *sentinel, *pulls, *done),
                    ),
                    _ => None,
                };
                match state {
                    Some((callable, call, sentinel, pulls, done)) => {
                        if done {
                            return Ok(PyIterReturn::StopIteration);
                        }
                        if pulls == usize::MAX {
                            return Err(Error::CursorOverflow);
                        }
                        let args = FuncArgs { args: Vec::new(), kwargs: Vec::new() };
                        match self.invoke(call, callable, &args) {
                            Ok(v) => if self.same_value(v, sentinel) {
                                self.set_payload(
                                    it,
                                    Payload::SentinelIter {
                                        callable,
                                        call,
                                        sentinel,
                                        pulls,
                                        done: true,
                                    },
                                );
                                Ok(PyIterReturn::StopIteration)
                            } else {
                                self.set_payload(
                                    it,
                                    Payload::SentinelIter {
                                        callable,
                                        call,
                                        sentinel,
                                        pulls: pulls + 1,
                                        done: false,
                                    },
                                );
                                Ok(PyIterReturn::Return(v))
                            },
                            Err(e) => Err(e),
                        }
                    },
                    None => Ok(PyIterReturn::StopIteration),
                }
            },
            NextSlot::Reversed => {
                let state = match self.payload(it) {
                    Some(Payload::ReverseIter { source, remaining }) => Some(
                        (*source, *remaining),
                    ),
                    _ => None,
                };
                match state {
                    Some((source, remaining)) => {
                        if remaining == 0 {
                            return Ok(PyIterReturn::StopIteration);
                        }
                        match self.item(source, remaining - 1) {
                            Ok(v) => {
                                self.set_payload(
                                    it,
                                    Payload::ReverseIter { source, remaining: remaining - 1 },
                                );
                                Ok(PyIterReturn::Return(v))
                            },
                            Err(e) => if ends_walk(e) {
                                self.set_payload(
                                    it,
                                    Payload::ReverseIter { source, remaining: 0 },
                                );
                                Ok(PyIterReturn::StopIteration)
                            } else {
                                Err(e)
                            },
                        }
                    },
                    None => Ok(PyIterReturn::StopIteration),
                }
            },
        }
    }

    /// One pull of `it`: an item, the end, or the error that the pull
    /// raised. A pull that gives an item uses up one of the pulls left.
    pub fn advance(&mut self, it: ObjRef) -> (r: Result<PyIterReturn, Error>)
        ensures
            (final(self)@, r) == old(self)@.advance(it),
            r matches Ok(PyIterReturn::Return(_)) ==> final(self)@.pulls_left(it) < old(
                self,
            )@.pulls_left(it),
            r matches Ok(PyIterReturn::Return(_)) ==> old(self)@.has(it),
            final(self)@.objects.len() >= old(self)@.objects.len(),
            old(self)@.leads_to(final(self)@),
            old(self)@.intact() && old(self)@.has(it) ==> final(self)@.intact()
                && final(self)@.has_pulled(r),
    {
        proof {
            lemma_advance_progress(self@, it);
        }
        match self.next_slot(self.class_of(it)) {
            Some(slot) => self.advance_through(slot, it),
            None => Err(Error::NotAnIterator { class: self.class_of(it) }),
        }
    }
}

} // verus!
