//! Capability handles: an object checked once to be callable, iterable, a
//! mapping or a sequence, together with the slot that was resolved for it.
//! A handle is a snapshot: it keeps what was resolved when it was bound.

use core::marker::PhantomData;
use vstd::prelude::*;

use crate::error::Error;
use crate::heap::{lemma_resolve_kept, lookup, Heap};
use crate::iteration::PyIterReturn;
use crate::object::{
    CallSlot, Capability, FuncArgs, IterSlot, MappingMethods, ObjRef, Payload, PayloadView,
};
use crate::vm::Vm;

verus! {

/// The attribute by which a type shows that its objects can be read by
/// index.
pub const GETITEM: &'static str = "__getitem__";

impl Heap {
    /// How `o` is to be iterated: through the iterate slot of its type, or,
    /// where the type has none but defines `__getitem__`, by index (`None`).
    /// Anything else is not iterable.
    pub open spec fn iter_plan(self, o: ObjRef) -> Result<Option<IterSlot>, Error> {
        match self.iter_slot(self.class_of(o)) {
            Some(slot) => Ok(Some(slot)),
            None => if self.class_attr(self.class_of(o), GETITEM@) is Some {
                Ok(None)
            } else {
                Err(Error::NotIterable { class: self.class_of(o) })
            },
        }
    }

    /// The mapping methods under which `o` is bound as a mapping: those its
    /// type resolves, provided they hold the subscript operation.
    pub open spec fn mapping_plan(self, o: ObjRef) -> Result<MappingMethods, Error> {
        match self.mapping_methods(self.class_of(o)) {
            Some(m) => if m.subscript {
                Ok(m)
            } else {
                Err(Error::NotMapping { class: self.class_of(o) })
            },
            None => Err(Error::NotMapping { class: self.class_of(o) }),
        }
    }

    /// The truth value of `o`: `None`, `False`, zero and empty text and
    /// containers are false, everything else is true.
    pub open spec fn truthy(self, o: ObjRef) -> bool {
        match self.payload(o) {
            PayloadView::NoneValue => false,
            PayloadView::Bool(b) => b,
            PayloadView::Int(i) => i != 0,
            PayloadView::Str(s) => s.len() > 0,
            PayloadView::Tuple(items) => items.len() > 0,
            PayloadView::List(items) => items.len() > 0,
            PayloadView::Dict(entries) => entries.len() > 0,
            PayloadView::Bytes(b) => b.len() > 0,
            _ => true,
        }
    }

    /// The integer that `o` holds; a truth value counts as 0 or 1.
    pub open spec fn integer(self, o: ObjRef) -> Result<i64, Error> {
        match self.payload(o) {
            PayloadView::Int(i) => Ok(i),
            PayloadView::Bool(b) => Ok(if b { 1i64 } else { 0i64 }),
            _ => Err(Error::NotAnInteger { class: self.class_of(o) }),
        }
    }
}

/// The conversion of an object into a native value. Every type that native
/// code can ask for implements it: given an object, it produces the value
/// or says why the object does not fit. A conversion may run code of the
/// object (a sequence pulls its iterator to the end), so it takes the arena
/// for writing.
pub trait TryFromObject: Sized {
    /// The arena after `obj` was converted in the arena `heap`.
    spec fn settled(heap: Heap, obj: ObjRef) -> Heap;

    /// Whether `r` is what the conversion of `obj` in the arena `heap`
    /// gives.
    spec fn accepts(heap: Heap, obj: ObjRef, r: Result<Self, Error>) -> bool;

    fn try_from_object(vm: &mut Vm, obj: ObjRef) -> (r: Result<Self, Error>)
        ensures
            final(vm)@ == Self::settled(old(vm)@, obj),
            Self::accepts(old(vm)@, obj, r),
            old(vm)@.leads_to(final(vm)@),
            old(vm)@.intact() && old(vm)@.has(obj) ==> final(vm)@.intact(),
    ;
}

/// A conversion that only reads: what it gives is a function of the arena
/// and the object, and the arena stays as it is. The handles on a callable,
/// an iterable and a mapping are bound so, and the plain values are read so.
pub trait ReadFromObject: Sized {
    /// What the conversion of `obj` gives in the arena `heap`.
    spec fn converted(heap: Heap, obj: ObjRef) -> Result<Self, Error>;

    fn read_from_object(vm: &Vm, obj: ObjRef) -> (r: Result<Self, Error>)
        ensures
            r == Self::converted(vm@, obj),
    ;

    /// A conversion reads the object and what its type resolves, so it
    /// gives the same in every arena that keeps the objects of a sound one.
    proof fn lemma_converted_kept(before: Heap, after: Heap, obj: ObjRef)
        requires
            before.sound(),
            before.has(obj),
            before.kept_by(after),
        ensures
            Self::converted(before, obj) == Self::converted(after, obj),
    ;

    /// Whether every object that the value holds lies in the arena `heap`.
    spec fn lies_in(&self, heap: Heap) -> bool;

    /// What is converted from an object of an arena lies in that arena.
    proof fn lemma_converted_within(heap: Heap, obj: ObjRef)
        requires
            heap.has(obj),
        ensures
            Self::converted(heap, obj) matches Ok(v) ==> v.lies_in(heap),
    ;

    /// What lies in an arena lies in every arena with at least as many
    /// objects.
    proof fn lemma_lies_in_later(&self, heap: Heap, later: Heap)
        requires
            self.lies_in(heap),
            heap.objects.len() <= later.objects.len(),
        ensures
            self.lies_in(later),
    ;
}

impl ReadFromObject for ObjRef {
    open spec fn converted(heap: Heap, obj: ObjRef) -> Result<Self, Error> {
        Ok(obj)
    }

    fn read_from_object(vm: &Vm, obj: ObjRef) -> (r: Result<Self, Error>) {
        Ok(obj)
    }

    open spec fn lies_in(&self, heap: Heap) -> bool {
        heap.has(*self)
    }

    proof fn lemma_converted_within(heap: Heap, obj: ObjRef) {
    }

    proof fn lemma_lies_in_later(&self, heap: Heap, later: Heap) {
    }

    proof fn lemma_converted_kept(before: Heap, after: Heap, obj: ObjRef) {
    }
}

impl TryFromObject for ObjRef {
    open spec fn settled(heap: Heap, obj: ObjRef) -> Heap {
        heap
    }

    open spec fn accepts(heap: Heap, obj: ObjRef, r: Result<Self, Error>) -> bool {
        r == <Self>::converted(heap, obj)
    }

    fn try_from_object(vm: &mut Vm, obj: ObjRef) -> (r: Result<Self, Error>) {
        <Self>::read_from_object(vm, obj)
    }
}

/// A truth value taken from any object.
#[derive(Clone, Copy, Debug, PartialEq, Eq, Structural)]
pub struct ArgIntoBool {
    pub value: bool,
}

impl ReadFromObject for ArgIntoBool {
    open spec fn converted(heap: Heap, obj: ObjRef) -> Result<Self, Error> {
        Ok(ArgIntoBool { value: heap.truthy(obj) })
    }

    fn read_from_object(vm: &Vm, obj: ObjRef) -> (r: Result<Self, Error>) {
        Ok(ArgIntoBool { value: vm.truthy(obj) })
    }

    open spec fn lies_in(&self, heap: Heap) -> bool {
        true
    }

    proof fn lemma_converted_within(heap: Heap, obj: ObjRef) {
    }

    proof fn lemma_lies_in_later(&self, heap: Heap, later: Heap) {
    }

    proof fn lemma_converted_kept(before: Heap, after: Heap, obj: ObjRef) {
    }
}

impl TryFromObject for ArgIntoBool {
    open spec fn settled(heap: Heap, obj: ObjRef) -> Heap {
        heap
    }

    open spec fn accepts(heap: Heap, obj: ObjRef, r: Result<Self, Error>) -> bool {
        r == <Self>::converted(heap, obj)
    }

    fn try_from_object(vm: &mut Vm, obj: ObjRef) -> (r: Result<Self, Error>) {
        <Self>::read_from_object(vm, obj)
    }
}

impl ReadFromObject for i64 {
    open spec fn converted(heap: Heap, obj: ObjRef) -> Result<Self, Error> {
        heap.integer(obj)
    }

    fn read_from_object(vm: &Vm, obj: ObjRef) -> (r: Result<Self, Error>) {
        vm.integer(obj)
    }

    open spec fn lies_in(&self, heap: Heap) -> bool {
        true
    }

    proof fn lemma_converted_within(heap: Heap, obj: ObjRef) {
    }

    proof fn lemma_lies_in_later(&self, heap: Heap, later: Heap) {
    }

    proof fn lemma_converted_kept(before: Heap, after: Heap, obj: ObjRef) {
    }
}

impl TryFromObject for i64 {
    open spec fn settled(heap: Heap, obj: ObjRef) -> Heap {
        heap
    }

    open spec fn accepts(heap: Heap, obj: ObjRef, r: Result<Self, Error>) -> bool {
        r == <Self>::converted(heap, obj)
    }

    fn try_from_object(vm: &mut Vm, obj: ObjRef) -> (r: Result<Self, Error>) {
        <Self>::read_from_object(vm, obj)
    }
}

impl Vm {
    /// The truth value of `o`.
    pub fn truthy(&self, o: ObjRef) -> (r: bool)
        ensures
            r == self@.truthy(o),
    {
        match self.payload(o) {
            Some(Payload::NoneValue) => false,
            Some(Payload::Bool(b)) => *b,
            Some(Payload::Int(i)) => *i != 0,
            Some(Payload::Str(s)) => s.as_str().unicode_len() > 0,
            Some(Payload::Tuple(items)) => items.len() > 0,
            Some(Payload::List(items)) => items.len() > 0,
            Some(Payload::Dict(entries)) => {
                entries.len() > 0
            },
            Some(Payload::Bytes(b)) => b.len() > 0,
            _ => true,
        }
    }

    /// The integer that `o` holds.
    pub fn integer(&self, o: ObjRef) -> (r: Result<i64, Error>)
        ensures
            r == self@.integer(o),
    {
        match self.payload(o) {
            Some(Payload::Int(i)) => Ok(*i),
            Some(Payload::Bool(b)) => Ok(if *b { 1 } else { 0 }),
            _ => Err(Error::NotAnInteger { class: self.class_of(o) }),
        }
    }
}

/// A callable object, with the call slot that was resolved for it.
#[derive(Clone, Copy, Debug)]
pub struct ArgCallable {
    obj: ObjRef,
    call: CallSlot,
}

impl ArgCallable {
    /// The object that was bound.
    pub closed spec fn callee(&self) -> ObjRef {
        self.obj
    }

    /// The call slot that was resolved when the object was bound.
    pub closed spec fn slot(&self) -> CallSlot {
        self.call
    }

    /// The object that was bound.
    pub fn as_object(&self) -> (r: ObjRef)
        ensures
            r == self.callee(),
    {
        self.obj
    }

    /// The call slot that was resolved when the object was bound.
    pub fn resolved_slot(&self) -> (r: CallSlot)
        ensures
            r == self.slot(),
    {
        self.call
    }

    /// Calls the object through the slot that was resolved at binding time:
    /// returns what the callee returns, or the error it raises.
    pub fn invoke(&self, args: &FuncArgs, vm: &mut Vm) -> (r: Result<ObjRef, Error>)
        ensures
            (final(vm)@, r) == old(vm)@.invoke(self.slot(), self.callee(), args@),
            old(vm)@.leads_to(final(vm)@),
            old(vm)@.intact() && old(vm)@.has(self.callee()) && old(vm)@.holds(args@)
                ==> final(vm)@.intact() && final(vm)@.has_ok(r),
    {
        vm.invoke(self.call, self.obj, args)
    }
}

impl ReadFromObject for ArgCallable {
    closed spec fn converted(heap: Heap, obj: ObjRef) -> Result<Self, Error> {
        match heap.call_slot(heap.class_of(obj)) {
            Some(call) => Ok(ArgCallable { obj, call }),
            None => Err(Error::NotCallable { class: heap.class_of(obj) }),
        }
    }

    /// Binds `obj` as a callable. It succeeds exactly when the ancestors of
    /// the type of `obj` hold a call slot; nothing is called.
    fn read_from_object(vm: &Vm, obj: ObjRef) -> (r: Result<Self, Error>)
        ensures
            match r {
                Ok(handle) => handle.callee() == obj && vm@.call_slot(vm@.class_of(obj)) == Some(
                    handle.slot(),
                ),
                Err(e) => vm@.call_slot(vm@.class_of(obj)) is None && e == (Error::NotCallable {
                    class: vm@.class_of(obj),
                }),
            },
    {
        match vm.call_slot(vm.class_of(obj)) {
            Some(call) => Ok(ArgCallable { obj, call }),
            None => Err(Error::NotCallable { class: vm.class_of(obj) }),
        }
    }

    open spec fn lies_in(&self, heap: Heap) -> bool {
        heap.has(self.callee())
    }

    proof fn lemma_converted_within(heap: Heap, obj: ObjRef) {
    }

    proof fn lemma_lies_in_later(&self, heap: Heap, later: Heap) {
    }

    proof fn lemma_converted_kept(before: Heap, after: Heap, obj: ObjRef) {
        lemma_resolve_kept(before, after, obj, Capability::Call, Seq::empty());
    }
}

impl TryFromObject for ArgCallable {
    open spec fn settled(heap: Heap, obj: ObjRef) -> Heap {
        heap
    }

    open spec fn accepts(heap: Heap, obj: ObjRef, r: Result<Self, Error>) -> bool {
        r == <Self>::converted(heap, obj)
    }

    /// Binds `obj` as a callable. It succeeds exactly when the ancestors of
    /// the type of `obj` hold a call slot; nothing is called and the arena
    /// stays as it is.
    fn try_from_object(vm: &mut Vm, obj: ObjRef) -> (r: Result<Self, Error>)
        ensures
            final(vm)@ == old(vm)@,
            match r {
                Ok(handle) => handle.callee() == obj && old(vm)@.call_slot(
                    old(vm)@.class_of(obj),
                ) == Some(handle.slot()),
                Err(e) => old(vm)@.call_slot(old(vm)@.class_of(obj)) is None && e == (
                Error::NotCallable { class: old(vm)@.class_of(obj) }),
            },
    {
        <Self>::read_from_object(vm, obj)
    }
}

/// An iterable object whose items are converted to `T` as they are pulled.
pub struct ArgIterable<T> {
    iterable: ObjRef,
    iter_fn: Option<IterSlot>,
    _item: PhantomData<T>,
}

/// The lazy, forward-only, single-pass sequence of the items of an
/// iterable. Its position lives in the arena, so it is used up once its end
/// was reached.
pub struct PyIterIter<T> {
    iterator: ObjRef,
    _item: PhantomData<T>,
}

impl<T: ReadFromObject> PyIterIter<T> {
    /// The iterator object that is pulled.
    pub closed spec fn cursor(&self) -> ObjRef {
        self.iterator
    }

    /// What a pull gives once the raw outcome is known: an item is
    /// converted, the end is `None`, and an error comes out as it is.
    pub open spec fn delivered(heap: Heap, step: Result<PyIterReturn, Error>) -> Option<
        Result<T, Error>,
    > {
        match step {
            Ok(PyIterReturn::Return(v)) => Some(T::converted(heap, v)),
            Ok(PyIterReturn::StopIteration) => None,
            Err(e) => Some(Err(e)),
        }
    }

    /// A lazy sequence over the iterator object `iterator`.
    pub fn new(iterator: ObjRef) -> (r: Self)
        ensures
            r.cursor() == iterator,
    {
        PyIterIter { iterator, _item: PhantomData }
    }

    /// The iterator object that is pulled.
    pub fn as_object(&self) -> (r: ObjRef)
        ensures
            r == self.cursor(),
    {
        self.iterator
    }

    /// Pulls the next item: advances the iterator once and converts what it
    /// gave. `None` is the end; a failed pull or a failed conversion comes
    /// out as `Some(Err(..))` and the caller decides whether to go on.
    pub fn next(&self, vm: &mut Vm) -> (r: Option<Result<T, Error>>)
        ensures
            final(vm)@ == old(vm)@.advance(self.cursor()).0,
            r == Self::delivered(final(vm)@, old(vm)@.advance(self.cursor()).1),
            old(vm)@.advance(self.cursor()).1 matches Ok(PyIterReturn::Return(_))
                ==> final(vm)@.pulls_left(self.cursor()) < old(vm)@.pulls_left(self.cursor()),
            old(vm)@.leads_to(final(vm)@),
            old(vm)@.intact() && old(vm)@.has(self.cursor()) ==> final(vm)@.intact() && (
            r matches Some(Ok(v)) ==> v.lies_in(final(vm)@)),
    {
        match vm.advance(self.iterator) {
            Ok(PyIterReturn::Return(v)) => {
                proof {
                    if vm@.has(v) {
                        T::lemma_converted_within(vm@, v);
                    }
                }
                Some(T::read_from_object(vm, v))
            },
            Ok(PyIterReturn::StopIteration) => None,
            Err(e) => Some(Err(e)),
        }
    }
}

impl<T: ReadFromObject> ArgIterable<T> {
    /// The object that was bound.
    pub closed spec fn source(&self) -> ObjRef {
        self.iterable
    }

    /// The iterate slot that was resolved when the object was bound; `None`
    /// means that the object is walked by index.
    pub closed spec fn slot(&self) -> Option<IterSlot> {
        self.iter_fn
    }

    /// The object that was bound.
    pub fn as_object(&self) -> (r: ObjRef)
        ensures
            r == self.source(),
    {
        self.iterable
    }

    /// Begins an iteration: makes the iterator through the slot resolved at
    /// binding time, or, without one, a cursor that reads by index from 0.
    pub fn iter(&self, vm: &mut Vm) -> (r: Result<PyIterIter<T>, Error>)
        ensures
            final(vm)@ == old(vm)@.make_iter(self.source(), self.slot()).0,
            match (r, old(vm)@.make_iter(self.source(), self.slot()).1) {
                (Ok(items), Ok(it)) => items.cursor() == it,
                (Err(e), Err(f)) => e == f,
                _ => false,
            },
            old(vm)@.leads_to(final(vm)@),
            old(vm)@.intact() && old(vm)@.has(self.source()) ==> final(vm)@.intact() && (
            r matches Ok(items) ==> final(vm)@.has(items.cursor())),
    {
        match vm.make_iter(self.iterable, self.iter_fn) {
            Ok(iterator) => Ok(PyIterIter { iterator, _item: PhantomData }),
            Err(e) => Err(e),
        }
    }
}

impl<T: ReadFromObject> ReadFromObject for ArgIterable<T> {
    closed spec fn converted(heap: Heap, obj: ObjRef) -> Result<Self, Error> {
        match heap.iter_plan(obj) {
            Ok(iter_fn) => Ok(ArgIterable { iterable: obj, iter_fn, _item: PhantomData }),
            Err(e) => Err(e),
        }
    }

    /// Binds `obj` as an iterable. It succeeds exactly when the ancestors of
    /// the type of `obj` hold an iterate slot or define `__getitem__`;
    /// nothing is called and no item is converted yet.
    fn read_from_object(vm: &Vm, obj: ObjRef) -> (r: Result<Self, Error>)
        ensures
            match (r, vm@.iter_plan(obj)) {
                (Ok(handle), Ok(slot)) => handle.source() == obj && handle.slot() == slot,
                (Err(e), Err(f)) => e == f,
                _ => false,
            },
    {
        let class = vm.class_of(obj);
        let iter_fn = vm.iter_slot(class);
        if iter_fn.is_none() && vm.class_attr(class, GETITEM).is_none() {
            return Err(Error::NotIterable { class });
        }
        Ok(ArgIterable { iterable: obj, iter_fn, _item: PhantomData })
    }

    open spec fn lies_in(&self, heap: Heap) -> bool {
        heap.has(self.source())
    }

    proof fn lemma_converted_within(heap: Heap, obj: ObjRef) {
    }

    proof fn lemma_lies_in_later(&self, heap: Heap, later: Heap) {
    }

    proof fn lemma_converted_kept(before: Heap, after: Heap, obj: ObjRef) {
        lemma_resolve_kept(before, after, obj, Capability::Iter, GETITEM@);
    }
}

impl<T: ReadFromObject> TryFromObject for ArgIterable<T> {
    open spec fn settled(heap: Heap, obj: ObjRef) -> Heap {
        heap
    }

    open spec fn accepts(heap: Heap, obj: ObjRef, r: Result<Self, Error>) -> bool {
        r == <Self>::converted(heap, obj)
    }

    /// Binds `obj` as an iterable. It succeeds exactly when the ancestors of
    /// the type of `obj` hold an iterate slot or define `__getitem__`;
    /// nothing is called, no item is converted yet, and the arena stays as
    /// it is.
    fn try_from_object(vm: &mut Vm, obj: ObjRef) -> (r: Result<Self, Error>)
        ensures
            final(vm)@ == old(vm)@,
            match (r, old(vm)@.iter_plan(obj)) {
                (Ok(handle), Ok(slot)) => handle.source() == obj && handle.slot() == slot,
                (Err(e), Err(f)) => e == f,
                _ => false,
            },
    {
        <Self>::read_from_object(vm, obj)
    }
}

/// The mapping protocol on one object: the object and the methods through
/// which it is read and written.
#[derive(Clone, Copy, Debug)]
pub struct PyMapping {
    pub obj: ObjRef,
    pub methods: MappingMethods,
}

impl PyMapping {
    /// The number of entries, through the length operation.
    pub open spec fn spec_length(self, heap: Heap) -> Result<nat, Error> {
        if self.methods.length {
            Ok(heap.entries(self.obj).len())
        } else {
            Err(Error::NoLength { class: heap.class_of(self.obj) })
        }
    }

    /// The item under `key`, through the subscript operation.
    pub open spec fn spec_subscript(self, heap: Heap, key: Seq<char>) -> Result<ObjRef, Error> {
        if self.methods.subscript {
            match lookup(heap.entries(self.obj), key) {
                Some(v) => Ok(v),
                None => Err(Error::KeyMissing),
            }
        } else {
            Err(Error::NotSubscriptable { class: heap.class_of(self.obj) })
        }
    }

    pub fn length(&self, vm: &Vm) -> (r: Result<usize, Error>)
        ensures
            match (r, self.spec_length(vm@)) {
                (Ok(n), Ok(m)) => n == m,
                (Err(e), Err(f)) => e == f,
                _ => false,
            },
    {
        if self.methods.length {
            Ok(vm.entry_count(self.obj))
        } else {
            Err(Error::NoLength { class: vm.class_of(self.obj) })
        }
    }

    pub fn subscript(&self, vm: &Vm, key: &str) -> (r: Result<ObjRef, Error>)
        ensures
            r == self.spec_subscript(vm@, key@),
    {
        if !self.methods.subscript {
            return Err(Error::NotSubscriptable { class: vm.class_of(self.obj) });
        }
        let found = match vm.payload(self.obj) {
            Some(Payload::Dict(entries)) => crate::lookup::lookup_entry(entries, key),
            _ => None,
        };
        match found {
            Some(v) => Ok(v),
            None => Err(Error::KeyMissing),
        }
    }
}

/// A mapping object, with the mapping methods that were resolved for it.
#[derive(Clone, Copy, Debug, PartialEq, Eq, Structural)]
pub struct ArgMapping {
    obj: ObjRef,
    methods: MappingMethods,
}

impl ArgMapping {
    /// The object that was bound.
    pub closed spec fn target(&self) -> ObjRef {
        self.obj
    }

    /// The methods that were resolved when the object was bound.
    pub closed spec fn resolved(&self) -> MappingMethods {
        self.methods
    }

    /// A handle on `obj` with the given methods, without any check.
    pub fn with_methods(obj: ObjRef, methods: MappingMethods) -> (r: Self)
        ensures
            r.target() == obj,
            r.resolved() == methods,
    {
        ArgMapping { obj, methods }
    }

    /// A handle on an object known to be a plain dictionary: it gets the
    /// methods of `dict` without any look at the object.
    pub fn from_dict_exact(dict: ObjRef) -> (r: Self)
        ensures
            r.target() == dict,
            r.resolved() == (MappingMethods { length: true, subscript: true, ass_subscript: true }),
    {
        ArgMapping {
            obj: dict,
            methods: MappingMethods { length: true, subscript: true, ass_subscript: true },
        }
    }

    /// The mapping protocol on the bound object.
    pub fn mapping(&self) -> (r: PyMapping)
        ensures
            r.obj == self.target(),
            r.methods == self.resolved(),
    {
        PyMapping { obj: self.obj, methods: self.methods }
    }

    /// The object that was bound.
    pub fn as_object(&self) -> (r: ObjRef)
        ensures
            r == self.target(),
    {
        self.obj
    }
}

impl ReadFromObject for ArgMapping {
    closed spec fn converted(heap: Heap, obj: ObjRef) -> Result<Self, Error> {
        match heap.mapping_plan(obj) {
            Ok(methods) => Ok(ArgMapping { obj, methods }),
            Err(e) => Err(e),
        }
    }

    /// Binds `obj` as a mapping. It succeeds exactly when the ancestors of
    /// the type of `obj` hold mapping methods with the subscript operation;
    /// nothing is called.
    fn read_from_object(vm: &Vm, obj: ObjRef) -> (r: Result<Self, Error>)
        ensures
            match (r, vm@.mapping_plan(obj)) {
                (Ok(handle), Ok(methods)) => handle.target() == obj && handle.resolved()
                    == methods,
                (Err(e), Err(f)) => e == f,
                _ => false,
            },
    {
        let class = vm.class_of(obj);
        match vm.mapping_methods(class) {
            Some(methods) => if methods.subscript {
                Ok(ArgMapping { obj, methods })
            } else {
                Err(Error::NotMapping { class })
            },
            None => Err(Error::NotMapping { class }),
        }
    }

    open spec fn lies_in(&self, heap: Heap) -> bool {
        heap.has(self.target())
    }

    proof fn lemma_converted_within(heap: Heap, obj: ObjRef) {
    }

    proof fn lemma_lies_in_later(&self, heap: Heap, later: Heap) {
    }

    proof fn lemma_converted_kept(before: Heap, after: Heap, obj: ObjRef) {
        lemma_resolve_kept(before, after, obj, Capability::Mapping, Seq::empty());
    }
}

impl TryFromObject for ArgMapping {
    open spec fn settled(heap: Heap, obj: ObjRef) -> Heap {
        heap
    }

    open spec fn accepts(heap: Heap, obj: ObjRef, r: Result<Self, Error>) -> bool {
        r == <Self>::converted(heap, obj)
    }

    /// Binds `obj` as a mapping. It succeeds exactly when the ancestors of
    /// the type of `obj` hold mapping methods with the subscript operation;
    /// nothing is called and the arena stays as it is.
    fn try_from_object(vm: &mut Vm, obj: ObjRef) -> (r: Result<Self, Error>)
        ensures
            final(vm)@ == old(vm)@,
            match (r, old(vm)@.mapping_plan(obj)) {
                (Ok(handle), Ok(methods)) => handle.target() == obj && handle.resolved()
                    == methods,
                (Err(e), Err(f)) => e == f,
                _ => false,
            },
    {
        <Self>::read_from_object(vm, obj)
    }
}

/// Capability rejection: an object whose type resolves no call slot is not
/// bound as a callable, one whose type resolves no iterate slot and defines
/// no `__getitem__` is not bound as an iterable, and one whose type
/// resolves no mapping methods with the subscript operation is not bound as
/// a mapping. Each refusal is a type mismatch that names the type of the
/// object. Binding reads the arena and never changes it.
pub proof fn lemma_capability_rejection<T: ReadFromObject>(heap: Heap, obj: ObjRef)
    ensures
        heap.call_slot(heap.class_of(obj)) is None ==> ArgCallable::converted(heap, obj) == Err::<
            ArgCallable,
            Error,
        >(Error::NotCallable { class: heap.class_of(obj) }),
        heap.iter_slot(heap.class_of(obj)) is None && heap.class_attr(
            heap.class_of(obj),
            GETITEM@,
        ) is None ==> ArgIterable::<T>::converted(heap, obj) == Err::<ArgIterable<T>, Error>(
            Error::NotIterable { class: heap.class_of(obj) },
        ),
        !(heap.mapping_methods(heap.class_of(obj)) matches Some(m) && m.subscript)
            ==> ArgMapping::converted(heap, obj) == Err::<ArgMapping, Error>(
            Error::NotMapping { class: heap.class_of(obj) },
        ),
        (Error::NotCallable { class: heap.class_of(obj) }).spec_kind()
            == crate::error::ErrorKind::TypeMismatch,
        (Error::NotIterable { class: heap.class_of(obj) }).spec_kind()
            == crate::error::ErrorKind::TypeMismatch,
        (Error::NotMapping { class: heap.class_of(obj) }).spec_kind()
            == crate::error::ErrorKind::TypeMismatch,
{
}

} // verus!
