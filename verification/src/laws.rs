//! What holds of iteration and materialization in every arena: the items
//! that a cursor over stored elements gives, and the equalities between
//! the ways to reach them.

use vstd::prelude::*;

use crate::error::{Error, ErrorKind};
use crate::heap::{
    lemma_resolve_kept, Heap, ITERATOR_TYPE, LIST_ITERATOR_TYPE, LIST_TYPE, TUPLE_TYPE, TYPE_TYPE,
};
use crate::iteration::PyIterReturn;
use crate::object::{
    ArgsView, AttrView, CallSlot, Capability, IterSlot, NextSlot, ObjRef, PayloadView, RoutineView,
};
use crate::protocol::{ReadFromObject, GETITEM};
use crate::sequence::{collect, convert_all, lazily, materialize};

verus! {

/// In an arena with the built-in types in place, lists and tuples are
/// iterated through fresh cursors, and the built-in cursors advance each in
/// its own way.
pub proof fn lemma_standard_slots(h: Heap)
    requires
        h.standard(),
    ensures
        h.iter_slot(ObjRef { id: LIST_TYPE }) == Some(IterSlot::Elements),
        h.iter_slot(ObjRef { id: TUPLE_TYPE }) == Some(IterSlot::Elements),
        h.next_slot(ObjRef { id: LIST_ITERATOR_TYPE }) == Some(NextSlot::Elements),
        h.next_slot(ObjRef { id: ITERATOR_TYPE }) == Some(NextSlot::Subscript),
{
}

/// A cursor over the stored elements of `source` that stands at `pos`
/// gives, pulled to its end, the conversions of the elements from `pos` on,
/// as they convert in the arena `base` in which `source` was found; and the
/// pulling leaves every object of `base` as it is.
pub proof fn lemma_elements_cursor<T: ReadFromObject>(
    base: Heap,
    h: Heap,
    it: ObjRef,
    source: ObjRef,
    pos: usize,
)
    requires
        base.standard(),
        base.sound(),
        base.has(source),
        base.elements(source).len() <= usize::MAX,
        base.kept_by(h),
        !base.has(it),
        h.has(it),
        h.class_of(it) == (ObjRef { id: LIST_ITERATOR_TYPE }),
        h.payload(it) == (PayloadView::ElementsIter { source, pos }),
    ensures
        collect::<T>(h, it).1 == convert_all::<T>(base, base.elements(source), pos as int),
        base.kept_by(collect::<T>(h, it).0),
        collect::<T>(h, it).0.objects.len() == h.objects.len(),
    decreases base.elements(source).len() - pos,
{
    lemma_standard_slots(h);
    let items = base.elements(source);
    if pos < items.len() {
        let next = h.with_payload(
            it,
            PayloadView::ElementsIter { source, pos: (pos + 1) as usize },
        );
        T::lemma_converted_kept(base, next, items[pos as int]);
        if T::converted(next, items[pos as int]) is Ok {
            lemma_elements_cursor::<T>(base, next, it, source, (pos + 1) as usize);
        }
    }
}

/// A cursor that reads `source` by index and stands at `pos` gives, pulled
/// to its end, the conversions of the elements from `pos` on, as they
/// convert in the arena `base` in which `source` was found.
pub proof fn lemma_subscript_cursor<T: ReadFromObject>(
    base: Heap,
    h: Heap,
    it: ObjRef,
    source: ObjRef,
    pos: usize,
)
    requires
        base.standard(),
        base.sound(),
        base.has(source),
        base.indexable(source),
        base.elements(source).len() <= usize::MAX,
        base.kept_by(h),
        !base.has(it),
        h.has(it),
        h.class_of(it) == (ObjRef { id: ITERATOR_TYPE }),
        h.payload(it) == (PayloadView::SubscriptIter { source, pos, done: false }),
        pos <= base.elements(source).len(),
    ensures
        collect::<T>(h, it).1 == convert_all::<T>(base, base.elements(source), pos as int),
        base.kept_by(collect::<T>(h, it).0),
    decreases base.elements(source).len() - pos,
{
    lemma_standard_slots(h);
    lemma_resolve_kept(base, h, source, Capability::Sequence, Seq::empty());
    let items = base.elements(source);
    if pos < items.len() {
        let next = h.with_payload(
            it,
            PayloadView::SubscriptIter { source, pos: (pos + 1) as usize, done: false },
        );
        T::lemma_converted_kept(base, next, items[pos as int]);
        if T::converted(next, items[pos as int]) is Ok {
            lemma_subscript_cursor::<T>(base, next, it, source, (pos + 1) as usize);
        }
    }
}

/// The items of an object that is iterated through a fresh cursor over its
/// stored elements: the lazy way gives the conversions of those elements,
/// in order, or the error of the first that does not convert.
pub proof fn lemma_lazily_elements<T: ReadFromObject>(heap: Heap, obj: ObjRef)
    requires
        heap.intact(),
        heap.fits(),
        heap.has(obj),
        heap.iter_slot(heap.class_of(obj)) == Some(IterSlot::Elements),
    ensures
        lazily::<T>(heap, obj).1 == convert_all::<T>(heap, heap.elements(obj), 0),
        heap.kept_by(lazily::<T>(heap, obj).0),
        lazily::<T>(heap, obj).0.objects.len() == heap.objects.len() + 1,
{
    let h = heap.make_iter(obj, Some(IterSlot::Elements)).0;
    lemma_elements_cursor::<T>(heap, h, heap.next_ref(), obj, 0);
}

/// The items of an object that has no iterate slot and is read by index:
/// the lazy way gives the conversions of its stored elements, in order, or
/// the error of the first that does not convert.
pub proof fn lemma_lazily_subscript<T: ReadFromObject>(heap: Heap, obj: ObjRef)
    requires
        heap.intact(),
        heap.fits(),
        heap.has(obj),
        heap.iter_plan(obj) == Ok::<Option<IterSlot>, Error>(None),
        heap.indexable(obj),
    ensures
        lazily::<T>(heap, obj).1 == convert_all::<T>(heap, heap.elements(obj), 0),
        heap.kept_by(lazily::<T>(heap, obj).0),
{
    let h = heap.make_iter(obj, None).0;
    lemma_subscript_cursor::<T>(heap, h, heap.next_ref(), obj, 0);
}

/// Two iterations of one source give the same items in the same order:
/// where an object is iterated through fresh cursors over its stored
/// elements, a second handle bound after the first was pulled to its end
/// gives what the first gave.
pub proof fn lemma_iteration_repeats<T: ReadFromObject>(heap: Heap, obj: ObjRef)
    requires
        heap.intact(),
        heap.fits(),
        heap.has(obj),
        heap.objects.len() < usize::MAX,
        heap.iter_slot(heap.class_of(obj)) == Some(IterSlot::Elements),
    ensures
        lazily::<T>(lazily::<T>(heap, obj).0, obj).1 == lazily::<T>(heap, obj).1,
{
    lemma_lazily_elements::<T>(heap, obj);
    let after = lazily::<T>(heap, obj).0;
    lemma_resolve_kept(heap, after, obj, Capability::Iter, GETITEM@);
    let h = after.make_iter(obj, Some(IterSlot::Elements)).0;
    lemma_elements_cursor::<T>(heap, h, after.next_ref(), obj, 0);
}

/// Fallback equivalence: an object that is read by index gives the same
/// items, in the same order, as an object with the same stored elements
/// that is iterated through its iterate slot.
pub proof fn lemma_fallback_matches_native<T: ReadFromObject>(
    heap: Heap,
    indexed: ObjRef,
    native: ObjRef,
)
    requires
        heap.intact(),
        heap.fits(),
        heap.has(indexed),
        heap.has(native),
        heap.elements(indexed) == heap.elements(native),
        heap.iter_plan(indexed) == Ok::<Option<IterSlot>, Error>(None),
        heap.indexable(indexed),
        heap.iter_slot(heap.class_of(native)) == Some(IterSlot::Elements),
    ensures
        lazily::<T>(heap, indexed).1 == lazily::<T>(heap, native).1,
        lazily::<T>(heap, indexed).1 == convert_all::<T>(heap, heap.elements(indexed), 0),
{
    lemma_lazily_subscript::<T>(heap, indexed);
    lemma_lazily_elements::<T>(heap, native);
}

/// Eager materialization matches lazy iteration: binding an object as a
/// sequence gives the items that binding it as an iterable and pulling the
/// iteration to its end gives, or the same error.
pub proof fn lemma_eager_matches_lazy<T: ReadFromObject>(heap: Heap, obj: ObjRef)
    requires
        heap.intact(),
        heap.fits(),
        heap.has(obj),
    ensures
        materialize::<T>(heap, obj).1 == lazily::<T>(heap, obj).1,
{
    let class = heap.class_of(obj);
    if class == (ObjRef { id: LIST_TYPE }) || class == (ObjRef { id: TUPLE_TYPE }) {
        lemma_standard_slots(heap);
        lemma_lazily_elements::<T>(heap, obj);
    }
}

/// Capability rejection for sequences: an object that is neither exactly a
/// list or a tuple nor iterable is not bound as a sequence; the refusal is
/// a type mismatch, and the arena stays as it is.
pub proof fn lemma_sequence_rejection<T: ReadFromObject>(heap: Heap, obj: ObjRef)
    requires
        heap.class_of(obj) != (ObjRef { id: LIST_TYPE }),
        heap.class_of(obj) != (ObjRef { id: TUPLE_TYPE }),
        heap.iter_slot(heap.class_of(obj)) is None,
        heap.class_attr(heap.class_of(obj), GETITEM@) is None,
    ensures
        materialize::<T>(heap, obj) == (
            heap,
            Err::<Seq<T>, Error>(Error::NotIterable { class: heap.class_of(obj) }),
        ),
        (Error::NotIterable { class: heap.class_of(obj) }).spec_kind() == ErrorKind::TypeMismatch,
{
}

/// Metaclass selection: for two bases whose types are `t1` and `t2`, with
/// no explicit metaclass, `t2` is selected where it derives from `t1`, and
/// the selection is in conflict where neither derives from the other.
pub proof fn lemma_metaclass_selection(heap: Heap, b1: ObjRef, b2: ObjRef)
    requires
        heap.is_subclass(heap.class_of(b1), ObjRef { id: TYPE_TYPE }),
    ensures
        heap.is_subclass(heap.class_of(b2), heap.class_of(b1)) ==> heap.select_metaclass(
            None,
            seq![b1, b2],
        ) == Ok::<(ObjRef, Option<ObjRef>), Error>((heap.class_of(b2), Some(heap.class_of(b2)))),
        !heap.is_subclass(heap.class_of(b2), heap.class_of(b1)) && !heap.is_subclass(
            heap.class_of(b1),
            heap.class_of(b2),
        ) ==> heap.select_metaclass(None, seq![b1, b2]) == Err::<(ObjRef, Option<ObjRef>), Error>(
            Error::MetaclassConflict,
        ),
{
    let bases = seq![b1, b2];
    if heap.is_subclass(heap.class_of(b2), heap.class_of(b1)) {
        assert(heap.winner(bases, 1, heap.class_of(b1)) == heap.winner(
            bases,
            2,
            heap.class_of(b2),
        ));
    }
}

/// The class-cell rule: once the metaclass has returned the class, a body
/// that handed back no cell passes unchecked; a cell that holds the class
/// passes; a cell that holds another object is a type mismatch; an empty
/// cell is a runtime error. A failed check leaves the arena as the call of
/// the metaclass left it.
pub proof fn lemma_class_cell_rule(
    heap: Heap,
    function: ObjRef,
    metaclass: ObjRef,
    meta: Option<ObjRef>,
    name: ObjRef,
    bases: ObjRef,
    ns: ObjRef,
    kwargs: Seq<AttrView>,
    cell: Option<ObjRef>,
)
    requires
        heap.call(metaclass, ArgsView { args: seq![name, bases, ns], kwargs }).1 is Ok,
    ensures
        ({
            let (h, r) = heap.call(metaclass, ArgsView { args: seq![name, bases, ns], kwargs });
            let class = r->Ok_0;
            let out = heap.finish_class(function, metaclass, meta, name, bases, ns, kwargs, cell);
            match cell {
                None => out.1 == Ok::<ObjRef, Error>(class),
                Some(c) => match h.payload(c) {
                    PayloadView::Cell(Some(found)) => if found == class {
                        out.1 == Ok::<ObjRef, Error>(class)
                    } else {
                        &&& out == (
                            h,
                            Err::<ObjRef, Error>(Error::ClassCellMismatch { found, meta, class }),
                        )
                        &&& out.1->Err_0.spec_kind() == ErrorKind::TypeMismatch
                    },
                    _ => {
                        &&& out == (
                            h,
                            Err::<ObjRef, Error>(Error::ClassCellEmpty { meta, class }),
                        )
                        &&& out.1->Err_0.spec_kind() == ErrorKind::RuntimeError
                    },
                },
            }
        }),
{
}

/// A call without arguments through a call slot leaves the arena as it is.
pub proof fn lemma_invoke_without_arguments(h: Heap, slot: CallSlot, callee: ObjRef)
    ensures
        h.invoke(slot, callee, ArgsView::none()).0 == h,
{
    match h.payload(callee) {
        PayloadView::Function(RoutineView::Record(sink)) => {
            if h.payload(sink) is List {
                assert(h.with_payload(sink, PayloadView::List(h.elements(sink))).objects
                    =~= h.objects);
            }
        },
        _ => {},
    }
}

/// An iterator that has reached its end stays there: once a pull has given
/// the end, the next pull gives the end again and changes nothing.
pub proof fn lemma_exhausted_stays(h: Heap, it: ObjRef)
    requires
        h.advance(it).1 == Ok::<PyIterReturn, Error>(PyIterReturn::StopIteration),
    ensures
        h.advance(it).0.advance(it) == (
            h.advance(it).0,
            Ok::<PyIterReturn, Error>(PyIterReturn::StopIteration),
        ),
{
    let after = h.advance(it).0;
    let slot = h.next_slot(h.class_of(it))->0;
    match h.payload(it) {
        PayloadView::SentinelIter { callable, call, .. } => {
            lemma_invoke_without_arguments(h, call, callable);
        },
        _ => {},
    }
    assert forall|t: ObjRef| after.type_view(t) == h.type_view(t) by {}
    lemma_same_types_same_slots(h, after, h.mro(h.class_of(it)), 0, Capability::IterNext);
    match after.payload(it) {
        PayloadView::SentinelIter { callable, call, .. } => {
            lemma_invoke_without_arguments(after, call, callable);
        },
        _ => {},
    }
    assert(after.advance_through(slot, it).0.objects =~= after.objects);
}

/// Two arenas that agree on every type resolve the same slots.
pub proof fn lemma_same_types_same_slots(
    a: Heap,
    b: Heap,
    chain: Seq<ObjRef>,
    from: int,
    cap: Capability,
)
    requires
        forall|t: ObjRef| a.type_view(t) == b.type_view(t),
    ensures
        a.find_slot(chain, from, cap) == b.find_slot(chain, from, cap),
    decreases chain.len() - from,
{
    if 0 <= from < chain.len() {
        lemma_same_types_same_slots(a, b, chain, from + 1, cap);
    }
}

/// Iterations are independent: a pull of a cursor over stored elements, or
/// of one that reads by index, changes that cursor and nothing else. (A
/// cursor that calls runs its callable, which may write.)
pub proof fn lemma_pull_leaves_others(h: Heap, it: ObjRef, other: ObjRef)
    requires
        other != it,
        !(h.payload(it) is SentinelIter),
    ensures
        h.advance(it).0.objects.len() == h.objects.len(),
        h.advance(it).0.class_of(other) == h.class_of(other),
        h.advance(it).0.payload(other) == h.payload(other),
        h.advance(it).0.attrs(other) == h.attrs(other),
{
}

} // verus!
