//! What `any`, `all`, `min`, `max` and `sum` come to on stored elements,
//! said without a cursor: a truth among the elements, the first best of
//! them, their total.

use vstd::prelude::*;

use crate::builtins::search;
use crate::error::{Error, Extremum};
use crate::heap::{Heap, INT_TYPE, LIST_ITERATOR_TYPE};
use crate::laws::lemma_standard_slots;
use crate::object::{ArgsView, IterSlot, ObjRef, PayloadView};
use crate::roots::{BYTEARRAY_TYPE, BYTES_TYPE};
use crate::protocol::{ArgIntoBool, ArgIterable};

verus! {

/// Whether one of `items[from..]` has the truth value `wanted`.
pub open spec fn some_truth(heap: Heap, items: Seq<ObjRef>, from: int, wanted: bool) -> bool {
    exists|i: int| from <= i < items.len() && heap.truthy(#[trigger] items[i]) == wanted
}

/// A search through a cursor over the stored elements of `source` that
/// stands at `pos` finds a truth value exactly where one of the elements
/// from `pos` on has it.
pub proof fn lemma_search_cursor(
    base: Heap,
    h: Heap,
    it: ObjRef,
    source: ObjRef,
    pos: usize,
    wanted: bool,
)
    requires
        base.standard(),
        base.sound(),
        base.has(source),
        base.elements(source).len() <= usize::MAX,
        base.kept_by(h),
        !base.has(it),
        h.has(it),
        h.class_of(it) == (ObjRef { id: LIST_ITERATOR_TYPE }),
        h.payload(it) == (PayloadView::ElementsIter { source, pos }),
    ensures
        search(h, it, wanted).1 == Ok::<bool, Error>(
            some_truth(base, base.elements(source), pos as int, wanted),
        ),
    decreases base.elements(source).len() - pos,
{
    lemma_standard_slots(h);
    let items = base.elements(source);
    if pos < items.len() && base.truthy(items[pos as int]) != wanted {
        let next = h.with_payload(
            it,
            PayloadView::ElementsIter { source, pos: (pos + 1) as usize },
        );
        lemma_search_cursor(base, next, it, source, (pos + 1) as usize, wanted);
    }
}

/// `any` and `all` on stored elements: for an object that is iterated
/// through a fresh cursor over its stored elements, a search for a true
/// item succeeds exactly where an element is true, and a search for a
/// false item exactly where an element is false.
pub proof fn lemma_search_in_elements(
    heap: Heap,
    iterable: ArgIterable<ArgIntoBool>,
    wanted: bool,
)
    requires
        heap.standard(),
        heap.sound(),
        heap.has(iterable.source()),
        heap.elements(iterable.source()).len() <= usize::MAX,
        heap.objects.len() < usize::MAX,
        iterable.slot() == Some(IterSlot::Elements),
    ensures
        crate::builtins::search_in(heap, iterable, wanted).1 == Ok::<bool, Error>(
            some_truth(heap, heap.elements(iterable.source()), 0, wanted),
        ),
{
    let obj = iterable.source();
    let h = heap.make_iter(obj, Some(IterSlot::Elements)).0;
    lemma_search_cursor(heap, h, heap.next_ref(), obj, 0, wanted);
}

/// Whether the selection `func` prefers the integer `x` to the integer
/// `y`.
pub open spec fn value_prefers(func: Extremum, x: i64, y: i64) -> bool {
    match func {
        Extremum::Min => x < y,
        Extremum::Max => x > y,
    }
}

/// The integer that `o` holds.
pub open spec fn int_of(heap: Heap, o: ObjRef) -> i64 {
    heap.integer(o)->Ok_0
}

/// Whether every one of `items` holds an integer.
pub open spec fn all_integers(heap: Heap, items: Seq<ObjRef>) -> bool {
    forall|i: int| 0 <= i < items.len() ==> heap.integer(#[trigger] items[i]) is Ok
}

/// Whether `items[k]` is the first best of `items[..upto]`: none of them is
/// preferred to it, and it is preferred to each one before it.
pub open spec fn first_best(heap: Heap, func: Extremum, items: Seq<ObjRef>, k: int, upto: int)
    -> bool {
    &&& 0 <= k < upto <= items.len()
    &&& forall|j: int|
        0 <= j < upto ==> !value_prefers(
            func,
            int_of(heap, #[trigger] items[j]),
            int_of(heap, items[k]),
        )
    &&& forall|j: int|
        0 <= j < k ==> value_prefers(func, int_of(heap, items[k]), int_of(heap, #[trigger] items[j]))
}

/// Without a key function, the selection among integers goes on from the
/// first best so far to the first best of all, and changes nothing.
pub proof fn lemma_select_integers(
    heap: Heap,
    func: Extremum,
    items: Seq<ObjRef>,
    from: int,
    best: int,
)
    requires
        all_integers(heap, items),
        1 <= from <= items.len(),
        first_best(heap, func, items, best, from),
    ensures
        exists|k: int|
            #![trigger items[k]]
            first_best(heap, func, items, k, items.len() as int) && heap.select(
                func,
                None,
                items,
                from,
                items[best],
                items[best],
            ) == (heap, Ok::<ObjRef, Error>(items[k])),
    decreases items.len() - from,
{
    if from < items.len() {
        assert(heap.integer(items[best]) is Ok);
        if value_prefers(func, int_of(heap, items[from]), int_of(heap, items[best])) {
            lemma_select_integers(heap, func, items, from + 1, from);
        } else {
            lemma_select_integers(heap, func, items, from + 1, best);
        }
    }
}

/// `min` and `max` of several integers: given at least two positional
/// arguments that hold integers and no keyword, the selection returns the
/// first best of them and changes nothing.
pub proof fn lemma_extremum_of_integers(heap: Heap, func: Extremum, items: Seq<ObjRef>)
    requires
        items.len() > 1,
        all_integers(heap, items),
    ensures
        exists|k: int|
            #![trigger items[k]]
            first_best(heap, func, items, k, items.len() as int) && heap.extremum(
                func,
                ArgsView::positional(items),
            ) == (heap, Ok::<ObjRef, Error>(items[k])),
{
    lemma_select_integers(heap, func, items, 1, 0);
}

/// The total of the integers that `items[from..]` hold.
pub open spec fn total(heap: Heap, items: Seq<ObjRef>, from: int) -> int
    decreases items.len() - from,
{
    if from < 0 || from >= items.len() {
        0
    } else {
        int_of(heap, items[from]) + total(heap, items, from + 1)
    }
}

/// Whether `sofar` and every sum that arises when the integers of
/// `items[from..]` are added to it one by one fit the integers of the
/// runtime.
pub open spec fn sums_fit(sofar: int, heap: Heap, items: Seq<ObjRef>, from: int) -> bool
    decreases items.len() - from,
{
    if from < 0 || from >= items.len() {
        true
    } else {
        &&& heap.integer(items[from]) is Ok
        &&& i64::MIN <= sofar + int_of(heap, items[from]) <= i64::MAX
        &&& sums_fit(sofar + int_of(heap, items[from]), heap, items, from + 1)
    }
}

/// A sum through a cursor over the stored elements of `source` that stands
/// at `pos`: where the elements hold integers and every sum on the way
/// fits, the result holds what `sofar` holds plus the total of the
/// elements from `pos` on.
pub proof fn lemma_sum_cursor(
    base: Heap,
    h: Heap,
    it: ObjRef,
    source: ObjRef,
    pos: usize,
    sofar: ObjRef,
)
    requires
        base.standard(),
        base.sound(),
        base.has(source),
        base.kept_by(h),
        !base.has(it),
        h.has(it),
        h.class_of(it) == (ObjRef { id: LIST_ITERATOR_TYPE }),
        h.payload(it) == (PayloadView::ElementsIter { source, pos }),
        h.integer(sofar) is Ok,
        pos <= base.elements(source).len() <= usize::MAX,
        h.objects.len() + (base.elements(source).len() - pos) < usize::MAX,
        sums_fit(int_of(h, sofar) as int, base, base.elements(source), pos as int),
    ensures
        ({
            let (after, r) = h.sum_from(it, sofar);
            &&& r is Ok
            &&& after.integer(r->Ok_0) == Ok::<i64, Error>(
                (int_of(h, sofar) + total(base, base.elements(source), pos as int)) as i64,
            )
            &&& i64::MIN <= int_of(h, sofar) + total(base, base.elements(source), pos as int)
                <= i64::MAX
        }),
    decreases base.elements(source).len() - pos,
{
    lemma_standard_slots(h);
    let items = base.elements(source);
    if pos < items.len() {
        let next = h.with_payload(
            it,
            PayloadView::ElementsIter { source, pos: (pos + 1) as usize },
        );
        let sum = (int_of(h, sofar) + int_of(base, items[pos as int])) as i64;
        let grown = next.push(Heap::plain(INT_TYPE, PayloadView::Int(sum)));
        lemma_sum_cursor(base, grown, it, source, (pos + 1) as usize, next.next_ref());
    }
}

/// `sum` of stored integers: for an object that is iterated through a
/// fresh cursor over its stored elements, all of which hold integers, the
/// sum from a start value that holds an integer, and is neither bytes nor a
/// bytearray, holds the start plus the total of the elements, provided
/// every sum on the way fits.
pub proof fn lemma_sum_of_integers(heap: Heap, iterable: ArgIterable<ObjRef>, start: ObjRef)
    requires
        heap.standard(),
        heap.sound(),
        heap.has(iterable.source()),
        heap.objects.len() + heap.elements(iterable.source()).len() + 1 < usize::MAX,
        iterable.slot() == Some(IterSlot::Elements),
        heap.integer(start) is Ok,
        !heap.is_instance(start, ObjRef { id: BYTES_TYPE }),
        !heap.is_instance(start, ObjRef { id: BYTEARRAY_TYPE }),
        sums_fit(int_of(heap, start) as int, heap, heap.elements(iterable.source()), 0),
    ensures
        ({
            let (after, r) = heap.sum_of(iterable, Some(start));
            &&& r is Ok
            &&& after.integer(r->Ok_0) == Ok::<i64, Error>(
                (int_of(heap, start) + total(heap, heap.elements(iterable.source()), 0)) as i64,
            )
        }),
{
    let obj = iterable.source();
    let h = heap.make_iter(obj, Some(IterSlot::Elements)).0;
    lemma_sum_cursor(heap, h, heap.next_ref(), obj, 0, start);
}

/// `sum` refuses bytes and bytearrays as a start: in an arena with the
/// built-in objects in place, a start whose class is `bytes` or `bytearray`
/// is refused with the error of its class, whatever the iterable is, and
/// the arena stays as it was.
pub proof fn lemma_sum_refuses_bytes(heap: Heap, iterable: ArgIterable<ObjRef>, start: ObjRef)
    requires
        heap.standard(),
        !(heap.payload(start) is Str),
        heap.class_of(start) == (ObjRef { id: BYTES_TYPE }) || heap.class_of(start) == (ObjRef {
            id: BYTEARRAY_TYPE,
        }),
    ensures
        heap.sum_of(iterable, Some(start)) == (
            heap,
            Err::<ObjRef, Error>(
                if heap.class_of(start) == (ObjRef { id: BYTES_TYPE }) {
                    Error::SumBytes
                } else {
                    Error::SumByteArray
                },
            ),
        ),
{
    crate::bootstrap::lemma_root_class(heap, BYTES_TYPE);
    crate::bootstrap::lemma_root_class(heap, BYTEARRAY_TYPE);
}

} // verus!
