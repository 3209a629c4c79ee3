//! Eager materialization: an iterable drained at once into an owned,
//! ordered collection of converted items.

use vstd::prelude::*;

use crate::error::Error;
use crate::heap::{Heap, LIST_TYPE, TUPLE_TYPE};
use crate::items::clone_refs;
use crate::iteration::PyIterReturn;
use crate::object::{IterSlot, ObjRef, Payload};
use crate::protocol::{ArgIterable, PyIterIter, ReadFromObject, TryFromObject};
use crate::vm::Vm;

verus! {

/// `prefix` put before the items of a successful result; an error stays.
pub open spec fn prepend<T>(prefix: Seq<T>, r: Result<Seq<T>, Error>) -> Result<Seq<T>, Error> {
    match r {
        Ok(rest) => Ok(prefix + rest),
        Err(e) => Err(e),
    }
}

/// The conversions of `items` from position `from` on, in order, or the
/// error of the first item that does not convert.
pub open spec fn convert_all<T: ReadFromObject>(heap: Heap, items: Seq<ObjRef>, from: int) -> Result<
    Seq<T>,
    Error,
>
    decreases items.len() - from,
{
    if from < 0 || from >= items.len() {
        Ok(Seq::empty())
    } else {
        match T::converted(heap, items[from]) {
            Ok(t) => prepend(seq![t], convert_all::<T>(heap, items, from + 1)),
            Err(e) => Err(e),
        }
    }
}

/// The iterator `it` pulled to its end, each item converted as it comes:
/// the arena afterwards, and the converted items in order or the first
/// error of a pull or of a conversion. A pull that gives an item uses up
/// one of the pulls that are left (`lemma_advance_progress`); the
/// comparison of the pulls left says no more than that, and it is what ends
/// the pulling.
pub open spec fn collect<T: ReadFromObject>(heap: Heap, it: ObjRef) -> (
    Heap,
    Result<Seq<T>, Error>,
)
    decreases heap.pulls_left(it),
{
    let (h, step) = heap.advance(it);
    match step {
        Err(e) => (h, Err(e)),
        Ok(PyIterReturn::StopIteration) => (h, Ok(Seq::empty())),
        Ok(PyIterReturn::Return(v)) => match T::converted(h, v) {
            Err(e) => (h, Err(e)),
            Ok(t) => if h.pulls_left(it) < heap.pulls_left(it) {
                let (h2, r) = collect::<T>(h, it);
                (h2, prepend(seq![t], r))
            } else {
                (h, Ok(seq![t]))
            },
        },
    }
}

/// One step of the pulling, said without the pulls left: where a pull
/// gives an item that converts, the collected items are that item before
/// what is collected from then on.
pub proof fn lemma_collect_step<T: ReadFromObject>(heap: Heap, it: ObjRef)
    ensures
        match heap.advance(it).1 {
            Ok(PyIterReturn::Return(v)) => match T::converted(heap.advance(it).0, v) {
                Ok(t) => collect::<T>(heap, it) == (
                    collect::<T>(heap.advance(it).0, it).0,
                    prepend(seq![t], collect::<T>(heap.advance(it).0, it).1),
                ),
                Err(e) => collect::<T>(heap, it) == (heap.advance(it).0, Err::<Seq<T>, Error>(e)),
            },
            Ok(PyIterReturn::StopIteration) => collect::<T>(heap, it) == (
                heap.advance(it).0,
                Ok::<Seq<T>, Error>(Seq::empty()),
            ),
            Err(e) => collect::<T>(heap, it) == (heap.advance(it).0, Err::<Seq<T>, Error>(e)),
        },
{
    crate::iteration::lemma_advance_progress(heap, it);
}

/// The lazy way to all items of `obj`: bind it as an iterable, begin an
/// iteration, and pull to the end.
pub open spec fn lazily<T: ReadFromObject>(heap: Heap, obj: ObjRef) -> (
    Heap,
    Result<Seq<T>, Error>,
) {
    match heap.iter_plan(obj) {
        Err(e) => (heap, Err(e)),
        Ok(slot) => {
            let (h, r) = heap.make_iter(obj, slot);
            match r {
                Err(e) => (h, Err(e)),
                Ok(it) => collect::<T>(h, it),
            }
        },
    }
}

/// All items of `obj`, converted. An object that is exactly a tuple or a
/// list is read in place; any other object is iterated.
pub open spec fn materialize<T: ReadFromObject>(heap: Heap, obj: ObjRef) -> (
    Heap,
    Result<Seq<T>, Error>,
) {
    if heap.class_of(obj) == (ObjRef { id: LIST_TYPE }) || heap.class_of(obj) == (ObjRef {
        id: TUPLE_TYPE,
    }) {
        (heap, convert_all::<T>(heap, heap.elements(obj), 0))
    } else {
        lazily::<T>(heap, obj)
    }
}

/// Whether every one of `items` lies in the arena `heap`.
pub open spec fn all_lie_in<T: ReadFromObject>(items: Seq<T>, heap: Heap) -> bool {
    forall|i: int| 0 <= i < items.len() ==> (#[trigger] items[i]).lies_in(heap)
}

/// Items that lie in an arena lie in every arena with at least as many
/// objects.
pub proof fn lemma_all_lie_in_later<T: ReadFromObject>(items: Seq<T>, heap: Heap, later: Heap)
    requires
        all_lie_in(items, heap),
        heap.objects.len() <= later.objects.len(),
    ensures
        all_lie_in(items, later),
{
    assert forall|i: int| 0 <= i < items.len() implies (#[trigger] items[i]).lies_in(later) by {
        items[i].lemma_lies_in_later(heap, later);
    }
}

/// Whether `r` is `expected`, item for item.
pub open spec fn agrees<T>(r: Result<Vec<T>, Error>, expected: Result<Seq<T>, Error>) -> bool {
    match (r, expected) {
        (Ok(v), Ok(items)) => v@ == items,
        (Err(e), Err(f)) => e == f,
        _ => false,
    }
}

/// Converts each of `items`, in order, and stops at the first that fails.
pub fn convert_items<T: ReadFromObject>(vm: &Vm, items: &Vec<ObjRef>) -> (r: Result<Vec<T>, Error>)
    ensures
        agrees(r, convert_all::<T>(vm@, items@, 0)),
        vm@.refs_in(items@) ==> (r matches Ok(v) ==> all_lie_in(v@, vm@)),
{
    let mut out: Vec<T> = Vec::new();
    let mut i: usize = 0;
    while i < items.len()
        invariant
            i <= items.len(),
            vm@.refs_in(items@) ==> all_lie_in(out@, vm@),
            prepend(out@, convert_all::<T>(vm@, items@, i as int)) == convert_all::<T>(
                vm@,
                items@,
                0,
            ),
        decreases items.len() - i,
    {
        let ghost before = out@;
        proof {
            if vm@.refs_in(items@) {
                assert(vm@.has(items@[i as int]));
                T::lemma_converted_within(vm@, items@[i as int]);
            }
        }
        match T::read_from_object(vm, items[i]) {
            Ok(t) => {
                out.push(t);
                proof {
                    let rest = convert_all::<T>(vm@, items@, i + 1);
                    match rest {
                        Ok(tail) => {
                            assert(before + (seq![t] + tail) =~= out@ + tail);
                        },
                        Err(_) => {},
                    }
                }
            },
            Err(e) => {
                return Err(e);
            },
        }
        i += 1;
    }
    Ok(out)
}

/// Pulls `items` to the end and gathers what comes, stopping at the first
/// error.
pub fn collect_items<T: ReadFromObject>(vm: &mut Vm, items: &PyIterIter<T>) -> (r: Result<
    Vec<T>,
    Error,
>)
    ensures
        final(vm)@ == collect::<T>(old(vm)@, items.cursor()).0,
        agrees(r, collect::<T>(old(vm)@, items.cursor()).1),
        old(vm)@.leads_to(final(vm)@),
        old(vm)@.intact() && old(vm)@.has(items.cursor()) ==> final(vm)@.intact() && (
        r matches Ok(v) ==> all_lie_in(v@, final(vm)@)),
{
    let ghost it = items.cursor();
    let ghost goal = collect::<T>(vm@, it);
    let mut out: Vec<T> = Vec::new();
    let mut outcome: Option<Result<(), Error>> = None;
    while outcome.is_none()
        invariant
            old(vm)@.leads_to(vm@),
            old(vm)@.intact() && old(vm)@.has(it) ==> vm@.intact() && all_lie_in(out@, vm@),
            it == items.cursor(),
            match outcome {
                None => collect::<T>(vm@, it).0 == goal.0 && prepend(
                    out@,
                    collect::<T>(vm@, it).1,
                ) == goal.1,
                Some(Ok(())) => vm@ == goal.0 && goal.1 == Ok::<Seq<T>, Error>(out@),
                Some(Err(e)) => vm@ == goal.0 && goal.1 == Err::<Seq<T>, Error>(e),
            },
        decreases
            (if outcome is None {
                vm@.pulls_left(it) + 1
            } else {
                0
            }),
    {
        let ghost before = out@;
        let ghost here = vm@;
        let pulled = items.next(vm);
        proof {
            if all_lie_in(before, here) {
                lemma_all_lie_in_later(before, here, vm@);
            }
        }
        match pulled {
            None => {
                outcome = Some(Ok(()));
            },
            Some(Err(e)) => {
                outcome = Some(Err(e));
            },
            Some(Ok(t)) => {
                out.push(t);
                proof {
                    let rest = collect::<T>(vm@, it).1;
                    match rest {
                        Ok(tail) => {
                            assert(before + (seq![t] + tail) =~= out@ + tail);
                        },
                        Err(_) => {},
                    }
                }
            },
        }
    }
    match outcome {
        Some(Err(e)) => Err(e),
        _ => Ok(out),
    }
}

/// The items of an iterable, converted and held in order.
pub struct ArgSequence<T>(Vec<T>);

/// Whether `r` is a sequence of the items `expected`, or the error that
/// `expected` is.
pub open spec fn bound_as<T>(r: Result<ArgSequence<T>, Error>, expected: Result<Seq<T>, Error>)
    -> bool {
    match (r, expected) {
        (Ok(s), Ok(items)) => s@ == items,
        (Err(e), Err(f)) => e == f,
        _ => false,
    }
}

impl<T> View for ArgSequence<T> {
    type V = Seq<T>;

    closed spec fn view(&self) -> Seq<T> {
        self.0@
    }
}

impl<T> ArgSequence<T> {
    /// The items, handed over.
    pub fn into_vec(self) -> (r: Vec<T>)
        ensures
            r@ == self@,
    {
        self.0
    }

    /// The items, in order.
    pub fn as_slice(&self) -> (r: &[T])
        ensures
            r@ == self@,
    {
        self.0.as_slice()
    }
}

impl<T: ReadFromObject> TryFromObject for ArgSequence<T> {
    open spec fn settled(heap: Heap, obj: ObjRef) -> Heap {
        materialize::<T>(heap, obj).0
    }

    open spec fn accepts(heap: Heap, obj: ObjRef, r: Result<Self, Error>) -> bool {
        bound_as(r, materialize::<T>(heap, obj).1)
    }

    /// Binds `obj` as a sequence: drains it at once and converts each item.
    /// It fails with the first error of the iteration or of a conversion,
    /// and then hands out no item at all.
    ///
    /// In an intact arena the sequence holds what binding the object as an
    /// iterable and pulling it to the end gives, item for item, or fails
    /// with the same error. And of an object that has no iterate slot and
    /// is read by index it holds the conversions of the stored elements,
    /// in order.
    fn try_from_object(vm: &mut Vm, obj: ObjRef) -> (r: Result<Self, Error>)
        ensures
            old(vm)@.intact() && old(vm)@.has(obj) ==> (r matches Ok(s) ==> all_lie_in(
                s@,
                final(vm)@,
            )),
            old(vm)@.intact() && old(vm)@.has(obj) ==> bound_as(
                r,
                lazily::<T>(old(vm)@, obj).1,
            ),
            old(vm)@.intact() && old(vm)@.has(obj) && old(vm)@.indexable(obj)
                && old(vm)@.iter_plan(obj) == Ok::<Option<IterSlot>, Error>(None) ==> bound_as(
                r,
                convert_all::<T>(old(vm)@, old(vm)@.elements(obj), 0),
            ),
    {
        proof {
            crate::vm::lemma_arena_fits(vm);
            if vm@.intact() && vm@.has(obj) {
                crate::laws::lemma_eager_matches_lazy::<T>(vm@, obj);
                if vm@.indexable(obj) && vm@.iter_plan(obj) == Ok::<Option<IterSlot>, Error>(
                    None,
                ) {
                    crate::laws::lemma_lazily_subscript::<T>(vm@, obj);
                }
            }
        }
        let class = vm.class_of(obj);
        if class.id == LIST_TYPE || class.id == TUPLE_TYPE {
            let items: Vec<ObjRef> = match vm.payload(obj) {
                Some(Payload::Tuple(v)) => clone_refs(v),
                Some(Payload::List(v)) => clone_refs(v),
                _ => Vec::new(),
            };
            match convert_items::<T>(vm, &items) {
                Ok(v) => Ok(ArgSequence(v)),
                Err(e) => Err(e),
            }
        } else {
            let iterable = match ArgIterable::<T>::read_from_object(vm, obj) {
                Ok(iterable) => iterable,
                Err(e) => {
                    return Err(e);
                },
            };
            let items = match iterable.iter(vm) {
                Ok(items) => items,
                Err(e) => {
                    return Err(e);
                },
            };
            match collect_items::<T>(vm, &items) {
                Ok(v) => Ok(ArgSequence(v)),
                Err(e) => Err(e),
            }
        }
    }
}

} // verus!
