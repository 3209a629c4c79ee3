//! The built-in functions that walk iterables and ask objects about
//! themselves.

use vstd::prelude::*;

use crate::check::{lemma_lookup_within, lemma_unbind_within};
use crate::error::{Error, Extremum};
use crate::heap::{lookup, unbind, Heap, CALLABLE_ITERATOR_TYPE, INT_TYPE, REVERSED_TYPE, STR_TYPE};
use crate::items::unbind_entry;
use crate::iteration::PyIterReturn;
use crate::lookup::lookup_entry;
use crate::make::none;
use crate::object::{ArgsView, FuncArgs, ObjRef, Payload, PayloadView};
use crate::protocol::{
    ArgCallable, ArgIntoBool, ArgIterable, ReadFromObject, TryFromObject, GETITEM,
};
use crate::roots::{BYTEARRAY_TYPE, BYTES_TYPE};
use crate::sequence::{materialize, ArgSequence};
use crate::vm::Vm;

verus! {

/// The method by which an object gives its own reversed iterator.
pub const REVERSED: &'static str = "__reversed__";

/// The method by which an object rounds itself.
pub const ROUND: &'static str = "__round__";

/// The keyword argument of `min` and `max` that is returned for no
/// candidate.
pub const DEFAULT: &'static str = "default";

/// The keyword argument of `min` and `max` by which candidates are compared.
pub const KEY: &'static str = "key";

/// Pulls `it` until an item has the truth value `wanted`: says whether one
/// was found, and stops pulling there. A pull that gives an item uses up
/// one of the pulls that are left (`lemma_advance_progress`); the
/// comparison of the pulls left says no more than that, and it is what ends
/// the pulling.
pub open spec fn search(heap: Heap, it: ObjRef, wanted: bool) -> (Heap, Result<bool, Error>)
    decreases heap.pulls_left(it),
{
    let (h, step) = heap.advance(it);
    match step {
        Err(e) => (h, Err(e)),
        Ok(PyIterReturn::StopIteration) => (h, Ok(false)),
        Ok(PyIterReturn::Return(v)) => if h.truthy(v) == wanted {
            (h, Ok(true))
        } else if h.pulls_left(it) < heap.pulls_left(it) {
            search(h, it, wanted)
        } else {
            (h, Ok(false))
        },
    }
}

/// Begins an iteration of `iterable` and searches it for an item with the
/// truth value `wanted`.
pub open spec fn search_in(heap: Heap, iterable: ArgIterable<ArgIntoBool>, wanted: bool) -> (
    Heap,
    Result<bool, Error>,
) {
    let (h, r) = heap.make_iter(iterable.source(), iterable.slot());
    match r {
        Err(e) => (h, Err(e)),
        Ok(it) => search(h, it, wanted),
    }
}

fn find_truth(iterable: &ArgIterable<ArgIntoBool>, wanted: bool, vm: &mut Vm) -> (r: Result<
    bool,
    Error,
>)
    ensures
        (final(vm)@, r) == search_in(old(vm)@, *iterable, wanted),
        old(vm)@.leads_to(final(vm)@),
        old(vm)@.intact() && old(vm)@.has(iterable.source()) ==> final(vm)@.intact(),
{
    let items = match iterable.iter(vm) {
        Ok(items) => items,
        Err(e) => {
            return Err(e);
        },
    };
    let ghost it = items.cursor();
    let ghost goal = search(vm@, it, wanted);
    let mut outcome: Option<Result<bool, Error>> = None;
    while outcome.is_none()
        invariant
            old(vm)@.leads_to(vm@),
            old(vm)@.intact() && old(vm)@.has(iterable.source()) ==> vm@.intact() && vm@.has(it),
            it == items.cursor(),
            match outcome {
                None => search(vm@, it, wanted) == goal,
                Some(r) => (vm@, r) == goal,
            },
        decreases
            (if outcome is None {
                vm@.pulls_left(it) + 1
            } else {
                0
            }),
    {
        match items.next(vm) {
            None => {
                outcome = Some(Ok(false));
            },
            Some(Err(e)) => {
                outcome = Some(Err(e));
            },
            Some(Ok(item)) => {
                if item.value == wanted {
                    outcome = Some(Ok(true));
                }
            },
        }
    }
    match outcome {
        Some(r) => r,
        None => Ok(false),
    }
}

/// Whether every item of `iterable` is true: pulls until the first false
/// item, or to the end.
pub fn all(iterable: ArgIterable<ArgIntoBool>, vm: &mut Vm) -> (r: Result<bool, Error>)
    ensures
        final(vm)@ == search_in(old(vm)@, iterable, false).0,
        r == match search_in(old(vm)@, iterable, false).1 {
            Ok(found) => Ok::<bool, Error>(!found),
            Err(e) => Err(e),
        },
        old(vm)@.leads_to(final(vm)@),
        old(vm)@.intact() && old(vm)@.has(iterable.source()) ==> final(vm)@.intact(),
{
    match find_truth(&iterable, false, vm) {
        Ok(found) => Ok(!found),
        Err(e) => Err(e),
    }
}

/// Whether some item of `iterable` is true: pulls until the first true
/// item, or to the end.
pub fn any(iterable: ArgIterable<ArgIntoBool>, vm: &mut Vm) -> (r: Result<bool, Error>)
    ensures
        (final(vm)@, r) == search_in(old(vm)@, iterable, true),
        old(vm)@.leads_to(final(vm)@),
        old(vm)@.intact() && old(vm)@.has(iterable.source()) ==> final(vm)@.intact(),
{
    find_truth(&iterable, true, vm)
}

impl Heap {
    /// The sum of two integer objects as a new integer object. The sum must
    /// fit the integers of this runtime.
    pub open spec fn plus(self, a: ObjRef, b: ObjRef) -> (Heap, Result<ObjRef, Error>) {
        match (self.integer(a), self.integer(b)) {
            (Ok(x), Ok(y)) => if i64::MIN <= x + y <= i64::MAX {
                (
                    self.push(Heap::plain(INT_TYPE, PayloadView::Int((x + y) as i64))),
                    Ok(self.next_ref()),
                )
            } else {
                (self, Err(Error::IntegerOverflow))
            },
            _ => (
                self,
                Err(Error::UnsupportedSum { left: self.class_of(a), right: self.class_of(b) }),
            ),
        }
    }

    /// Pulls `it` to its end and adds each item to `total`. The comparison
    /// of the pulls left always holds (`lemma_advance_progress`); it is what
    /// ends the pulling.
    pub open spec fn sum_from(self, it: ObjRef, total: ObjRef) -> (Heap, Result<ObjRef, Error>)
        decreases self.pulls_left(it),
    {
        let (h, step) = self.advance(it);
        match step {
            Err(e) => (h, Err(e)),
            Ok(PyIterReturn::StopIteration) => (h, Ok(total)),
            Ok(PyIterReturn::Return(v)) => {
                let (h2, r) = h.plus(total, v);
                match r {
                    Err(e) => (h2, Err(e)),
                    Ok(more) => if h2.pulls_left(it) < self.pulls_left(it) {
                        h2.sum_from(it, more)
                    } else {
                        (h2, Ok(more))
                    },
                }
            },
        }
    }

    /// The sum of the items of an iterable, starting from `start` or else
    /// from a new integer 0. Text, bytes and a bytearray cannot be the start
    /// of a sum: each is refused before the iterable is touched.
    pub open spec fn sum_of(self, iterable: ArgIterable<ObjRef>, start: Option<ObjRef>) -> (
        Heap,
        Result<ObjRef, Error>,
    ) {
        let (h0, first) = match start {
            Some(s) => (self, s),
            None => (self.push(Heap::plain(INT_TYPE, PayloadView::Int(0))), self.next_ref()),
        };
        if h0.payload(first) is Str {
            (h0, Err(Error::SumStrings))
        } else if h0.is_instance(first, ObjRef { id: BYTES_TYPE }) {
            (h0, Err(Error::SumBytes))
        } else if h0.is_instance(first, ObjRef { id: BYTEARRAY_TYPE }) {
            (h0, Err(Error::SumByteArray))
        } else {
            let (h, r) = h0.make_iter(iterable.source(), iterable.slot());
            match r {
                Err(e) => (h, Err(e)),
                Ok(it) => h.sum_from(it, first),
            }
        }
    }
}

impl Vm {
    /// The sum of two integer objects as a new integer object.
    pub fn plus(&mut self, a: ObjRef, b: ObjRef) -> (r: Result<ObjRef, Error>)
        ensures
            (final(self)@, r) == old(self)@.plus(a, b),
            old(self)@.leads_to(final(self)@),
            old(self)@.intact() && old(self)@.has(a) && old(self)@.has(b)
                ==> final(self)@.intact() && final(self)@.has_ok(r),
    {
        match (self.integer(a), self.integer(b)) {
            (Ok(x), Ok(y)) => match x.checked_add(y) {
                Some(total) => Ok(self.new_int(total)),
                None => Err(Error::IntegerOverflow),
            },
            _ => Err(Error::UnsupportedSum { left: self.class_of(a), right: self.class_of(b) }),
        }
    }
}

/// The arguments of `sum`.
pub struct SumArgs {
    pub iterable: ArgIterable<ObjRef>,
    pub start: Option<ObjRef>,
}

/// The sum of the items of an iterable, added one by one to the start
/// value; the first error of a pull or of an addition ends it.
pub fn sum(args: SumArgs, vm: &mut Vm) -> (r: Result<ObjRef, Error>)
    ensures
        (final(vm)@, r) == old(vm)@.sum_of(args.iterable, args.start),
        old(vm)@.leads_to(final(vm)@),
        old(vm)@.intact() && old(vm)@.has(args.iterable.source()) && old(vm)@.has_some(args.start)
            ==> final(vm)@.intact() && final(vm)@.has_ok(r),
{
    let SumArgs { iterable, start } = args;
    let first = match start {
        Some(s) => s,
        None => vm.new_int(0),
    };
    let is_text = match vm.payload(first) {
        Some(Payload::Str(_)) => true,
        _ => false,
    };
    if is_text {
        return Err(Error::SumStrings);
    }
    if vm.is_instance(first, ObjRef { id: BYTES_TYPE }) {
        return Err(Error::SumBytes);
    }
    if vm.is_instance(first, ObjRef { id: BYTEARRAY_TYPE }) {
        return Err(Error::SumByteArray);
    }
    let items = match iterable.iter(vm) {
        Ok(items) => items,
        Err(e) => {
            return Err(e);
        },
    };
    let ghost it = items.cursor();
    let ghost goal = vm@.sum_from(it, first);
    let mut total = first;
    let mut outcome: Option<Result<ObjRef, Error>> = None;
    while outcome.is_none()
        invariant
            old(vm)@.leads_to(vm@),
            old(vm)@.intact() && old(vm)@.has(iterable.source()) && old(vm)@.has_some(start)
                ==> vm@.intact() && vm@.has(it) && vm@.has(total) && (outcome matches Some(res)
                ==> vm@.has_ok(res)),
            it == items.cursor(),
            match outcome {
                None => vm@.sum_from(it, total) == goal,
                Some(r) => (vm@, r) == goal,
            },
        decreases
            (if outcome is None {
                vm@.pulls_left(it) + 1
            } else {
                0
            }),
    {
        let ghost here = vm@;
        match items.next(vm) {
            None => {
                outcome = Some(Ok(total));
            },
            Some(Err(e)) => {
                outcome = Some(Err(e));
            },
            Some(Ok(item)) => {
                assert(here.has(it)) by {
                    crate::iteration::lemma_advance_progress(here, it);
                }
                match vm.plus(total, item) {
                    Ok(more) => {
                        total = more;
                    },
                    Err(e) => {
                        outcome = Some(Err(e));
                    },
                }
            },
        }
    }
    match outcome {
        Some(r) => r,
        None => Ok(total),
    }
}

/// What `next` makes of a pull: at the end, the default value stands in
/// where there is one.
pub open spec fn with_default(step: Result<PyIterReturn, Error>, default_value: Option<ObjRef>)
    -> Result<PyIterReturn, Error> {
    match step {
        Ok(PyIterReturn::StopIteration) => match default_value {
            Some(d) => Ok(PyIterReturn::Return(d)),
            None => Ok(PyIterReturn::StopIteration),
        },
        other => other,
    }
}

/// Pulls one item from `iterator`. An object whose type resolves no advance
/// slot is refused; at the end `default_value` is returned where one is
/// given.
pub fn next(iterator: ObjRef, default_value: Option<ObjRef>, vm: &mut Vm) -> (r: Result<
    PyIterReturn,
    Error,
>)
    ensures
        old(vm)@.next_slot(old(vm)@.class_of(iterator)) is None ==> final(vm)@ == old(vm)@ && r
            == Err::<PyIterReturn, Error>(
            Error::NextNotIterator { class: old(vm)@.class_of(iterator) },
        ),
        old(vm)@.next_slot(old(vm)@.class_of(iterator)) is Some ==> final(vm)@ == old(
            vm,
        )@.advance(iterator).0 && r == with_default(
            old(vm)@.advance(iterator).1,
            default_value,
        ),
        old(vm)@.leads_to(final(vm)@),
        old(vm)@.intact() && old(vm)@.has(iterator) && old(vm)@.has_some(default_value)
            ==> final(vm)@.intact() && final(vm)@.has_pulled(r),
{
    if vm.next_slot(vm.class_of(iterator)).is_none() {
        return Err(Error::NextNotIterator { class: vm.class_of(iterator) });
    }
    match vm.advance(iterator) {
        Ok(PyIterReturn::StopIteration) => match default_value {
            Some(d) => Ok(PyIterReturn::Return(d)),
            None => Ok(PyIterReturn::StopIteration),
        },
        other => other,
    }
}

impl Heap {
    /// The iterator that `iter` makes: with a sentinel, a cursor that calls
    /// the target until the sentinel comes, for which the target must be
    /// callable; without one, the iterator of the target.
    pub open spec fn iter_of(self, target: ObjRef, sentinel: Option<ObjRef>) -> (
        Heap,
        Result<ObjRef, Error>,
    ) {
        match sentinel {
            Some(s) => match self.call_slot(self.class_of(target)) {
                Some(call) => (
                    self.push(
                        Heap::plain(
                            CALLABLE_ITERATOR_TYPE,
                            PayloadView::SentinelIter {
                                callable: target,
                                call,
                                sentinel: s,
                                pulls: 0,
                                done: false,
                            },
                        ),
                    ),
                    Ok(self.next_ref()),
                ),
                None => (self, Err(Error::NotCallable { class: self.class_of(target) })),
            },
            None => self.get_iter(target),
        }
    }

    /// The reversed iterator of `o`: what its `__reversed__` method returns
    /// when called on it, or, for an object that defines `__getitem__` and
    /// has a length, a cursor that reads it by index from the last item
    /// down.
    pub open spec fn reversed_of(self, o: ObjRef) -> (Heap, Result<ObjRef, Error>) {
        match self.class_attr(self.class_of(o), REVERSED@) {
            Some(method) => self.call(method, ArgsView::positional(seq![o])),
            None => if self.class_attr(self.class_of(o), GETITEM@) is None {
                (self, Err(Error::ReversedNotSequence))
            } else {
                match self.length(o) {
                    Err(e) => (self, Err(e)),
                    Ok(n) => (
                        self.push(
                            Heap::plain(
                                REVERSED_TYPE,
                                PayloadView::ReverseIter { source: o, remaining: n as usize },
                            ),
                        ),
                        Ok(self.next_ref()),
                    ),
                }
            },
        }
    }

    /// What rounding `number` gives: its type must define `__round__`,
    /// which is called on the number, and on `ndigits` where that is given
    /// and not the `None` object; `ndigits` must then be an integer.
    pub open spec fn round_of(self, number: ObjRef, ndigits: Option<ObjRef>) -> (
        Heap,
        Result<ObjRef, Error>,
    ) {
        match self.class_attr(self.class_of(number), ROUND@) {
            None => (self, Err(Error::NoRound { class: self.class_of(number) })),
            Some(method) => match ndigits {
                Some(d) => if self.payload(d) is NoneValue {
                    self.call(method, ArgsView::positional(seq![number]))
                } else {
                    match self.integer(d) {
                        Err(e) => (self, Err(e)),
                        Ok(_) => self.call(method, ArgsView::positional(seq![number, d])),
                    }
                },
                None => self.call(method, ArgsView::positional(seq![number])),
            },
        }
    }
}

/// Makes an iterator: of `iter_target` itself, or, with a sentinel, one
/// that calls `iter_target` until it returns the sentinel.
pub fn iter(iter_target: ObjRef, sentinel: Option<ObjRef>, vm: &mut Vm) -> (r: Result<
    ObjRef,
    Error,
>)
    ensures
        (final(vm)@, r) == old(vm)@.iter_of(iter_target, sentinel),
        old(vm)@.leads_to(final(vm)@),
        old(vm)@.intact() && old(vm)@.has(iter_target) && old(vm)@.has_some(sentinel)
            ==> final(vm)@.intact() && final(vm)@.has_ok(r),
{
    match sentinel {
        Some(s) => {
            let callable = match ArgCallable::read_from_object(vm, iter_target) {
                Ok(callable) => callable,
                Err(e) => {
                    return Err(e);
                },
            };
            Ok(vm.new_sentinel_iter(callable, s))
        },
        None => vm.get_iter(iter_target),
    }
}

impl Vm {
    /// A new cursor that calls `callable` until it returns `sentinel`.
    pub fn new_sentinel_iter(&mut self, callable: ArgCallable, sentinel: ObjRef) -> (r: ObjRef)
        ensures
            final(self)@ == old(self)@.push(
                Heap::plain(
                    CALLABLE_ITERATOR_TYPE,
                    PayloadView::SentinelIter {
                        callable: callable.callee(),
                        call: callable.slot(),
                        sentinel,
                        pulls: 0,
                        done: false,
                    },
                ),
            ),
            r == old(self)@.next_ref(),
            old(self)@.leads_to(final(self)@),
            old(self)@.intact() && old(self)@.has(callable.callee()) && old(self)@.has(sentinel)
                ==> final(self)@.intact() && final(self)@.has(r),
    {
        let target = callable.as_object();
        let call = callable.resolved_slot();
        self.new_object(
            ObjRef { id: CALLABLE_ITERATOR_TYPE },
            Payload::SentinelIter { callable: target, call, sentinel, pulls: 0, done: false },
        )
    }
}

/// The reversed iterator of `obj`.
pub fn reversed(obj: ObjRef, vm: &mut Vm) -> (r: Result<ObjRef, Error>)
    ensures
        (final(vm)@, r) == old(vm)@.reversed_of(obj),
        old(vm)@.leads_to(final(vm)@),
        old(vm)@.intact() && old(vm)@.has(obj) ==> final(vm)@.intact() && final(vm)@.has_ok(r),
{
    let class = vm.class_of(obj);
    match vm.class_attr(class, REVERSED) {
        Some(method) => {
            let mut positional: Vec<ObjRef> = Vec::new();
            positional.push(obj);
            let args = FuncArgs { args: positional, kwargs: Vec::new() };
            vm.call(method, &args)
        },
        None => {
            if vm.class_attr(class, GETITEM).is_none() {
                return Err(Error::ReversedNotSequence);
            }
            match vm.length(obj) {
                Err(e) => Err(e),
                Ok(n) => Ok(
                    vm.new_object(
                        ObjRef { id: REVERSED_TYPE },
                        Payload::ReverseIter { source: obj, remaining: n },
                    ),
                ),
            }
        },
    }
}

/// The arguments of `round`.
pub struct RoundArgs {
    pub number: ObjRef,
    pub ndigits: Option<ObjRef>,
}

/// Rounds `number` through its `__round__` method.
pub fn round(args: RoundArgs, vm: &mut Vm) -> (r: Result<ObjRef, Error>)
    ensures
        (final(vm)@, r) == old(vm)@.round_of(args.number, args.ndigits),
        old(vm)@.leads_to(final(vm)@),
        old(vm)@.intact() && old(vm)@.has(args.number) && old(vm)@.has_some(args.ndigits)
            ==> final(vm)@.intact() && final(vm)@.has_ok(r),
{
    let RoundArgs { number, ndigits } = args;
    let method = match vm.class_attr(vm.class_of(number), ROUND) {
        Some(method) => method,
        None => {
            return Err(Error::NoRound { class: vm.class_of(number) });
        },
    };
    let mut positional: Vec<ObjRef> = Vec::new();
    positional.push(number);
    match ndigits {
        Some(d) => {
            let absent = match vm.payload(d) {
                Some(Payload::NoneValue) => true,
                _ => false,
            };
            if !absent {
                match vm.integer(d) {
                    Ok(_) => {},
                    Err(e) => {
                        return Err(e);
                    },
                }
                positional.push(d);
            }
        },
        None => {},
    }
    let args = FuncArgs { args: positional, kwargs: Vec::new() };
    assert(args@.args =~= seq![number] || args@.args =~= seq![number, ndigits->0]);
    vm.call(method, &args)
}

impl Heap {
    /// Whether the selection `func` prefers `a` to `b`: both must hold
    /// integers, and the smaller one is preferred by `min`, the greater one
    /// by `max`.
    pub open spec fn prefers(self, func: Extremum, a: ObjRef, b: ObjRef) -> Result<bool, Error> {
        match (self.integer(a), self.integer(b)) {
            (Ok(x), Ok(y)) => Ok(
                match func {
                    Extremum::Min => x < y,
                    Extremum::Max => x > y,
                },
            ),
            _ => Err(
                Error::NotComparable { func, left: self.class_of(a), right: self.class_of(b) },
            ),
        }
    }

    /// The value by which a candidate is compared: the candidate itself, or
    /// what the key function returns for it.
    pub open spec fn key_of(self, key: Option<ObjRef>, v: ObjRef) -> (
        Heap,
        Result<ObjRef, Error>,
    ) {
        match key {
            None => (self, Ok(v)),
            Some(k) => self.call(k, ArgsView::positional(seq![v])),
        }
    }

    /// The candidate that is selected among `best` and `items[from..]`: a
    /// later candidate takes the place of the best one so far only where
    /// the selection prefers its key.
    pub open spec fn select(
        self,
        func: Extremum,
        key: Option<ObjRef>,
        items: Seq<ObjRef>,
        from: int,
        best: ObjRef,
        best_key: ObjRef,
    ) -> (Heap, Result<ObjRef, Error>)
        decreases items.len() - from,
    {
        if from < 0 || from >= items.len() {
            (self, Ok(best))
        } else {
            let (h, r) = self.key_of(key, items[from]);
            match r {
                Err(e) => (h, Err(e)),
                Ok(item_key) => match h.prefers(func, item_key, best_key) {
                    Err(e) => (h, Err(e)),
                    Ok(better) => if better {
                        h.select(func, key, items, from + 1, items[from], item_key)
                    } else {
                        h.select(func, key, items, from + 1, best, best_key)
                    },
                },
            }
        }
    }

    /// The key function that is used: the one given, unless it is the `None`
    /// object.
    pub open spec fn effective_key(self, key: Option<ObjRef>) -> Option<ObjRef> {
        match key {
            Some(k) => if self.payload(k) is NoneValue {
                None
            } else {
                Some(k)
            },
            None => None,
        }
    }

    /// The smallest or the greatest of the candidates. Several positional
    /// arguments are the candidates themselves; a single one is an iterable
    /// of them. The keywords `default` and `key` are taken, any other is
    /// refused. Without a candidate the default is returned, where there is
    /// one.
    pub open spec fn extremum(self, func: Extremum, args: ArgsView) -> (
        Heap,
        Result<ObjRef, Error>,
    ) {
        let default_value = lookup(args.kwargs, DEFAULT@);
        let without_default = unbind(args.kwargs, DEFAULT@);
        let key = lookup(without_default, KEY@);
        let rest = unbind(without_default, KEY@);
        if rest.len() > 0 {
            (
                self.push(Heap::plain(STR_TYPE, PayloadView::Str(rest[0].name))),
                Err(Error::UnexpectedKeyword { name: self.next_ref() }),
            )
        } else if args.args.len() == 0 {
            (self, Err(Error::NoArguments { func }))
        } else if args.args.len() > 1 && default_value is Some {
            (self, Err(Error::DefaultWithManyArguments { func }))
        } else {
            let (h, r) = if args.args.len() > 1 {
                (self, Ok::<Seq<ObjRef>, Error>(args.args))
            } else {
                materialize::<ObjRef>(self, args.args[0])
            };
            match r {
                Err(e) => (h, Err(e)),
                Ok(candidates) => if candidates.len() == 0 {
                    (
                        h,
                        match default_value {
                            Some(d) => Ok(d),
                            None => Err(Error::EmptySequence { func }),
                        },
                    )
                } else {
                    let used = h.effective_key(key);
                    let (h1, r1) = h.key_of(used, candidates[0]);
                    match r1 {
                        Err(e) => (h1, Err(e)),
                        Ok(first_key) => h1.select(
                            func,
                            used,
                            candidates,
                            1,
                            candidates[0],
                            first_key,
                        ),
                    }
                },
            }
        }
    }
}

impl Vm {
    /// Whether the selection `func` prefers `a` to `b`.
    pub fn prefers(&self, func: Extremum, a: ObjRef, b: ObjRef) -> (r: Result<bool, Error>)
        ensures
            r == self@.prefers(func, a, b),
    {
        match (self.integer(a), self.integer(b)) {
            (Ok(x), Ok(y)) => Ok(
                match func {
                    Extremum::Min => x < y,
                    Extremum::Max => x > y,
                },
            ),
            _ => Err(
                Error::NotComparable { func, left: self.class_of(a), right: self.class_of(b) },
            ),
        }
    }

    /// The value by which a candidate is compared.
    pub fn key_of(&mut self, key: Option<ObjRef>, v: ObjRef) -> (r: Result<ObjRef, Error>)
        ensures
            (final(self)@, r) == old(self)@.key_of(key, v),
            old(self)@.leads_to(final(self)@),
            old(self)@.intact() && old(self)@.has_some(key) && old(self)@.has(v)
                ==> final(self)@.intact() && final(self)@.has_ok(r),
    {
        match key {
            None => Ok(v),
            Some(k) => {
                let mut positional: Vec<ObjRef> = Vec::new();
                positional.push(v);
                let args = FuncArgs { args: positional, kwargs: Vec::new() };
                self.call(k, &args)
            },
        }
    }
}

/// The smallest (`Extremum::Min`) or the greatest (`Extremum::Max`) of the
/// candidates that `args` gives; among equally good candidates the first
/// one.
pub fn min_or_max(args: FuncArgs, vm: &mut Vm, func: Extremum) -> (r: Result<ObjRef, Error>)
    ensures
        (final(vm)@, r) == old(vm)@.extremum(func, args@),
        old(vm)@.leads_to(final(vm)@),
        old(vm)@.intact() && old(vm)@.holds(args@) ==> final(vm)@.intact() && final(vm)@.has_ok(r),
{
    let ghost whole = vm@.intact() && vm@.holds(args@);
    let FuncArgs { args: positional, kwargs } = args;
    let mut kwargs = kwargs;
    proof {
        if whole {
            lemma_lookup_within(vm@, kwargs.deep_view(), DEFAULT@);
            lemma_unbind_within(vm@, kwargs.deep_view(), DEFAULT@);
            lemma_lookup_within(vm@, unbind(kwargs.deep_view(), DEFAULT@), KEY@);
        }
    }
    let default_value = lookup_entry(&kwargs, DEFAULT);
    unbind_entry(&mut kwargs, DEFAULT);
    let key = lookup_entry(&kwargs, KEY);
    unbind_entry(&mut kwargs, KEY);
    assert(whole ==> vm@.has_some(default_value) && vm@.has_some(key));
    if kwargs.len() > 0 {
        let name = vm.new_str(kwargs[0].name.as_str());
        return Err(Error::UnexpectedKeyword { name });
    }
    if positional.len() == 0 {
        return Err(Error::NoArguments { func });
    }
    let candidates: Vec<ObjRef> = if positional.len() > 1 {
        if default_value.is_some() {
            return Err(Error::DefaultWithManyArguments { func });
        }
        positional
    } else {
        match ArgSequence::<ObjRef>::try_from_object(vm, positional[0]) {
            Ok(sequence) => sequence.into_vec(),
            Err(e) => {
                return Err(e);
            },
        }
    };
    assert(whole ==> vm@.intact() && vm@.refs_in(candidates@) && vm@.has_some(default_value)
        && vm@.has_some(key));
    if candidates.len() == 0 {
        return match default_value {
            Some(d) => Ok(d),
            None => Err(Error::EmptySequence { func }),
        };
    }
    let used = match key {
        Some(k) => {
            let absent = match vm.payload(k) {
                Some(Payload::NoneValue) => true,
                _ => false,
            };
            if absent {
                None
            } else {
                Some(k)
            }
        },
        None => None,
    };
    let mut best = candidates[0];
    assert(whole ==> vm@.has(candidates@[0]));
    let mut best_key = match vm.key_of(used, best) {
        Ok(k) => k,
        Err(e) => {
            return Err(e);
        },
    };
    let ghost goal = vm@.select(func, used, candidates@, 1, best, best_key);
    let mut i: usize = 1;
    while i < candidates.len()
        invariant
            old(vm)@.leads_to(vm@),
            1 <= i <= candidates.len(),
            goal == old(vm)@.extremum(func, args@),
            goal == vm@.select(func, used, candidates@, i as int, best, best_key),
            whole == (old(vm)@.intact() && old(vm)@.holds(args@)),
            whole ==> vm@.intact() && vm@.refs_in(candidates@) && vm@.has_some(used) && vm@.has(
                best,
            ) && vm@.has(best_key),
        decreases candidates.len() - i,
    {
        let item = candidates[i];
        assert(whole ==> vm@.has(candidates@[i as int]));
        let item_key = match vm.key_of(used, item) {
            Ok(k) => k,
            Err(e) => {
                return Err(e);
            },
        };
        match vm.prefers(func, item_key, best_key) {
            Ok(better) => {
                if better {
                    best = item;
                    best_key = item_key;
                }
            },
            Err(e) => {
                return Err(e);
            },
        }
        i += 1;
    }
    Ok(best)
}

/// The greatest of the candidates.
pub fn max(args: FuncArgs, vm: &mut Vm) -> (r: Result<ObjRef, Error>)
    ensures
        (final(vm)@, r) == old(vm)@.extremum(Extremum::Max, args@),
        old(vm)@.leads_to(final(vm)@),
        old(vm)@.intact() && old(vm)@.holds(args@) ==> final(vm)@.intact() && final(vm)@.has_ok(r),
{
    min_or_max(args, vm, Extremum::Max)
}

/// The smallest of the candidates.
pub fn min(args: FuncArgs, vm: &mut Vm) -> (r: Result<ObjRef, Error>)
    ensures
        (final(vm)@, r) == old(vm)@.extremum(Extremum::Min, args@),
        old(vm)@.leads_to(final(vm)@),
        old(vm)@.intact() && old(vm)@.holds(args@) ==> final(vm)@.intact() && final(vm)@.has_ok(r),
{
    min_or_max(args, vm, Extremum::Min)
}

impl Heap {
    /// The name that an attribute argument gives: it must be a string.
    pub open spec fn attr_name(self, attr: ObjRef) -> Result<Seq<char>, Error> {
        match self.payload(attr) {
            PayloadView::Str(s) => Ok(s),
            _ => Err(Error::AttributeNameNotString { class: self.class_of(attr) }),
        }
    }

    /// What `getattr` gives: the attribute, or else the default value, or
    /// else an error that names the attribute.
    pub open spec fn getattr_of(self, obj: ObjRef, attr: ObjRef, default_value: Option<ObjRef>)
        -> Result<ObjRef, Error> {
        match self.attr_name(attr) {
            Err(e) => Err(e),
            Ok(name) => match self.get_attr(obj, name) {
                Some(v) => Ok(v),
                None => match default_value {
                    Some(d) => Ok(d),
                    None => Err(Error::NoAttribute { class: self.class_of(obj), name: attr }),
                },
            },
        }
    }
}

impl Vm {
    /// The name that an attribute argument gives.
    pub fn attr_name(&self, attr: ObjRef) -> (r: Result<String, Error>)
        ensures
            match (r, self@.attr_name(attr)) {
                (Ok(s), Ok(name)) => s@ == name,
                (Err(e), Err(f)) => e == f,
                _ => false,
            },
    {
        match self.payload(attr) {
            Some(Payload::Str(s)) => Ok(s.clone()),
            _ => Err(Error::AttributeNameNotString { class: self.class_of(attr) }),
        }
    }
}

/// The attribute of `obj` that the string `attr` names, or `default_value`
/// where the object has no such attribute.
pub fn getattr(obj: ObjRef, attr: ObjRef, default_value: Option<ObjRef>, vm: &Vm) -> (r: Result<
    ObjRef,
    Error,
>)
    ensures
        r == vm@.getattr_of(obj, attr, default_value),
{
    let name = match vm.attr_name(attr) {
        Ok(name) => name,
        Err(e) => {
            return Err(e);
        },
    };
    match vm.get_attr(obj, name.as_str()) {
        Some(v) => Ok(v),
        None => match default_value {
            Some(d) => Ok(d),
            None => Err(Error::NoAttribute { class: vm.class_of(obj), name: attr }),
        },
    }
}

/// Whether `obj` has the attribute that the string `attr` names.
pub fn hasattr(obj: ObjRef, attr: ObjRef, vm: &Vm) -> (r: Result<bool, Error>)
    ensures
        r == match vm@.attr_name(attr) {
            Ok(name) => Ok::<bool, Error>(vm@.get_attr(obj, name) is Some),
            Err(e) => Err(e),
        },
{
    match vm.attr_name(attr) {
        Ok(name) => Ok(vm.get_attr(obj, name.as_str()).is_some()),
        Err(e) => Err(e),
    }
}

/// Binds the own attribute of `obj` that the string `attr` names to
/// `value`.
pub fn setattr(obj: ObjRef, attr: ObjRef, value: ObjRef, vm: &mut Vm) -> (r: Result<(), Error>)
    ensures
        match old(vm)@.attr_name(attr) {
            Ok(name) => r == Ok::<(), Error>(()) && final(vm)@ == old(vm)@.with_attrs(
                obj,
                crate::heap::bind(old(vm)@.attrs(obj), name, value),
            ),
            Err(e) => r == Err::<(), Error>(e) && final(vm)@ == old(vm)@,
        },
        old(vm)@.leads_to(final(vm)@),
        old(vm)@.intact() && old(vm)@.has(obj) && old(vm)@.has(attr) && old(vm)@.has(value)
            ==> final(vm)@.intact(),
{
    match vm.attr_name(attr) {
        Ok(name) => {
            vm.set_attr(obj, name.as_str(), value);
            Ok(())
        },
        Err(e) => Err(e),
    }
}

/// Removes the own attribute of `obj` that the string `attr` names; an
/// object without it is an error.
pub fn delattr(obj: ObjRef, attr: ObjRef, vm: &mut Vm) -> (r: Result<(), Error>)
    ensures
        match old(vm)@.attr_name(attr) {
            Ok(name) => if lookup(old(vm)@.attrs(obj), name) is Some {
                r == Ok::<(), Error>(()) && final(vm)@ == old(vm)@.with_attrs(
                    obj,
                    unbind(old(vm)@.attrs(obj), name),
                )
            } else {
                r == Err::<(), Error>(
                    Error::NoAttribute { class: old(vm)@.class_of(obj), name: attr },
                ) && final(vm)@ == old(vm)@
            },
            Err(e) => r == Err::<(), Error>(e) && final(vm)@ == old(vm)@,
        },
        old(vm)@.leads_to(final(vm)@),
        old(vm)@.intact() && old(vm)@.has(obj) && old(vm)@.has(attr) ==> final(vm)@.intact(),
{
    let name = match vm.attr_name(attr) {
        Ok(name) => name,
        Err(e) => {
            return Err(e);
        },
    };
    let present = match vm.object(obj) {
        Some(o) => lookup_entry(&o.attrs, name.as_str()).is_some(),
        None => false,
    };
    if present {
        vm.del_attr(obj, name.as_str());
        Ok(())
    } else {
        Err(Error::NoAttribute { class: vm.class_of(obj), name: attr })
    }
}

/// Whether `obj` can be called: the ancestors of its type hold a call slot.
pub fn callable(obj: ObjRef, vm: &Vm) -> (r: bool)
    ensures
        r == (vm@.call_slot(vm@.class_of(obj)) is Some),
{
    vm.call_slot(vm.class_of(obj)).is_some()
}

impl Heap {
    /// Whether the class `cls` derives from `typ`, where `typ` is a type or
    /// a tuple of such: a tuple is searched from left to right, and the
    /// first item that the class derives from, or that is refused, decides.
    /// Anything else is refused with `refusal`. A tuple holds only objects
    /// that were made before it, so an item that was not is refused too.
    pub open spec fn derives(self, cls: ObjRef, typ: ObjRef, refusal: Error) -> Result<bool, Error>
        decreases typ.id + 1, 0nat,
    {
        if self.is_type(typ) {
            Ok(self.is_subclass(cls, typ))
        } else if self.payload(typ) is Tuple {
            self.derives_from_any(cls, self.elements(typ), 0, typ.id, refusal)
        } else {
            Err(refusal)
        }
    }

    /// Whether the class `cls` derives from one of `items[from..]`, each
    /// of which lies before place `below`.
    pub open spec fn derives_from_any(
        self,
        cls: ObjRef,
        items: Seq<ObjRef>,
        from: int,
        below: usize,
        refusal: Error,
    ) -> Result<bool, Error>
        decreases below, items.len() - from,
    {
        if from < 0 || from >= items.len() {
            Ok(false)
        } else if items[from].id >= below {
            Err(refusal)
        } else {
            match self.derives(cls, items[from], refusal) {
                Ok(true) => Ok(true),
                Ok(false) => self.derives_from_any(cls, items, from + 1, below, refusal),
                Err(e) => Err(e),
            }
        }
    }
}

impl Vm {
    /// Whether the class `cls` derives from `typ`, a type or a tuple of
    /// such.
    pub fn derives(&self, cls: ObjRef, typ: ObjRef, refusal: Error) -> (r: Result<bool, Error>)
        ensures
            r == self@.derives(cls, typ, refusal),
        decreases typ.id + 1, 0nat,
    {
        if self.is_type(typ) {
            return Ok(self.is_subclass(cls, typ));
        }
        let items: &Vec<ObjRef> = match self.payload(typ) {
            Some(Payload::Tuple(items)) => items,
            _ => {
                return Err(refusal);
            },
        };
        let mut i: usize = 0;
        while i < items.len()
            invariant
                i <= items.len(),
                items@ == self@.elements(typ),
                self@.payload(typ) is Tuple,
                !self@.is_type(typ),
                self@.derives(cls, typ, refusal) == self@.derives_from_any(
                    cls,
                    items@,
                    i as int,
                    typ.id,
                    refusal,
                ),
            decreases items.len() - i,
        {
            if items[i].id >= typ.id {
                return Err(refusal);
            }
            match self.derives(cls, items[i], refusal) {
                Ok(true) => {
                    return Ok(true);
                },
                Ok(false) => {},
                Err(e) => {
                    return Err(e);
                },
            }
            i += 1;
        }
        Ok(false)
    }
}

/// Whether `obj` is an instance of `typ`, which is a type or a tuple of
/// types: the type of `obj` derives from it, or from one of them.
pub fn isinstance(obj: ObjRef, typ: ObjRef, vm: &Vm) -> (r: Result<bool, Error>)
    ensures
        r == vm@.derives(vm@.class_of(obj), typ, Error::InstanceCheckNotType),
        vm@.is_type(typ) ==> r == Ok::<bool, Error>(vm@.is_instance(obj, typ)),
{
    vm.derives(vm.class_of(obj), typ, Error::InstanceCheckNotType)
}

/// Whether the class `subclass` derives from `typ`, which is a type or a
/// tuple of types.
pub fn issubclass(subclass: ObjRef, typ: ObjRef, vm: &Vm) -> (r: Result<bool, Error>)
    ensures
        r == if !vm@.is_type(subclass) {
            Err::<bool, Error>(Error::SubclassCheckNotClass { position: 1 })
        } else {
            vm@.derives(subclass, typ, Error::SubclassCheckNotClass { position: 2 })
        },
{
    if !vm.is_type(subclass) {
        Err(Error::SubclassCheckNotClass { position: 1 })
    } else {
        vm.derives(subclass, typ, Error::SubclassCheckNotClass { position: 2 })
    }
}

/// The number of items of `obj`.
pub fn len(obj: ObjRef, vm: &Vm) -> (r: Result<usize, Error>)
    ensures
        match (r, vm@.length(obj)) {
            (Ok(n), Ok(m)) => n == m,
            (Err(e), Err(f)) => e == f,
            _ => false,
        },
{
    vm.length(obj)
}

/// The identity of `obj`: a number that no other object of the arena has.
pub fn id(obj: ObjRef) -> (r: usize)
    ensures
        r == obj.id,
{
    obj.id
}

/// Ends the program: always an error of the kind `SystemExit` that carries
/// the exit code, which is a new integer 0 where none is given.
pub fn exit(exit_code_arg: Option<ObjRef>, vm: &mut Vm) -> (r: Result<ObjRef, Error>)
    ensures
        match exit_code_arg {
            Some(code) => final(vm)@ == old(vm)@ && r == Err::<ObjRef, Error>(
                Error::Exit { code },
            ),
            None => final(vm)@ == old(vm)@.push(Heap::plain(INT_TYPE, PayloadView::Int(0))) && r
                == Err::<ObjRef, Error>(Error::Exit { code: old(vm)@.next_ref() }),
        },
        old(vm)@.leads_to(final(vm)@),
        old(vm)@.intact() && old(vm)@.has_some(exit_code_arg)
            ==> final(vm)@.intact() && final(vm)@.has_ok(r),
{
    let code = match exit_code_arg {
        Some(code) => code,
        None => vm.new_int(0),
    };
    Err(Error::Exit { code })
}

} // verus!
