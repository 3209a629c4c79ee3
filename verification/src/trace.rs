//! The part that values take in the tracing of cyclic references: every
//! value says which object references it owns, in a fixed order.

use vstd::prelude::*;

use crate::object::{CallSlot, IterSlot, MappingMethods, ObjRef};
use crate::protocol::{ArgCallable, ArgIntoBool, ArgIterable, ArgMapping, ReadFromObject};
use crate::sequence::ArgSequence;

verus! {

/// The visitor of a tracing: it is told each reference that a value owns.
pub struct TraverseFn {
    visited: Vec<ObjRef>,
}

impl View for TraverseFn {
    type V = Seq<ObjRef>;

    /// The references visited so far, in order.
    closed spec fn view(&self) -> Seq<ObjRef> {
        self.visited@
    }
}

impl TraverseFn {
    /// A visitor that has visited nothing.
    pub fn new() -> (r: Self)
        ensures
            r@ == Seq::<ObjRef>::empty(),
    {
        TraverseFn { visited: Vec::new() }
    }

    /// Visits one reference.
    pub fn visit(&mut self, o: ObjRef)
        ensures
            final(self)@ == old(self)@.push(o),
    {
        self.visited.push(o);
    }

    /// The references visited, in order.
    pub fn into_vec(self) -> (r: Vec<ObjRef>)
        ensures
            r@ == self@,
    {
        self.visited
    }
}

/// What a value owns. A value that holds object references shows each of
/// them to the visitor; a value that holds none says so by owning nothing.
pub trait Traverse {
    /// The references that the value owns, in the order in which they are
    /// shown.
    spec fn owned(&self) -> Seq<ObjRef>;

    fn traverse(&self, tracer_fn: &mut TraverseFn)
        ensures
            final(tracer_fn)@ == old(tracer_fn)@ + self.owned(),
    ;
}

impl Traverse for ObjRef {
    open spec fn owned(&self) -> Seq<ObjRef> {
        seq![*self]
    }

    fn traverse(&self, tracer_fn: &mut TraverseFn) {
        tracer_fn.visit(*self);
    }
}

impl Traverse for ArgIntoBool {
    open spec fn owned(&self) -> Seq<ObjRef> {
        Seq::empty()
    }

    fn traverse(&self, tracer_fn: &mut TraverseFn) {
    }
}

impl Traverse for i64 {
    open spec fn owned(&self) -> Seq<ObjRef> {
        Seq::empty()
    }

    fn traverse(&self, tracer_fn: &mut TraverseFn) {
    }
}

/// A truth value owns nothing.
impl Traverse for bool {
    open spec fn owned(&self) -> Seq<ObjRef> {
        Seq::empty()
    }

    fn traverse(&self, tracer_fn: &mut TraverseFn) {
    }
}

/// A resolved call slot is no reference: it owns nothing.
impl Traverse for CallSlot {
    open spec fn owned(&self) -> Seq<ObjRef> {
        Seq::empty()
    }

    fn traverse(&self, tracer_fn: &mut TraverseFn) {
    }
}

/// A resolved iterate slot is no reference: it owns nothing.
impl Traverse for IterSlot {
    open spec fn owned(&self) -> Seq<ObjRef> {
        Seq::empty()
    }

    fn traverse(&self, tracer_fn: &mut TraverseFn) {
    }
}

/// Resolved mapping methods are no reference: they own nothing.
impl Traverse for MappingMethods {
    open spec fn owned(&self) -> Seq<ObjRef> {
        Seq::empty()
    }

    fn traverse(&self, tracer_fn: &mut TraverseFn) {
    }
}

/// A callable handle owns the object it was bound to; the resolved slot is
/// no reference.
impl Traverse for ArgCallable {
    open spec fn owned(&self) -> Seq<ObjRef> {
        seq![self.callee()]
    }

    fn traverse(&self, tracer_fn: &mut TraverseFn) {
        tracer_fn.visit(self.as_object());
    }
}

/// An iterable handle owns the object it was bound to.
impl<T: ReadFromObject + Traverse> Traverse for ArgIterable<T> {
    open spec fn owned(&self) -> Seq<ObjRef> {
        seq![self.source()]
    }

    fn traverse(&self, tracer_fn: &mut TraverseFn) {
        tracer_fn.visit(self.as_object());
    }
}

/// A mapping handle owns the object it was bound to; the resolved methods
/// are no reference.
impl Traverse for ArgMapping {
    open spec fn owned(&self) -> Seq<ObjRef> {
        seq![self.target()]
    }

    fn traverse(&self, tracer_fn: &mut TraverseFn) {
        tracer_fn.visit(self.as_object());
    }
}

/// What the items from position `from` on own, one item after the other.
pub open spec fn owned_by_all<T: Traverse>(items: Seq<T>, from: int) -> Seq<ObjRef>
    decreases items.len() - from,
{
    if from < 0 || from >= items.len() {
        Seq::empty()
    } else {
        items[from].owned() + owned_by_all(items, from + 1)
    }
}

/// A sequence owns what its items own.
impl<T: Traverse> Traverse for ArgSequence<T> {
    open spec fn owned(&self) -> Seq<ObjRef> {
        owned_by_all(self@, 0)
    }

    fn traverse(&self, tracer_fn: &mut TraverseFn) {
        let items = self.as_slice();
        let mut i: usize = 0;
        while i < items.len()
            invariant
                i <= items.len(),
                items@ == self@,
                tracer_fn@ + owned_by_all(items@, i as int) == old(tracer_fn)@ + owned_by_all(
                    items@,
                    0,
                ),
            decreases items.len() - i,
        {
            items[i].traverse(tracer_fn);
            i += 1;
        }
    }
}

} // verus!
