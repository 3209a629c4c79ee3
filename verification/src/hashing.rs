//! `hash`: what of an object is hashed. The numbers themselves are the
//! runtime's to compute, since they depend on the seed of its hasher and
//! on where its objects live.

use vstd::prelude::*;

use crate::error::Error;
use crate::heap::Heap;
use crate::object::{ArgsView, FuncArgs, ObjRef, Payload, PayloadView};
use crate::vm::Vm;

verus! {

/// The method by which an object gives its hash.
pub const HASH: &'static str = "__hash__";

/// What is to be hashed for an object.
#[derive(Clone, Copy, Debug, PartialEq, Eq, Structural)]
pub enum Hashed {
    /// The `__hash__` method of the type of the object returned this
    /// integer.
    Returned(i64),
    /// The object holds this integer, or stands for it as a truth value,
    /// and is hashed as a number.
    Number(i64),
    /// The object is a string, bytes or a tuple, and is hashed by what it
    /// holds.
    Content(ObjRef),
    /// The object is hashed by its identity.
    Identity(ObjRef),
}

impl Heap {
    /// What is hashed for an object whose type and ancestors define no
    /// `__hash__`: the number of an integer or a truth value, the content
    /// of a string, of bytes or of a tuple, and the identity of any other
    /// object. Lists and dictionaries cannot be hashed.
    pub open spec fn hashed_natively(self, obj: ObjRef) -> Result<Hashed, Error> {
        match self.payload(obj) {
            PayloadView::Int(i) => Ok(Hashed::Number(i)),
            PayloadView::Bool(b) => Ok(Hashed::Number(if b { 1i64 } else { 0i64 })),
            PayloadView::Str(_) => Ok(Hashed::Content(obj)),
            PayloadView::Bytes(_) => Ok(Hashed::Content(obj)),
            PayloadView::Tuple(_) => Ok(Hashed::Content(obj)),
            PayloadView::List(_) => Err(Error::Unhashable { class: self.class_of(obj) }),
            PayloadView::Dict(_) => Err(Error::Unhashable { class: self.class_of(obj) }),
            _ => Ok(Hashed::Identity(obj)),
        }
    }

    /// What a `__hash__` method made: it must hold an integer.
    pub open spec fn hash_returned(self, made: Result<ObjRef, Error>) -> Result<Hashed, Error> {
        match made {
            Ok(v) => match self.integer(v) {
                Ok(i) => Ok(Hashed::Returned(i)),
                Err(_) => Err(Error::HashNotInteger),
            },
            Err(e) => Err(e),
        }
    }

    /// What is hashed for `obj`. Where its type or an ancestor defines
    /// `__hash__`, that decides: bound to the `None` object it says that
    /// the object cannot be hashed, and bound to anything else it is called
    /// on the object and must return an integer. Where none defines it, the
    /// native data of the object decides.
    pub open spec fn hash_of(self, obj: ObjRef) -> (Heap, Result<Hashed, Error>) {
        match self.class_attr(self.class_of(obj), HASH@) {
            Some(method) => if self.payload(method) is NoneValue {
                (self, Err(Error::Unhashable { class: self.class_of(obj) }))
            } else {
                let (h, made) = self.call(method, ArgsView::positional(seq![obj]));
                (h, h.hash_returned(made))
            },
            None => (self, self.hashed_natively(obj)),
        }
    }
}

impl Hashed {
    /// Whether the object that is to be hashed lies in the arena.
    pub open spec fn within(self, heap: Heap) -> bool {
        match self {
            Hashed::Content(o) => heap.has(o),
            Hashed::Identity(o) => heap.has(o),
            _ => true,
        }
    }
}

/// Decides what is hashed for `obj`, or why it cannot be hashed.
pub fn hash(obj: ObjRef, vm: &mut Vm) -> (r: Result<Hashed, Error>)
    ensures
        (final(vm)@, r) == old(vm)@.hash_of(obj),
        old(vm)@.leads_to(final(vm)@),
        old(vm)@.intact() && old(vm)@.has(obj) ==> final(vm)@.intact() && (r matches Ok(hashed)
            ==> hashed.within(final(vm)@)),
{
    let class = vm.class_of(obj);
    match vm.class_attr(class, HASH) {
        Some(method) => {
            let refused = match vm.payload(method) {
                Some(Payload::NoneValue) => true,
                _ => false,
            };
            if refused {
                return Err(Error::Unhashable { class });
            }
            let mut positional: Vec<ObjRef> = Vec::new();
            positional.push(obj);
            let args = FuncArgs { args: positional, kwargs: Vec::new() };
            assert(args@.args =~= seq![obj]);
            assert(args@.kwargs =~= Seq::empty());
            match vm.call(method, &args) {
                Ok(v) => match vm.integer(v) {
                    Ok(i) => Ok(Hashed::Returned(i)),
                    Err(_) => Err(Error::HashNotInteger),
                },
                Err(e) => Err(e),
            }
        },
        None => match vm.payload(obj) {
            Some(Payload::Int(i)) => Ok(Hashed::Number(*i)),
            Some(Payload::Bool(b)) => Ok(Hashed::Number(if *b { 1 } else { 0 })),
            Some(Payload::Str(_)) => Ok(Hashed::Content(obj)),
            Some(Payload::Bytes(_)) => Ok(Hashed::Content(obj)),
            Some(Payload::Tuple(_)) => Ok(Hashed::Content(obj)),
            Some(Payload::List(_)) => Err(Error::Unhashable { class }),
            Some(Payload::Dict(_)) => Err(Error::Unhashable { class }),
            _ => Ok(Hashed::Identity(obj)),
        },
    }
}

} // verus!
