//! The arena itself: the executable store of objects, with the primitive
//! reads and writes that everything else is built from.

use vstd::prelude::*;

use crate::check::{
    lemma_object_sound, lemma_push_keeps, lemma_roots_fixed, lemma_with_attrs_keeps,
    lemma_with_payload_keeps, payload_sound,
};
use crate::heap::{distinct_names, Heap, OBJECT_TYPE, ROOT_COUNT};
use crate::object::{Attr, ObjRef, Object, Payload};

verus! {

/// The store of all objects of one runtime. Objects are only ever added, so
/// a reference stays valid once it has been handed out.
pub struct Vm {
    objects: Vec<Object>,
}

impl View for Vm {
    type V = Heap;

    closed spec fn view(&self) -> Heap {
        Heap { objects: self.objects.deep_view() }
    }
}

/// The arena that a `Vm` holds fits the machine.
pub proof fn lemma_arena_fits(vm: &Vm)
    ensures
        vm@.fits(),
{
    assert(vm.objects.len() == vm.objects@.len());
    assert forall|o: ObjRef| (#[trigger] vm@.elements(o)).len() <= usize::MAX by {
        if vm@.has(o) {
            let obj = vm.objects@[o.id as int];
            assert(vm@.objects[o.id as int] == obj@);
            match obj.payload {
                Payload::Tuple(v) => {
                    assert(v.len() == v@.len());
                    assert(vm@.elements(o) == v@);
                },
                Payload::List(v) => {
                    assert(v.len() == v@.len());
                    assert(vm@.elements(o) == v@);
                },
                _ => {},
            }
        }
    }
}

impl Vm {
    /// An arena without any object.
    pub(crate) fn empty() -> (r: Vm)
        ensures
            r@.objects == Seq::<crate::object::ObjectView>::empty(),
    {
        Vm { objects: Vec::new() }
    }

    /// The number of objects in the arena.
    pub fn len(&self) -> (r: usize)
        ensures
            r == self@.objects.len(),
    {
        self.objects.len()
    }

    /// The object `o` denotes, if it lies in the arena.
    pub fn object(&self, o: ObjRef) -> (r: Option<&Object>)
        ensures
            match r {
                Some(obj) => self@.has(o) && obj@ == self@.objects[o.id as int],
                None => !self@.has(o),
            },
    {
        if o.id < self.objects.len() {
            Some(&self.objects[o.id])
        } else {
            None
        }
    }

    /// The type of `o`.
    pub fn class_of(&self, o: ObjRef) -> (r: ObjRef)
        ensures
            r == self@.class_of(o),
    {
        match self.object(o) {
            Some(obj) => obj.class,
            None => ObjRef { id: OBJECT_TYPE },
        }
    }

    /// Adds an object to the arena and returns its reference.
    pub(crate) fn allocate(&mut self, obj: Object) -> (r: ObjRef)
        ensures
            final(self)@ == old(self)@.push(obj@),
            r == old(self)@.next_ref(),
            old(self)@.has(r) == false,
            final(self)@.has(r),
            old(self)@.leads_to(final(self)@),
            old(self)@.sound() && final(self)@.sound_object(obj@) ==> final(self)@.sound(),
    {
        let r = ObjRef { id: self.objects.len() };
        let ghost view = obj@;
        self.objects.push(obj);
        assert(self@.objects =~= old(self)@.objects.push(view));
        proof {
            if old(self)@.sound() && self@.sound_object(view) {
                lemma_object_sound(self@, view);
                lemma_push_keeps(old(self)@, view);
            }
        }
        r
    }

    /// Adds an object of type `class` with the given native data and no
    /// attributes of its own.
    pub fn new_object(&mut self, class: ObjRef, payload: Payload) -> (r: ObjRef)
        ensures
            final(self)@ == old(self)@.push(
                crate::object::ObjectView { class, payload: payload@, attrs: Seq::empty() },
            ),
            r == old(self)@.next_ref(),
            old(self)@.leads_to(final(self)@),
            old(self)@.sound() && old(self)@.has(class) && payload_sound(
                payload@,
                old(self)@.objects.len() + 1,
            ) ==> final(self)@.sound(),
    {
        let obj = Object { class, payload, attrs: Vec::new() };
        assert(obj@.attrs =~= Seq::empty());
        proof {
            lemma_object_sound(self@.push(obj@), obj@);
        }
        self.allocate(obj)
    }

    /// Replaces the native data of `o`; a reference outside the arena is
    /// left alone.
    pub(crate) fn set_payload(&mut self, o: ObjRef, payload: Payload)
        ensures
            final(self)@ == old(self)@.with_payload(o, payload@),
            !old(self)@.fixed(o) ==> old(self)@.leads_to(final(self)@),
            old(self)@.sound() && payload_sound(payload@, old(self)@.objects.len())
                ==> final(self)@.sound(),
    {
        if o.id < self.objects.len() {
            let ghost view = payload@;
            self.objects[o.id].payload = payload;
            assert(self@.objects =~= old(self)@.with_payload(o, view).objects);
        }
        proof {
            if old(self)@.standard() && o.id < ROOT_COUNT {
                lemma_roots_fixed(old(self)@, o);
            }
            if old(self)@.sound() && payload_sound(payload@, old(self)@.objects.len()) {
                lemma_with_payload_keeps(old(self)@, o, payload@);
            }
        }
    }

    /// Replaces the own attributes of `o`; a reference outside the arena is
    /// left alone.
    pub(crate) fn set_attrs(&mut self, o: ObjRef, attrs: Vec<Attr>)
        ensures
            final(self)@ == old(self)@.with_attrs(o, attrs.deep_view()),
            old(self)@.leads_to(final(self)@),
            old(self)@.sound() && old(self)@.values_in(attrs.deep_view()) && distinct_names(
                attrs.deep_view(),
            ) ==> final(self)@.sound(),
    {
        let ghost view = attrs.deep_view();
        if o.id < self.objects.len() {
            self.objects[o.id].attrs = attrs;
            assert(self@.objects =~= old(self)@.with_attrs(o, view).objects);
        }
        proof {
            if old(self)@.sound() && old(self)@.values_in(view) && distinct_names(view) {
                lemma_with_attrs_keeps(old(self)@, o, view);
            }
        }
    }
}

} // verus!
