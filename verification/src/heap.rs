//! The mathematical model of the arena: a sequence of object views, and the
//! read-only questions asked of it (types, ancestors, slots, attributes).
//!
//! Every question is total. A reference that lies outside the arena reads as
//! an instance of `object` without native data or attributes, and a
//! reference that is no type reads as a type without ancestors and slots.

use vstd::prelude::*;

use crate::object::{
    AttrView, Capability, ObjRef, ObjectView, PayloadView, RoutineView, Slot, TypeView,
};

verus! {

/// The place of the type `type`, the metaclass of every built-in type.
pub const TYPE_TYPE: usize = 0;

/// The place of the type `object`, the root of every class.
pub const OBJECT_TYPE: usize = 1;

/// The place of the type of the `None` object.
pub const NONE_TYPE: usize = 2;

/// The place of the `None` object.
pub const NONE: usize = 3;

/// The place of the type `bool`.
pub const BOOL_TYPE: usize = 4;

/// The place of the type `int`.
pub const INT_TYPE: usize = 5;

/// The place of the type `str`.
pub const STR_TYPE: usize = 6;

/// The place of the type `tuple`.
pub const TUPLE_TYPE: usize = 7;

/// The place of the type `list`.
pub const LIST_TYPE: usize = 8;

/// The place of the type `dict`.
pub const DICT_TYPE: usize = 9;

/// The place of the type of cells.
pub const CELL_TYPE: usize = 10;

/// The place of the type of functions.
pub const FUNCTION_TYPE: usize = 11;

/// The place of the type of the cursors over stored elements.
pub const LIST_ITERATOR_TYPE: usize = 12;

/// The place of the type of the cursors that read by index.
pub const ITERATOR_TYPE: usize = 13;

/// The place of the type of the cursors that call until a sentinel comes.
pub const CALLABLE_ITERATOR_TYPE: usize = 14;

/// The place of the type of the cursors that read by index from the end.
pub const REVERSED_TYPE: usize = 15;

/// The place of the object `False`.
pub const FALSE: usize = 16;

/// The place of the object `True`.
pub const TRUE: usize = 17;

/// The place of the type of modules.
pub const MODULE_TYPE: usize = 18;

/// The place of the type of the `NotImplemented` object.
pub const NOT_IMPLEMENTED_TYPE: usize = 19;

/// The place of the `NotImplemented` object.
pub const NOT_IMPLEMENTED: usize = 20;

/// The place of the type of the `Ellipsis` object.
pub const ELLIPSIS_TYPE: usize = 21;

/// The place of the `Ellipsis` object.
pub const ELLIPSIS: usize = 22;

/// The number of objects at the start of every arena that are written out
/// one by one; the built-in classes that follow them come from a table.
pub const CORE_COUNT: usize = 23;

/// The number of objects every arena starts with.
pub const ROOT_COUNT: usize = 108;

/// The arena as a value: object `i` is what the reference with `id == i`
/// denotes.
pub struct Heap {
    pub objects: Seq<ObjectView>,
}

/// The position of the first entry called `name` at or after `from`, or the
/// length of `entries` where there is none.
pub open spec fn position(entries: Seq<AttrView>, name: Seq<char>, from: int) -> int
    decreases entries.len() - from,
{
    if from < 0 || from >= entries.len() {
        entries.len() as int
    } else if entries[from].name == name {
        from
    } else {
        position(entries, name, from + 1)
    }
}

/// The value of the first entry called `name`.
pub open spec fn lookup(entries: Seq<AttrView>, name: Seq<char>) -> Option<ObjRef> {
    let i = position(entries, name, 0);
    if i < entries.len() {
        Some(entries[i].value)
    } else {
        None
    }
}

/// `entries` with `name` bound to `value`: the first entry of that name is
/// rebound in place, and a new name goes to the end.
pub open spec fn bind(entries: Seq<AttrView>, name: Seq<char>, value: ObjRef) -> Seq<AttrView> {
    let i = position(entries, name, 0);
    if i < entries.len() {
        entries.update(i, AttrView { name, value })
    } else {
        entries.push(AttrView { name, value })
    }
}

/// Whether no two entries have the same name.
pub open spec fn distinct_names(entries: Seq<AttrView>) -> bool {
    forall|i: int, j: int|
        0 <= i < j < entries.len() ==> (#[trigger] entries[i]).name != (#[trigger] entries[j]).name
}

/// `attrs` with each of `entries[from..]` bound, in order.
pub open spec fn bind_all(attrs: Seq<AttrView>, entries: Seq<AttrView>, from: int) -> Seq<AttrView>
    decreases entries.len() - from,
{
    if from < 0 || from >= entries.len() {
        attrs
    } else {
        bind_all(bind(attrs, entries[from].name, entries[from].value), entries, from + 1)
    }
}

/// `entries` without the first entry called `name`.
pub open spec fn unbind(entries: Seq<AttrView>, name: Seq<char>) -> Seq<AttrView> {
    let i = position(entries, name, 0);
    if i < entries.len() {
        entries.remove(i)
    } else {
        entries
    }
}

/// What is resolved along ancestors that lie in an arena stays as it is in
/// every arena that keeps its objects.
pub proof fn lemma_find_kept(
    before: Heap,
    after: Heap,
    chain: Seq<ObjRef>,
    from: int,
    cap: Capability,
    name: Seq<char>,
)
    requires
        before.kept_by(after),
        before.refs_in(chain),
    ensures
        before.find_slot(chain, from, cap) == after.find_slot(chain, from, cap),
        before.find_attr(chain, from, name) == after.find_attr(chain, from, name),
    decreases chain.len() - from,
{
    if 0 <= from < chain.len() {
        lemma_find_kept(before, after, chain, from + 1, cap, name);
    }
}

/// The type of an object, and what its type resolves, stay as they are in
/// every arena that keeps the objects of a sound one.
pub proof fn lemma_resolve_kept(
    before: Heap,
    after: Heap,
    o: ObjRef,
    cap: Capability,
    name: Seq<char>,
)
    requires
        before.sound(),
        before.has(o),
        before.kept_by(after),
    ensures
        before.class_of(o) == after.class_of(o),
        before.payload(o) == after.payload(o),
        before.attrs(o) == after.attrs(o),
        before.resolve(before.class_of(o), cap) == after.resolve(after.class_of(o), cap),
        before.class_attr(before.class_of(o), name) == after.class_attr(after.class_of(o), name),
{
    let c = before.class_of(o);
    lemma_find_kept(before, after, before.mro(c), 0, cap, name);
}

impl Heap {
    pub open spec fn has(self, o: ObjRef) -> bool {
        o.id < self.objects.len()
    }

    /// The reference the next allocated object gets.
    pub open spec fn next_ref(self) -> ObjRef {
        ObjRef { id: self.objects.len() as usize }
    }

    pub open spec fn class_of(self, o: ObjRef) -> ObjRef {
        if self.has(o) {
            self.objects[o.id as int].class
        } else {
            ObjRef { id: OBJECT_TYPE }
        }
    }

    pub open spec fn payload(self, o: ObjRef) -> PayloadView {
        if self.has(o) {
            self.objects[o.id as int].payload
        } else {
            PayloadView::Instance
        }
    }

    pub open spec fn attrs(self, o: ObjRef) -> Seq<AttrView> {
        if self.has(o) {
            self.objects[o.id as int].attrs
        } else {
            Seq::empty()
        }
    }

    pub open spec fn is_type(self, o: ObjRef) -> bool {
        self.payload(o) is Type
    }

    /// The descriptor of type `t`.
    pub open spec fn type_view(self, t: ObjRef) -> TypeView {
        match self.payload(t) {
            PayloadView::Type(tv) => tv,
            _ => TypeView::void(),
        }
    }

    /// The linearized ancestors of type `t`, the nearest first.
    pub open spec fn mro(self, t: ObjRef) -> Seq<ObjRef> {
        self.type_view(t).mro
    }

    /// The first slot for `cap` that the types of `chain` hold, looking from
    /// position `from` on.
    pub open spec fn find_slot(self, chain: Seq<ObjRef>, from: int, cap: Capability) -> Option<Slot>
        decreases chain.len() - from,
    {
        if from < 0 || from >= chain.len() {
            None
        } else {
            match self.type_view(chain[from]).slots.spec_get(cap) {
                Some(s) => Some(s),
                None => self.find_slot(chain, from + 1, cap),
            }
        }
    }

    /// The nearest slot for `cap` along the ancestors of type `cls`.
    pub open spec fn resolve(self, cls: ObjRef, cap: Capability) -> Option<Slot> {
        self.find_slot(self.mro(cls), 0, cap)
    }

    /// Whether `b` is among the ancestors of `a` (a type with a proper
    /// descriptor is among its own).
    pub open spec fn is_subclass(self, a: ObjRef, b: ObjRef) -> bool {
        self.mro(a).contains(b)
    }

    pub open spec fn is_instance(self, o: ObjRef, cls: ObjRef) -> bool {
        self.is_subclass(self.class_of(o), cls)
    }

    /// The first attribute called `name` that the types of `chain` hold,
    /// looking from position `from` on.
    pub open spec fn find_attr(self, chain: Seq<ObjRef>, from: int, name: Seq<char>) -> Option<
        ObjRef,
    >
        decreases chain.len() - from,
    {
        if from < 0 || from >= chain.len() {
            None
        } else {
            match lookup(self.attrs(chain[from]), name) {
                Some(v) => Some(v),
                None => self.find_attr(chain, from + 1, name),
            }
        }
    }

    /// The attribute `name` as the type `cls` or its nearest ancestor
    /// defines it.
    pub open spec fn class_attr(self, cls: ObjRef, name: Seq<char>) -> Option<ObjRef> {
        self.find_attr(self.mro(cls), 0, name)
    }

    /// The attribute `name` of `o`. An instance shows its own attributes
    /// before those of its type; a type shows those of its ancestors before
    /// those of its metaclass.
    pub open spec fn get_attr(self, o: ObjRef, name: Seq<char>) -> Option<ObjRef> {
        if self.is_type(o) {
            match self.class_attr(o, name) {
                Some(v) => Some(v),
                None => self.class_attr(self.class_of(o), name),
            }
        } else {
            match lookup(self.attrs(o), name) {
                Some(v) => Some(v),
                None => self.class_attr(self.class_of(o), name),
            }
        }
    }

    /// The elements a tuple or a list stores; any other object stores none.
    pub open spec fn elements(self, o: ObjRef) -> Seq<ObjRef> {
        match self.payload(o) {
            PayloadView::Tuple(items) => items,
            PayloadView::List(items) => items,
            _ => Seq::empty(),
        }
    }

    /// The entries a dictionary stores; any other object stores none.
    pub open spec fn entries(self, o: ObjRef) -> Seq<AttrView> {
        match self.payload(o) {
            PayloadView::Dict(entries) => entries,
            _ => Seq::empty(),
        }
    }

    /// Whether every reference of `refs` lies in the arena.
    pub open spec fn refs_in(self, refs: Seq<ObjRef>) -> bool {
        forall|i: int| 0 <= i < refs.len() ==> self.has(#[trigger] refs[i])
    }

    /// Whether the value of every entry of `entries` lies in the arena.
    pub open spec fn values_in(self, entries: Seq<AttrView>) -> bool {
        forall|i: int| 0 <= i < entries.len() ==> self.has((#[trigger] entries[i]).value)
    }

    /// Whether every reference that `obj` stores lies in the arena, and no
    /// name comes twice among its attributes or among the entries of its
    /// dictionary.
    pub open spec fn sound_object(self, obj: ObjectView) -> bool {
        &&& self.has(obj.class)
        &&& self.values_in(obj.attrs)
        &&& distinct_names(obj.attrs)
        &&& match obj.payload {
            PayloadView::Tuple(items) => self.refs_in(items),
            PayloadView::List(items) => self.refs_in(items),
            PayloadView::Dict(entries) => self.values_in(entries) && distinct_names(entries),
            PayloadView::Type(tv) => self.refs_in(tv.bases) && self.refs_in(tv.mro),
            PayloadView::Cell(Some(c)) => self.has(c),
            PayloadView::Function(RoutineView::Return(o)) => self.has(o),
            PayloadView::Function(RoutineView::Record(sink)) => self.has(sink),
            PayloadView::Function(RoutineView::Body { stores, result }) => self.values_in(stores)
                && self.has(result),
            PayloadView::ElementsIter { source, .. } => self.has(source),
            PayloadView::SubscriptIter { source, .. } => self.has(source),
            PayloadView::SentinelIter { callable, sentinel, .. } => self.has(callable)
                && self.has(sentinel),
            PayloadView::ReverseIter { source, .. } => self.has(source),
            _ => true,
        }
    }

    /// Whether the arena is closed under its references, and its
    /// namespaces are maps: every reference that an object stores denotes
    /// an object of the arena, and no namespace has a name twice.
    pub open spec fn sound(self) -> bool {
        forall|i: int| 0 <= i < self.objects.len() ==> self.sound_object(#[trigger] self.objects[i])
    }

    /// Whether the arena fits the machine: the number of its objects and
    /// the number of the elements of each of them can be counted.
    pub open spec fn fits(self) -> bool {
        &&& self.objects.len() <= usize::MAX
        &&& forall|o: ObjRef| (#[trigger] self.elements(o)).len() <= usize::MAX
    }

    /// Whether `later` holds every object of this arena, unchanged, at its
    /// place.
    pub open spec fn kept_by(self, later: Heap) -> bool {
        &&& self.objects.len() <= later.objects.len()
        &&& forall|i: int| 0 <= i < self.objects.len() ==> later.objects[i] == self.objects[i]
    }

    /// The arena with one more object at the end.
    pub open spec fn push(self, obj: ObjectView) -> Heap {
        Heap { objects: self.objects.push(obj) }
    }

    /// The arena with the native data of `o` replaced.
    pub open spec fn with_payload(self, o: ObjRef, payload: PayloadView) -> Heap {
        if self.has(o) {
            Heap {
                objects: self.objects.update(
                    o.id as int,
                    ObjectView { payload, ..self.objects[o.id as int] },
                ),
            }
        } else {
            self
        }
    }

    /// The arena with the own attributes of `o` replaced.
    pub open spec fn with_attrs(self, o: ObjRef, attrs: Seq<AttrView>) -> Heap {
        if self.has(o) {
            Heap {
                objects: self.objects.update(
                    o.id as int,
                    ObjectView { attrs, ..self.objects[o.id as int] },
                ),
            }
        } else {
            self
        }
    }
}

} // verus!
