//! Checks of a whole arena: whether every stored reference denotes an
//! object, and whether the built-in objects are in place.

use vstd::prelude::*;

use crate::error::Error;
use crate::heap::{
    bind, distinct_names, lookup, position, unbind, Heap, CORE_COUNT, ROOT_COUNT,
};
use crate::outside::str_eq;
use crate::linearize::lemma_merge_within;
use crate::object::{
    ArgsView, Attr, AttrView, CallSlot, IterSlot, NextSlot, ObjRef, ObjectView, Payload, PayloadView,
    Routine, RoutineView, Slots, TypeData,
};
use crate::vm::Vm;

verus! {

/// Whether every one of `refs` lies below `len`.
pub open spec fn refs_sound(refs: Seq<ObjRef>, len: nat) -> bool {
    forall|i: int| 0 <= i < refs.len() ==> (#[trigger] refs[i]).id < len
}

/// Whether the value of every one of `entries` lies below `len`.
pub open spec fn values_sound(entries: Seq<AttrView>, len: nat) -> bool {
    forall|i: int| 0 <= i < entries.len() ==> (#[trigger] entries[i]).value.id < len
}

/// Whether every reference that the native data stores lies below `len`.
pub open spec fn payload_sound(payload: PayloadView, len: nat) -> bool {
    match payload {
        PayloadView::Tuple(items) => refs_sound(items, len),
        PayloadView::List(items) => refs_sound(items, len),
        PayloadView::Dict(entries) => values_sound(entries, len) && distinct_names(entries),
        PayloadView::Type(tv) => refs_sound(tv.bases, len) && refs_sound(tv.mro, len),
        PayloadView::Cell(Some(c)) => c.id < len,
        PayloadView::Function(RoutineView::Return(o)) => o.id < len,
        PayloadView::Function(RoutineView::Record(sink)) => sink.id < len,
        PayloadView::Function(RoutineView::Body { stores, result }) => values_sound(stores, len)
            && result.id < len,
        PayloadView::ElementsIter { source, .. } => source.id < len,
        PayloadView::SubscriptIter { source, .. } => source.id < len,
        PayloadView::SentinelIter { callable, sentinel, .. } => callable.id < len && sentinel.id
            < len,
        PayloadView::ReverseIter { source, .. } => source.id < len,
        _ => true,
    }
}

/// Whether every reference that `obj` stores lies below `len`.
pub open spec fn object_sound(obj: ObjectView, len: nat) -> bool {
    &&& obj.class.id < len
    &&& values_sound(obj.attrs, len)
    &&& distinct_names(obj.attrs)
    &&& payload_sound(obj.payload, len)
}

/// An object is sound in an arena exactly when its references lie below
/// the length of the arena.
pub proof fn lemma_object_sound(h: Heap, obj: ObjectView)
    ensures
        h.sound_object(obj) == object_sound(obj, h.objects.len()),
{
}

/// Whether every one of `refs` lies below `len`.
pub fn refs_below(refs: &Vec<ObjRef>, len: usize) -> (r: bool)
    ensures
        r == refs_sound(refs@, len as nat),
{
    let mut i: usize = 0;
    while i < refs.len()
        invariant
            i <= refs.len(),
            forall|j: int| 0 <= j < i ==> (#[trigger] refs@[j]).id < len,
        decreases refs.len() - i,
    {
        if refs[i].id >= len {
            return false;
        }
        i += 1;
    }
    true
}

/// Whether the value of every one of `entries` lies below `len`.
pub fn values_below(entries: &Vec<Attr>, len: usize) -> (r: bool)
    ensures
        r == values_sound(entries.deep_view(), len as nat),
{
    let ghost view = entries.deep_view();
    let mut i: usize = 0;
    while i < entries.len()
        invariant
            i <= entries.len(),
            view == entries.deep_view(),
            forall|j: int| 0 <= j < i ==> (#[trigger] view[j]).value.id < len,
        decreases entries.len() - i,
    {
        assert(view[i as int] == entries@[i as int]@);
        if entries[i].value.id >= len {
            return false;
        }
        i += 1;
    }
    true
}

/// Whether no two of `entries` have the same name.
pub fn names_distinct(entries: &Vec<Attr>) -> (r: bool)
    ensures
        r == distinct_names(entries.deep_view()),
{
    let ghost view = entries.deep_view();
    let mut i: usize = 0;
    while i < entries.len()
        invariant
            i <= entries.len(),
            view == entries.deep_view(),
            forall|a: int, b: int|
                0 <= a < b < view.len() && a < i ==> (#[trigger] view[a]).name != (
                #[trigger] view[b]).name,
        decreases entries.len() - i,
    {
        let mut j: usize = i + 1;
        while j < entries.len()
            invariant
                i < j <= entries.len(),
                view == entries.deep_view(),
                forall|b: int| i < b < j ==> view[i as int].name != (#[trigger] view[b]).name,
            decreases entries.len() - j,
        {
            assert(view[i as int] == entries@[i as int]@);
            assert(view[j as int] == entries@[j as int]@);
            if str_eq(entries[i].name.as_str(), entries[j].name.as_str()) {
                return false;
            }
            j += 1;
        }
        i += 1;
    }
    true
}

/// Whether every reference that the native data stores lies below `len`.
pub fn payload_below(payload: &Payload, len: usize) -> (r: bool)
    ensures
        r == payload_sound(payload@, len as nat),
{
    match payload {
        Payload::Tuple(items) => refs_below(items, len),
        Payload::List(items) => refs_below(items, len),
        Payload::Dict(entries) => values_below(entries, len) && names_distinct(entries),
        Payload::Type(td) => refs_below(&td.bases, len) && refs_below(&td.mro, len),
        Payload::Cell(Some(c)) => c.id < len,
        Payload::Function(Routine::Return(o)) => o.id < len,
        Payload::Function(Routine::Record(sink)) => sink.id < len,
        Payload::Function(Routine::Body { stores, result }) => values_below(stores, len)
            && result.id < len,
        Payload::ElementsIter { source, .. } => source.id < len,
        Payload::SubscriptIter { source, .. } => source.id < len,
        Payload::SentinelIter { callable, sentinel, .. } => callable.id < len && sentinel.id < len,
        Payload::ReverseIter { source, .. } => source.id < len,
        _ => true,
    }
}

/// Whether two lists of references are the same.
pub fn same_refs(a: &Vec<ObjRef>, b: &Vec<ObjRef>) -> (r: bool)
    ensures
        r == (a@ == b@),
{
    if a.len() != b.len() {
        return false;
    }
    let mut i: usize = 0;
    while i < a.len()
        invariant
            i <= a.len(),
            a.len() == b.len(),
            forall|j: int| 0 <= j < i ==> a@[j] == b@[j],
        decreases a.len() - i,
    {
        if a[i].id != b[i].id {
            return false;
        }
        i += 1;
    }
    assert(a@ =~= b@);
    true
}

/// Whether two slot tables are the same.
pub fn same_slots(a: &Slots, b: &Slots) -> (r: bool)
    ensures
        r == (*a == *b),
{
    let call = match (a.call, b.call) {
        (None, None) => true,
        (Some(CallSlot::Function), Some(CallSlot::Function)) => true,
        (Some(CallSlot::Construct), Some(CallSlot::Construct)) => true,
        _ => false,
    };
    let iter = match (a.iter, b.iter) {
        (None, None) => true,
        (Some(IterSlot::Elements), Some(IterSlot::Elements)) => true,
        (Some(IterSlot::Identity), Some(IterSlot::Identity)) => true,
        _ => false,
    };
    let iternext = match (a.iternext, b.iternext) {
        (None, None) => true,
        (Some(NextSlot::Elements), Some(NextSlot::Elements)) => true,
        (Some(NextSlot::Subscript), Some(NextSlot::Subscript)) => true,
        (Some(NextSlot::Sentinel), Some(NextSlot::Sentinel)) => true,
        (Some(NextSlot::Reversed), Some(NextSlot::Reversed)) => true,
        _ => false,
    };
    let mapping = match (a.as_mapping, b.as_mapping) {
        (None, None) => true,
        (Some(m), Some(n)) => m.length == n.length && m.subscript == n.subscript
            && m.ass_subscript == n.ass_subscript,
        _ => false,
    };
    let sequence = match (a.as_sequence, b.as_sequence) {
        (None, None) => true,
        (Some(m), Some(n)) => m.length == n.length && m.item == n.item,
        _ => false,
    };
    call && iter && iternext && mapping && sequence
}

/// Whether two type descriptors are the same.
pub fn same_type(a: &TypeData, b: &TypeData) -> (r: bool)
    ensures
        r == (a@ == b@),
{
    a.name == b.name && same_refs(&a.bases, &b.bases) && same_refs(
        &a.mro,
        &b.mro,
    ) && same_slots(&a.slots, &b.slots)
}

/// Whether `p` is the native data `q` of a built-in object, which is a type
/// descriptor, the `None` value, a truth value, or no native data at all.
fn same_root(p: &Payload, q: &Payload) -> (r: bool)
    requires
        q@ is Type || q@ is NoneValue || q@ is Bool || q@ is Instance,
    ensures
        r == (p@ == q@),
{
    match (p, q) {
        (Payload::Type(a), Payload::Type(b)) => same_type(a, b),
        (Payload::NoneValue, Payload::NoneValue) => true,
        (Payload::Bool(x), Payload::Bool(y)) => *x == *y,
        (Payload::Instance, Payload::Instance) => true,
        _ => false,
    }
}

impl Vm {
    /// Whether the arena is closed under its references: every reference
    /// that an object stores denotes an object of the arena.
    pub fn is_sound(&self) -> (r: bool)
        ensures
            r == self@.sound(),
    {
        let len = self.len();
        let mut i: usize = 0;
        while i < len
            invariant
                i <= len,
                len == self@.objects.len(),
                forall|j: int| 0 <= j < i ==> self@.sound_object(#[trigger] self@.objects[j]),
            decreases len - i,
        {
            proof {
                lemma_object_sound(self@, self@.objects[i as int]);
            }
            let fine = match self.object(ObjRef { id: i }) {
                Some(obj) => obj.class.id < len && values_below(&obj.attrs, len)
                    && names_distinct(&obj.attrs) && payload_below(&obj.payload, len),
                None => false,
            };
            if !fine {
                return false;
            }
            i += 1;
        }
        true
    }

    /// Whether the built-in types and constants are in place.
    pub fn is_standard(&self) -> (r: bool)
        ensures
            r == self@.standard(),
    {
        if self.len() < ROOT_COUNT {
            return false;
        }
        let fresh = Vm::new();
        let mut i: usize = 0;
        while i < ROOT_COUNT
            invariant
                i <= ROOT_COUNT,
                self@.objects.len() >= ROOT_COUNT,
                fresh@ == Heap::initial(),
                forall|j: int|
                    0 <= j < i ==> {
                        &&& (#[trigger] self@.objects[j]).class == Heap::initial().objects[j].class
                        &&& self@.objects[j].payload == Heap::initial().objects[j].payload
                    },
            decreases ROOT_COUNT - i,
        {
            let same = match (self.object(ObjRef { id: i }), fresh.object(ObjRef { id: i })) {
                (Some(mine), Some(root)) => {
                    mine.class.id == root.class.id && same_root(&mine.payload, &root.payload)
                },
                _ => false,
            };
            if !same {
                return false;
            }
            i += 1;
        }
        true
    }
}

/// The arena as it is created is sound.
pub proof fn lemma_initial_sound()
    ensures
        Heap::initial().sound(),
        Heap::initial().standard(),
{
    let h = Heap::initial();
    let k = Heap::kernel();
    crate::bootstrap::lemma_initial_places();
    crate::bootstrap::lemma_kernel_sound();
    assert forall|i: int| 0 <= i < h.objects.len() implies h.sound_object(
        #[trigger] h.objects[i],
    ) by {
        lemma_object_sound(h, h.objects[i]);
        if i < CORE_COUNT {
            assert(k.sound_object(k.objects[i]));
            lemma_object_sound(k, k.objects[i]);
        } else {
            crate::bootstrap::lemma_line_in_range(i as usize);
        }
    }
}

impl Heap {
    /// Whether the native data of `o` is of a kind that is never replaced:
    /// that of a type, of a constant, or of a plain instance.
    pub open spec fn fixed(self, o: ObjRef) -> bool {
        self.payload(o) is Type || self.payload(o) is NoneValue || self.payload(o) is Bool
            || self.payload(o) is Instance
    }

    /// Whether the arena is closed under its references and has the
    /// built-in types and constants in place.
    pub open spec fn intact(self) -> bool {
        self.sound() && self.standard()
    }

    /// Whether `o`, if there is one, lies in the arena.
    pub open spec fn has_some(self, o: Option<ObjRef>) -> bool {
        o matches Some(x) ==> self.has(x)
    }

    /// Whether the object of a success lies in the arena.
    pub open spec fn has_ok(self, r: Result<ObjRef, Error>) -> bool {
        r matches Ok(x) ==> self.has(x)
    }

    /// Whether every argument of a call lies in the arena.
    pub open spec fn holds(self, args: ArgsView) -> bool {
        self.refs_in(args.args) && self.values_in(args.kwargs)
    }

    /// Whether every reference that `payload` stores lies in the arena.
    pub open spec fn keeps(self, payload: PayloadView) -> bool {
        payload_sound(payload, self.objects.len())
    }

    /// Whether `later` can come after this arena: it has lost no object,
    /// and the built-in types and constants are in place in it if they were
    /// here.
    pub open spec fn leads_to(self, later: Heap) -> bool {
        &&& self.objects.len() <= later.objects.len()
        &&& self.standard() ==> later.standard()
    }
}

/// What is read from an object of an intact arena lies in the arena: its
/// type, the values of its attributes, and every reference that its native
/// data stores.
pub proof fn lemma_reads_within(h: Heap, o: ObjRef)
    requires
        h.intact(),
    ensures
        h.has(h.class_of(o)),
        h.values_in(h.attrs(o)),
        distinct_names(h.attrs(o)),
        h.keeps(h.payload(o)),
        h.refs_in(h.elements(o)),
        h.values_in(h.entries(o)),
        distinct_names(h.entries(o)),
        h.refs_in(h.mro(o)),
        h.refs_in(h.type_view(o).bases),
{
    if h.has(o) {
        assert(h.sound_object(h.objects[o.id as int]));
        lemma_object_sound(h, h.objects[o.id as int]);
    }
}

/// What is found under a name among values of the arena lies in the arena.
pub proof fn lemma_lookup_within(h: Heap, entries: Seq<AttrView>, name: Seq<char>)
    requires
        h.values_in(entries),
    ensures
        h.has_some(lookup(entries, name)),
{
    crate::class_laws::lemma_position(entries, name, 0);
    let i = position(entries, name, 0);
    if i < entries.len() {
        assert(h.has(entries[i].value));
    }
}

/// An attribute found along types of an intact arena lies in the arena.
pub proof fn lemma_find_attr_within(h: Heap, chain: Seq<ObjRef>, from: int, name: Seq<char>)
    requires
        h.intact(),
    ensures
        h.has_some(h.find_attr(chain, from, name)),
    decreases chain.len() - from,
{
    if 0 <= from < chain.len() {
        lemma_reads_within(h, chain[from]);
        lemma_lookup_within(h, h.attrs(chain[from]), name);
        lemma_find_attr_within(h, chain, from + 1, name);
    }
}

/// An attribute read in an intact arena lies in the arena, whether it is
/// read from an object or from a type and its ancestors.
pub proof fn lemma_attr_within(h: Heap, o: ObjRef, name: Seq<char>)
    requires
        h.intact(),
    ensures
        h.has_some(h.get_attr(o, name)),
        h.has_some(h.class_attr(o, name)),
{
    lemma_reads_within(h, o);
    lemma_lookup_within(h, h.attrs(o), name);
    lemma_find_attr_within(h, h.mro(o), 0, name);
    lemma_find_attr_within(h, h.mro(h.class_of(o)), 0, name);
}

/// Binding a name to a value of the arena keeps the values in the arena.
pub proof fn lemma_bind_within(h: Heap, entries: Seq<AttrView>, name: Seq<char>, value: ObjRef)
    requires
        h.values_in(entries),
        h.has(value),
    ensures
        h.values_in(bind(entries, name, value)),
        distinct_names(entries) ==> distinct_names(bind(entries, name, value)),
{
    if distinct_names(entries) {
        crate::class_laws::lemma_bind_distinct(entries, name, value);
    }
    let after = bind(entries, name, value);
    let i = position(entries, name, 0);
    crate::class_laws::lemma_position(entries, name, 0);
    assert forall|k: int| 0 <= k < after.len() implies h.has((#[trigger] after[k]).value) by {
        if k < entries.len() && k != i {
            assert(after[k] == entries[k]);
        }
    }
}

/// Taking a name out keeps the values in the arena.
pub proof fn lemma_unbind_within(h: Heap, entries: Seq<AttrView>, name: Seq<char>)
    requires
        h.values_in(entries),
    ensures
        h.values_in(unbind(entries, name)),
        distinct_names(entries) ==> distinct_names(unbind(entries, name)) && lookup(
            unbind(entries, name),
            name,
        ) is None,
{
    let after = unbind(entries, name);
    let i = position(entries, name, 0);
    crate::class_laws::lemma_position(entries, name, 0);
    if distinct_names(entries) {
        assert forall|a: int, b: int| 0 <= a < b < after.len() implies (#[trigger] after[a]).name
            != (#[trigger] after[b]).name by {
            let x = if i < entries.len() && a >= i {
                a + 1
            } else {
                a
            };
            let y = if i < entries.len() && b >= i {
                b + 1
            } else {
                b
            };
            assert(after[a] == entries[x]);
            assert(after[b] == entries[y]);
        }
        crate::class_laws::lemma_position(after, name, 0);
        let k = position(after, name, 0);
        if k < after.len() {
            let z = if i < entries.len() && k >= i {
                k + 1
            } else {
                k
            };
            assert(after[k] == entries[z]);
            assert(entries[z].name == name);
            assert(entries[i].name == name);
        }
    }
    assert forall|k: int| 0 <= k < after.len() implies h.has((#[trigger] after[k]).value) by {
        if i < entries.len() && k >= i {
            assert(after[k] == entries[k + 1]);
        } else {
            assert(after[k] == entries[k]);
        }
    }
}

/// The direct bases and the linearized ancestors of a class whose bases
/// lie in an intact arena lie in that arena.
pub proof fn lemma_linearize_within(h: Heap, bases: Seq<ObjRef>)
    requires
        h.intact(),
        h.refs_in(bases),
    ensures
        h.refs_in(h.parents(bases)),
        h.linearize(h.parents(bases)) matches Some(line) ==> h.refs_in(line),
{
    let parents = h.parents(bases);
    let layers = h.layers(parents);
    assert forall|i: int, k: int| 0 <= i < layers.len() && 0 <= k < layers[i].len() implies (
    #[trigger] layers[i][k]).id < h.objects.len() by {
        if i < parents.len() {
            lemma_reads_within(h, parents[i]);
            assert(h.has(h.mro(parents[i])[k]));
        } else {
            assert(h.has(parents[k]));
        }
    }
    lemma_merge_within(layers, h.objects.len());
}

/// The native data of the built-in objects is of the kinds that are never
/// replaced.
pub proof fn lemma_roots_fixed(h: Heap, o: ObjRef)
    requires
        h.standard(),
        o.id < ROOT_COUNT,
    ensures
        h.fixed(o),
{
    crate::bootstrap::lemma_initial_places();
    assert(h.objects[o.id as int].payload == Heap::initial().objects[o.id as int].payload);
}

/// A new object whose references lie in the arena, or denote the object
/// itself, keeps the arena sound; and it leaves the built-in objects in
/// place.
pub proof fn lemma_push_keeps(h: Heap, obj: ObjectView)
    requires
        h.sound(),
        object_sound(obj, h.objects.len() + 1),
    ensures
        h.push(obj).sound(),
        h.standard() ==> h.push(obj).standard(),
        h.kept_by(h.push(obj)),
{
    let after = h.push(obj);
    assert forall|i: int| 0 <= i < after.objects.len() implies after.sound_object(
        #[trigger] after.objects[i],
    ) by {
        lemma_object_sound(after, after.objects[i]);
        if i < h.objects.len() {
            lemma_object_sound(h, h.objects[i]);
        }
    }
}

/// New native data whose references lie in the arena keeps the arena
/// sound; given to an object behind the built-in ones, it leaves those in
/// place.
pub proof fn lemma_with_payload_keeps(h: Heap, o: ObjRef, payload: PayloadView)
    requires
        h.sound(),
        payload_sound(payload, h.objects.len()),
    ensures
        h.with_payload(o, payload).sound(),
        h.standard() && o.id >= ROOT_COUNT ==> h.with_payload(o, payload).standard(),
{
    let after = h.with_payload(o, payload);
    assert forall|i: int| 0 <= i < after.objects.len() implies after.sound_object(
        #[trigger] after.objects[i],
    ) by {
        lemma_object_sound(after, after.objects[i]);
        lemma_object_sound(h, h.objects[i]);
    }
}

/// New attributes whose values lie in the arena keep the arena sound, and
/// they leave the built-in objects in place.
pub proof fn lemma_with_attrs_keeps(h: Heap, o: ObjRef, attrs: Seq<AttrView>)
    requires
        h.sound(),
        values_sound(attrs, h.objects.len()),
        distinct_names(attrs),
    ensures
        h.with_attrs(o, attrs).sound(),
        h.standard() ==> h.with_attrs(o, attrs).standard(),
{
    let after = h.with_attrs(o, attrs);
    assert forall|i: int| 0 <= i < after.objects.len() implies after.sound_object(
        #[trigger] after.objects[i],
    ) by {
        lemma_object_sound(after, after.objects[i]);
        lemma_object_sound(h, h.objects[i]);
    }
}

} // verus!
