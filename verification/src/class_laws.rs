//! What holds of the construction of a class whose bases are types and
//! whose metaclass constructs: what comes back, and what the class cell
//! decides.

use vstd::prelude::*;

use crate::call::CLASSCELL;
use crate::class::{as_class_cell, DOT_TYPE_PARAMS, PREPARE, TYPE_PARAMS};
use crate::error::Error;
use crate::heap::{
    distinct_names,    bind, bind_all, lemma_find_kept, lemma_resolve_kept, lookup, position, unbind, Heap,
    DICT_TYPE, NONE, OBJECT_TYPE, STR_TYPE, TUPLE_TYPE, TYPE_TYPE,
};
use crate::object::{
    AttrView, CallSlot, Capability, MappingMethods, ObjRef, ObjectView, PayloadView, RoutineView,
    Slots, TypeView,
};
use crate::linearize::{heads_off, in_a_tail, merge, tail_has, weight};
use crate::text::spec_last_segment;

verus! {

/// An attribute stays as it is in every arena that keeps the objects of a
/// sound one.
pub proof fn lemma_get_attr_kept(before: Heap, after: Heap, o: ObjRef, name: Seq<char>)
    requires
        before.sound(),
        before.has(o),
        before.kept_by(after),
    ensures
        before.get_attr(o, name) == after.get_attr(o, name),
        before.is_type(o) == after.is_type(o),
        before.mro(o) == after.mro(o),
{
    lemma_resolve_kept(before, after, o, Capability::Call, name);
    if before.is_type(o) {
        lemma_find_kept(before, after, before.mro(o), 0, Capability::Call, name);
    }
}

/// The relation between two types stays as it is in every arena that keeps
/// the objects of a sound one.
pub proof fn lemma_subclass_kept(before: Heap, after: Heap, a: ObjRef, b: ObjRef)
    requires
        before.has(a),
        before.kept_by(after),
    ensures
        before.is_subclass(a, b) == after.is_subclass(a, b),
{
}

/// The selection of the metaclass stays as it is in every arena that keeps
/// the objects of a sound one.
pub proof fn lemma_winner_kept(
    before: Heap,
    after: Heap,
    bases: Seq<ObjRef>,
    from: int,
    candidate: ObjRef,
)
    requires
        before.sound(),
        before.refs_in(bases),
        before.has(candidate),
        before.kept_by(after),
    ensures
        before.winner(bases, from, candidate) == after.winner(bases, from, candidate),
    decreases bases.len() - from,
{
    if 0 <= from < bases.len() {
        let b = bases[from];
        let base_class = before.class_of(b);
        lemma_subclass_kept(before, after, base_class, candidate);
        lemma_subclass_kept(before, after, candidate, base_class);
        if before.is_subclass(base_class, candidate) {
            lemma_winner_kept(before, after, bases, from + 1, base_class);
        } else if before.is_subclass(candidate, base_class) {
            lemma_winner_kept(before, after, bases, from + 1, candidate);
        }
    }
}

/// Bases that are all instances of `type` stand for themselves: base
/// normalization calls no hook and replaces nothing.
pub proof fn lemma_normalize_types(h: Heap, bases: Seq<ObjRef>, original: ObjRef, from: int)
    requires
        0 <= from <= bases.len(),
        forall|i: int|
            0 <= i < bases.len() ==> h.is_instance(#[trigger] bases[i], ObjRef { id: TYPE_TYPE }),
    ensures
        h.normalize(bases, original, from) == (
            h,
            Ok::<(Seq<ObjRef>, bool), Error>((bases.subrange(from, bases.len() as int), false)),
        ),
    decreases bases.len() - from,
{
    if from < bases.len() {
        lemma_normalize_types(h, bases, original, from + 1);
        assert(seq![bases[from]] + bases.subrange(from + 1, bases.len() as int)
            =~= bases.subrange(from, bases.len() as int));
    } else {
        assert(bases.subrange(from, bases.len() as int) =~= Seq::<ObjRef>::empty());
    }
}

/// Storing into a plain dictionary that lies behind the built-in objects
/// binds the entries in order and fails nowhere.
pub proof fn lemma_store_all_dict(h: Heap, ns: ObjRef, stores: Seq<AttrView>, from: int)
    requires
        h.standard(),
        h.has(ns),
        ns.id >= crate::heap::ROOT_COUNT,
        h.class_of(ns) == (ObjRef { id: DICT_TYPE }),
        h.payload(ns) is Dict,
        0 <= from <= stores.len(),
    ensures
        h.store_all(ns, stores, from) == (
            h.with_payload(ns, PayloadView::Dict(bind_all(h.entries(ns), stores, from))),
            Ok::<(), Error>(()),
        ),
    decreases stores.len() - from,
{
    lemma_standard_dict(h);
    if from < stores.len() {
        let next = h.with_payload(
            ns,
            PayloadView::Dict(bind(h.entries(ns), stores[from].name, stores[from].value)),
        );
        lemma_store_all_dict(next, ns, stores, from + 1);
        assert(next.with_payload(
            ns,
            PayloadView::Dict(bind_all(next.entries(ns), stores, from + 1)),
        ).objects =~= h.with_payload(
            ns,
            PayloadView::Dict(bind_all(h.entries(ns), stores, from)),
        ).objects);
    } else {
        assert(h.with_payload(ns, PayloadView::Dict(h.entries(ns))).objects =~= h.objects);
    }
}

/// In an arena with the built-in types in place, a plain dictionary has the
/// whole mapping protocol, a type is called by constructing, and the
/// `None` object is what it is.
pub proof fn lemma_standard_dict(h: Heap)
    requires
        h.standard(),
    ensures
        h.mapping_methods(ObjRef { id: DICT_TYPE }) == Some(
            MappingMethods { length: true, subscript: true, ass_subscript: true },
        ),
        h.call_slot(ObjRef { id: TYPE_TYPE }) == Some(CallSlot::Construct),
        h.payload(ObjRef { id: NONE }) == PayloadView::NoneValue,
        h.mro(ObjRef { id: OBJECT_TYPE }) == seq![ObjRef { id: OBJECT_TYPE }],
        h.is_type(ObjRef { id: TYPE_TYPE }),
{
    let init = Heap::initial();
    let dict = ObjRef { id: DICT_TYPE };
    let meta = ObjRef { id: TYPE_TYPE };
}

/// The layers that the ancestors of a class are merged from stay as they
/// are in every arena that keeps the objects of one in which the bases lie.
pub proof fn lemma_layers_kept(before: Heap, after: Heap, bases: Seq<ObjRef>)
    requires
        before.refs_in(bases),
        before.kept_by(after),
    ensures
        before.layers(bases) == after.layers(bases),
        before.linearize(bases) == after.linearize(bases),
{
    assert forall|i: int| 0 <= i < bases.len() implies before.mro(bases[i]) == after.mro(
        bases[i],
    ) by {
    }
}

/// The namespace that a class body leaves behind when it stores `stores`
/// into a new dictionary: the entries bound in order, without the reserved
/// key of the type parameters.
pub open spec fn namespace_after(stores: Seq<AttrView>) -> Seq<AttrView> {
    unbind(bind_all(Seq::empty(), stores, 0), DOT_TYPE_PARAMS@)
}

/// The conditions of a plain construction: the built-in objects are in
/// place and the arena is sound and not full; the body is a function that
/// stores `stores` and hands back `result`, has no type parameters and
/// stores no class cell; the bases are types whose ancestors can be
/// linearized; and the metaclass `meta` that the bases select has no
/// `__prepare__` hook and constructs when called.
pub open spec fn plain_construction(
    heap: Heap,
    function: ObjRef,
    bases: Seq<ObjRef>,
    meta: ObjRef,
    stores: Seq<AttrView>,
    result: ObjRef,
) -> bool {
    &&& heap.standard()
    &&& heap.sound()
    &&& heap.objects.len() + 4 <= usize::MAX
    &&& heap.has(function)
    &&& heap.payload(function) == PayloadView::Function(RoutineView::Body { stores, result })
    &&& heap.get_attr(function, TYPE_PARAMS@) is None
    &&& heap.refs_in(bases)
    &&& forall|i: int|
        0 <= i < bases.len() ==> heap.is_type(#[trigger] bases[i]) && heap.is_instance(
            bases[i],
            ObjRef { id: TYPE_TYPE },
        )
    &&& heap.linearize(heap.parents(bases)) is Some
    &&& heap.winner(bases, 0, ObjRef { id: TYPE_TYPE }) == Ok::<ObjRef, Error>(meta)
    &&& heap.has(meta)
    &&& heap.call_slot(heap.class_of(meta)) == Some(CallSlot::Construct)
    &&& heap.get_attr(meta, PREPARE@) is None
    &&& lookup(namespace_after(stores), CLASSCELL@) is None
}

/// The arena after the name, the tuple of bases and the namespace of a
/// plain construction were made, with `entries` in the namespace.
pub open spec fn with_parts(
    heap: Heap,
    qualified_name: Seq<char>,
    bases: Seq<ObjRef>,
    entries: Seq<AttrView>,
) -> Heap {
    heap.push(Heap::plain(STR_TYPE, PayloadView::Str(spec_last_segment(qualified_name)))).push(
        Heap::plain(TUPLE_TYPE, PayloadView::Tuple(bases)),
    ).push(Heap::plain(DICT_TYPE, PayloadView::Dict(entries)))
}

/// The class that a plain construction makes.
pub open spec fn plain_class(
    heap: Heap,
    qualified_name: Seq<char>,
    bases: Seq<ObjRef>,
    meta: ObjRef,
    stores: Seq<AttrView>,
) -> ObjectView {
    ObjectView {
        class: meta,
        payload: PayloadView::Type(
            TypeView {
                name: spec_last_segment(qualified_name),
                bases: heap.parents(bases),
                mro: seq![ObjRef { id: (heap.objects.len() + 3) as usize }] + heap.linearize(
                    heap.parents(bases),
                )->0,
                slots: Slots::spec_empty(),
            },
        ),
        attrs: namespace_after(stores),
    }
}

/// What a plain construction comes to. The name, the tuple of bases, the
/// namespace and the class are the four next objects of the arena. A body
/// that hands back the `None` object gets the class; one that hands back a
/// cell fails, with a type mismatch where the cell holds an object and with
/// a runtime error where it is empty; one that hands back anything else is
/// refused before the class is made.
pub open spec fn plain_outcome(
    heap: Heap,
    qualified_name: Seq<char>,
    bases: Seq<ObjRef>,
    meta: ObjRef,
    stores: Seq<AttrView>,
    result: ObjRef,
) -> (Heap, Result<ObjRef, Error>) {
    let class = ObjRef { id: (heap.objects.len() + 3) as usize };
    let made = with_parts(heap, qualified_name, bases, namespace_after(stores)).push(
        plain_class(heap, qualified_name, bases, meta, stores),
    );
    match heap.payload(result) {
        PayloadView::NoneValue => (made, Ok(class)),
        PayloadView::Cell(Some(found)) => (
            made,
            Err(Error::ClassCellMismatch { found, meta: Some(meta), class }),
        ),
        PayloadView::Cell(None) => (made, Err(Error::ClassCellEmpty { meta: Some(meta), class })),
        _ => (
            with_parts(heap, qualified_name, bases, bind_all(Seq::empty(), stores, 0)),
            Err(Error::NotACell { class: heap.class_of(result) }),
        ),
    }
}

/// The first phases of a plain construction: the bases stand for
/// themselves, the metaclass is the one they select, and the namespace is a
/// new dictionary.
proof fn lemma_plain_namespace(
    heap: Heap,
    function: ObjRef,
    qualified_name: Seq<char>,
    bases: Seq<ObjRef>,
    meta: ObjRef,
    stores: Seq<AttrView>,
    result: ObjRef,
)
    requires
        plain_construction(heap, function, bases, meta, stores, result),
    ensures
        ({
            let n = heap.objects.len();
            let name = ObjRef { id: n as usize };
            let original = ObjRef { id: (n + 1) as usize };
            let ns = ObjRef { id: (n + 2) as usize };
            let h0 = heap.push(
                Heap::plain(STR_TYPE, PayloadView::Str(spec_last_segment(qualified_name))),
            );
            let h1 = h0.push(Heap::plain(TUPLE_TYPE, PayloadView::Tuple(bases)));
            let h2 = with_parts(heap, qualified_name, bases, Seq::empty());
            &&& h0.resolve_bases(bases) == (
                h1,
                Ok::<(ObjRef, Option<ObjRef>), Error>((original, None)),
            )
            &&& h1.elements(original) == bases
            &&& h1.select_metaclass(None, bases) == Ok::<(ObjRef, Option<ObjRef>), Error>(
                (meta, Some(meta)),
            )
            &&& h1.prepare_namespace(function, meta, Some(meta), name, original, Seq::empty())
                == (h2, Ok::<ObjRef, Error>(ns))
            &&& heap.kept_by(h2)
            &&& h2.standard()
        }),
{
    let original = ObjRef { id: (heap.objects.len() + 1) as usize };
    let h1 = heap.push(
        Heap::plain(STR_TYPE, PayloadView::Str(spec_last_segment(qualified_name))),
    ).push(Heap::plain(TUPLE_TYPE, PayloadView::Tuple(bases)));
    let h2 = with_parts(heap, qualified_name, bases, Seq::empty());
    assert forall|i: int| 0 <= i < bases.len() implies h1.is_instance(
        #[trigger] bases[i],
        ObjRef { id: TYPE_TYPE },
    ) by {
        lemma_subclass_kept(heap, h1, heap.class_of(bases[i]), ObjRef { id: TYPE_TYPE });
    }
    lemma_normalize_types(h1, bases, original, 0);
    lemma_standard_dict(heap);
    lemma_winner_kept(heap, h1, bases, 0, ObjRef { id: TYPE_TYPE });
    lemma_get_attr_kept(heap, h1, meta, PREPARE@);
    lemma_standard_dict(h2);
    lemma_get_attr_kept(heap, h2, function, TYPE_PARAMS@);
}

/// Plain construction: a class whose bases are types, whose body stores
/// its entries into a new dictionary, and whose metaclass constructs, comes
/// out as `plain_outcome` says.
#[verifier::rlimit(60)]
pub proof fn lemma_plain_construction(
    heap: Heap,
    function: ObjRef,
    qualified_name: Seq<char>,
    bases: Seq<ObjRef>,
    meta: ObjRef,
    stores: Seq<AttrView>,
    result: ObjRef,
)
    requires
        plain_construction(heap, function, bases, meta, stores, result),
    ensures
        heap.build_class(function, qualified_name, bases, Seq::empty()) == plain_outcome(
            heap,
            qualified_name,
            bases,
            meta,
            stores,
            result,
        ),
{
    let ns = ObjRef { id: (heap.objects.len() + 2) as usize };
    let stored = bind_all(Seq::empty(), stores, 0);
    let h2 = with_parts(heap, qualified_name, bases, Seq::empty());
    let h3 = with_parts(heap, qualified_name, bases, stored);
    let h4 = with_parts(heap, qualified_name, bases, namespace_after(stores));
    lemma_plain_namespace(heap, function, qualified_name, bases, meta, stores, result);

    // The body stores its entries into the new dictionary.
    lemma_store_all_dict(h2, ns, stores, 0);
    assert(h2.with_payload(ns, PayloadView::Dict(stored)).objects =~= h3.objects);
    if as_class_cell(heap, result) is Ok {
        lemma_standard_dict(h3);
        assert(h3.with_payload(ns, PayloadView::Dict(namespace_after(stores))).objects
            =~= h4.objects);

        // The metaclass constructs the class from what the arena held
        // before.
        lemma_resolve_kept(heap, h4, meta, Capability::Call, Seq::empty());
        assert forall|i: int| 0 <= i < bases.len() implies h4.is_type(#[trigger] bases[i]) by {}
        lemma_layers_kept(heap, h4, heap.parents(bases));
        let made = h4.push(plain_class(heap, qualified_name, bases, meta, stores));
        lemma_get_attr_kept(heap, made, function, TYPE_PARAMS@);
    }
}

/// A conflict of metaclasses ends the construction: where the bases are
/// types and their metaclasses cannot be reconciled, no class is built,
/// whatever the body is.
pub proof fn lemma_conflict_ends_construction(
    heap: Heap,
    function: ObjRef,
    qualified_name: Seq<char>,
    bases: Seq<ObjRef>,
)
    requires
        heap.sound(),
        heap.objects.len() + 2 <= usize::MAX,
        heap.has(ObjRef { id: TYPE_TYPE }),
        heap.refs_in(bases),
        forall|i: int|
            0 <= i < bases.len() ==> heap.is_instance(#[trigger] bases[i], ObjRef { id: TYPE_TYPE }),
        heap.winner(bases, 0, ObjRef { id: TYPE_TYPE }) == Err::<ObjRef, Error>(
            Error::MetaclassConflict,
        ),
    ensures
        heap.build_class(function, qualified_name, bases, Seq::empty()).1 == Err::<ObjRef, Error>(
            Error::MetaclassConflict,
        ),
{
    let original = ObjRef { id: (heap.objects.len() + 1) as usize };
    let h1 = heap.push(
        Heap::plain(STR_TYPE, PayloadView::Str(spec_last_segment(qualified_name))),
    ).push(Heap::plain(TUPLE_TYPE, PayloadView::Tuple(bases)));
    assert forall|i: int| 0 <= i < bases.len() implies h1.is_instance(
        #[trigger] bases[i],
        ObjRef { id: TYPE_TYPE },
    ) by {
        lemma_subclass_kept(heap, h1, heap.class_of(bases[i]), ObjRef { id: TYPE_TYPE });
    }
    lemma_normalize_types(h1, bases, original, 0);
    lemma_winner_kept(heap, h1, bases, 0, ObjRef { id: TYPE_TYPE });
}

/// The ancestors of a class that derives from `object` alone are `object`.
pub proof fn lemma_linearize_object(h: Heap)
    requires
        h.standard(),
    ensures
        h.linearize(seq![ObjRef { id: OBJECT_TYPE }]) == Some(seq![ObjRef { id: OBJECT_TYPE }]),
{
    lemma_standard_dict(h);
    let object = ObjRef { id: OBJECT_TYPE };
    let layers = h.layers(seq![object]);
    assert(!in_a_tail(layers, object)) by {
        assert forall|i: int| 0 <= i < layers.len() implies !tail_has(
            #[trigger] layers[i],
            object,
        ) by {}
    }
    let rest = heads_off(layers, object);
    assert(merge(rest) == Some(Seq::<ObjRef>::empty()));
    assert(weight(rest, 0) == 0) by {
        assert(weight(rest, 2) == 0);
        assert(weight(rest, 1) == 0);
    }
}

/// A class without bases and keyword arguments: where the built-in objects
/// are in place, the arena is sound and not full, `type` has no
/// `__prepare__` hook, and the body is a function that stores `stores`, has
/// no type parameters and stores no class cell, the construction comes out
/// as a plain construction with the metaclass `type`. With a body that
/// hands back the `None` object this is a class that derives from `object`
/// alone and has as its attributes exactly what the body stored.
pub proof fn lemma_class_without_bases(
    heap: Heap,
    function: ObjRef,
    qualified_name: Seq<char>,
    stores: Seq<AttrView>,
    result: ObjRef,
)
    requires
        heap.standard(),
        heap.sound(),
        heap.objects.len() + 4 <= usize::MAX,
        heap.has(function),
        heap.payload(function) == (PayloadView::Function(RoutineView::Body { stores, result })),
        heap.get_attr(function, TYPE_PARAMS@) is None,
        heap.get_attr(ObjRef { id: TYPE_TYPE }, PREPARE@) is None,
        lookup(namespace_after(stores), CLASSCELL@) is None,
    ensures
        heap.build_class(function, qualified_name, Seq::empty(), Seq::empty()) == plain_outcome(
            heap,
            qualified_name,
            Seq::empty(),
            ObjRef { id: TYPE_TYPE },
            stores,
            result,
        ),
        heap.linearize(heap.parents(Seq::empty())) == Some(seq![ObjRef { id: OBJECT_TYPE }]),
{
    lemma_standard_dict(heap);
    lemma_linearize_object(heap);
    lemma_plain_construction(
        heap,
        function,
        qualified_name,
        Seq::empty(),
        ObjRef { id: TYPE_TYPE },
        stores,
        result,
    );
}

/// Binding a name keeps the names distinct.
pub proof fn lemma_bind_distinct(entries: Seq<AttrView>, name: Seq<char>, value: ObjRef)
    requires
        distinct_names(entries),
    ensures
        distinct_names(bind(entries, name, value)),
{
    lemma_position(entries, name, 0);
    let after = bind(entries, name, value);
    assert forall|i: int, j: int| 0 <= i < j < after.len() implies (#[trigger] after[i]).name != (
    #[trigger] after[j]).name by {}
}

/// The first entry of a name is found where it stands, and no entry before
/// it has the name.
pub proof fn lemma_position(entries: Seq<AttrView>, name: Seq<char>, from: int)
    requires
        0 <= from <= entries.len(),
    ensures
        from <= position(entries, name, from) <= entries.len(),
        position(entries, name, from) < entries.len() ==> entries[position(
            entries,
            name,
            from,
        )].name == name,
        forall|k: int|
            from <= k < position(entries, name, from) ==> (#[trigger] entries[k]).name != name,
    decreases entries.len() - from,
{
    if from < entries.len() && entries[from].name != name {
        lemma_position(entries, name, from + 1);
    }
}

/// Binding one name after the other keeps the names distinct.
pub proof fn lemma_bind_all_distinct(entries: Seq<AttrView>, stores: Seq<AttrView>, from: int)
    requires
        distinct_names(entries),
        0 <= from <= stores.len(),
    ensures
        distinct_names(bind_all(entries, stores, from)),
    decreases stores.len() - from,
{
    if from < stores.len() {
        lemma_bind_distinct(entries, stores[from].name, stores[from].value);
        lemma_bind_all_distinct(
            bind(entries, stores[from].name, stores[from].value),
            stores,
            from + 1,
        );
    }
}

/// The reserved key never reaches the class: the namespace that the body
/// of a plain construction leaves behind, which becomes the attributes of
/// the class, has no entry under the key that carries the type parameters,
/// and no name twice.
pub proof fn lemma_reserved_key_is_gone(stores: Seq<AttrView>)
    ensures
        lookup(namespace_after(stores), DOT_TYPE_PARAMS@) is None,
        distinct_names(namespace_after(stores)),
{
    let stored = bind_all(Seq::empty(), stores, 0);
    let left = namespace_after(stores);
    lemma_bind_all_distinct(Seq::empty(), stores, 0);
    lemma_position(stored, DOT_TYPE_PARAMS@, 0);
    if position(stored, DOT_TYPE_PARAMS@, 0) < stored.len() {
        assert forall|k: int| 0 <= k < left.len() implies (#[trigger] left[k]).name
            != DOT_TYPE_PARAMS@ by {}
        assert forall|i: int, j: int| 0 <= i < j < left.len() implies (#[trigger] left[i]).name
            != (#[trigger] left[j]).name by {}
    }
    lemma_position(left, DOT_TYPE_PARAMS@, 0);
}

/// The reserved key is gone from any namespace of a sound arena: once a
/// key was taken out of a namespace that can be written, nothing is found
/// under it, whatever the namespace held, because no namespace of a sound
/// arena has a name twice; and the arena stays sound. The namespace of a
/// class body loses the key of the type parameters so before the class is
/// made of it.
pub proof fn lemma_deleted_key_is_gone(h: Heap, ns: ObjRef, key: Seq<char>)
    requires
        h.sound(),
        h.writable(ns),
    ensures
        lookup(h.del_item(ns, key).0.entries(ns), key) is None,
        h.del_item(ns, key).0.sound(),
{
    assert(h.has(ns));
    assert(h.sound_object(h.objects[ns.id as int]));
    let entries = h.entries(ns);
    crate::check::lemma_unbind_within(h, entries, key);
    crate::check::lemma_with_payload_keeps(h, ns, PayloadView::Dict(unbind(entries, key)));
}

} // verus!
