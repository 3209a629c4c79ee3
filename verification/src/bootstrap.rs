//! The objects every arena starts with: the built-in types and constants,
//! each at a fixed place.

use vstd::prelude::*;
use vstd::string::*;

use crate::heap::{
    Heap, BOOL_TYPE, CORE_COUNT, ELLIPSIS_TYPE, INT_TYPE, NONE_TYPE, NOT_IMPLEMENTED_TYPE,
    OBJECT_TYPE, ROOT_COUNT, TYPE_TYPE,
};
use crate::items::clone_refs;
use crate::roots::{
    parent_of, root_name, spec_parent_of, spec_root_name, BASE_EXCEPTION, BASE_EXCEPTION_GROUP,
    EXCEPTION, EXCEPTION_GROUP,
};
use crate::object::{
    CallSlot, IterSlot, MappingMethods, NextSlot, ObjRef, Object, ObjectView, Payload,
    PayloadView, SequenceMethods, Slots, TypeData, TypeView,
};
use crate::vm::Vm;

verus! {

/// The slots of `type`: calling a type constructs a class.
pub open spec fn type_slots() -> Slots {
    Slots { call: Some(CallSlot::Construct), ..Slots::spec_empty() }
}

/// The slots of `function`: calling a function runs its routine.
pub open spec fn function_slots() -> Slots {
    Slots { call: Some(CallSlot::Function), ..Slots::spec_empty() }
}

/// The slots of `tuple` and `list`: iteration over the stored elements, and
/// the sequence protocol.
pub open spec fn sequence_slots() -> Slots {
    Slots {
        iter: Some(IterSlot::Elements),
        as_sequence: Some(SequenceMethods { length: true, item: true }),
        ..Slots::spec_empty()
    }
}

/// The slots of `dict`: the whole mapping protocol.
pub open spec fn dict_slots() -> Slots {
    Slots {
        as_mapping: Some(MappingMethods { length: true, subscript: true, ass_subscript: true }),
        ..Slots::spec_empty()
    }
}

/// The slots of an iterator type that advances through `next`.
pub open spec fn iterator_slots(next: NextSlot) -> Slots {
    Slots { iter: Some(IterSlot::Identity), iternext: Some(next), ..Slots::spec_empty() }
}

/// A built-in type that derives from `object` alone.
pub open spec fn root_type(id: usize, name: Seq<char>, slots: Slots) -> ObjectView {
    ObjectView {
        class: ObjRef { id: TYPE_TYPE },
        payload: PayloadView::Type(
            TypeView {
                name,
                bases: seq![ObjRef { id: OBJECT_TYPE }],
                mro: seq![ObjRef { id }, ObjRef { id: OBJECT_TYPE }],
                slots,
            },
        ),
        attrs: Seq::empty(),
    }
}

/// A built-in constant.
pub open spec fn root_value(class: usize, payload: PayloadView) -> ObjectView {
    ObjectView { class: ObjRef { id: class }, payload, attrs: Seq::empty() }
}

/// The type `object`: the one type without bases.
pub open spec fn object_root() -> ObjectView {
    ObjectView {
        class: ObjRef { id: TYPE_TYPE },
        payload: PayloadView::Type(
            TypeView {
                name: "object"@,
                bases: Seq::empty(),
                mro: seq![ObjRef { id: OBJECT_TYPE }],
                slots: Slots::spec_empty(),
            },
        ),
        attrs: Seq::empty(),
    }
}

/// The type `bool`, which derives from `int`.
pub open spec fn bool_root() -> ObjectView {
    ObjectView {
        class: ObjRef { id: TYPE_TYPE },
        payload: PayloadView::Type(
            TypeView {
                name: "bool"@,
                bases: seq![ObjRef { id: INT_TYPE }],
                mro: seq![
                    ObjRef { id: BOOL_TYPE },
                    ObjRef { id: INT_TYPE },
                    ObjRef { id: OBJECT_TYPE },
                ],
                slots: Slots::spec_empty(),
            },
        ),
        attrs: Seq::empty(),
    }
}

/// The direct bases of the built-in class at `place`: the class it derives
/// from, and for `ExceptionGroup` the class `Exception` as well.
pub open spec fn root_bases(place: usize) -> Seq<ObjRef> {
    if place == EXCEPTION_GROUP {
        seq![ObjRef { id: BASE_EXCEPTION_GROUP }, ObjRef { id: EXCEPTION }]
    } else {
        seq![ObjRef { id: spec_parent_of(place) }]
    }
}

/// The linearized ancestors of the built-in object at `place`: for an
/// object of the core those it was written with; for a class of the table
/// the class itself before the ancestors of the class it derives from; and
/// for `ExceptionGroup` its two bases before the ancestors they share.
pub open spec fn line_of(place: usize) -> Seq<ObjRef>
    decreases place,
{
    if place < CORE_COUNT {
        Heap::kernel().mro(ObjRef { id: place })
    } else if place == EXCEPTION_GROUP {
        seq![
            ObjRef { id: EXCEPTION_GROUP },
            ObjRef { id: BASE_EXCEPTION_GROUP },
            ObjRef { id: EXCEPTION },
            ObjRef { id: BASE_EXCEPTION },
            ObjRef { id: OBJECT_TYPE },
        ]
    } else if spec_parent_of(place) < place {
        seq![ObjRef { id: place }] + line_of(spec_parent_of(place))
    } else {
        seq![ObjRef { id: place }]
    }
}

/// Every ancestor of a built-in object is a built-in object.
pub proof fn lemma_line_in_range(place: usize)
    requires
        place < ROOT_COUNT,
    ensures
        forall|k: int| 0 <= k < line_of(place).len() ==> (#[trigger] line_of(place)[k]).id < ROOT_COUNT,
    decreases place,
{
    let line = line_of(place);
    if place < CORE_COUNT {
        lemma_kernel_sound();
        let h = Heap::kernel();
        assert(h.sound_object(h.objects[place as int]));
        assert forall|k: int| 0 <= k < line.len() implies (#[trigger] line[k]).id < ROOT_COUNT by {
            assert(h.has(line[k]));
        }
    } else if place != EXCEPTION_GROUP && spec_parent_of(place) < place {
        let rest = line_of(spec_parent_of(place));
        lemma_line_in_range(spec_parent_of(place));
        assert forall|k: int| 0 <= k < line.len() implies (#[trigger] line[k]).id < ROOT_COUNT by {
            if k > 0 {
                assert(line[k] == rest[k - 1]);
            }
        }
    }
}

/// The core is closed under its references.
pub proof fn lemma_kernel_sound()
    ensures
        Heap::kernel().sound(),
        Heap::kernel().objects.len() == CORE_COUNT,
{
    let h = Heap::kernel();
    assert forall|i: int| 0 <= i < h.objects.len() implies h.sound_object(
        #[trigger] h.objects[i],
    ) by {
        crate::check::lemma_object_sound(h, h.objects[i]);
    }
}

/// The arena as it is created has the core at its start and a built-in
/// class at every place behind it.
pub proof fn lemma_initial_places()
    ensures
        Heap::initial().objects.len() == ROOT_COUNT,
        Heap::kernel().objects.len() == CORE_COUNT,
        forall|i: int|
            0 <= i < CORE_COUNT ==> #[trigger] Heap::initial().objects[i] == Heap::kernel().objects[i],
        forall|i: int|
            CORE_COUNT <= i < ROOT_COUNT ==> #[trigger] Heap::initial().objects[i]
                == Heap::class_root(i as usize),
{
}

impl Heap {
    /// The core of every arena: the types and constants that the runtime
    /// itself works with.
    pub open spec fn kernel() -> Heap {
        Heap {
            objects: seq![
                root_type(0, "type"@, type_slots()),
                object_root(),
                root_type(2, "NoneType"@, Slots::spec_empty()),
                root_value(NONE_TYPE, PayloadView::NoneValue),
                bool_root(),
                root_type(5, "int"@, Slots::spec_empty()),
                root_type(6, "str"@, Slots::spec_empty()),
                root_type(7, "tuple"@, sequence_slots()),
                root_type(8, "list"@, sequence_slots()),
                root_type(9, "dict"@, dict_slots()),
                root_type(10, "cell"@, Slots::spec_empty()),
                root_type(11, "function"@, function_slots()),
                root_type(12, "list_iterator"@, iterator_slots(NextSlot::Elements)),
                root_type(13, "iterator"@, iterator_slots(NextSlot::Subscript)),
                root_type(14, "callable_iterator"@, iterator_slots(NextSlot::Sentinel)),
                root_type(15, "reversed"@, iterator_slots(NextSlot::Reversed)),
                root_value(BOOL_TYPE, PayloadView::Bool(false)),
                root_value(BOOL_TYPE, PayloadView::Bool(true)),
                root_type(18, "module"@, Slots::spec_empty()),
                root_type(19, "NotImplementedType"@, Slots::spec_empty()),
                root_value(NOT_IMPLEMENTED_TYPE, PayloadView::Instance),
                root_type(21, "ellipsis"@, Slots::spec_empty()),
                root_value(ELLIPSIS_TYPE, PayloadView::Instance),
            ],
        }
    }

    /// The built-in class at `place`, a place behind the core: an instance
    /// of `type` with the name, the bases and the ancestors that the table
    /// of the built-in classes gives it, and without slots of its own.
    pub open spec fn class_root(place: usize) -> ObjectView {
        ObjectView {
            class: ObjRef { id: TYPE_TYPE },
            payload: PayloadView::Type(
                TypeView {
                    name: spec_root_name(place),
                    bases: root_bases(place),
                    mro: line_of(place),
                    slots: Slots::spec_empty(),
                },
            ),
            attrs: Seq::empty(),
        }
    }

    /// The arena as it is created: the core, and behind it the built-in
    /// classes.
    pub open spec fn initial() -> Heap {
        Heap {
            objects: Heap::kernel().objects + Seq::new(
                (ROOT_COUNT - CORE_COUNT) as nat,
                |i: int| Heap::class_root((CORE_COUNT + i) as usize),
            ),
        }
    }

    /// Whether the built-in types and constants are in place: the first
    /// objects have the types and the native data they were created with.
    pub open spec fn standard(self) -> bool {
        &&& self.objects.len() >= ROOT_COUNT
        &&& forall|i: int|
            0 <= i < ROOT_COUNT ==> {
                &&& (#[trigger] self.objects[i]).class == Heap::initial().objects[i].class
                &&& self.objects[i].payload == Heap::initial().objects[i].payload
            }
    }
}

fn make_root_type(id: usize, name: &str, slots: Slots) -> (r: Object)
    ensures
        r@ == root_type(id, name@, slots),
{
    let mut bases: Vec<ObjRef> = Vec::new();
    bases.push(ObjRef { id: OBJECT_TYPE });
    let mut mro: Vec<ObjRef> = Vec::new();
    mro.push(ObjRef { id });
    mro.push(ObjRef { id: OBJECT_TYPE });
    let r = Object {
        class: ObjRef { id: TYPE_TYPE },
        payload: Payload::Type(TypeData { name: name.to_owned(), bases, mro, slots }),
        attrs: Vec::new(),
    };
    assert(r@.attrs =~= Seq::empty());
    assert(r@.payload->Type_0.mro =~= seq![ObjRef { id }, ObjRef { id: OBJECT_TYPE }]);
    r
}

fn make_root_value(class: usize, payload: Payload) -> (r: Object)
    ensures
        r@ == root_value(class, payload@),
{
    let r = Object { class: ObjRef { id: class }, payload, attrs: Vec::new() };
    assert(r@.attrs =~= Seq::empty());
    r
}

fn make_object_root() -> (r: Object)
    ensures
        r@ == object_root(),
{
    let mut mro: Vec<ObjRef> = Vec::new();
    mro.push(ObjRef { id: OBJECT_TYPE });
    let r = Object {
        class: ObjRef { id: TYPE_TYPE },
        payload: Payload::Type(
            TypeData { name: "object".to_owned(), bases: Vec::new(), mro, slots: Slots::empty() },
        ),
        attrs: Vec::new(),
    };
    assert(r@.attrs =~= Seq::empty());
    r
}

fn make_bool_root() -> (r: Object)
    ensures
        r@ == bool_root(),
{
    let mut bases: Vec<ObjRef> = Vec::new();
    bases.push(ObjRef { id: INT_TYPE });
    let mut mro: Vec<ObjRef> = Vec::new();
    mro.push(ObjRef { id: BOOL_TYPE });
    mro.push(ObjRef { id: INT_TYPE });
    mro.push(ObjRef { id: OBJECT_TYPE });
    let r = Object {
        class: ObjRef { id: TYPE_TYPE },
        payload: Payload::Type(
            TypeData { name: "bool".to_owned(), bases, mro, slots: Slots::empty() },
        ),
        attrs: Vec::new(),
    };
    assert(r@.attrs =~= Seq::empty());
    assert(r@.payload->Type_0.mro =~= seq![
        ObjRef { id: BOOL_TYPE },
        ObjRef { id: INT_TYPE },
        ObjRef { id: OBJECT_TYPE },
    ]);
    r
}

fn make_iterator_slots(next: NextSlot) -> (r: Slots)
    ensures
        r == iterator_slots(next),
{
    Slots {
        call: None,
        iter: Some(IterSlot::Identity),
        iternext: Some(next),
        as_mapping: None,
        as_sequence: None,
    }
}

fn make_sequence_slots() -> (r: Slots)
    ensures
        r == sequence_slots(),
{
    Slots {
        call: None,
        iter: Some(IterSlot::Elements),
        iternext: None,
        as_mapping: None,
        as_sequence: Some(SequenceMethods { length: true, item: true }),
    }
}

/// A built-in class stands first among its own ancestors: in an arena
/// with the built-in objects in place it is a type of its name, its
/// ancestors are those it was made with, and it derives from itself.
pub proof fn lemma_root_class(h: Heap, place: usize)
    requires
        h.standard(),
        CORE_COUNT <= place < ROOT_COUNT,
    ensures
        h.is_type(ObjRef { id: place }),
        h.type_view(ObjRef { id: place }).name == spec_root_name(place),
        h.mro(ObjRef { id: place }) == line_of(place),
        h.is_subclass(ObjRef { id: place }, ObjRef { id: place }),
        spec_parent_of(place) == OBJECT_TYPE && place != EXCEPTION_GROUP ==> line_of(place)
            == seq![ObjRef { id: place }, ObjRef { id: OBJECT_TYPE }],
{
    lemma_initial_places();
    assert(h.objects[place as int].payload == Heap::initial().objects[place as int].payload);
    assert(line_of(place)[0] == (ObjRef { id: place }));
    if spec_parent_of(place) == OBJECT_TYPE && place != EXCEPTION_GROUP {
        assert(line_of(OBJECT_TYPE) =~= seq![ObjRef { id: OBJECT_TYPE }]);
        assert(line_of(place) =~= seq![ObjRef { id: place }, ObjRef { id: OBJECT_TYPE }]);
    }
}

impl Vm {
    /// A new arena, holding the built-in types, constants and classes and
    /// nothing else.
    pub fn new() -> (r: Vm)
        ensures
            r@ == Heap::initial(),
            r@.standard(),
            r@.sound(),
    {
        proof {
            crate::check::lemma_initial_sound();
            lemma_initial_places();
        }
        let mut vm = Vm::empty();
        let type_slots = Slots {
            call: Some(CallSlot::Construct),
            iter: None,
            iternext: None,
            as_mapping: None,
            as_sequence: None,
        };
        let function_slots = Slots {
            call: Some(CallSlot::Function),
            iter: None,
            iternext: None,
            as_mapping: None,
            as_sequence: None,
        };
        let dict_slots = Slots {
            call: None,
            iter: None,
            iternext: None,
            as_mapping: Some(
                MappingMethods { length: true, subscript: true, ass_subscript: true },
            ),
            as_sequence: None,
        };
        vm.allocate(make_root_type(0, "type", type_slots));
        vm.allocate(make_object_root());
        vm.allocate(make_root_type(2, "NoneType", Slots::empty()));
        vm.allocate(make_root_value(NONE_TYPE, Payload::NoneValue));
        vm.allocate(make_bool_root());
        vm.allocate(make_root_type(5, "int", Slots::empty()));
        vm.allocate(make_root_type(6, "str", Slots::empty()));
        vm.allocate(make_root_type(7, "tuple", make_sequence_slots()));
        vm.allocate(make_root_type(8, "list", make_sequence_slots()));
        vm.allocate(make_root_type(9, "dict", dict_slots));
        vm.allocate(make_root_type(10, "cell", Slots::empty()));
        vm.allocate(make_root_type(11, "function", function_slots));
        vm.allocate(make_root_type(12, "list_iterator", make_iterator_slots(NextSlot::Elements)));
        vm.allocate(make_root_type(13, "iterator", make_iterator_slots(NextSlot::Subscript)));
        vm.allocate(
            make_root_type(14, "callable_iterator", make_iterator_slots(NextSlot::Sentinel)),
        );
        vm.allocate(make_root_type(15, "reversed", make_iterator_slots(NextSlot::Reversed)));
        vm.allocate(make_root_value(BOOL_TYPE, Payload::Bool(false)));
        vm.allocate(make_root_value(BOOL_TYPE, Payload::Bool(true)));
        vm.allocate(make_root_type(18, "module", Slots::empty()));
        vm.allocate(make_root_type(19, "NotImplementedType", Slots::empty()));
        vm.allocate(make_root_value(NOT_IMPLEMENTED_TYPE, Payload::Instance));
        vm.allocate(make_root_type(21, "ellipsis", Slots::empty()));
        vm.allocate(make_root_value(ELLIPSIS_TYPE, Payload::Instance));
        assert(vm@.objects =~= Heap::kernel().objects);
        let mut place: usize = CORE_COUNT;
        while place < ROOT_COUNT
            invariant
                CORE_COUNT <= place <= ROOT_COUNT,
                vm@.objects == Heap::initial().objects.subrange(0, place as int),
            decreases ROOT_COUNT - place,
        {
            proof {
                lemma_initial_places();
            }
            let class = vm.make_class_root(place);
            let ghost before = vm@.objects;
            vm.allocate(class);
            assert(vm@.objects =~= Heap::initial().objects.subrange(0, place + 1));
            place += 1;
        }
        assert(vm@.objects =~= Heap::initial().objects);
        vm
    }

    /// The built-in class at `place`, made in an arena that holds the
    /// built-in objects before that place.
    fn make_class_root(&self, place: usize) -> (r: Object)
        requires
            CORE_COUNT <= place < ROOT_COUNT,
            self@.objects == Heap::initial().objects.subrange(0, place as int),
        ensures
            r@ == Heap::class_root(place),
    {
        proof {
            lemma_initial_places();
        }
        let parent = parent_of(place);
        let mut bases: Vec<ObjRef> = Vec::new();
        bases.push(ObjRef { id: parent });
        let mut mro: Vec<ObjRef> = Vec::new();
        mro.push(ObjRef { id: place });
        if place == EXCEPTION_GROUP {
            bases.push(ObjRef { id: EXCEPTION });
            mro.push(ObjRef { id: BASE_EXCEPTION_GROUP });
            mro.push(ObjRef { id: EXCEPTION });
            mro.push(ObjRef { id: BASE_EXCEPTION });
            mro.push(ObjRef { id: OBJECT_TYPE });
        } else if parent < place {
            let mut line = match self.type_data(ObjRef { id: parent }) {
                Some(td) => clone_refs(&td.mro),
                None => Vec::new(),
            };
            assert(self@.objects[parent as int] == Heap::initial().objects[parent as int]);
            assert(line@ == line_of(parent));
            mro.append(&mut line);
        }
        let r = Object {
            class: ObjRef { id: TYPE_TYPE },
            payload: Payload::Type(
                TypeData { name: root_name(place).to_owned(), bases, mro, slots: Slots::empty() },
            ),
            attrs: Vec::new(),
        };
        assert(r@.attrs =~= Seq::empty());
        assert(r@.payload->Type_0.bases =~= root_bases(place));
        assert(r@.payload->Type_0.mro =~= line_of(place));
        r
    }
}

} // verus!
