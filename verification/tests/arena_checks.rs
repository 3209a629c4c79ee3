use pyprotocol::class::__build_class__;
use pyprotocol::make::{none, object_type, type_type};
use pyprotocol::object::{Attr, ObjRef, Payload, Routine, Slots};
use pyprotocol::protocol::{ArgIterable, TryFromObject};
use pyprotocol::sequence::ArgSequence;
use pyprotocol::trace::{Traverse, TraverseFn};
use pyprotocol::vm::Vm;

#[test]
fn a_new_arena_is_sound_and_standard() {
    let vm = Vm::new();
    assert_eq!(vm.len(), 108);
    assert!(vm.is_sound());
    assert!(vm.is_standard());
    assert_eq!(vm.name_of(type_type()), "type");
    assert_eq!(vm.name_of(object_type()), "object");
    assert_eq!(vm.class_of(none()), ObjRef { id: 2 });
    assert_eq!(vm.name_of(ObjRef { id: 2 }), "NoneType");
}

#[test]
fn building_and_iterating_keeps_the_arena_sound_and_standard() {
    let mut vm = Vm::new();
    let one = vm.new_int(1);
    let two = vm.new_int(2);
    let list = vm.new_list(vec![one, two]);
    let cell = vm.new_cell(None);
    let body = vm.new_function(Routine::Body {
        stores: vec![
            Attr { name: "x".to_string(), value: one },
            Attr { name: "__classcell__".to_string(), value: cell },
        ],
        result: cell,
    });
    let base = vm.new_type(type_type(), "Base", vec![], Slots::empty()).unwrap();
    let class = __build_class__(body, "pkg.Derived", vec![base], vec![], &mut vm).unwrap();
    let items = ArgSequence::<i64>::try_from_object(&mut vm, list).unwrap();
    assert_eq!(items.as_slice(), &[1, 2]);
    let handle = ArgIterable::<ObjRef>::try_from_object(&mut vm, list).unwrap();
    let it = handle.iter(&mut vm).unwrap();
    assert_eq!(it.next(&mut vm), Some(Ok(one)));
    assert!(vm.is_sound());
    assert!(vm.is_standard());
    assert!(vm.is_subclass(class, base));
    assert_eq!(vm.cell_value(cell), Some(Some(class)));
}

#[test]
fn a_dangling_reference_makes_the_arena_unsound() {
    let mut vm = Vm::new();
    let nowhere = ObjRef { id: 500 };
    vm.new_list(vec![nowhere]);
    assert!(!vm.is_sound());
    assert!(vm.is_standard());
    let mut other = Vm::new();
    other.new_object(nowhere, Payload::Instance);
    assert!(!other.is_sound());
    let mut third = Vm::new();
    let f = third.new_function(Routine::Return(none()));
    third.set_attr(f, "later", nowhere);
    assert!(!third.is_sound());
}

#[test]
fn handles_show_the_references_they_own() {
    let mut vm = Vm::new();
    let one = vm.new_int(1);
    let two = vm.new_int(2);
    let list = vm.new_list(vec![one, two]);
    let f = vm.new_function(Routine::Return(one));
    let dict = vm.new_dict();

    let mut tracer = TraverseFn::new();
    let callable = pyprotocol::protocol::ArgCallable::try_from_object(&mut vm, f).unwrap();
    callable.traverse(&mut tracer);
    let iterable = ArgIterable::<ObjRef>::try_from_object(&mut vm, list).unwrap();
    iterable.traverse(&mut tracer);
    let mapping = pyprotocol::protocol::ArgMapping::try_from_object(&mut vm, dict).unwrap();
    mapping.traverse(&mut tracer);
    assert_eq!(tracer.into_vec(), vec![f, list, dict]);

    let mut tracer = TraverseFn::new();
    let objects = ArgSequence::<ObjRef>::try_from_object(&mut vm, list).unwrap();
    objects.traverse(&mut tracer);
    assert_eq!(tracer.into_vec(), vec![one, two]);

    let mut tracer = TraverseFn::new();
    let numbers = ArgSequence::<i64>::try_from_object(&mut vm, list).unwrap();
    numbers.traverse(&mut tracer);
    7i64.traverse(&mut tracer);
    true.traverse(&mut tracer);
    pyprotocol::object::CallSlot::Function.traverse(&mut tracer);
    pyprotocol::object::IterSlot::Identity.traverse(&mut tracer);
    mapping.mapping().methods.traverse(&mut tracer);
    pyprotocol::protocol::ArgIntoBool { value: true }.traverse(&mut tracer);
    assert!(tracer.into_vec().is_empty());
}
