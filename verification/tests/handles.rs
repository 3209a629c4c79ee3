use pyprotocol::error::{Error, ErrorKind};
use pyprotocol::heap::{INT_TYPE, LIST_TYPE};
use pyprotocol::make::{none, object_type, type_type};
use pyprotocol::object::{
    FuncArgs, IterSlot, MappingMethods, ObjRef, Payload, Routine, SequenceMethods, Slots,
};
use pyprotocol::protocol::{
    ArgCallable, ArgIntoBool, ArgIterable, ArgMapping, PyIterIter, ReadFromObject,
    TryFromObject,
};
use pyprotocol::sequence::ArgSequence;
use pyprotocol::vm::Vm;

fn no_args() -> FuncArgs {
    FuncArgs { args: vec![], kwargs: vec![] }
}

fn ints(vm: &mut Vm, values: &[i64]) -> Vec<ObjRef> {
    values.iter().map(|v| vm.new_int(*v)).collect()
}

fn drain<T: ReadFromObject>(items: &PyIterIter<T>, vm: &mut Vm) -> Vec<Result<T, Error>> {
    let mut out = Vec::new();
    while let Some(item) = items.next(vm) {
        out.push(item);
        assert!(out.len() < 1000);
    }
    out
}

/// A type whose objects are read by index only: it defines `__getitem__`
/// and the item operation, and has no iterate slot.
fn indexed_type(vm: &mut Vm) -> ObjRef {
    let slots = Slots {
        as_sequence: Some(SequenceMethods { length: true, item: true }),
        ..Slots::empty()
    };
    let class = vm.new_type(type_type(), "Indexed", vec![], slots).unwrap();
    let getter = vm.new_function(Routine::Return(none()));
    vm.set_attr(class, "__getitem__", getter);
    class
}

#[test]
fn callable_binds_a_function_and_invokes_it() {
    let mut vm = Vm::new();
    let seven = vm.new_int(7);
    let f = vm.new_function(Routine::Return(seven));
    let handle = ArgCallable::try_from_object(&mut vm, f).unwrap();
    assert_eq!(handle.as_object(), f);
    assert_eq!(handle.invoke(&no_args(), &mut vm), Ok(seven));
    assert_eq!(handle.invoke(&no_args(), &mut vm), Ok(seven));
}

#[test]
fn callable_passes_on_the_error_of_the_callee() {
    let mut vm = Vm::new();
    let text = vm.new_str("no");
    let raised = Error::Raised { kind: ErrorKind::ValueError, value: text };
    let f = vm.new_function(Routine::Raise(raised));
    let handle = ArgCallable::try_from_object(&mut vm, f).unwrap();
    assert_eq!(handle.invoke(&no_args(), &mut vm), Err(raised));
}

#[test]
fn callable_returns_its_argument() {
    let mut vm = Vm::new();
    let f = vm.new_function(Routine::Argument(1));
    let a = vm.new_int(1);
    let b = vm.new_int(2);
    let handle = ArgCallable::try_from_object(&mut vm, f).unwrap();
    let args = FuncArgs { args: vec![a, b], kwargs: vec![] };
    assert_eq!(handle.invoke(&args, &mut vm), Ok(b));
    let short = FuncArgs { args: vec![a], kwargs: vec![] };
    assert_eq!(handle.invoke(&short, &mut vm), Err(Error::MissingArgument { index: 1 }));
}

#[test]
fn callable_rejects_an_object_without_call_slot() {
    let mut vm = Vm::new();
    let n = vm.new_int(3);
    let before = vm.len();
    let err = ArgCallable::try_from_object(&mut vm, n).unwrap_err();
    assert_eq!(err, Error::NotCallable { class: ObjRef { id: INT_TYPE } });
    assert_eq!(err.kind(), ErrorKind::TypeMismatch);
    assert_eq!(vm.message(&err), "'int' object is not callable");
    assert_eq!(vm.len(), before);
    assert_eq!(vm.int_value(n), Some(3));
}

#[test]
fn call_slot_is_found_along_the_ancestors() {
    let mut vm = Vm::new();
    let callable_slots = Slots { call: Some(pyprotocol::object::CallSlot::Function), ..Slots::empty() };
    let base = vm.new_type(type_type(), "Base", vec![], callable_slots).unwrap();
    let derived = vm.new_type(type_type(), "Derived", vec![base], Slots::empty()).unwrap();
    let seven = vm.new_int(7);
    let obj = vm.new_object(derived, Payload::Function(Routine::Return(seven)));
    let handle = ArgCallable::try_from_object(&mut vm, obj).unwrap();
    assert_eq!(handle.invoke(&no_args(), &mut vm), Ok(seven));
}

#[test]
fn a_type_is_callable_and_constructs() {
    let mut vm = Vm::new();
    let handle = ArgCallable::try_from_object(&mut vm, type_type()).unwrap();
    assert_eq!(handle.invoke(&no_args(), &mut vm), Err(Error::ConstructArity));
    let name = vm.new_str("K");
    let bases = vm.new_tuple(vec![]);
    let ns = vm.new_dict();
    let args = FuncArgs { args: vec![name, bases, ns], kwargs: vec![] };
    let class = handle.invoke(&args, &mut vm).unwrap();
    assert_eq!(vm.name_of(class), "K");
    assert_eq!(vm.class_of(class), type_type());
    assert!(vm.is_subclass(class, object_type()));
}

#[test]
fn construction_refuses_wrong_arguments() {
    let mut vm = Vm::new();
    let name = vm.new_str("K");
    let bases = vm.new_tuple(vec![]);
    let ns = vm.new_dict();
    let n = vm.new_int(1);
    let bad_name = FuncArgs { args: vec![n, bases, ns], kwargs: vec![] };
    let err = vm.call(type_type(), &bad_name).unwrap_err();
    assert_eq!(vm.message(&err), "type.__new__() argument 1 must be str, not int");
    let bad_bases = FuncArgs { args: vec![name, n, ns], kwargs: vec![] };
    let err = vm.call(type_type(), &bad_bases).unwrap_err();
    assert_eq!(vm.message(&err), "type.__new__() argument 2 must be tuple, not int");
    let bad_ns = FuncArgs { args: vec![name, bases, n], kwargs: vec![] };
    let err = vm.call(type_type(), &bad_ns).unwrap_err();
    assert_eq!(vm.message(&err), "type.__new__() argument 3 must be dict, not int");
    let not_types = vm.new_tuple(vec![n]);
    let args = FuncArgs { args: vec![name, not_types, ns], kwargs: vec![] };
    assert_eq!(vm.call(type_type(), &args), Err(Error::BasesNotTypes));
}

#[test]
fn ancestors_are_merged_with_shared_ones_last() {
    let mut vm = Vm::new();
    let a = vm.new_type(type_type(), "A", vec![], Slots::empty()).unwrap();
    let b = vm.new_type(type_type(), "B", vec![a], Slots::empty()).unwrap();
    let c = vm.new_type(type_type(), "C", vec![a], Slots::empty()).unwrap();
    let d = vm.new_type(type_type(), "D", vec![b, c], Slots::empty()).unwrap();
    assert_eq!(vm.linearize(&vec![b, c]), Some(vec![b, c, a, object_type()]));
    assert_eq!(vm.linearize(&vec![object_type()]), Some(vec![object_type()]));
    assert_eq!(vm.linearize(&vec![]), Some(vec![]));
    assert!(vm.is_subclass(d, a));
    assert!(!vm.is_subclass(a, d));
    let e = vm.new_type(type_type(), "E", vec![c, b], Slots::empty()).unwrap();
    assert_eq!(vm.linearize(&vec![d, e]), None);
    assert_eq!(vm.linearize(&vec![e, d]), None);
}

#[test]
fn bases_that_cannot_be_merged_are_refused() {
    let mut vm = Vm::new();
    let a = vm.new_type(type_type(), "A", vec![], Slots::empty()).unwrap();
    let b = vm.new_type(type_type(), "B", vec![a], Slots::empty()).unwrap();
    let before = vm.len();
    let err = vm.new_type(type_type(), "X", vec![a, b], Slots::empty()).unwrap_err();
    assert_eq!(err, Error::InconsistentMro);
    assert_eq!(err.kind(), ErrorKind::TypeMismatch);
    assert_eq!(
        vm.message(&err),
        "Cannot create a consistent method resolution order (MRO) for bases"
    );
    assert_eq!(vm.len(), before);
    assert_eq!(vm.new_type(type_type(), "Y", vec![a, a], Slots::empty()), Err(Error::InconsistentMro));
    let fine = vm.new_type(type_type(), "Z", vec![b, a], Slots::empty()).unwrap();
    assert_eq!(vm.linearize(&vec![fine]), Some(vec![fine, b, a, object_type()]));
    let name = vm.new_str("X");
    let bases = vm.new_tuple(vec![a, b]);
    let ns = vm.new_dict();
    let args = FuncArgs { args: vec![name, bases, ns], kwargs: vec![] };
    assert_eq!(vm.call(type_type(), &args), Err(Error::InconsistentMro));
}

#[test]
fn iterable_binds_a_list_without_touching_it() {
    let mut vm = Vm::new();
    let items = ints(&mut vm, &[1, 2]);
    let list = vm.new_list(items.clone());
    let before = vm.len();
    let handle = ArgIterable::<ObjRef>::try_from_object(&mut vm, list).unwrap();
    assert_eq!(handle.as_object(), list);
    assert_eq!(vm.len(), before);
    assert_eq!(vm.elements(list), items);
}

#[test]
fn iterable_rejects_an_object_without_iterate_slot() {
    let mut vm = Vm::new();
    let n = vm.new_int(3);
    let err = ArgIterable::<ObjRef>::try_from_object(&mut vm, n).err().unwrap();
    assert_eq!(err, Error::NotIterable { class: ObjRef { id: INT_TYPE } });
    assert_eq!(err.kind(), ErrorKind::TypeMismatch);
    assert_eq!(vm.message(&err), "'int' object is not iterable");
}

#[test]
fn lazy_iteration_converts_each_item_as_it_is_pulled() {
    let mut vm = Vm::new();
    let items = ints(&mut vm, &[10, 20, 30]);
    let list = vm.new_list(items);
    let handle = ArgIterable::<i64>::try_from_object(&mut vm, list).unwrap();
    let it = handle.iter(&mut vm).unwrap();
    assert_eq!(it.next(&mut vm), Some(Ok(10)));
    assert_eq!(it.next(&mut vm), Some(Ok(20)));
    assert_eq!(it.next(&mut vm), Some(Ok(30)));
    assert_eq!(it.next(&mut vm), None);
    assert_eq!(it.next(&mut vm), None);
}

#[test]
fn failed_conversion_comes_out_of_its_pull_only() {
    let mut vm = Vm::new();
    let one = vm.new_int(1);
    let text = vm.new_str("x");
    let three = vm.new_int(3);
    let list = vm.new_list(vec![one, text, three]);
    let handle = ArgIterable::<i64>::try_from_object(&mut vm, list).unwrap();
    let it = handle.iter(&mut vm).unwrap();
    let got = drain(&it, &mut vm);
    assert_eq!(got.len(), 3);
    assert_eq!(got[0], Ok(1));
    assert!(matches!(got[1], Err(Error::NotAnInteger { .. })));
    assert_eq!(vm.message(got[1].as_ref().unwrap_err()), "'str' object cannot be interpreted as an integer");
    assert_eq!(got[2], Ok(3));
}

#[test]
fn two_handles_over_one_source_give_the_same_items() {
    let mut vm = Vm::new();
    let items = ints(&mut vm, &[4, 5, 6]);
    let list = vm.new_list(items.clone());
    let first = ArgIterable::<ObjRef>::try_from_object(&mut vm, list).unwrap();
    let one = first.iter(&mut vm).unwrap();
    let a = drain(&one, &mut vm);
    let second = ArgIterable::<ObjRef>::try_from_object(&mut vm, list).unwrap();
    let two = second.iter(&mut vm).unwrap();
    let b = drain(&two, &mut vm);
    assert_eq!(a, b);
    assert_eq!(a, items.iter().map(|o| Ok(*o)).collect::<Vec<_>>());
    assert_ne!(one.as_object(), two.as_object());
}

#[test]
fn interleaved_iterations_do_not_disturb_each_other() {
    let mut vm = Vm::new();
    let items = ints(&mut vm, &[4, 5]);
    let tuple = vm.new_tuple(items.clone());
    let handle = ArgIterable::<ObjRef>::try_from_object(&mut vm, tuple).unwrap();
    let one = handle.iter(&mut vm).unwrap();
    let two = handle.iter(&mut vm).unwrap();
    assert_eq!(one.next(&mut vm), Some(Ok(items[0])));
    assert_eq!(two.next(&mut vm), Some(Ok(items[0])));
    assert_eq!(one.next(&mut vm), Some(Ok(items[1])));
    assert_eq!(one.next(&mut vm), None);
    assert_eq!(two.next(&mut vm), Some(Ok(items[1])));
    assert_eq!(two.next(&mut vm), None);
}

#[test]
fn an_iterator_is_its_own_iterable_and_is_used_up_once() {
    let mut vm = Vm::new();
    let items = ints(&mut vm, &[4, 5]);
    let list = vm.new_list(items.clone());
    let handle = ArgIterable::<ObjRef>::try_from_object(&mut vm, list).unwrap();
    let it = handle.iter(&mut vm).unwrap();
    let again = ArgIterable::<ObjRef>::try_from_object(&mut vm, it.as_object()).unwrap();
    let same = again.iter(&mut vm).unwrap();
    assert_eq!(same.as_object(), it.as_object());
    assert_eq!(drain(&same, &mut vm).len(), 2);
    assert_eq!(drain(&it, &mut vm).len(), 0);
}

#[test]
fn fallback_gives_the_items_of_a_native_iteration() {
    let mut vm = Vm::new();
    let class = indexed_type(&mut vm);
    let items = ints(&mut vm, &[7, 8, 9]);
    let indexed = vm.new_object(class, Payload::List(items.clone()));
    let native = vm.new_list(items.clone());
    let by_index = ArgIterable::<i64>::try_from_object(&mut vm, indexed).unwrap();
    let by_slot = ArgIterable::<i64>::try_from_object(&mut vm, native).unwrap();
    let a = by_index.iter(&mut vm).unwrap();
    let b = by_slot.iter(&mut vm).unwrap();
    let from_index = drain(&a, &mut vm);
    let from_slot = drain(&b, &mut vm);
    assert_eq!(from_index, vec![Ok(7), Ok(8), Ok(9)]);
    assert_eq!(from_index, from_slot);
    assert_eq!(vm.name_of(vm.class_of(a.as_object())), "iterator");
    assert_eq!(vm.name_of(vm.class_of(b.as_object())), "list_iterator");
    assert_eq!(a.next(&mut vm), None);
}

#[test]
fn fallback_needs_the_item_operation_when_iteration_begins() {
    let mut vm = Vm::new();
    let class = vm.new_type(type_type(), "Half", vec![], Slots::empty()).unwrap();
    let getter = vm.new_function(Routine::Return(none()));
    vm.set_attr(class, "__getitem__", getter);
    let obj = vm.new_object(class, Payload::Instance);
    let handle = ArgIterable::<ObjRef>::try_from_object(&mut vm, obj).unwrap();
    let err = handle.iter(&mut vm).err().unwrap();
    assert_eq!(err, Error::NotSequence { class });
    assert_eq!(vm.message(&err), "'Half' is not a sequence");
}

#[test]
fn truth_values_are_taken_from_any_object() {
    let mut vm = Vm::new();
    let zero = vm.new_int(0);
    let one = vm.new_int(1);
    let empty = vm.new_str("");
    let text = vm.new_str("a");
    let no_items = vm.new_list(vec![]);
    let dict = vm.new_dict();
    let f = vm.new_function(Routine::Return(none()));
    let truth = |vm: &Vm, o: ObjRef| ArgIntoBool::read_from_object(vm, o).unwrap().value;
    assert!(!truth(&vm, zero));
    assert!(truth(&vm, one));
    assert!(!truth(&vm, empty));
    assert!(truth(&vm, text));
    assert!(!truth(&vm, no_items));
    assert!(!truth(&vm, dict));
    assert!(!truth(&vm, none()));
    assert!(truth(&vm, f));
    assert!(truth(&vm, pyprotocol::make::bool_object(true)));
    assert!(!truth(&vm, pyprotocol::make::bool_object(false)));
}

#[test]
fn mapping_binds_a_dictionary() {
    let mut vm = Vm::new();
    let dict = vm.new_dict();
    let one = vm.new_int(1);
    vm.set_item(dict, "k", one).unwrap();
    let handle = ArgMapping::try_from_object(&mut vm, dict).unwrap();
    assert_eq!(handle.as_object(), dict);
    let mapping = handle.mapping();
    assert_eq!(mapping.obj, dict);
    assert_eq!(
        mapping.methods,
        MappingMethods { length: true, subscript: true, ass_subscript: true }
    );
    assert_eq!(mapping.subscript(&vm, "k"), Ok(one));
    assert_eq!(mapping.subscript(&vm, "missing"), Err(Error::KeyMissing));
    assert_eq!(mapping.length(&vm), Ok(1));
}

#[test]
fn mapping_rejects_an_object_without_mapping_methods() {
    let mut vm = Vm::new();
    let list = vm.new_list(vec![]);
    let err = ArgMapping::try_from_object(&mut vm, list).unwrap_err();
    assert_eq!(err, Error::NotMapping { class: ObjRef { id: LIST_TYPE } });
    assert_eq!(err.kind(), ErrorKind::TypeMismatch);
    assert_eq!(vm.message(&err), "<class 'list'> is not a mapping object");
}

#[test]
fn mapping_needs_the_subscript_operation() {
    let mut vm = Vm::new();
    let slots = Slots {
        as_mapping: Some(MappingMethods { length: true, subscript: false, ass_subscript: false }),
        ..Slots::empty()
    };
    let class = vm.new_type(type_type(), "Sized", vec![], slots).unwrap();
    let obj = vm.new_object(class, Payload::Dict(vec![]));
    assert_eq!(ArgMapping::try_from_object(&mut vm, obj).unwrap_err(), Error::NotMapping { class });
}

#[test]
fn mapping_shortcuts_skip_the_check() {
    let mut vm = Vm::new();
    let n = vm.new_int(1);
    let trusted = ArgMapping::from_dict_exact(n);
    assert_eq!(trusted.as_object(), n);
    assert_eq!(
        trusted.mapping().methods,
        MappingMethods { length: true, subscript: true, ass_subscript: true }
    );
    let read_only = MappingMethods { length: false, subscript: true, ass_subscript: false };
    let dict = vm.new_dict();
    let handle = ArgMapping::with_methods(dict, read_only);
    assert_eq!(handle.mapping().methods, read_only);
    assert_eq!(handle.mapping().length(&vm), Err(Error::NoLength { class: vm.class_of(dict) }));
}

#[test]
fn read_only_mapping_refuses_stores() {
    let mut vm = Vm::new();
    let slots = Slots {
        as_mapping: Some(MappingMethods { length: true, subscript: true, ass_subscript: false }),
        ..Slots::empty()
    };
    let class = vm.new_type(type_type(), "Frozen", vec![], slots).unwrap();
    let obj = vm.new_object(class, Payload::Dict(vec![]));
    let one = vm.new_int(1);
    let err = vm.set_item(obj, "k", one).unwrap_err();
    assert_eq!(vm.message(&err), "'Frozen' object does not support item assignment");
    let err = vm.del_item(obj, "k").unwrap_err();
    assert_eq!(vm.message(&err), "'Frozen' object does not support item deletion");
    let err = vm.get_item(one, "k").unwrap_err();
    assert_eq!(vm.message(&err), "'int' object is not subscriptable");
}

#[test]
fn dictionary_keeps_insertion_order_and_rebinds_in_place() {
    let mut vm = Vm::new();
    let dict = vm.new_dict();
    let one = vm.new_int(1);
    let two = vm.new_int(2);
    let three = vm.new_int(3);
    vm.set_item(dict, "a", one).unwrap();
    vm.set_item(dict, "b", two).unwrap();
    vm.set_item(dict, "a", three).unwrap();
    let entries = vm.entries(dict);
    assert_eq!(entries.len(), 2);
    assert_eq!((entries[0].name.as_str(), entries[0].value), ("a", three));
    assert_eq!((entries[1].name.as_str(), entries[1].value), ("b", two));
    assert_eq!(vm.del_item(dict, "a"), Ok(()));
    assert_eq!(vm.del_item(dict, "a"), Err(Error::KeyMissing));
    assert_eq!(vm.get_item(dict, "b"), Ok(two));
}

#[test]
fn sequence_equals_the_collected_lazy_iteration() {
    let mut vm = Vm::new();
    let items = ints(&mut vm, &[1, 2, 3]);
    let list = vm.new_list(items.clone());
    let eager = ArgSequence::<i64>::try_from_object(&mut vm, list).unwrap();
    assert_eq!(eager.as_slice(), &[1, 2, 3]);
    let handle = ArgIterable::<i64>::try_from_object(&mut vm, list).unwrap();
    let it = handle.iter(&mut vm).unwrap();
    let lazy: Vec<i64> = drain(&it, &mut vm).into_iter().map(|r| r.unwrap()).collect();
    assert_eq!(eager.into_vec(), lazy);
}

#[test]
fn sequence_of_an_iterated_object_equals_the_lazy_iteration() {
    let mut vm = Vm::new();
    let slots = Slots { iter: Some(IterSlot::Elements), ..Slots::empty() };
    let class = vm.new_type(type_type(), "Bag", vec![], slots).unwrap();
    let items = ints(&mut vm, &[5, 6]);
    let bag = vm.new_object(class, Payload::Tuple(items.clone()));
    let eager = ArgSequence::<ObjRef>::try_from_object(&mut vm, bag).unwrap();
    let handle = ArgIterable::<ObjRef>::try_from_object(&mut vm, bag).unwrap();
    let it = handle.iter(&mut vm).unwrap();
    let lazy: Vec<ObjRef> = drain(&it, &mut vm).into_iter().map(|r| r.unwrap()).collect();
    assert_eq!(eager.as_slice(), lazy.as_slice());
    assert_eq!(lazy, items);
}

#[test]
fn sequence_of_an_indexed_object_is_read_by_index() {
    let mut vm = Vm::new();
    let class = indexed_type(&mut vm);
    let items = ints(&mut vm, &[5, 6]);
    let indexed = vm.new_object(class, Payload::List(items.clone()));
    let eager = ArgSequence::<ObjRef>::try_from_object(&mut vm, indexed).unwrap();
    assert_eq!(eager.into_vec(), items);
}

#[test]
fn sequence_fails_fast_and_hands_out_nothing() {
    let mut vm = Vm::new();
    let one = vm.new_int(1);
    let text = vm.new_str("x");
    let other = vm.new_str("y");
    let list = vm.new_list(vec![one, text, other]);
    let err = ArgSequence::<i64>::try_from_object(&mut vm, list).err().unwrap();
    assert_eq!(err, Error::NotAnInteger { class: vm.class_of(text) });
    let tuple = vm.new_tuple(vec![]);
    let empty = ArgSequence::<i64>::try_from_object(&mut vm, tuple).unwrap();
    assert!(empty.as_slice().is_empty());
}

#[test]
fn sequence_rejects_an_object_that_is_not_iterable() {
    let mut vm = Vm::new();
    let n = vm.new_int(1);
    let before = vm.len();
    let err = ArgSequence::<ObjRef>::try_from_object(&mut vm, n).err().unwrap();
    assert_eq!(err, Error::NotIterable { class: ObjRef { id: INT_TYPE } });
    assert_eq!(err.kind(), ErrorKind::TypeMismatch);
    assert_eq!(vm.len(), before);
}

#[test]
fn a_reference_outside_the_arena_reads_as_a_plain_object() {
    let mut vm = Vm::new();
    let nowhere = ObjRef { id: 1_000_000 };
    assert_eq!(vm.class_of(nowhere), object_type());
    assert!(vm.object(nowhere).is_none());
    assert_eq!(vm.get_attr(nowhere, "x"), None);
    assert_eq!(
        ArgCallable::try_from_object(&mut vm, nowhere).unwrap_err(),
        Error::NotCallable { class: object_type() }
    );
}

#[test]
fn reading_and_converting_agree_and_leave_the_arena_alone() {
    let mut vm = Vm::new();
    let seven = vm.new_int(7);
    let f = vm.new_function(Routine::Return(seven));
    let dict = vm.new_dict();
    let list = vm.new_list(vec![seven]);
    let before = vm.len();
    assert_eq!(i64::read_from_object(&vm, seven), Ok(7));
    assert_eq!(i64::try_from_object(&mut vm, seven), Ok(7));
    assert_eq!(ObjRef::try_from_object(&mut vm, f), Ok(f));
    assert_eq!(ArgIntoBool::try_from_object(&mut vm, dict), Ok(ArgIntoBool { value: false }));
    let read = ArgCallable::read_from_object(&vm, f).unwrap();
    let bound = ArgCallable::try_from_object(&mut vm, f).unwrap();
    assert_eq!(read.as_object(), bound.as_object());
    assert_eq!(read.resolved_slot(), bound.resolved_slot());
    let mapping = ArgMapping::try_from_object(&mut vm, dict).unwrap();
    assert_eq!(mapping.as_object(), dict);
    let iterable = ArgIterable::<i64>::try_from_object(&mut vm, list).unwrap();
    assert_eq!(iterable.as_object(), list);
    let err = i64::try_from_object(&mut vm, list).unwrap_err();
    assert_eq!(err, Error::NotAnInteger { class: ObjRef { id: LIST_TYPE } });
    assert_eq!(vm.len(), before);
    // A sequence is read in place where it is a list; anything else is
    // iterated, which makes a cursor.
    let items = ArgSequence::<i64>::try_from_object(&mut vm, list).unwrap();
    assert_eq!(items.as_slice(), &[7]);
    assert_eq!(vm.len(), before);
}
