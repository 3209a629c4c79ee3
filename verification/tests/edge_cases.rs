use pyprotocol::builtins::next;
use pyprotocol::class::__build_class__;
use pyprotocol::error::{Error, ErrorKind};
use pyprotocol::heap::{CALLABLE_ITERATOR_TYPE, INT_TYPE, LIST_TYPE};
use pyprotocol::iteration::PyIterReturn;
use pyprotocol::make::{none, type_type};
use pyprotocol::object::{Attr, CallSlot, FuncArgs, ObjRef, Payload, Routine, Slots};
use pyprotocol::protocol::PyIterIter;
use pyprotocol::vm::Vm;

#[test]
fn a_body_must_hand_back_a_cell_or_none() {
    let mut vm = Vm::new();
    let seven = vm.new_int(7);
    let body = vm.new_function(Routine::Body { stores: vec![], result: seven });
    let err = __build_class__(body, "C", vec![], vec![], &mut vm).unwrap_err();
    assert_eq!(err, Error::NotACell { class: ObjRef { id: INT_TYPE } });
    assert_eq!(err.kind(), ErrorKind::TypeMismatch);
    assert_eq!(vm.message(&err), "expected type 'cell', not 'int'");
}

#[test]
fn the_namespace_entry_for_the_class_cell_must_be_a_cell() {
    let mut vm = Vm::new();
    let seven = vm.new_int(7);
    let body = vm.new_function(Routine::Body {
        stores: vec![Attr { name: "__classcell__".to_string(), value: seven }],
        result: none(),
    });
    let err = __build_class__(body, "C", vec![], vec![], &mut vm).unwrap_err();
    assert_eq!(err, Error::NotACell { class: ObjRef { id: INT_TYPE } });
}

#[test]
fn a_mismatched_class_cell_names_both_objects() {
    let mut vm = Vm::new();
    let other = vm.new_int(7);
    let cell = vm.new_cell(Some(other));
    let body = vm.new_function(Routine::Body { stores: vec![], result: cell });
    let err = __build_class__(body, "a.C", vec![], vec![], &mut vm).unwrap_err();
    assert_eq!(vm.message(&err), "class cell set to 7 defining 'type' as <class 'C'>");
}

#[test]
fn a_metaclass_that_is_no_type_is_called_as_it_is() {
    let mut vm = Vm::new();
    let made = vm.new_int(42);
    let factory = vm.new_function(Routine::Return(made));
    let body = vm.new_function(Routine::Body { stores: vec![], result: none() });
    let kwargs = vec![Attr { name: "metaclass".to_string(), value: factory }];
    assert_eq!(__build_class__(body, "C", vec![], kwargs, &mut vm), Ok(made));

    let cell = vm.new_cell(None);
    let body = vm.new_function(Routine::Body { stores: vec![], result: cell });
    let kwargs = vec![Attr { name: "metaclass".to_string(), value: factory }];
    let err = __build_class__(body, "C", vec![], kwargs, &mut vm).unwrap_err();
    assert_eq!(err, Error::ClassCellEmpty { meta: None, class: made });
    assert_eq!(
        vm.message(&err),
        "class not set defining '<metaclass>' as 42: was the class cell propagated to type construction?"
    );

    let kwargs = vec![Attr { name: "metaclass".to_string(), value: made }];
    let body = vm.new_function(Routine::Body { stores: vec![], result: none() });
    let err = __build_class__(body, "C", vec![], kwargs, &mut vm).unwrap_err();
    assert_eq!(vm.message(&err), "'int' object is not callable");
}

#[test]
fn keyword_arguments_reach_the_hook_and_the_metaclass() {
    let mut vm = Vm::new();
    let seen = vm.new_list(vec![]);
    let prepare = vm.new_function(Routine::Record(seen));
    let meta = vm.new_type(type_type(), "Meta", vec![type_type()], Slots::empty()).unwrap();
    vm.set_attr(meta, "__prepare__", prepare);
    let body = vm.new_function(Routine::Body { stores: vec![], result: none() });
    let flag = vm.new_int(1);
    let kwargs = vec![
        Attr { name: "flag".to_string(), value: flag },
        Attr { name: "metaclass".to_string(), value: meta },
    ];
    let err = __build_class__(body, "C", vec![], kwargs, &mut vm).unwrap_err();
    assert_eq!(vm.message(&err), "Meta.__prepare__() must return a mapping, not <class 'NoneType'>");
    let given = vm.elements(seen);
    assert_eq!(given.len(), 2);
    assert_eq!(vm.str_value(given[0]).unwrap(), "C");
    assert_eq!(vm.elements(given[1]), Vec::<ObjRef>::new());
}

#[test]
fn the_body_of_a_failing_construction_has_left_its_marks() {
    let mut vm = Vm::new();
    let ns = vm.new_dict();
    let prepare = vm.new_function(Routine::Return(ns));
    let meta = vm.new_type(type_type(), "Meta", vec![type_type()], Slots::empty()).unwrap();
    vm.set_attr(meta, "__prepare__", prepare);
    let one = vm.new_int(1);
    let cell = vm.new_cell(None);
    let body = vm.new_function(Routine::Body {
        stores: vec![Attr { name: "x".to_string(), value: one }],
        result: cell,
    });
    let kwargs = vec![Attr { name: "metaclass".to_string(), value: meta }];
    let err = __build_class__(body, "C", vec![], kwargs, &mut vm).unwrap_err();
    assert!(matches!(err, Error::ClassCellEmpty { .. }));
    assert_eq!(vm.get_item(ns, "x"), Ok(one));
}

#[test]
fn items_are_read_by_index_within_range_only() {
    let mut vm = Vm::new();
    let one = vm.new_int(1);
    let list = vm.new_list(vec![one]);
    assert_eq!(vm.item(list, 0), Ok(one));
    let err = vm.item(list, 1).unwrap_err();
    assert_eq!(err, Error::IndexOutOfRange);
    assert_eq!(err.kind(), ErrorKind::IndexError);
    assert_eq!(vm.message(&err), "index out of range");
    assert_eq!(vm.item(one, 0), Err(Error::NotSequence { class: ObjRef { id: INT_TYPE } }));
}

#[test]
fn pulling_an_object_that_is_no_iterator_fails_at_every_pull() {
    let mut vm = Vm::new();
    let list = vm.new_list(vec![]);
    let items = PyIterIter::<ObjRef>::new(list);
    let err = Error::NotAnIterator { class: ObjRef { id: LIST_TYPE } };
    assert_eq!(items.next(&mut vm), Some(Err(err)));
    assert_eq!(items.next(&mut vm), Some(Err(err)));
    assert_eq!(vm.message(&err), "'list' object is not an iterator");
}

#[test]
fn a_cursor_that_calls_stops_before_its_count_overflows() {
    let mut vm = Vm::new();
    let seven = vm.new_int(7);
    let eight = vm.new_int(8);
    let f = vm.new_function(Routine::Return(seven));
    let nearly = vm.new_object(
        ObjRef { id: CALLABLE_ITERATOR_TYPE },
        Payload::SentinelIter {
            callable: f,
            call: CallSlot::Function,
            sentinel: eight,
            pulls: usize::MAX - 1,
            done: false,
        },
    );
    assert_eq!(next(nearly, None, &mut vm), Ok(PyIterReturn::Return(seven)));
    let err = next(nearly, None, &mut vm).unwrap_err();
    assert_eq!(err, Error::CursorOverflow);
    assert_eq!(err.kind(), ErrorKind::OverflowError);
    assert_eq!(vm.message(&err), "iter index too large");
}

#[test]
fn an_exhausted_cursor_stays_exhausted_when_its_source_grows() {
    let mut vm = Vm::new();
    let one = vm.new_int(1);
    let two = vm.new_int(2);
    let list = vm.new_list(vec![one]);
    let grow = vm.new_function(Routine::Record(list));
    let cursor = pyprotocol::builtins::iter(list, None, &mut vm).unwrap();
    assert_eq!(next(cursor, None, &mut vm), Ok(PyIterReturn::Return(one)));
    assert_eq!(next(cursor, None, &mut vm), Ok(PyIterReturn::StopIteration));
    let args = FuncArgs { args: vec![two], kwargs: vec![] };
    assert_eq!(vm.call(grow, &args), Ok(none()));
    assert_eq!(vm.elements(list), vec![one, two]);
    assert_eq!(next(cursor, None, &mut vm), Ok(PyIterReturn::StopIteration));
    let fresh = pyprotocol::builtins::iter(list, None, &mut vm).unwrap();
    assert_eq!(next(fresh, None, &mut vm), Ok(PyIterReturn::Return(one)));
    assert_eq!(next(fresh, None, &mut vm), Ok(PyIterReturn::Return(two)));
}

#[test]
fn a_function_without_routine_data_is_not_callable() {
    let mut vm = Vm::new();
    let slots = Slots { call: Some(CallSlot::Function), ..Slots::empty() };
    let class = vm.new_type(type_type(), "Hollow", vec![], slots).unwrap();
    let obj = vm.new_object(class, Payload::Instance);
    let args = FuncArgs { args: vec![], kwargs: vec![] };
    assert_eq!(vm.call(obj, &args), Err(Error::NotCallable { class }));
}
