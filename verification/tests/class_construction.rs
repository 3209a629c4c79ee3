use pyprotocol::class::__build_class__;
use pyprotocol::error::{Error, ErrorKind};
use pyprotocol::make::{none, object_type, type_type};
use pyprotocol::object::{Attr, ObjRef, Routine, Slots};
use pyprotocol::vm::Vm;

fn attr(name: &str, value: ObjRef) -> Attr {
    Attr { name: name.to_string(), value }
}

fn names(entries: &[Attr]) -> Vec<String> {
    entries.iter().map(|a| a.name.clone()).collect()
}

#[test]
fn point_is_built_end_to_end() {
    let mut vm = Vm::new();
    let one = vm.new_int(1);
    let two = vm.new_int(2);
    let body = vm.new_function(Routine::Body {
        stores: vec![attr("x", one), attr("y", two)],
        result: none(),
    });
    let class = __build_class__(body, "Point", vec![], vec![], &mut vm).unwrap();
    assert_eq!(vm.name_of(class), "Point");
    assert_eq!(vm.class_of(class), type_type());
    assert!(vm.is_type(class));
    assert!(vm.is_subclass(class, object_type()));
    assert!(vm.is_subclass(class, class));
    assert_eq!(names(&vm.attrs(class)), vec!["x".to_string(), "y".to_string()]);
    assert_eq!(vm.get_attr(class, "x"), Some(one));
    assert_eq!(vm.get_attr(class, "y"), Some(two));
    assert_eq!(vm.get_attr(class, ".type_params"), None);
}

#[test]
fn qualified_name_gives_its_last_segment() {
    let mut vm = Vm::new();
    let body = vm.new_function(Routine::Body { stores: vec![], result: none() });
    let class = __build_class__(body, "outer.inner.Leaf", vec![], vec![], &mut vm).unwrap();
    assert_eq!(vm.name_of(class), "Leaf");
}

#[test]
fn metaclass_of_the_most_derived_base_is_selected() {
    let mut vm = Vm::new();
    let t1 = vm.new_type(type_type(), "T1", vec![type_type()], Slots::empty()).unwrap();
    let t2 = vm.new_type(type_type(), "T2", vec![t1], Slots::empty()).unwrap();
    let b1 = vm.new_type(t1, "B1", vec![], Slots::empty()).unwrap();
    let b2 = vm.new_type(t2, "B2", vec![], Slots::empty()).unwrap();
    let body = vm.new_function(Routine::Body { stores: vec![], result: none() });
    let class = __build_class__(body, "C", vec![b1, b2], vec![], &mut vm).unwrap();
    assert_eq!(vm.class_of(class), t2);
    assert!(vm.is_subclass(class, b1));
    assert!(vm.is_subclass(class, b2));
}

#[test]
fn unrelated_metaclasses_are_in_conflict() {
    let mut vm = Vm::new();
    let t1 = vm.new_type(type_type(), "T1", vec![type_type()], Slots::empty()).unwrap();
    let t2 = vm.new_type(type_type(), "T2", vec![type_type()], Slots::empty()).unwrap();
    let b1 = vm.new_type(t1, "B1", vec![], Slots::empty()).unwrap();
    let b2 = vm.new_type(t2, "B2", vec![], Slots::empty()).unwrap();
    let body = vm.new_function(Routine::Body { stores: vec![], result: none() });
    let err = __build_class__(body, "C", vec![b1, b2], vec![], &mut vm).unwrap_err();
    assert_eq!(err, Error::MetaclassConflict);
    assert_eq!(err.kind(), ErrorKind::MetaclassConflict);
    assert_eq!(
        vm.message(&err),
        "the metaclass of a derived class must be a subclass of the metaclasses of all its bases"
    );
}

#[test]
fn explicit_metaclass_is_the_starting_candidate() {
    let mut vm = Vm::new();
    let meta = vm.new_type(type_type(), "Meta", vec![type_type()], Slots::empty()).unwrap();
    let body = vm.new_function(Routine::Body { stores: vec![], result: none() });
    let class =
        __build_class__(body, "C", vec![], vec![attr("metaclass", meta)], &mut vm).unwrap();
    assert_eq!(vm.class_of(class), meta);
}

#[test]
fn class_cell_set_by_construction_passes() {
    let mut vm = Vm::new();
    let cell = vm.new_cell(None);
    let body = vm.new_function(Routine::Body {
        stores: vec![attr("__classcell__", cell)],
        result: cell,
    });
    let class = __build_class__(body, "C", vec![], vec![], &mut vm).unwrap();
    assert_eq!(vm.cell_value(cell), Some(Some(class)));
    assert_eq!(vm.get_attr(class, "__classcell__"), None);
}

#[test]
fn class_cell_with_another_object_is_a_type_mismatch() {
    let mut vm = Vm::new();
    let other = vm.new_int(7);
    let cell = vm.new_cell(Some(other));
    let body = vm.new_function(Routine::Body { stores: vec![], result: cell });
    let err = __build_class__(body, "C", vec![], vec![], &mut vm).unwrap_err();
    assert_eq!(err.kind(), ErrorKind::TypeMismatch);
    match err {
        Error::ClassCellMismatch { found, meta, .. } => {
            assert_eq!(found, other);
            assert_eq!(meta, Some(type_type()));
        }
        _ => panic!("another error: {:?}", err),
    }
}

#[test]
fn empty_class_cell_is_a_runtime_error() {
    let mut vm = Vm::new();
    let cell = vm.new_cell(None);
    let body = vm.new_function(Routine::Body { stores: vec![], result: cell });
    let err = __build_class__(body, "C", vec![], vec![], &mut vm).unwrap_err();
    assert_eq!(err.kind(), ErrorKind::RuntimeError);
    assert!(matches!(err, Error::ClassCellEmpty { .. }));
    assert_eq!(
        vm.message(&err),
        "class not set defining 'type' as <class 'C'>: was the class cell propagated to type construction?"
    );
}

#[test]
fn body_without_a_cell_is_not_checked() {
    let mut vm = Vm::new();
    let body = vm.new_function(Routine::Body { stores: vec![], result: none() });
    assert!(__build_class__(body, "C", vec![], vec![], &mut vm).is_ok());
}

#[test]
fn mro_entries_replace_a_base_and_record_the_original() {
    let mut vm = Vm::new();
    let real = vm.new_type(type_type(), "Real", vec![], Slots::empty()).unwrap();
    let replacement = vm.new_tuple(vec![real]);
    let hook = vm.new_function(Routine::Return(replacement));
    let alias_type = vm.new_type(type_type(), "Alias", vec![], Slots::empty()).unwrap();
    vm.set_attr(alias_type, "__mro_entries__", hook);
    let alias = vm.new_object(alias_type, pyprotocol::object::Payload::Instance);
    let body = vm.new_function(Routine::Body { stores: vec![], result: none() });
    let class = __build_class__(body, "C", vec![alias], vec![], &mut vm).unwrap();
    assert!(vm.is_subclass(class, real));
    let orig = vm.get_attr(class, "__orig_bases__").unwrap();
    assert_eq!(vm.elements(orig), vec![alias]);
}

#[test]
fn mro_entries_must_return_a_tuple() {
    let mut vm = Vm::new();
    let seven = vm.new_int(7);
    let hook = vm.new_function(Routine::Return(seven));
    let alias_type = vm.new_type(type_type(), "Alias", vec![], Slots::empty()).unwrap();
    vm.set_attr(alias_type, "__mro_entries__", hook);
    let alias = vm.new_object(alias_type, pyprotocol::object::Payload::Instance);
    let body = vm.new_function(Routine::Body { stores: vec![], result: none() });
    let err = __build_class__(body, "C", vec![alias], vec![], &mut vm).unwrap_err();
    assert_eq!(err, Error::MroEntriesNotTuple);
    assert_eq!(vm.message(&err), "__mro_entries__ must return a tuple");
}

#[test]
fn prepare_must_return_a_mapping() {
    let mut vm = Vm::new();
    let seven = vm.new_int(7);
    let prepare = vm.new_function(Routine::Return(seven));
    let meta = vm.new_type(type_type(), "Meta", vec![type_type()], Slots::empty()).unwrap();
    vm.set_attr(meta, "__prepare__", prepare);
    let body = vm.new_function(Routine::Body { stores: vec![], result: none() });
    let err =
        __build_class__(body, "C", vec![], vec![attr("metaclass", meta)], &mut vm).unwrap_err();
    assert_eq!(err.kind(), ErrorKind::TypeMismatch);
    assert_eq!(
        vm.message(&err),
        "Meta.__prepare__() must return a mapping, not <class 'int'>"
    );
}

#[test]
fn prepared_namespace_is_used_by_the_body() {
    let mut vm = Vm::new();
    let ns = vm.new_dict();
    let zero = vm.new_int(0);
    vm.set_item(ns, "preset", zero).unwrap();
    let prepare = vm.new_function(Routine::Return(ns));
    let meta = vm.new_type(type_type(), "Meta", vec![type_type()], Slots::empty()).unwrap();
    vm.set_attr(meta, "__prepare__", prepare);
    let one = vm.new_int(1);
    let body = vm.new_function(Routine::Body { stores: vec![attr("x", one)], result: none() });
    let class =
        __build_class__(body, "C", vec![], vec![attr("metaclass", meta)], &mut vm).unwrap();
    assert_eq!(names(&vm.attrs(class)), vec!["preset".to_string(), "x".to_string()]);
}

#[test]
fn type_params_pass_through_the_namespace_and_end_on_the_class() {
    let mut vm = Vm::new();
    let t = vm.new_str("T");
    let params = vm.new_tuple(vec![t]);
    let body = vm.new_function(Routine::Body { stores: vec![], result: none() });
    vm.set_attr(body, "__type_params__", params);
    let class = __build_class__(body, "Box", vec![], vec![], &mut vm).unwrap();
    assert_eq!(vm.get_attr(class, "__type_params__"), Some(params));
    assert_eq!(vm.get_attr(class, "__parameters__"), Some(params));
    assert_eq!(vm.get_attr(class, ".type_params"), None);
}

#[test]
fn failing_body_ends_the_construction() {
    let mut vm = Vm::new();
    let text = vm.new_str("boom");
    let raised = Error::Raised { kind: ErrorKind::ValueError, value: text };
    let body = vm.new_function(Routine::Raise(raised));
    let before = vm.len();
    let err = __build_class__(body, "C", vec![], vec![], &mut vm).unwrap_err();
    assert_eq!(err, raised);
    assert_eq!(vm.message(&err), "boom");
    assert!(vm.len() > before);
}
