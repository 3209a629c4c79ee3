use pyprotocol::builtins::{
    all, any, callable, delattr, exit, getattr, hasattr, id, isinstance, issubclass, iter, len,
    max, min, min_or_max, next, reversed, round, setattr, sum, RoundArgs, SumArgs,
};
use pyprotocol::error::{Error, ErrorKind, Extremum};
use pyprotocol::heap::{INT_TYPE, STR_TYPE};
use pyprotocol::iteration::PyIterReturn;
use pyprotocol::make::{bool_object, none, object_type, type_type};
use pyprotocol::object::{Attr, FuncArgs, ObjRef, Payload, Routine, SequenceMethods, Slots};
use pyprotocol::protocol::{ArgIntoBool, ArgIterable, TryFromObject};
use pyprotocol::roots::{BYTEARRAY_TYPE, BYTES_TYPE};
use pyprotocol::vm::Vm;

fn ints(vm: &mut Vm, values: &[i64]) -> Vec<ObjRef> {
    values.iter().map(|v| vm.new_int(*v)).collect()
}

fn truths(vm: &mut Vm, values: &[i64]) -> ArgIterable<ArgIntoBool> {
    let items = ints(vm, values);
    let list = vm.new_list(items);
    ArgIterable::<ArgIntoBool>::try_from_object(vm, list).unwrap()
}

fn positional(args: Vec<ObjRef>) -> FuncArgs {
    FuncArgs { args, kwargs: vec![] }
}

fn kw(name: &str, value: ObjRef) -> Attr {
    Attr { name: name.to_string(), value }
}

#[test]
fn all_is_true_until_a_false_item() {
    let mut vm = Vm::new();
    let yes = truths(&mut vm, &[1, 2, 3]);
    assert_eq!(all(yes, &mut vm), Ok(true));
    let no = truths(&mut vm, &[1, 0, 3]);
    assert_eq!(all(no, &mut vm), Ok(false));
    let empty = truths(&mut vm, &[]);
    assert_eq!(all(empty, &mut vm), Ok(true));
}

#[test]
fn any_is_false_until_a_true_item() {
    let mut vm = Vm::new();
    let yes = truths(&mut vm, &[0, 0, 3]);
    assert_eq!(any(yes, &mut vm), Ok(true));
    let no = truths(&mut vm, &[0, 0]);
    assert_eq!(any(no, &mut vm), Ok(false));
    let empty = truths(&mut vm, &[]);
    assert_eq!(any(empty, &mut vm), Ok(false));
}

#[test]
fn any_stops_pulling_at_the_first_true_item() {
    let mut vm = Vm::new();
    let items = ints(&mut vm, &[0, 1, 0]);
    let list = vm.new_list(items.clone());
    let cursor = iter(list, None, &mut vm).unwrap();
    let handle = ArgIterable::<ArgIntoBool>::try_from_object(&mut vm, cursor).unwrap();
    assert_eq!(any(handle, &mut vm), Ok(true));
    assert_eq!(next(cursor, None, &mut vm), Ok(PyIterReturn::Return(items[2])));
}

#[test]
fn sum_adds_the_items_to_the_start() {
    let mut vm = Vm::new();
    let items = ints(&mut vm, &[1, 2, 3]);
    let list = vm.new_list(items);
    let iterable = ArgIterable::<ObjRef>::try_from_object(&mut vm, list).unwrap();
    let total = sum(SumArgs { iterable, start: None }, &mut vm).unwrap();
    assert_eq!(vm.int_value(total), Some(6));
    let hundred = vm.new_int(100);
    let iterable = ArgIterable::<ObjRef>::try_from_object(&mut vm, list).unwrap();
    let total = sum(SumArgs { iterable, start: Some(hundred) }, &mut vm).unwrap();
    assert_eq!(vm.int_value(total), Some(106));
    let nothing = vm.new_list(vec![]);
    let iterable = ArgIterable::<ObjRef>::try_from_object(&mut vm, nothing).unwrap();
    let total = sum(SumArgs { iterable, start: None }, &mut vm).unwrap();
    assert_eq!(vm.int_value(total), Some(0));
}

#[test]
fn sum_counts_truth_values_as_integers() {
    let mut vm = Vm::new();
    let list = vm.new_list(vec![bool_object(true), bool_object(true), bool_object(false)]);
    let iterable = ArgIterable::<ObjRef>::try_from_object(&mut vm, list).unwrap();
    let total = sum(SumArgs { iterable, start: None }, &mut vm).unwrap();
    assert_eq!(vm.int_value(total), Some(2));
}

#[test]
fn sum_refuses_text_and_overflow() {
    let mut vm = Vm::new();
    let list = vm.new_list(vec![]);
    let text = vm.new_str("");
    let iterable = ArgIterable::<ObjRef>::try_from_object(&mut vm, list).unwrap();
    let err = sum(SumArgs { iterable, start: Some(text) }, &mut vm).unwrap_err();
    assert_eq!(err, Error::SumStrings);
    assert_eq!(vm.message(&err), "sum() can't sum strings [use ''.join(seq) instead]");

    let word = vm.new_str("w");
    let mixed = vm.new_list(vec![word]);
    let iterable = ArgIterable::<ObjRef>::try_from_object(&mut vm, mixed).unwrap();
    let err = sum(SumArgs { iterable, start: None }, &mut vm).unwrap_err();
    assert_eq!(
        err,
        Error::UnsupportedSum { left: ObjRef { id: INT_TYPE }, right: ObjRef { id: STR_TYPE } }
    );
    assert_eq!(vm.message(&err), "unsupported operand type(s) for +: 'int' and 'str'");

    let big = ints(&mut vm, &[i64::MAX, 1]);
    let list = vm.new_list(big);
    let iterable = ArgIterable::<ObjRef>::try_from_object(&mut vm, list).unwrap();
    let err = sum(SumArgs { iterable, start: None }, &mut vm).unwrap_err();
    assert_eq!(err, Error::IntegerOverflow);
    assert_eq!(err.kind(), ErrorKind::OverflowError);
}

#[test]
fn min_and_max_of_several_arguments() {
    let mut vm = Vm::new();
    let items = ints(&mut vm, &[3, 1, 2, 1]);
    assert_eq!(min(positional(items.clone()), &mut vm), Ok(items[1]));
    assert_eq!(max(positional(items.clone()), &mut vm), Ok(items[0]));
    assert_eq!(min_or_max(positional(items.clone()), &mut vm, Extremum::Min), Ok(items[1]));
}

#[test]
fn min_and_max_of_one_iterable() {
    let mut vm = Vm::new();
    let items = ints(&mut vm, &[3, 9, 2, 9]);
    let list = vm.new_list(items.clone());
    assert_eq!(min(positional(vec![list]), &mut vm), Ok(items[2]));
    assert_eq!(max(positional(vec![list]), &mut vm), Ok(items[1]));
}

#[test]
fn min_with_a_key_compares_the_keys() {
    let mut vm = Vm::new();
    let items = ints(&mut vm, &[3, 1, 2]);
    let zero = vm.new_int(0);
    let flat = vm.new_function(Routine::Return(zero));
    let args = FuncArgs { args: items.clone(), kwargs: vec![kw("key", flat)] };
    assert_eq!(min(args, &mut vm), Ok(items[0]));
    let same = vm.new_function(Routine::Argument(0));
    let args = FuncArgs { args: items.clone(), kwargs: vec![kw("key", same)] };
    assert_eq!(max(args, &mut vm), Ok(items[0]));
    let args = FuncArgs { args: items.clone(), kwargs: vec![kw("key", none())] };
    assert_eq!(min(args, &mut vm), Ok(items[1]));
}

#[test]
fn min_and_max_name_their_errors() {
    let mut vm = Vm::new();
    let err = min(positional(vec![]), &mut vm).unwrap_err();
    assert_eq!(vm.message(&err), "min expected at least 1 argument, got 0");
    let err = max(positional(vec![]), &mut vm).unwrap_err();
    assert_eq!(vm.message(&err), "max expected at least 1 argument, got 0");

    let empty = vm.new_list(vec![]);
    let err = max(positional(vec![empty]), &mut vm).unwrap_err();
    assert_eq!(err, Error::EmptySequence { func: Extremum::Max });
    assert_eq!(err.kind(), ErrorKind::ValueError);
    assert_eq!(vm.message(&err), "max() arg is an empty sequence");

    let fallback = vm.new_int(5);
    let args = FuncArgs { args: vec![empty], kwargs: vec![kw("default", fallback)] };
    assert_eq!(min(args, &mut vm), Ok(fallback));

    let items = ints(&mut vm, &[1, 2]);
    let args = FuncArgs { args: items.clone(), kwargs: vec![kw("default", fallback)] };
    let err = min(args, &mut vm).unwrap_err();
    assert_eq!(
        vm.message(&err),
        "Cannot specify a default for min() with multiple positional arguments"
    );

    let args = FuncArgs { args: items.clone(), kwargs: vec![kw("reverse", fallback)] };
    let err = max(args, &mut vm).unwrap_err();
    assert_eq!(vm.message(&err), "Unexpected keyword argument reverse");

    let text = vm.new_str("a");
    let err = max(positional(vec![items[0], text]), &mut vm).unwrap_err();
    assert_eq!(vm.message(&err), "'>' not supported between instances of 'str' and 'int'");
    let err = min(positional(vec![items[0]]), &mut vm).unwrap_err();
    assert_eq!(vm.message(&err), "'int' object is not iterable");
}

#[test]
fn next_pulls_and_falls_back_to_the_default() {
    let mut vm = Vm::new();
    let items = ints(&mut vm, &[1]);
    let list = vm.new_list(items.clone());
    let cursor = iter(list, None, &mut vm).unwrap();
    let fallback = vm.new_int(9);
    assert_eq!(next(cursor, Some(fallback), &mut vm), Ok(PyIterReturn::Return(items[0])));
    assert_eq!(next(cursor, Some(fallback), &mut vm), Ok(PyIterReturn::Return(fallback)));
    assert_eq!(next(cursor, None, &mut vm), Ok(PyIterReturn::StopIteration));
    let err = next(list, None, &mut vm).unwrap_err();
    assert_eq!(vm.message(&err), "list object is not an iterator");
}

#[test]
fn iter_with_a_sentinel_calls_until_it_comes() {
    let mut vm = Vm::new();
    let seven = vm.new_int(7);
    let f = vm.new_function(Routine::Return(seven));
    let other_seven = vm.new_int(7);
    let at_once = iter(f, Some(other_seven), &mut vm).unwrap();
    assert_eq!(vm.name_of(vm.class_of(at_once)), "callable_iterator");
    assert_eq!(next(at_once, None, &mut vm), Ok(PyIterReturn::StopIteration));
    assert_eq!(next(at_once, None, &mut vm), Ok(PyIterReturn::StopIteration));

    let eight = vm.new_int(8);
    let endless = iter(f, Some(eight), &mut vm).unwrap();
    assert_eq!(next(endless, None, &mut vm), Ok(PyIterReturn::Return(seven)));
    assert_eq!(next(endless, None, &mut vm), Ok(PyIterReturn::Return(seven)));

    let text = vm.new_str("bad");
    let raised = Error::Raised { kind: ErrorKind::ValueError, value: text };
    let failing = vm.new_function(Routine::Raise(raised));
    let broken = iter(failing, Some(eight), &mut vm).unwrap();
    assert_eq!(next(broken, None, &mut vm), Err(raised));

    let err = iter(seven, Some(eight), &mut vm).unwrap_err();
    assert_eq!(vm.message(&err), "'int' object is not callable");
    let err = iter(seven, None, &mut vm).unwrap_err();
    assert_eq!(vm.message(&err), "'int' object is not iterable");
}

#[test]
fn reversed_reads_a_sequence_from_the_end() {
    let mut vm = Vm::new();
    let items = ints(&mut vm, &[1, 2, 3]);
    let list = vm.new_list(items.clone());
    let err = reversed(list, &mut vm).unwrap_err();
    assert_eq!(err, Error::ReversedNotSequence);
    assert_eq!(vm.message(&err), "argument to reversed() must be a sequence");

    let slots = Slots {
        as_sequence: Some(SequenceMethods { length: true, item: true }),
        ..Slots::empty()
    };
    let class = vm.new_type(type_type(), "Row", vec![], slots).unwrap();
    let getter = vm.new_function(Routine::Return(none()));
    vm.set_attr(class, "__getitem__", getter);
    let row = vm.new_object(class, Payload::List(items.clone()));
    let cursor = reversed(row, &mut vm).unwrap();
    assert_eq!(vm.name_of(vm.class_of(cursor)), "reversed");
    assert_eq!(next(cursor, None, &mut vm), Ok(PyIterReturn::Return(items[2])));
    assert_eq!(next(cursor, None, &mut vm), Ok(PyIterReturn::Return(items[1])));
    assert_eq!(next(cursor, None, &mut vm), Ok(PyIterReturn::Return(items[0])));
    assert_eq!(next(cursor, None, &mut vm), Ok(PyIterReturn::StopIteration));
}

#[test]
fn reversed_prefers_the_method_of_the_object() {
    let mut vm = Vm::new();
    let class = vm.new_type(type_type(), "Own", vec![], Slots::empty()).unwrap();
    let method = vm.new_function(Routine::Argument(0));
    vm.set_attr(class, "__reversed__", method);
    let obj = vm.new_object(class, Payload::Instance);
    assert_eq!(reversed(obj, &mut vm), Ok(obj));
}

#[test]
fn round_goes_through_the_method_of_the_number() {
    let mut vm = Vm::new();
    let class = vm.new_type(type_type(), "Amount", vec![], Slots::empty()).unwrap();
    let digits_back = vm.new_function(Routine::Argument(1));
    vm.set_attr(class, "__round__", digits_back);
    let amount = vm.new_object(class, Payload::Instance);
    let two = vm.new_int(2);
    assert_eq!(round(RoundArgs { number: amount, ndigits: Some(two) }, &mut vm), Ok(two));
    assert_eq!(
        round(RoundArgs { number: amount, ndigits: None }, &mut vm),
        Err(Error::MissingArgument { index: 1 })
    );
    assert_eq!(
        round(RoundArgs { number: amount, ndigits: Some(none()) }, &mut vm),
        Err(Error::MissingArgument { index: 1 })
    );
    let text = vm.new_str("2");
    let err = round(RoundArgs { number: amount, ndigits: Some(text) }, &mut vm).unwrap_err();
    assert_eq!(vm.message(&err), "'str' object cannot be interpreted as an integer");
    let err = round(RoundArgs { number: two, ndigits: None }, &mut vm).unwrap_err();
    assert_eq!(vm.message(&err), "type int doesn't define __round__");
}

#[test]
fn attributes_are_read_written_and_removed() {
    let mut vm = Vm::new();
    let class = vm.new_type(type_type(), "Thing", vec![], Slots::empty()).unwrap();
    let obj = vm.new_object(class, Payload::Instance);
    let name = vm.new_str("size");
    let one = vm.new_int(1);
    let two = vm.new_int(2);
    assert_eq!(hasattr(obj, name, &vm), Ok(false));
    assert_eq!(getattr(obj, name, Some(two), &vm), Ok(two));
    let err = getattr(obj, name, None, &vm).unwrap_err();
    assert_eq!(err.kind(), ErrorKind::AttributeError);
    assert_eq!(vm.message(&err), "'Thing' object has no attribute 'size'");
    assert_eq!(setattr(obj, name, one, &mut vm), Ok(()));
    assert_eq!(hasattr(obj, name, &vm), Ok(true));
    assert_eq!(getattr(obj, name, None, &vm), Ok(one));
    assert_eq!(delattr(obj, name, &mut vm), Ok(()));
    assert_eq!(hasattr(obj, name, &vm), Ok(false));
    let err = delattr(obj, name, &mut vm).unwrap_err();
    assert_eq!(vm.message(&err), "'Thing' object has no attribute 'size'");
    let err = getattr(obj, one, None, &vm).unwrap_err();
    assert_eq!(vm.message(&err), "attribute name must be string, not 'int'");
    assert!(hasattr(obj, one, &vm).is_err());
    assert!(setattr(obj, one, one, &mut vm).is_err());
    assert!(delattr(obj, one, &mut vm).is_err());
}

#[test]
fn attributes_of_the_type_show_on_its_objects() {
    let mut vm = Vm::new();
    let base = vm.new_type(type_type(), "Base", vec![], Slots::empty()).unwrap();
    let derived = vm.new_type(type_type(), "Derived", vec![base], Slots::empty()).unwrap();
    let obj = vm.new_object(derived, Payload::Instance);
    let inherited = vm.new_int(1);
    let own = vm.new_int(2);
    vm.set_attr(base, "n", inherited);
    assert_eq!(vm.get_attr(obj, "n"), Some(inherited));
    assert_eq!(vm.get_attr(derived, "n"), Some(inherited));
    vm.set_attr(obj, "n", own);
    assert_eq!(vm.get_attr(obj, "n"), Some(own));
    assert_eq!(vm.get_attr(derived, "n"), Some(inherited));
    assert!(vm.del_attr(obj, "n"));
    assert!(!vm.del_attr(obj, "n"));
}

#[test]
fn objects_answer_questions_about_themselves() {
    let mut vm = Vm::new();
    let n = vm.new_int(1);
    let f = vm.new_function(Routine::Return(n));
    assert!(callable(f, &vm));
    assert!(callable(type_type(), &vm));
    assert!(!callable(n, &vm));
    assert_eq!(isinstance(n, ObjRef { id: INT_TYPE }, &vm), Ok(true));
    assert_eq!(isinstance(n, object_type(), &vm), Ok(true));
    assert_eq!(isinstance(n, type_type(), &vm), Ok(false));
    assert_eq!(isinstance(bool_object(true), ObjRef { id: INT_TYPE }, &vm), Ok(true));
    let err = isinstance(n, n, &vm).unwrap_err();
    assert_eq!(
        vm.message(&err),
        "isinstance() arg 2 must be a type, a tuple of types, or a union"
    );
    assert_eq!(issubclass(ObjRef { id: INT_TYPE }, object_type(), &vm), Ok(true));
    assert_eq!(issubclass(object_type(), ObjRef { id: INT_TYPE }, &vm), Ok(false));
    let err = issubclass(n, object_type(), &vm).unwrap_err();
    assert_eq!(vm.message(&err), "issubclass() arg 1 must be a class");
    let err = issubclass(object_type(), n, &vm).unwrap_err();
    assert_eq!(
        vm.message(&err),
        "issubclass() arg 2 must be a class, a tuple of classes, or a union"
    );
    assert_eq!(id(n), n.id);
    assert_ne!(id(n), id(f));
}

#[test]
fn len_counts_items_and_entries() {
    let mut vm = Vm::new();
    let items = ints(&mut vm, &[1, 2, 3]);
    let list = vm.new_list(items);
    let dict = vm.new_dict();
    let one = vm.new_int(1);
    vm.set_item(dict, "a", one).unwrap();
    assert_eq!(len(list, &vm), Ok(3));
    assert_eq!(len(dict, &vm), Ok(1));
    let err = len(one, &vm).unwrap_err();
    assert_eq!(vm.message(&err), "object of type 'int' has no len()");
}

#[test]
fn exit_is_always_the_exit_error() {
    let mut vm = Vm::new();
    let three = vm.new_int(3);
    let err = exit(Some(three), &mut vm).unwrap_err();
    assert_eq!(err, Error::Exit { code: three });
    assert_eq!(err.kind(), ErrorKind::SystemExit);
    assert_eq!(vm.message(&err), "3");
    match exit(None, &mut vm).unwrap_err() {
        Error::Exit { code } => assert_eq!(vm.int_value(code), Some(0)),
        other => panic!("another error: {:?}", other),
    }
}

#[test]
fn sum_refuses_bytes_and_bytearray_before_it_iterates() {
    let mut vm = Vm::new();
    let sink = vm.new_list(vec![]);
    let one = vm.new_int(1);
    // An iterable whose item access is recorded: a refused start must leave
    // the record empty.
    let getitem = vm.new_function(Routine::Record(sink));
    let class = vm.new_type(type_type(), "Recorded", vec![], Slots::empty()).unwrap();
    vm.set_attr(class, "__getitem__", getitem);
    let recorded = vm.new_object(class, Payload::Instance);
    let filled = vm.new_list(vec![one]);
    for source in [recorded, filled] {
        let before = vm.len();
        let start = vm.new_object(ObjRef { id: BYTES_TYPE }, Payload::Instance);
        let iterable = ArgIterable::<ObjRef>::try_from_object(&mut vm, source).unwrap();
        let err = sum(SumArgs { iterable, start: Some(start) }, &mut vm).unwrap_err();
        assert_eq!(err, Error::SumBytes);
        assert_eq!(err.kind(), ErrorKind::TypeMismatch);
        assert_eq!(vm.message(&err), "sum() can't sum bytes [use b''.join(seq) instead]");
        let start = vm.new_object(ObjRef { id: BYTEARRAY_TYPE }, Payload::Instance);
        let iterable = ArgIterable::<ObjRef>::try_from_object(&mut vm, source).unwrap();
        let err = sum(SumArgs { iterable, start: Some(start) }, &mut vm).unwrap_err();
        assert_eq!(err, Error::SumByteArray);
        assert_eq!(vm.message(&err), "sum() can't sum bytearray [use b''.join(seq) instead]");
        // Nothing but the two start objects was made: no cursor, no sum.
        assert_eq!(vm.len(), before + 2);
        assert_eq!(vm.elements(sink), vec![]);
    }
    // A class that derives from bytes is refused as bytes are.
    let derived = vm.new_type(type_type(), "Blob", vec![ObjRef { id: BYTES_TYPE }], Slots::empty())
        .unwrap();
    let start = vm.new_object(derived, Payload::Instance);
    let iterable = ArgIterable::<ObjRef>::try_from_object(&mut vm, filled).unwrap();
    let err = sum(SumArgs { iterable, start: Some(start) }, &mut vm).unwrap_err();
    assert_eq!(err, Error::SumBytes);
}
