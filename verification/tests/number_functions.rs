use pyprotocol::error::{Error, ErrorKind};
use pyprotocol::make::{bool_object, none, type_type};
use pyprotocol::numbers::{abs, aiter, divmod, floor_divmod};
use pyprotocol::object::{ObjRef, Payload, Routine, Slots};
use pyprotocol::power::{int_power, mod_power, pow, PowArgs};
use pyprotocol::sorting::{sort_order, sorted, SortOptions};
use pyprotocol::vm::Vm;

fn number(vm: &mut Vm, v: i64) -> ObjRef {
    vm.new_int(v)
}

fn pair(vm: &Vm, tuple: ObjRef) -> (i64, i64) {
    let items = vm.elements(tuple);
    assert_eq!(items.len(), 2);
    (vm.int_value(items[0]).unwrap(), vm.int_value(items[1]).unwrap())
}

#[test]
fn abs_of_integers() {
    let mut vm = Vm::new();
    for (given, expected) in [(5, 5), (-5, 5), (0, 0), (i64::MAX, i64::MAX), (i64::MIN + 1, i64::MAX)] {
        let x = number(&mut vm, given);
        let r = abs(x, &mut vm).unwrap();
        assert_eq!(vm.int_value(r), Some(expected));
    }
    let r = abs(bool_object(true), &mut vm).unwrap();
    assert_eq!(vm.int_value(r), Some(1));
    let least = number(&mut vm, i64::MIN);
    assert_eq!(abs(least, &mut vm), Err(Error::IntegerOverflow));
    let text = vm.new_str("x");
    let err = abs(text, &mut vm).unwrap_err();
    assert_eq!(vm.message(&err), "bad operand type for abs(): 'str'");
}

#[test]
fn divmod_rounds_down() {
    let mut vm = Vm::new();
    let cases = [
        (7, 2, 3, 1),
        (-7, 2, -4, 1),
        (7, -2, -4, -1),
        (-7, -2, 3, -1),
        (6, 3, 2, 0),
        (-6, 3, -2, 0),
        (6, -3, -2, 0),
        (0, 5, 0, 0),
        (0, -5, 0, 0),
        (1, 5, 0, 1),
        (-1, 5, -1, 4),
        (1, -5, -1, -4),
        (i64::MAX, 1, i64::MAX, 0),
        (i64::MIN, 1, i64::MIN, 0),
        (i64::MAX, -1, -i64::MAX, 0),
        (i64::MIN, i64::MAX, -2, i64::MAX - 1),
        (i64::MAX, i64::MIN, -1, -1),
        (i64::MIN, i64::MIN, 1, 0),
    ];
    for (x, y, q, r) in cases {
        assert_eq!(floor_divmod(x, y), (q as i128, r as i128), "{} by {}", x, y);
        let a = number(&mut vm, x);
        let b = number(&mut vm, y);
        let result = divmod(a, b, &mut vm).unwrap();
        assert_eq!(pair(&vm, result), (q, r), "{} by {}", x, y);
        assert_eq!((q as i128) * (y as i128) + (r as i128), x as i128);
    }
}

#[test]
fn divmod_names_its_errors() {
    let mut vm = Vm::new();
    let one = number(&mut vm, 1);
    let zero = number(&mut vm, 0);
    let err = divmod(one, zero, &mut vm).unwrap_err();
    assert_eq!(err, Error::DivisionByZero);
    assert_eq!(err.kind(), ErrorKind::ZeroDivisionError);
    assert_eq!(vm.message(&err), "integer division or modulo by zero");
    let least = number(&mut vm, i64::MIN);
    let minus = number(&mut vm, -1);
    assert_eq!(divmod(least, minus, &mut vm), Err(Error::IntegerOverflow));
    let text = vm.new_str("x");
    let err = divmod(one, text, &mut vm).unwrap_err();
    assert_eq!(vm.message(&err), "unsupported operand type(s) for divmod(): 'int' and 'str'");
    let err = divmod(none(), zero, &mut vm).unwrap_err();
    assert_eq!(
        vm.message(&err),
        "unsupported operand type(s) for divmod(): 'NoneType' and 'int'"
    );
}

#[test]
fn format_knows_the_empty_format_only() {
    let mut vm = Vm::new();
    let n = number(&mut vm, -3);
    let plain = pyprotocol::numbers::format(n, None, &mut vm).unwrap();
    assert_eq!(vm.str_value(plain).unwrap(), "-3");
    let empty = vm.new_str("");
    let plain = pyprotocol::numbers::format(none(), Some(empty), &mut vm).unwrap();
    assert_eq!(vm.str_value(plain).unwrap(), "None");
    let hex = vm.new_str("x");
    let err = pyprotocol::numbers::format(n, Some(hex), &mut vm).unwrap_err();
    assert_eq!(vm.message(&err), "unsupported format string passed to int.__format__");
    let err = pyprotocol::numbers::format(n, Some(n), &mut vm).unwrap_err();
    assert_eq!(err.kind(), ErrorKind::TypeMismatch);
}

#[test]
fn aiter_goes_through_the_method_of_the_object() {
    let mut vm = Vm::new();
    let class = vm.new_type(type_type(), "Stream", vec![], Slots::empty()).unwrap();
    let method = vm.new_function(Routine::Argument(0));
    vm.set_attr(class, "__aiter__", method);
    let stream = vm.new_object(class, Payload::Instance);
    assert_eq!(aiter(stream, &mut vm), Ok(stream));
    let list = vm.new_list(vec![]);
    let err = aiter(list, &mut vm).unwrap_err();
    assert_eq!(vm.message(&err), "'list' object is not an async iterable");
}

#[test]
fn pow_of_integers() {
    let mut vm = Vm::new();
    let cases: [(i64, i64, Option<i64>); 14] = [
        (2, 10, Some(1024)),
        (2, 0, Some(1)),
        (0, 0, Some(1)),
        (0, 5, Some(0)),
        (1, i64::MAX, Some(1)),
        (-1, i64::MAX, Some(-1)),
        (-1, i64::MAX - 1, Some(1)),
        (-2, 3, Some(-8)),
        (-2, 63, Some(i64::MIN)),
        (2, 62, Some(1 << 62)),
        (2, 63, None),
        (-2, 64, None),
        (3, 39, Some(4052555153018976267)),
        (3, 40, None),
    ];
    for (b, e, expected) in cases {
        assert_eq!(int_power(b, e as u64), expected, "{} ** {}", b, e);
        let base = number(&mut vm, b);
        let exp = number(&mut vm, e);
        let r = pow(PowArgs { base, exp, modulus: None }, &mut vm);
        match expected {
            Some(v) => assert_eq!(vm.int_value(r.unwrap()), Some(v)),
            None => assert_eq!(r, Err(Error::IntegerOverflow)),
        }
    }
    assert_eq!(mod_power(2, 10, 1000), 24);
    assert_eq!(mod_power(2, 10, -1000), -976);
    assert_eq!(mod_power(-2, 3, 5), 2);
    assert_eq!(mod_power(-2, 3, -5), -3);
    assert_eq!(mod_power(7, 0, 5), 1);
    assert_eq!(mod_power(7, 0, 1), 0);
    assert_eq!(mod_power(7, 0, -1), 0);
    assert_eq!(mod_power(10, 2, 10), 0);
    assert_eq!(mod_power(10, 2, -10), 0);
    assert_eq!(mod_power(3, 200, 1_000_000_007), 136_318_165);
    assert_eq!(mod_power(i64::MAX, u64::MAX, i64::MAX), 0);
    assert_eq!(mod_power(i64::MIN, 3, i64::MIN), 0);
    assert_eq!(mod_power(i64::MAX, 2, i64::MIN), -i64::MAX);
    assert_eq!(mod_power(5, 3, i64::MIN), 125 + i64::MIN);
}

#[test]
fn pow_names_its_errors() {
    let mut vm = Vm::new();
    let two = number(&mut vm, 2);
    let minus = number(&mut vm, -1);
    let zero = number(&mut vm, 0);
    let text = vm.new_str("x");
    let err = pow(PowArgs { base: two, exp: minus, modulus: None }, &mut vm).unwrap_err();
    assert_eq!(err, Error::NegativeExponent);
    assert_eq!(err.kind(), ErrorKind::ValueError);
    let err = pow(PowArgs { base: two, exp: two, modulus: Some(zero) }, &mut vm).unwrap_err();
    assert_eq!(vm.message(&err), "pow() 3rd argument cannot be 0");
    let err = pow(PowArgs { base: two, exp: text, modulus: None }, &mut vm).unwrap_err();
    assert_eq!(vm.message(&err), "unsupported operand type(s) for ** or pow(): 'int' and 'str'");
    let err = pow(PowArgs { base: two, exp: two, modulus: Some(text) }, &mut vm).unwrap_err();
    assert_eq!(
        vm.message(&err),
        "unsupported operand type(s) for ** or pow(): 'int', 'int', 'str'"
    );
    let r = pow(PowArgs { base: two, exp: two, modulus: Some(none()) }, &mut vm).unwrap();
    assert_eq!(vm.int_value(r), Some(4));
    let three = number(&mut vm, 3);
    let r = pow(PowArgs { base: two, exp: two, modulus: Some(three) }, &mut vm).unwrap();
    assert_eq!(vm.int_value(r), Some(1));
}

#[test]
fn sorted_is_stable_in_both_directions() {
    let mut vm = Vm::new();
    assert_eq!(sort_order(&vec![3, 1, 2, 1], false), vec![1, 3, 2, 0]);
    assert_eq!(sort_order(&vec![3, 1, 2, 1], true), vec![0, 2, 1, 3]);
    assert_eq!(sort_order(&vec![], false), Vec::<usize>::new());
    assert_eq!(sort_order(&vec![5, 5, 5], true), vec![0, 1, 2]);
    let items: Vec<ObjRef> = [3, 1, 2, 1].iter().map(|v| vm.new_int(*v)).collect();
    let list = vm.new_tuple(items.clone());
    let up = sorted(list, SortOptions { key: None, reverse: false }, &mut vm).unwrap();
    assert_eq!(vm.elements(up), vec![items[1], items[3], items[2], items[0]]);
    assert_eq!(vm.name_of(vm.class_of(up)), "list");
    let down = sorted(list, SortOptions { key: None, reverse: true }, &mut vm).unwrap();
    assert_eq!(vm.elements(down), vec![items[0], items[2], items[1], items[3]]);
    assert_eq!(vm.elements(list), items);
    let zero = vm.new_int(0);
    let flat = vm.new_function(Routine::Return(zero));
    let same = sorted(list, SortOptions { key: Some(flat), reverse: true }, &mut vm).unwrap();
    assert_eq!(vm.elements(same), items);
    let none_key = sorted(list, SortOptions { key: Some(none()), reverse: false }, &mut vm).unwrap();
    assert_eq!(vm.elements(none_key), vm.elements(up));
}

#[test]
fn sorted_names_its_errors() {
    let mut vm = Vm::new();
    let plain = SortOptions { key: None, reverse: false };
    let one = number(&mut vm, 1);
    let err = sorted(one, plain, &mut vm).unwrap_err();
    assert_eq!(vm.message(&err), "'int' object is not iterable");
    let text = vm.new_str("a");
    let alone = vm.new_list(vec![text]);
    let r = sorted(alone, plain, &mut vm).unwrap();
    assert_eq!(vm.elements(r), vec![text]);
    let empty = vm.new_list(vec![]);
    let r = sorted(empty, plain, &mut vm).unwrap();
    assert!(vm.elements(r).is_empty());
    let mixed = vm.new_list(vec![one, one, text]);
    let err = sorted(mixed, plain, &mut vm).unwrap_err();
    assert_eq!(vm.message(&err), "'<' not supported between instances of 'str' and 'int'");
    let raised = Error::Raised { kind: ErrorKind::ValueError, value: text };
    let failing = vm.new_function(Routine::Raise(raised));
    let err = sorted(mixed, SortOptions { key: Some(failing), reverse: false }, &mut vm);
    assert_eq!(err, Err(raised));
}
