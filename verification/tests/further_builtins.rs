use pyprotocol::builtins::{isinstance, issubclass};
use pyprotocol::error::{Error, ErrorKind};
use pyprotocol::hashing::{hash, Hashed};
use pyprotocol::heap::{INT_TYPE, LIST_TYPE, STR_TYPE, TUPLE_TYPE};
use pyprotocol::listing::{comes_before, dir, unique};
use pyprotocol::make::{bool_object, none, object_type, type_type};
use pyprotocol::numbers::distance;
use pyprotocol::object::{Attr, ObjRef, Payload, Routine, Slots};
use pyprotocol::output::ord;
use pyprotocol::protocol::ArgMapping;
use pyprotocol::roots::{BYTEARRAY_TYPE, BYTES_TYPE, OS_ERROR, VALUE_ERROR};
use pyprotocol::scope::{Context, Frame};
use pyprotocol::symtable::{
    to_py_symbol_table, CompilerScope, Symbol, SymbolFlags, SymbolScope, SymbolTable,
    SymtableError,
};
use pyprotocol::vm::Vm;

fn class(id: usize) -> ObjRef {
    ObjRef { id }
}

fn context_of(vm: &mut Vm) -> Context {
    let globals = vm.new_dict();
    let locals = vm.new_dict();
    let builtins = vm.new_dict();
    let sys_module = vm.new_module();
    let import_func = vm.new_function(Routine::Argument(0));
    Context {
        frame: Frame { globals, locals: ArgMapping::from_dict_exact(locals) },
        builtins,
        sys_module,
        import_func,
        optimize: 0,
    }
}

fn texts_of(vm: &Vm, list: ObjRef) -> Vec<String> {
    vm.elements(list).into_iter().map(|o| vm.str_value(o).unwrap()).collect()
}

#[test]
fn isinstance_takes_a_tuple_of_types() {
    let mut vm = Vm::new();
    let one = vm.new_int(1);
    let text = vm.new_str("a");
    let both = vm.new_tuple(vec![class(STR_TYPE), class(INT_TYPE)]);
    assert_eq!(isinstance(one, both, &vm), Ok(true));
    assert_eq!(isinstance(text, both, &vm), Ok(true));
    assert_eq!(isinstance(none(), both, &vm), Ok(false));
    let empty = vm.new_tuple(vec![]);
    assert_eq!(isinstance(one, empty, &vm), Ok(false));
    // Tuples inside tuples are searched too.
    let nested = vm.new_tuple(vec![class(LIST_TYPE), both]);
    assert_eq!(isinstance(one, nested, &vm), Ok(true));
    // The first item that decides ends the search: a match before a wrong
    // item is a match, a wrong item before a match is refused.
    let late = vm.new_tuple(vec![class(INT_TYPE), one]);
    assert_eq!(isinstance(one, late, &vm), Ok(true));
    let early = vm.new_tuple(vec![one, class(INT_TYPE)]);
    assert_eq!(isinstance(one, early, &vm), Err(Error::InstanceCheckNotType));
    assert_eq!(isinstance(one, one, &vm), Err(Error::InstanceCheckNotType));
    assert_eq!(isinstance(bool_object(true), class(INT_TYPE), &vm), Ok(true));
}

#[test]
fn issubclass_takes_a_tuple_of_types() {
    let mut vm = Vm::new();
    let pair = vm.new_tuple(vec![class(STR_TYPE), class(VALUE_ERROR)]);
    assert_eq!(issubclass(class(OS_ERROR), pair, &vm), Ok(false));
    let pair = vm.new_tuple(vec![class(STR_TYPE), object_type()]);
    assert_eq!(issubclass(class(OS_ERROR), pair, &vm), Ok(true));
    let one = vm.new_int(1);
    assert_eq!(issubclass(one, pair, &vm), Err(Error::SubclassCheckNotClass { position: 1 }));
    let wrong = vm.new_tuple(vec![one]);
    assert_eq!(
        issubclass(class(OS_ERROR), wrong, &vm),
        Err(Error::SubclassCheckNotClass { position: 2 })
    );
}

#[test]
fn ord_takes_one_byte() {
    let mut vm = Vm::new();
    let b = vm.new_bytes(vec![0xe9]);
    assert_eq!(ord(b, &vm), Ok(0xe9));
    assert_eq!(vm.class_of(b), class(BYTES_TYPE));
    let ba = vm.new_bytearray(vec![65]);
    assert_eq!(ord(ba, &vm), Ok(65));
    assert_eq!(vm.class_of(ba), class(BYTEARRAY_TYPE));
    let two = vm.new_bytes(vec![1, 2]);
    let err = ord(two, &vm).unwrap_err();
    assert_eq!(err, Error::OrdLength { len: 2 });
    assert_eq!(vm.message(&err), "ord() expected a character, but string of length 2 found");
    let empty = vm.new_bytes(vec![]);
    assert_eq!(ord(empty, &vm), Err(Error::OrdLength { len: 0 }));
    assert!(!vm.truthy(empty));
    assert!(vm.truthy(two));
}

#[test]
fn format_calls_the_method_of_the_type() {
    let mut vm = Vm::new();
    let sink = vm.new_list(vec![]);
    let record = vm.new_function(Routine::Record(sink));
    let shown = vm.new_str("<shown>");
    let answer = vm.new_function(Routine::Return(shown));
    let echo = vm.new_function(Routine::Argument(1));
    let wrong = vm.new_function(Routine::Return(none()));

    let a = vm.new_type(type_type(), "A", vec![], Slots::empty()).unwrap();
    vm.set_attr(a, "__format__", answer);
    let obj = vm.new_object(a, Payload::Instance);
    let spec = vm.new_str(">10");
    assert_eq!(pyprotocol::numbers::format(obj, Some(spec), &mut vm), Ok(shown));

    // The method gets the value and the format; a format that is left out
    // is a new empty string.
    let b = vm.new_type(type_type(), "B", vec![], Slots::empty()).unwrap();
    vm.set_attr(b, "__format__", echo);
    let obj = vm.new_object(b, Payload::Instance);
    assert_eq!(pyprotocol::numbers::format(obj, Some(spec), &mut vm), Ok(spec));
    let made = pyprotocol::numbers::format(obj, None, &mut vm).unwrap();
    assert_eq!(vm.str_value(made).unwrap(), "");

    let c = vm.new_type(type_type(), "C", vec![], Slots::empty()).unwrap();
    vm.set_attr(c, "__format__", record);
    let obj = vm.new_object(c, Payload::Instance);
    let err = pyprotocol::numbers::format(obj, Some(spec), &mut vm).unwrap_err();
    assert_eq!(err, Error::FormatNotString { class: ObjRef { id: 2 } });
    assert_eq!(vm.message(&err), "__format__ must return a str, not NoneType");
    assert_eq!(vm.elements(sink), vec![obj, spec]);

    let d = vm.new_type(type_type(), "D", vec![a], Slots::empty()).unwrap();
    vm.set_attr(d, "__format__", wrong);
    let obj = vm.new_object(d, Payload::Instance);
    assert!(matches!(pyprotocol::numbers::format(obj, None, &mut vm), Err(Error::FormatNotString { .. })));

    // Without a method: the empty format shows the object, any other is
    // refused.
    let seven = vm.new_int(7);
    let plain = pyprotocol::numbers::format(seven, None, &mut vm).unwrap();
    assert_eq!(vm.str_value(plain).unwrap(), "7");
    let err = pyprotocol::numbers::format(seven, Some(spec), &mut vm).unwrap_err();
    assert_eq!(err, Error::UnsupportedFormat { class: class(INT_TYPE) });
}

#[test]
fn hash_says_what_is_hashed() {
    let mut vm = Vm::new();
    let seven = vm.new_int(-7);
    assert_eq!(hash(seven, &mut vm), Ok(Hashed::Number(-7)));
    assert_eq!(hash(bool_object(true), &mut vm), Ok(Hashed::Number(1)));
    let text = vm.new_str("a");
    assert_eq!(hash(text, &mut vm), Ok(Hashed::Content(text)));
    let bytes = vm.new_bytes(vec![1]);
    assert_eq!(hash(bytes, &mut vm), Ok(Hashed::Content(bytes)));
    let pair = vm.new_tuple(vec![seven, text]);
    assert_eq!(hash(pair, &mut vm), Ok(Hashed::Content(pair)));
    assert_eq!(hash(none(), &mut vm), Ok(Hashed::Identity(none())));
    assert_eq!(hash(type_type(), &mut vm), Ok(Hashed::Identity(type_type())));
    let list = vm.new_list(vec![]);
    let err = hash(list, &mut vm).unwrap_err();
    assert_eq!(err, Error::Unhashable { class: class(LIST_TYPE) });
    assert_eq!(err.kind(), ErrorKind::TypeMismatch);
    assert_eq!(vm.message(&err), "unhashable type: 'list'");
    let dict = vm.new_dict();
    assert!(matches!(hash(dict, &mut vm), Err(Error::Unhashable { .. })));

    let own = vm.new_function(Routine::Return(seven));
    let a = vm.new_type(type_type(), "A", vec![], Slots::empty()).unwrap();
    vm.set_attr(a, "__hash__", own);
    let obj = vm.new_object(a, Payload::Instance);
    assert_eq!(hash(obj, &mut vm), Ok(Hashed::Returned(-7)));
    let b = vm.new_type(type_type(), "B", vec![a], Slots::empty()).unwrap();
    vm.set_attr(b, "__hash__", none());
    let obj = vm.new_object(b, Payload::Instance);
    let err = hash(obj, &mut vm).unwrap_err();
    assert_eq!(vm.message(&err), "unhashable type: 'B'");
    let bad = vm.new_function(Routine::Return(text));
    vm.set_attr(b, "__hash__", bad);
    let err = hash(obj, &mut vm).unwrap_err();
    assert_eq!(err, Error::HashNotInteger);
    assert_eq!(vm.message(&err), "__hash__ method should return an integer");
    let plain = vm.new_object(object_type(), Payload::Instance);
    assert_eq!(hash(plain, &mut vm), Ok(Hashed::Identity(plain)));
}

#[test]
fn texts_are_ordered_by_their_characters() {
    assert!(comes_before("", "a"));
    assert!(!comes_before("a", ""));
    assert!(!comes_before("a", "a"));
    assert!(comes_before("a", "ab"));
    assert!(comes_before("Z", "a"));
    assert!(comes_before("ab", "b"));
    assert!(!comes_before("b", "ab"));
    assert!(comes_before("z", "é"));
    let names = vec!["b".to_string(), "a".to_string(), "b".to_string(), "c".to_string()];
    assert_eq!(unique(&names), vec!["b", "a", "c"]);
    assert_eq!(unique(&vec![]), Vec::<String>::new());
}

#[test]
fn dir_lists_the_names_in_order() {
    let mut vm = Vm::new();
    let ctx = context_of(&mut vm);
    let one = vm.new_int(1);
    let base = vm.new_type(type_type(), "Base", vec![], Slots::empty()).unwrap();
    vm.set_attr(base, "zeta", one);
    vm.set_attr(base, "alpha", one);
    let derived = vm.new_type(type_type(), "Derived", vec![base], Slots::empty()).unwrap();
    vm.set_attr(derived, "mid", one);
    vm.set_attr(derived, "alpha", one);
    let obj = vm.new_object(derived, Payload::Instance);
    vm.set_attr(obj, "own", one);
    vm.set_attr(obj, "Own", one);
    let before = vm.len();
    let list = dir(Some(obj), &ctx, &mut vm).unwrap();
    assert_eq!(texts_of(&vm, list), vec!["Own", "alpha", "mid", "own", "zeta"]);
    assert_eq!(vm.class_of(list), class(LIST_TYPE));
    // Five strings and the list were made.
    assert_eq!(vm.len(), before + 6);
    // A type lists its own names and those of its ancestors.
    let list = dir(Some(derived), &ctx, &mut vm).unwrap();
    assert_eq!(texts_of(&vm, list), vec!["alpha", "mid", "zeta"]);
    // Without an object: the names of the local namespace.
    let locals = ctx.frame.locals.as_object();
    vm.set_item(locals, "y", one).unwrap();
    vm.set_item(locals, "x", one).unwrap();
    let list = dir(None, &ctx, &mut vm).unwrap();
    assert_eq!(texts_of(&vm, list), vec!["x", "y"]);
    let plain = vm.new_int(3);
    let list = dir(Some(plain), &ctx, &mut vm).unwrap();
    assert_eq!(vm.elements(list), vec![]);
    assert!(vm.is_sound());
    assert!(vm.is_standard());
}

#[test]
fn dir_sorts_what_the_method_of_the_type_returns() {
    let mut vm = Vm::new();
    let ctx = context_of(&mut vm);
    let b = vm.new_str("b");
    let a = vm.new_str("a");
    let c = vm.new_str("c");
    let a2 = vm.new_str("a");
    let names = vm.new_tuple(vec![b, a, c, a2]);
    let lister = vm.new_function(Routine::Return(names));
    let t = vm.new_type(type_type(), "T", vec![], Slots::empty()).unwrap();
    vm.set_attr(t, "__dir__", lister);
    let obj = vm.new_object(t, Payload::Instance);
    let list = dir(Some(obj), &ctx, &mut vm).unwrap();
    // Equal names keep the order in which they came.
    assert_eq!(vm.elements(list), vec![a, a2, b, c]);

    let three = vm.new_int(3);
    let one = vm.new_int(1);
    let two = vm.new_int(2);
    let numbers = vm.new_list(vec![three, one, two]);
    let lister = vm.new_function(Routine::Return(numbers));
    vm.set_attr(t, "__dir__", lister);
    let list = dir(Some(obj), &ctx, &mut vm).unwrap();
    assert_eq!(vm.elements(list), vec![one, two, three]);
    // The list that the method returned stays as it was.
    assert_eq!(vm.elements(numbers), vec![three, one, two]);

    let mixed = vm.new_list(vec![a, b, one]);
    let lister = vm.new_function(Routine::Return(mixed));
    vm.set_attr(t, "__dir__", lister);
    let err = dir(Some(obj), &ctx, &mut vm).unwrap_err();
    assert_eq!(err, Error::NotOrdered { left: class(INT_TYPE), right: class(STR_TYPE) });
    assert_eq!(vm.message(&err), "'<' not supported between instances of 'int' and 'str'");
    let single = vm.new_list(vec![none()]);
    let lister = vm.new_function(Routine::Return(single));
    vm.set_attr(t, "__dir__", lister);
    let list = dir(Some(obj), &ctx, &mut vm).unwrap();
    assert_eq!(vm.elements(list), vec![none()]);
    let lister = vm.new_function(Routine::Return(one));
    vm.set_attr(t, "__dir__", lister);
    assert_eq!(
        dir(Some(obj), &ctx, &mut vm),
        Err(Error::NotIterable { class: class(INT_TYPE) })
    );
    let _ = TUPLE_TYPE;
}

#[test]
fn distance_is_the_magnitude() {
    assert_eq!(distance(0), 0);
    assert_eq!(distance(5), 5);
    assert_eq!(distance(-5), 5);
    assert_eq!(distance(i64::MIN), 9223372036854775808);
    assert_eq!(distance(i64::MAX), 9223372036854775807);
}

#[test]
fn a_repeated_name_makes_the_arena_unsound() {
    let mut vm = Vm::new();
    let one = vm.new_int(1);
    let twice = vec![
        Attr { name: "x".to_string(), value: one },
        Attr { name: "x".to_string(), value: one },
    ];
    vm.new_object(ObjRef { id: 9 }, Payload::Dict(twice));
    assert!(!vm.is_sound());
    let mut other = Vm::new();
    let one = other.new_int(1);
    let d = other.new_dict();
    other.set_item(d, "x", one).unwrap();
    other.set_item(d, "x", one).unwrap();
    other.set_item(d, "y", one).unwrap();
    other.del_item(d, "x").unwrap();
    assert_eq!(other.get_item(d, "x"), Err(Error::KeyMissing));
    assert!(other.is_sound());
}

fn no_flags() -> SymbolFlags {
    SymbolFlags {
        referenced: false,
        assigned: false,
        parameter: false,
        annotated: false,
        imported: false,
        nonlocal: false,
        iter: false,
    }
}

fn symbol(name: &str, scope: SymbolScope) -> Symbol {
    Symbol { name: name.to_string(), scope, flags: no_flags() }
}

#[test]
fn a_symbol_table_is_a_map_from_names() {
    let mut top = SymbolTable::new("top".to_string(), CompilerScope::Module, 1, false);
    assert!(top.is_well_formed());
    top.insert(symbol("a", SymbolScope::Local));
    top.insert(symbol("b", SymbolScope::Free));
    top.insert(symbol("a", SymbolScope::Cell));
    assert!(top.is_well_formed());
    let t = to_py_symbol_table(&top);
    assert_eq!(t.get_identifiers(), vec!["a", "b"]);
    let found = t.lookup("a").unwrap();
    assert_eq!(found.symbol.scope, SymbolScope::Cell);
    let err = t.lookup("c").unwrap_err();
    assert_eq!(err, SymtableError::LookupFailed);
    assert_eq!(err.kind(), ErrorKind::KeyError);
    assert_eq!(SymtableError::NotOneNamespace.kind(), ErrorKind::ValueError);

    let mut inner = SymbolTable::new("f".to_string(), CompilerScope::Function, 2, true);
    inner.insert(symbol("x", SymbolScope::Local));
    top.push_table(inner);
    assert!(top.is_well_formed());
    assert_eq!(top.sub_tables.len(), 1);
    // A table with a name twice is no map.
    let mut broken = SymbolTable::new("g".to_string(), CompilerScope::Function, 3, true);
    broken.symbols.push(symbol("x", SymbolScope::Local));
    broken.symbols.push(symbol("y", SymbolScope::Local));
    broken.symbols.push(symbol("x", SymbolScope::Free));
    assert!(!broken.is_well_formed());
    top.push_table(broken);
    assert!(!top.is_well_formed());
}
