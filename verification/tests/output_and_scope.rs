use pyprotocol::compile::Mode;
use pyprotocol::error::{Error, ErrorKind, Method, ScopeUser};
use pyprotocol::make::{bool_object, none, object_type, type_type};
use pyprotocol::module::init_module;
use pyprotocol::object::{
    Attr, FuncArgs, MappingMethods, ObjRef, Payload, Routine, Slots,
};
use pyprotocol::output::{ascii, bin, chr, hex, oct, ord, print, repr, PrintOptions};
use pyprotocol::protocol::{ArgIntoBool, ArgMapping};
use pyprotocol::roots::{
    parent_of, root_name, BASE_EXCEPTION, BASE_EXCEPTION_GROUP, BYTES_TYPE, CONNECTION_ERROR,
    CONNECTION_RESET_ERROR, DEPRECATION_WARNING, EXCEPTION, EXCEPTION_GROUP, FILE_NOT_FOUND_ERROR,
    KEYBOARD_INTERRUPT, OS_ERROR, UNICODE_DECODE_ERROR, VALUE_ERROR, WARNING, ZIP_TYPE,
};
use pyprotocol::scope::{
    __import__, breakpoint, eval, exec, globals, locals, run_code, vars, Context, Either, Frame,
    Run, Scope, ScopeArgs,
};
use pyprotocol::vm::Vm;

fn context(vm: &mut Vm) -> Context {
    let globals = vm.new_dict();
    let locals = vm.new_dict();
    let builtins = vm.new_dict();
    let sys_module = vm.new_module();
    let import_func = vm.new_function(Routine::Argument(0));
    Context {
        frame: Frame { globals, locals: ArgMapping::from_dict_exact(locals) },
        builtins,
        sys_module,
        import_func,
        optimize: 0,
    }
}

/// A file object that records every string written to it in a list.
fn recording_file(vm: &mut Vm) -> (ObjRef, ObjRef) {
    let written = vm.new_list(vec![]);
    let write = vm.new_function(Routine::Record(written));
    let file = vm.new_object(object_type(), Payload::Instance);
    vm.set_attr(file, "write", write);
    (file, written)
}

fn texts(vm: &Vm, list: ObjRef) -> Vec<String> {
    vm.elements(list).into_iter().map(|o| vm.str_value(o).unwrap()).collect()
}

fn no_args() -> FuncArgs {
    FuncArgs { args: vec![], kwargs: vec![] }
}

#[test]
fn print_writes_objects_separator_and_end() {
    let mut vm = Vm::new();
    let ctx = context(&mut vm);
    let (file, written) = recording_file(&mut vm);
    let one = vm.new_int(1);
    let word = vm.new_str("a");
    let options = PrintOptions { file: Some(file), ..PrintOptions::default() };
    assert_eq!(print(vec![one, word, none()], options, &ctx, &mut vm), Ok(()));
    assert_eq!(texts(&vm, written), vec!["1", " ", "a", " ", "None", "\n"]);
}

#[test]
fn print_of_nothing_writes_the_end() {
    let mut vm = Vm::new();
    let ctx = context(&mut vm);
    let (file, written) = recording_file(&mut vm);
    let options = PrintOptions { file: Some(file), ..PrintOptions::default() };
    assert_eq!(print(vec![], options, &ctx, &mut vm), Ok(()));
    assert_eq!(texts(&vm, written), vec!["\n"]);
}

#[test]
fn print_takes_separator_and_end_from_the_options() {
    let mut vm = Vm::new();
    let ctx = context(&mut vm);
    let (file, written) = recording_file(&mut vm);
    let sep = vm.new_str(", ");
    let end = vm.new_str(".");
    let one = vm.new_int(-12);
    let yes = bool_object(true);
    let options = PrintOptions {
        sep: Some(sep),
        end: Some(end),
        flush: ArgIntoBool { value: false },
        file: Some(file),
    };
    assert_eq!(print(vec![one, yes], options, &ctx, &mut vm), Ok(()));
    assert_eq!(texts(&vm, written), vec!["-12", ", ", "True", "."]);
    assert_eq!(vm.elements(written)[1], sep);
    assert_eq!(vm.elements(written)[3], end);
}

#[test]
fn print_defaults_to_the_standard_output() {
    let mut vm = Vm::new();
    let ctx = context(&mut vm);
    let err = print(vec![], PrintOptions::default(), &ctx, &mut vm).unwrap_err();
    assert_eq!(err, Error::LostStdout);
    assert_eq!(vm.message(&err), "lost sys.stdout");
    let (file, written) = recording_file(&mut vm);
    vm.set_attr(ctx.sys_module, "stdout", file);
    let zero = vm.new_int(0);
    assert_eq!(print(vec![zero], PrintOptions::default(), &ctx, &mut vm), Ok(()));
    assert_eq!(texts(&vm, written), vec!["0", "\n"]);
}

#[test]
fn print_flushes_when_asked() {
    let mut vm = Vm::new();
    let ctx = context(&mut vm);
    let (file, written) = recording_file(&mut vm);
    let options = PrintOptions {
        flush: ArgIntoBool { value: true },
        file: Some(file),
        ..PrintOptions::default()
    };
    let err = print(vec![], options, &ctx, &mut vm).unwrap_err();
    assert_eq!(err, Error::MissingMethod { class: object_type(), method: Method::Flush });
    assert_eq!(vm.message(&err), "'object' object has no attribute 'flush'");
    assert_eq!(texts(&vm, written), vec!["\n"]);
    let flushed = vm.new_list(vec![]);
    let flush = vm.new_function(Routine::Record(flushed));
    vm.set_attr(file, "flush", flush);
    assert_eq!(print(vec![], options, &ctx, &mut vm), Ok(()));
    assert_eq!(vm.elements(flushed).len(), 0);
}

#[test]
fn print_stops_at_the_first_failing_write() {
    let mut vm = Vm::new();
    let ctx = context(&mut vm);
    let file = vm.new_object(object_type(), Payload::Instance);
    let one = vm.new_int(1);
    let options = PrintOptions { file: Some(file), ..PrintOptions::default() };
    let err = print(vec![one], options, &ctx, &mut vm).unwrap_err();
    assert_eq!(err, Error::MissingMethod { class: object_type(), method: Method::Write });
    assert_eq!(vm.message(&err), "'object' object has no attribute 'write'");
    let text = vm.new_str("full");
    let raised = Error::Raised { kind: ErrorKind::ValueError, value: text };
    let write = vm.new_function(Routine::Raise(raised));
    vm.set_attr(file, "write", write);
    assert_eq!(print(vec![one], options, &ctx, &mut vm), Err(raised));
}

#[test]
fn objects_are_shown_and_represented() {
    let mut vm = Vm::new();
    let word = vm.new_str("caf\u{e9}");
    let n = vm.new_int(-40);
    let class = vm.new_type(type_type(), "Thing", vec![], Slots::empty()).unwrap();
    let thing = vm.new_object(class, Payload::Instance);
    assert_eq!(vm.display(word), "caf\u{e9}");
    assert_eq!(vm.display(n), "-40");
    assert_eq!(vm.display(class), "<class 'Thing'>");
    assert_eq!(vm.display(thing), "<Thing object>");
    assert_eq!(vm.display(bool_object(false)), "False");
    let shown = repr(word, &mut vm).unwrap();
    assert_eq!(vm.str_value(shown).unwrap(), "'caf\u{e9}'");
    let shown = repr(n, &mut vm).unwrap();
    assert_eq!(vm.str_value(shown).unwrap(), "-40");
    assert_eq!(ascii(word, &vm).unwrap(), "'caf\\xe9'");
    assert_eq!(ascii(n, &vm).unwrap(), "-40");
}

#[test]
fn ascii_escapes_by_the_size_of_the_code() {
    let mut vm = Vm::new();
    let euro = vm.new_str("\u{20ac}");
    let face = vm.new_str("a\u{1f600}b");
    let low = vm.new_str("\u{80}\u{ff}");
    let high = vm.new_str("\u{100}\u{ffff}\u{10000}\u{10ffff}");
    assert_eq!(ascii(euro, &vm).unwrap(), "'\\u20ac'");
    assert_eq!(ascii(face, &vm).unwrap(), "'a\\U0001f600b'");
    assert_eq!(ascii(low, &vm).unwrap(), "'\\x80\\xff'");
    assert_eq!(ascii(high, &vm).unwrap(), "'\\u0100\\uffff\\U00010000\\U0010ffff'");
}

#[test]
fn integers_are_written_in_three_bases() {
    assert_eq!(bin(0), "0b0");
    assert_eq!(bin(5), "0b101");
    assert_eq!(bin(-5), "-0b101");
    assert_eq!(hex(255), "0xff");
    assert_eq!(hex(-255), "-0xff");
    assert_eq!(hex(0), "0x0");
    assert_eq!(hex(i64::MAX), "0x7fffffffffffffff");
    assert_eq!(hex(i64::MIN), "-0x8000000000000000");
    assert_eq!(bin(i64::MIN), format!("-0b1{}", "0".repeat(63)));
    let mut vm = Vm::new();
    let eight = oct(8, &mut vm).unwrap();
    assert_eq!(vm.str_value(eight).unwrap(), "0o10");
    let minus = oct(-9, &mut vm).unwrap();
    assert_eq!(vm.str_value(minus).unwrap(), "-0o11");
}

#[test]
fn chr_takes_code_points_only() {
    assert_eq!(chr(97), Ok(97));
    assert_eq!(chr(0), Ok(0));
    assert_eq!(chr(0x10FFFF), Ok(0x10FFFF));
    assert_eq!(chr(0xD800), Ok(0xD800));
    assert_eq!(chr(0x110000), Err(Error::ChrRange));
    assert_eq!(chr(-1), Err(Error::ChrRange));
    assert_eq!(Error::ChrRange.kind(), ErrorKind::ValueError);
    let vm = Vm::new();
    assert_eq!(vm.message(&Error::ChrRange), "chr() arg not in range(0x110000)");
}

#[test]
fn ord_takes_one_character() {
    let mut vm = Vm::new();
    let a = vm.new_str("a");
    let euro = vm.new_str("\u{20ac}");
    let two = vm.new_str("ab");
    let empty = vm.new_str("");
    let n = vm.new_int(1);
    assert_eq!(ord(a, &vm), Ok(97));
    assert_eq!(ord(euro, &vm), Ok(0x20ac));
    let err = ord(two, &vm).unwrap_err();
    assert_eq!(err, Error::OrdLength { len: 2 });
    assert_eq!(vm.message(&err), "ord() expected a character, but string of length 2 found");
    assert_eq!(ord(empty, &vm), Err(Error::OrdLength { len: 0 }));
    let err = ord(n, &vm).unwrap_err();
    assert_eq!(vm.message(&err), "ord() expected string of length 1, but int found");
}

#[test]
fn scope_from_given_globals() {
    let mut vm = Vm::new();
    let ctx = context(&mut vm);
    let given = vm.new_dict();
    let args = ScopeArgs { globals: Some(given), locals: None };
    let scope = args.make_scope(&ctx, &mut vm, ScopeUser::Eval).unwrap();
    assert_eq!(scope.globals, given);
    assert_eq!(scope.locals.as_object(), given);
    assert_eq!(vm.get_item(given, "__builtins__"), Ok(ctx.builtins));
    let own = vm.new_int(1);
    vm.set_item(given, "__builtins__", own).unwrap();
    let mine = vm.new_dict();
    let args = ScopeArgs { globals: Some(given), locals: Some(ArgMapping::from_dict_exact(mine)) };
    let scope = args.make_scope(&ctx, &mut vm, ScopeUser::Exec).unwrap();
    assert_eq!(scope.locals.as_object(), mine);
    assert_eq!(vm.get_item(given, "__builtins__"), Ok(own));
}

#[test]
fn scope_from_the_running_frame() {
    let mut vm = Vm::new();
    let ctx = context(&mut vm);
    let args = ScopeArgs { globals: None, locals: None };
    let scope = args.make_scope(&ctx, &mut vm, ScopeUser::Exec).unwrap();
    assert_eq!(scope.globals, ctx.frame.globals);
    assert_eq!(scope.locals.as_object(), ctx.frame.locals.as_object());
    assert_eq!(vm.get_item(ctx.frame.globals, "__builtins__"), Ok(ctx.builtins));
    assert_eq!(globals(&ctx), ctx.frame.globals);
    assert_eq!(locals(&ctx).unwrap().as_object(), ctx.frame.locals.as_object());
}

#[test]
fn globals_must_be_a_dictionary() {
    let mut vm = Vm::new();
    let ctx = context(&mut vm);
    let n = vm.new_int(1);
    let args = ScopeArgs { globals: Some(n), locals: None };
    let err = args.make_scope(&ctx, &mut vm, ScopeUser::Eval).unwrap_err();
    assert_eq!(vm.message(&err), "globals must be a dict");
    let err = args.make_scope(&ctx, &mut vm, ScopeUser::Exec).unwrap_err();
    assert_eq!(vm.message(&err), "exec() globals must be a dict, not int");
    let slots = Slots {
        as_mapping: Some(MappingMethods { length: true, subscript: true, ass_subscript: true }),
        ..Slots::empty()
    };
    let class = vm.new_type(type_type(), "Table", vec![], slots).unwrap();
    let table = vm.new_object(class, Payload::Dict(vec![]));
    let args = ScopeArgs { globals: Some(table), locals: None };
    let err = args.make_scope(&ctx, &mut vm, ScopeUser::Eval).unwrap_err();
    assert_eq!(vm.message(&err), "globals must be a real dict; try eval(expr, {}, mapping)");
    assert_eq!(err.kind(), ErrorKind::TypeMismatch);
}

#[test]
fn a_code_object_runs_in_the_locals_of_the_scope() {
    let mut vm = Vm::new();
    let ctx = context(&mut vm);
    let one = vm.new_int(1);
    let code = vm.new_function(Routine::Body {
        stores: vec![Attr { name: "x".to_string(), value: one }],
        result: one,
    });
    let mine = vm.new_dict();
    let args = ScopeArgs { globals: None, locals: Some(ArgMapping::from_dict_exact(mine)) };
    assert_eq!(eval(Either::B(code), args, &ctx, &mut vm), Ok(Run::Done(one)));
    assert_eq!(vm.get_item(mine, "x"), Ok(one));
    let args = ScopeArgs { globals: None, locals: None };
    assert_eq!(exec(Either::B(code), args, &ctx, &mut vm), Ok(Run::Done(one)));
    assert_eq!(vm.get_item(ctx.frame.locals.as_object(), "x"), Ok(one));
}

#[test]
fn a_code_object_with_free_variables_is_refused() {
    let mut vm = Vm::new();
    let ctx = context(&mut vm);
    let code = vm.new_function(Routine::Return(none()));
    let name = vm.new_str("outer");
    let free = vm.new_tuple(vec![name]);
    vm.set_attr(code, "co_freevars", free);
    let args = ScopeArgs { globals: None, locals: None };
    let err = eval(Either::B(code), args, &ctx, &mut vm).unwrap_err();
    assert_eq!(vm.message(&err), "code object passed to eval() may not contain free variables");
    let err = exec(Either::B(code), args, &ctx, &mut vm).unwrap_err();
    assert_eq!(vm.message(&err), "code object passed to exec() may not contain free variables");
    let scope = Scope { locals: ctx.frame.locals, globals: ctx.frame.globals };
    let empty = vm.new_tuple(vec![]);
    vm.set_attr(code, "co_freevars", empty);
    assert_eq!(
        run_code(&mut vm, Either::B(code), scope, ScopeUser::Exec),
        Ok(Run::Done(none()))
    );
}

#[test]
fn source_text_is_checked_and_then_handed_out_to_be_compiled() {
    let mut vm = Vm::new();
    let ctx = context(&mut vm);
    let args = ScopeArgs { globals: None, locals: None };
    let err = eval(Either::A(b"1\0".to_vec()), args, &ctx, &mut vm).unwrap_err();
    assert_eq!(err, Error::NullBytes);
    assert_eq!(err.kind(), ErrorKind::SyntaxError);
    assert_eq!(vm.message(&err), "source code string cannot contain null bytes");
    let err = eval(Either::A(vec![b'a', 0xff, b'b']), args, &ctx, &mut vm).unwrap_err();
    assert_eq!(err, Error::SourceNotUtf8 { byte: 0xff, position: 1 });
    assert_eq!(
        vm.message(&err),
        "(unicode error) 'utf-8' codec can't decode byte 0xff in position 1: invalid start byte"
    );
    let before = vm.len();
    let scope = Scope { locals: ctx.frame.locals, globals: ctx.frame.globals };
    let run = eval(Either::A(" \t\n 1 + 1 ".as_bytes().to_vec()), args, &ctx, &mut vm).unwrap();
    assert_eq!(
        run,
        Run::Compile {
            source: ObjRef { id: before },
            mode: Mode::Eval,
            scope,
            user: ScopeUser::Eval
        }
    );
    assert_eq!(vm.len(), before + 1);
    assert_eq!(vm.str_value(ObjRef { id: before }).unwrap(), "1 + 1 ");
    let text = vm.new_str("pass");
    let before = vm.len();
    assert_eq!(
        exec(Either::A(text), args, &ctx, &mut vm),
        Ok(Run::Compile { source: text, mode: Mode::Exec, scope, user: ScopeUser::Exec })
    );
    assert_eq!(vm.len(), before);
    // What the compiler makes of the text is run as any code object is.
    let two = vm.new_int(2);
    let code = vm.new_function(Routine::Return(two));
    assert_eq!(run_code(&mut vm, Either::B(code), scope, ScopeUser::Exec), Ok(Run::Done(two)));
    // Without a compiler the embedding runtime fails with this error.
    assert_eq!(
        vm.message(&Error::CodegenNotSupported),
        "can't compile() to bytecode: this runtime has no compiler"
    );
}

#[test]
fn vars_gives_the_namespace() {
    let mut vm = Vm::new();
    let ctx = context(&mut vm);
    let obj = vm.new_object(object_type(), Payload::Instance);
    let err = vars(Some(obj), &ctx, &vm).unwrap_err();
    assert_eq!(vm.message(&err), "vars() argument must have __dict__ attribute");
    let namespace = vm.new_dict();
    vm.set_attr(obj, "__dict__", namespace);
    assert_eq!(vars(Some(obj), &ctx, &vm), Ok(namespace));
    assert_eq!(vars(None, &ctx, &vm), Ok(ctx.frame.locals.as_object()));
}

#[test]
fn hooks_of_the_runtime_are_called() {
    let mut vm = Vm::new();
    let ctx = context(&mut vm);
    let err = breakpoint(no_args(), &ctx, &mut vm).unwrap_err();
    assert_eq!(err, Error::LostBreakpointHook);
    assert_eq!(err.kind(), ErrorKind::RuntimeError);
    assert_eq!(vm.message(&err), "lost sys.breakpointhook");
    let seen = vm.new_list(vec![]);
    let hook = vm.new_function(Routine::Record(seen));
    vm.set_attr(ctx.sys_module, "breakpointhook", hook);
    let one = vm.new_int(1);
    let args = FuncArgs { args: vec![one], kwargs: vec![] };
    assert_eq!(breakpoint(args, &ctx, &mut vm), Ok(none()));
    assert_eq!(vm.elements(seen), vec![one]);
    let name = vm.new_str("os");
    let args = FuncArgs { args: vec![name], kwargs: vec![] };
    assert_eq!(__import__(args, &ctx, &mut vm), Ok(name));
}

#[test]
fn the_builtin_module_gets_its_names() {
    let mut vm = Vm::new();
    let mut ctx = context(&mut vm);
    let module = vm.new_module();
    let old = vm.new_int(1);
    vm.set_attr(module, "int", old);
    vm.set_attr(module, "mine", old);
    init_module(&mut vm, module, &ctx);
    let names: Vec<String> = vm.attrs(module).into_iter().map(|a| a.name).collect();
    let mut expected: Vec<&str> = vec!["int", "mine"];
    expected.extend(BUILTIN_NAMES.iter().filter(|n| **n != "int"));
    assert_eq!(names, expected);
    assert_eq!(names.len(), 102);
    assert_eq!(vm.name_of(vm.get_attr(module, "int").unwrap()), "int");
    assert_eq!(vm.get_attr(module, "mine"), Some(old));
    assert_eq!(vm.get_attr(module, "None"), Some(none()));
    assert_eq!(vm.get_attr(module, "True"), Some(bool_object(true)));
    assert_eq!(vm.get_attr(module, "False"), Some(bool_object(false)));
    assert_eq!(vm.get_attr(module, "__debug__"), Some(bool_object(true)));
    assert_eq!(vm.get_attr(module, "type"), Some(type_type()));
    assert_eq!(vm.get_attr(module, "object"), Some(object_type()));
    ctx.optimize = 2;
    init_module(&mut vm, module, &ctx);
    assert_eq!(vm.get_attr(module, "__debug__"), Some(bool_object(false)));
    assert_eq!(vm.attrs(module).len(), 102);
}

const BUILTIN_NAMES: [&str; 101] = [
        "__debug__", "bool", "bytearray", "bytes", "classmethod", "complex", "dict",
        "enumerate", "float", "frozenset", "filter", "int", "list", "map", "memoryview",
        "object", "property", "range", "set", "slice", "staticmethod", "str", "super", "tuple",
        "type", "zip", "None", "True", "False", "NotImplemented", "Ellipsis", "BaseException",
        "BaseExceptionGroup", "ExceptionGroup", "SystemExit", "KeyboardInterrupt",
        "GeneratorExit", "Exception", "StopIteration", "StopAsyncIteration", "ArithmeticError",
        "FloatingPointError", "OverflowError", "ZeroDivisionError", "AssertionError",
        "AttributeError", "BufferError", "EOFError", "ImportError", "ModuleNotFoundError",
        "LookupError", "IndexError", "KeyError", "MemoryError", "NameError",
        "UnboundLocalError", "OSError", "IOError", "EnvironmentError", "BlockingIOError",
        "ChildProcessError", "ConnectionError", "BrokenPipeError", "ConnectionAbortedError",
        "ConnectionRefusedError", "ConnectionResetError", "FileExistsError",
        "FileNotFoundError", "InterruptedError", "IsADirectoryError", "NotADirectoryError",
        "PermissionError", "ProcessLookupError", "TimeoutError", "ReferenceError",
        "RuntimeError", "NotImplementedError", "RecursionError", "SyntaxError",
        "_IncompleteInputError", "IndentationError", "TabError", "SystemError", "TypeError",
        "ValueError", "UnicodeError", "UnicodeDecodeError", "UnicodeEncodeError",
        "UnicodeTranslateError", "Warning", "DeprecationWarning", "PendingDeprecationWarning",
        "RuntimeWarning", "SyntaxWarning", "UserWarning", "FutureWarning", "ImportWarning",
        "UnicodeWarning", "BytesWarning", "ResourceWarning", "EncodingWarning",
];

#[test]
fn the_three_names_of_os_error_are_one_class() {
    let mut vm = Vm::new();
    let ctx = context(&mut vm);
    let module = vm.new_module();
    init_module(&mut vm, module, &ctx);
    let os_error = vm.get_attr(module, "OSError").unwrap();
    assert_eq!(os_error, ObjRef { id: OS_ERROR });
    assert_eq!(vm.get_attr(module, "IOError"), Some(os_error));
    assert_eq!(vm.get_attr(module, "EnvironmentError"), Some(os_error));
    assert!(vm.is_type(os_error));
    assert_eq!(vm.name_of(os_error), "OSError");
}

#[test]
fn every_builtin_class_is_bound_under_its_own_name() {
    let mut vm = Vm::new();
    let ctx = context(&mut vm);
    let module = vm.new_module();
    init_module(&mut vm, module, &ctx);
    let constants = ["__debug__", "None", "True", "False", "NotImplemented", "Ellipsis"];
    let aliases = ["IOError", "EnvironmentError"];
    let mut classes = 0;
    for name in BUILTIN_NAMES.iter() {
        let bound = vm.get_attr(module, name).unwrap();
        if constants.contains(name) {
            assert!(!vm.is_type(bound), "{}", name);
        } else {
            assert!(vm.is_type(bound), "{}", name);
            if !aliases.contains(name) {
                assert_eq!(vm.name_of(bound), *name);
                classes += 1;
            }
        }
    }
    assert_eq!(classes, 93);
    assert_eq!(vm.name_of(vm.class_of(vm.get_attr(module, "NotImplemented").unwrap())),
        "NotImplementedType");
    assert_eq!(vm.name_of(vm.class_of(vm.get_attr(module, "Ellipsis").unwrap())), "ellipsis");
}

#[test]
fn the_builtin_exceptions_form_their_hierarchy() {
    let vm = Vm::new();
    let class = |id: usize| ObjRef { id };
    assert!(vm.is_subclass(class(FILE_NOT_FOUND_ERROR), class(OS_ERROR)));
    assert!(vm.is_subclass(class(OS_ERROR), class(EXCEPTION)));
    assert!(vm.is_subclass(class(EXCEPTION), class(BASE_EXCEPTION)));
    assert!(vm.is_subclass(class(BASE_EXCEPTION), object_type()));
    assert!(!vm.is_subclass(class(BASE_EXCEPTION), class(EXCEPTION)));
    assert!(!vm.is_subclass(class(KEYBOARD_INTERRUPT), class(EXCEPTION)));
    assert!(vm.is_subclass(class(KEYBOARD_INTERRUPT), class(BASE_EXCEPTION)));
    assert!(vm.is_subclass(class(UNICODE_DECODE_ERROR), class(VALUE_ERROR)));
    assert!(vm.is_subclass(class(DEPRECATION_WARNING), class(WARNING)));
    assert!(vm.is_subclass(class(EXCEPTION_GROUP), class(BASE_EXCEPTION_GROUP)));
    assert!(vm.is_subclass(class(EXCEPTION_GROUP), class(EXCEPTION)));
    assert_eq!(
        vm.type_data(class(EXCEPTION_GROUP)).unwrap().mro,
        vec![
            class(EXCEPTION_GROUP),
            class(BASE_EXCEPTION_GROUP),
            class(EXCEPTION),
            class(BASE_EXCEPTION),
            object_type()
        ]
    );
    assert_eq!(
        vm.type_data(class(CONNECTION_RESET_ERROR)).unwrap().mro,
        vec![
            class(CONNECTION_RESET_ERROR),
            class(CONNECTION_ERROR),
            class(OS_ERROR),
            class(EXCEPTION),
            class(BASE_EXCEPTION),
            object_type()
        ]
    );
    assert_eq!(parent_of(BYTES_TYPE), object_type().id);
    assert_eq!(root_name(ZIP_TYPE), "zip");
}

#[test]
fn the_undecodable_byte_is_the_first_behind_the_longest_valid_start() {
    let mut vm = Vm::new();
    let ctx = context(&mut vm);
    let args = ScopeArgs { globals: None, locals: None };
    // "é" takes two bytes; the byte behind it cannot start a character.
    let err = eval(Either::A(vec![0xc3, 0xa9, 0xff, b'a']), args, &ctx, &mut vm).unwrap_err();
    assert_eq!(err, Error::SourceNotUtf8 { byte: 0xff, position: 2 });
    // A character of three bytes that is cut off after two.
    let err = eval(Either::A(vec![b'a', b'b', 0xe2, 0x82]), args, &ctx, &mut vm).unwrap_err();
    assert_eq!(err, Error::SourceNotUtf8 { byte: 0xe2, position: 2 });
    // A continuation byte without a start.
    let err = eval(Either::A(vec![0x80]), args, &ctx, &mut vm).unwrap_err();
    assert_eq!(err, Error::SourceNotUtf8 { byte: 0x80, position: 0 });
}

#[test]
fn the_builtin_functions_keep_the_arena_sound_and_standard() {
    let mut vm = Vm::new();
    let ctx = context(&mut vm);
    let module = vm.new_module();
    init_module(&mut vm, module, &ctx);
    assert!(vm.is_sound());
    assert!(vm.is_standard());
    let one = vm.new_int(1);
    let list = vm.new_list(vec![one, one]);
    let mut out = Vec::new();
    out.push(list);
    let sink = vm.new_list(vec![]);
    let file = vm.new_module();
    let write = vm.new_function(Routine::Record(sink));
    vm.set_attr(file, "write", write);
    let options = PrintOptions {
        sep: None,
        end: None,
        flush: ArgIntoBool { value: false },
        file: Some(file),
    };
    print(out, options, &ctx, &mut vm).unwrap();
    let text = repr(list, &mut vm).unwrap();
    assert!(vm.len() > text.id);
    let args = ScopeArgs { globals: None, locals: None };
    let _ = eval(Either::A(b"1".to_vec()), args, &ctx, &mut vm);
    assert!(vm.is_sound());
    assert!(vm.is_standard());
}
