use pyprotocol::error::{Error, ErrorKind, Method};
use pyprotocol::input::{input, input_finish, InputStep, ReadlineResult};
use pyprotocol::make::{none, object_type};
use pyprotocol::object::{ObjRef, Payload, Routine};
use pyprotocol::protocol::ArgMapping;
use pyprotocol::scope::{Context, Frame};
use pyprotocol::symtable::{
    lookup_failed_message, namespaces_of, not_one_namespace_message, to_py_symbol_table,
    CompilerScope, Symbol, SymbolFlags, SymbolScope, SymbolTable, SymtableError,
};
use pyprotocol::vm::Vm;

fn context(vm: &mut Vm) -> Context {
    let globals = vm.new_dict();
    let locals = vm.new_dict();
    let builtins = vm.new_dict();
    let sys_module = vm.new_module();
    let import_func = vm.new_function(Routine::Argument(0));
    Context {
        frame: Frame { globals, locals: ArgMapping::from_dict_exact(locals) },
        builtins,
        sys_module,
        import_func,
        optimize: 0,
    }
}

struct Streams {
    stdin: ObjRef,
    stdout: ObjRef,
    written: ObjRef,
}

/// Standard streams whose descriptors are `fd_in` and `fd_out`; the input
/// gives `line` whenever a line is read, the output records what is
/// written.
fn streams(vm: &mut Vm, ctx: &Context, fd_in: i64, fd_out: i64, line: &str) -> Streams {
    let stdin = vm.new_object(object_type(), Payload::Instance);
    let stdout = vm.new_object(object_type(), Payload::Instance);
    let stderr = vm.new_object(object_type(), Payload::Instance);
    let written = vm.new_list(vec![]);
    let n_in = vm.new_int(fd_in);
    let n_out = vm.new_int(fd_out);
    let text = vm.new_str(line);
    let fileno_in = vm.new_function(Routine::Return(n_in));
    let fileno_out = vm.new_function(Routine::Return(n_out));
    let readline = vm.new_function(Routine::Return(text));
    let write = vm.new_function(Routine::Record(written));
    let flush = vm.new_function(Routine::Return(none()));
    vm.set_attr(stdin, "fileno", fileno_in);
    vm.set_attr(stdin, "readline", readline);
    vm.set_attr(stdout, "fileno", fileno_out);
    vm.set_attr(stdout, "write", write);
    vm.set_attr(stdout, "flush", flush);
    vm.set_attr(ctx.sys_module, "stdin", stdin);
    vm.set_attr(ctx.sys_module, "stdout", stdout);
    vm.set_attr(ctx.sys_module, "stderr", stderr);
    Streams { stdin, stdout, written }
}

#[test]
fn input_needs_the_three_streams() {
    let mut vm = Vm::new();
    let ctx = context(&mut vm);
    let err = input(None, false, &ctx, &mut vm).unwrap_err();
    assert_eq!(err, Error::LostStdin);
    assert_eq!(vm.message(&err), "lost sys.stdin");
    let f = vm.new_object(object_type(), Payload::Instance);
    vm.set_attr(ctx.sys_module, "stdin", f);
    assert_eq!(input(None, false, &ctx, &mut vm), Err(Error::LostStdout));
    vm.set_attr(ctx.sys_module, "stdout", f);
    let err = input(None, false, &ctx, &mut vm).unwrap_err();
    assert_eq!(err, Error::LostStderr);
    assert_eq!(vm.message(&err), "lost sys.stderr");
}

#[test]
fn input_reads_a_line_through_the_standard_input() {
    let mut vm = Vm::new();
    let ctx = context(&mut vm);
    let s = streams(&mut vm, &ctx, 0, 1, "hello\n");
    let prompt = vm.new_str("? ");
    let step = input(Some(prompt), false, &ctx, &mut vm).unwrap();
    match step {
        InputStep::Line(line) => assert_eq!(vm.str_value(line).unwrap(), "hello"),
        InputStep::Terminal => panic!("the input is no terminal"),
    }
    assert_eq!(vm.elements(s.written), vec![prompt]);
}

#[test]
fn input_keeps_a_line_without_line_feed() {
    let mut vm = Vm::new();
    let ctx = context(&mut vm);
    let s = streams(&mut vm, &ctx, 5, 6, "last");
    let step = input(None, true, &ctx, &mut vm).unwrap();
    match step {
        InputStep::Line(line) => assert_eq!(vm.str_value(line).unwrap(), "last"),
        InputStep::Terminal => panic!("the descriptors are not those of the terminal"),
    }
    assert!(vm.elements(s.written).is_empty());
}

#[test]
fn input_goes_to_the_terminal_for_its_own_streams() {
    let mut vm = Vm::new();
    let ctx = context(&mut vm);
    let s = streams(&mut vm, &ctx, 0, 1, "unused\n");
    let prompt = vm.new_str("? ");
    assert_eq!(input(Some(prompt), true, &ctx, &mut vm), Ok(InputStep::Terminal));
    assert!(vm.elements(s.written).is_empty());
    let other = streams(&mut vm, &ctx, 0, 7, "line\n");
    assert!(matches!(input(None, true, &ctx, &mut vm), Ok(InputStep::Line(_))));
    assert!(vm.elements(other.written).is_empty());
}

#[test]
fn input_ends_at_the_end_of_the_file() {
    let mut vm = Vm::new();
    let ctx = context(&mut vm);
    let s = streams(&mut vm, &ctx, 0, 1, "");
    let err = input(None, false, &ctx, &mut vm).unwrap_err();
    assert_eq!(err, Error::EndOfFile);
    assert_eq!(err.kind(), ErrorKind::EofError);
    assert_eq!(vm.message(&err), "EOF when reading a line");
    let seven = vm.new_int(7);
    let readline = vm.new_function(Routine::Return(seven));
    vm.set_attr(s.stdin, "readline", readline);
    let err = input(None, false, &ctx, &mut vm).unwrap_err();
    assert_eq!(vm.message(&err), "object.readline() returned non-string");
    assert!(vm.del_attr(s.stdin, "readline"));
    let err = input(None, false, &ctx, &mut vm).unwrap_err();
    assert_eq!(err, Error::MissingMethod { class: object_type(), method: Method::Readline });
    assert_eq!(vm.message(&err), "'object' object has no attribute 'readline'");
    assert!(vm.del_attr(s.stdout, "write"));
    let prompt = vm.new_str("? ");
    let err = input(Some(prompt), false, &ctx, &mut vm).unwrap_err();
    assert_eq!(err, Error::MissingMethod { class: object_type(), method: Method::Write });
}

#[test]
fn terminal_results_become_lines_and_errors() {
    let mut vm = Vm::new();
    let line = input_finish(ReadlineResult::Line("typed".to_string()), &mut vm).unwrap();
    assert_eq!(vm.str_value(line).unwrap(), "typed");
    let line = input_finish(ReadlineResult::Line("typed\n\n".to_string()), &mut vm).unwrap();
    assert_eq!(vm.str_value(line).unwrap(), "typed\n");
    let line = input_finish(ReadlineResult::Line("".to_string()), &mut vm).unwrap();
    assert_eq!(vm.str_value(line).unwrap(), "");
    let err = input_finish(ReadlineResult::Eof, &mut vm).unwrap_err();
    assert_eq!(err, Error::EndOfInput);
    assert_eq!(err.kind(), ErrorKind::EofError);
    assert_eq!(vm.message(&err), "");
    let err = input_finish(ReadlineResult::Interrupt, &mut vm).unwrap_err();
    assert_eq!(err.kind(), ErrorKind::KeyboardInterrupt);
    let err = input_finish(ReadlineResult::Io("broken pipe".to_string()), &mut vm).unwrap_err();
    assert_eq!(err.kind(), ErrorKind::OsError);
    assert_eq!(vm.message(&err), "broken pipe");
    let err = input_finish(ReadlineResult::Other("odd".to_string()), &mut vm).unwrap_err();
    assert_eq!(err.kind(), ErrorKind::RuntimeError);
    assert_eq!(vm.message(&err), "odd");
}

fn flags() -> SymbolFlags {
    SymbolFlags {
        referenced: false,
        assigned: false,
        parameter: false,
        annotated: false,
        imported: false,
        nonlocal: false,
        iter: false,
    }
}

fn symbol(name: &str, scope: SymbolScope, flags: SymbolFlags) -> Symbol {
    Symbol { name: name.to_string(), scope, flags }
}

fn table(name: &str, typ: CompilerScope, symbols: Vec<Symbol>, sub: Vec<SymbolTable>) -> SymbolTable {
    SymbolTable {
        name: name.to_string(),
        typ,
        line_number: 3,
        is_nested: false,
        symbols,
        sub_tables: sub,
    }
}

fn sample() -> SymbolTable {
    let f1 = table("f", CompilerScope::Function, vec![], vec![]);
    let g = table("g", CompilerScope::AsyncFunction, vec![], vec![]);
    let f2 = table("f", CompilerScope::Class, vec![], vec![]);
    table(
        "top",
        CompilerScope::Module,
        vec![
            symbol("f", SymbolScope::Local, SymbolFlags { assigned: true, ..flags() }),
            symbol("os", SymbolScope::GlobalImplicit, SymbolFlags { imported: true, ..flags() }),
            symbol("x", SymbolScope::Free, SymbolFlags { referenced: true, ..flags() }),
            symbol("g", SymbolScope::GlobalExplicit, SymbolFlags { annotated: true, ..flags() }),
        ],
        vec![f1, g, f2],
    )
}

#[test]
fn a_symbol_table_answers_for_itself() {
    let top = sample();
    let t = to_py_symbol_table(&top);
    assert_eq!(t.get_name(), "top");
    assert_eq!(t.get_type(), "module");
    assert_eq!(t.get_lineno(), 3);
    assert!(!t.is_nested());
    assert!(!t.is_optimized());
    assert!(t.has_children());
    assert_eq!(t.get_identifiers(), vec!["f", "os", "x", "g"]);
    let children = t.get_children();
    assert_eq!(children.len(), 3);
    assert_eq!(children[0].get_type(), "function");
    assert!(children[0].is_optimized());
    assert_eq!(children[1].get_type(), "async function");
    assert!(children[1].is_optimized());
    assert_eq!(children[2].get_type(), "class");
    assert!(!children[2].is_optimized());
    assert!(!children[2].has_children());
}

#[test]
fn lookup_finds_a_symbol_and_its_blocks() {
    let top = sample();
    let t = to_py_symbol_table(&top);
    let f = t.lookup("f").unwrap();
    assert_eq!(f.get_name(), "f");
    assert!(f.is_namespace());
    let blocks = f.get_namespaces();
    assert_eq!(blocks.len(), 2);
    assert_eq!(blocks[0].get_type(), "function");
    assert_eq!(blocks[1].get_type(), "class");
    assert_eq!(f.get_namespace().unwrap_err(), SymtableError::NotOneNamespace);
    let g = t.lookup("g").unwrap();
    assert_eq!(g.get_namespace().unwrap().get_type(), "async function");
    let x = t.lookup("x").unwrap();
    assert!(!x.is_namespace());
    assert_eq!(x.get_namespace().unwrap_err(), SymtableError::NotOneNamespace);
    assert_eq!(t.lookup("y").unwrap_err(), SymtableError::LookupFailed);
    assert_eq!(lookup_failed_message("y"), "lookup y failed");
    assert_eq!(not_one_namespace_message(), "namespace is bound to multiple namespaces");
    assert_eq!(namespaces_of(&top, "g").len(), 1);
    assert_eq!(namespaces_of(&top, "h").len(), 0);
}

#[test]
fn symbols_answer_for_their_scope_and_flags() {
    let top = sample();
    let t = to_py_symbol_table(&top);
    let symbols = t.get_symbols();
    assert_eq!(symbols.len(), 4);
    let (f, os, x, g) = (&symbols[0], &symbols[1], &symbols[2], &symbols[3]);
    assert!(f.is_local() && f.is_global() && f.is_assigned());
    assert!(!f.is_declared_global() && !f.is_free() && !f.is_nested());
    assert!(os.is_global() && os.is_imported() && os.is_local());
    assert!(x.is_free() && x.is_referenced());
    assert!(!x.is_global() && !x.is_local() && !x.is_parameter() && !x.is_nonlocal());
    assert!(g.is_declared_global() && g.is_global() && g.is_annotated());
    assert!(!g.is_local());
}

#[test]
fn bound_names_count_as_local_and_global_in_the_top_block_only() {
    let inner = table(
        "f",
        CompilerScope::Function,
        vec![symbol("p", SymbolScope::Free, SymbolFlags { parameter: true, ..flags() })],
        vec![],
    );
    let t = to_py_symbol_table(&inner);
    let p = t.lookup("p").unwrap();
    assert!(p.is_parameter());
    assert!(!p.is_local() && !p.is_global());
    let top = table(
        "top",
        CompilerScope::Module,
        vec![symbol("p", SymbolScope::Free, SymbolFlags { iter: true, ..flags() })],
        vec![],
    );
    let t = to_py_symbol_table(&top);
    let p = t.lookup("p").unwrap();
    assert!(p.is_local() && p.is_global());
}
