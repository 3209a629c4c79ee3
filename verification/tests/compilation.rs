use pyprotocol::compile::{
    compile, compiler_mode, parser_mode, CompileArgs, CompileRequest, CompileSettings, Mode,
    ParseMode,
};
use pyprotocol::error::{Error, ErrorKind};
use pyprotocol::make::type_type;
use pyprotocol::object::{ObjRef, Payload, Routine, Slots};
use pyprotocol::protocol::ArgMapping;
use pyprotocol::scope::{Context, Either, Frame};
use pyprotocol::symtable::symtable;
use pyprotocol::vm::Vm;

const AST_ONLY: i32 = 0x400;
const ALLOW_INCOMPLETE: i32 = 0x4000;
const MASK: i32 = 0x4600;

struct World {
    vm: Vm,
    ctx: Context,
    settings: CompileSettings,
}

fn world(optimize: u8) -> World {
    let mut vm = Vm::new();
    let globals = vm.new_dict();
    let locals = vm.new_dict();
    let builtins = vm.new_dict();
    let sys_module = vm.new_module();
    let import_func = vm.new_function(Routine::Argument(0));
    let node_class = vm.new_type(type_type(), "AST", vec![], Slots::empty()).unwrap();
    let ctx = Context {
        frame: Frame { globals, locals: ArgMapping::from_dict_exact(locals) },
        builtins,
        sys_module,
        import_func,
        optimize,
    };
    let settings = CompileSettings {
        node_class,
        flags_mask: MASK,
        ast_only: AST_ONLY,
        allow_incomplete: ALLOW_INCOMPLETE,
    };
    World { vm, ctx, settings }
}

fn text_args(source: &str, mode: &str) -> CompileArgs {
    CompileArgs {
        source: Either::A(source.as_bytes().to_vec()),
        filename: "<test>".to_string(),
        mode: mode.to_string(),
        flags: None,
        dont_inherit: None,
        optimize: None,
        feature_version: None,
    }
}

#[test]
fn modes_are_read_as_the_compiler_and_the_parser_read_them() {
    assert_eq!(compiler_mode("exec"), Ok(Mode::Exec));
    assert_eq!(compiler_mode("eval"), Ok(Mode::Eval));
    assert_eq!(compiler_mode("single"), Ok(Mode::Single));
    assert_eq!(compiler_mode("ipython"), Err(Error::CompileMode));
    assert_eq!(compiler_mode(""), Err(Error::CompileMode));
    assert_eq!(parser_mode("exec"), Ok(ParseMode::Module));
    assert_eq!(parser_mode("single"), Ok(ParseMode::Module));
    assert_eq!(parser_mode("eval"), Ok(ParseMode::Expression));
    assert_eq!(parser_mode("ipython"), Ok(ParseMode::Ipython));
    assert_eq!(parser_mode("Exec"), Err(Error::ParseMode));
    let vm = Vm::new();
    assert_eq!(Error::CompileMode.kind(), ErrorKind::ValueError);
    assert_eq!(vm.message(&Error::CompileMode), "mode must be \"exec\", \"eval\", or \"single\"");
    assert_eq!(
        vm.message(&Error::ParseMode),
        "mode must be \"exec\", \"eval\", \"ipython\", or \"single\""
    );
}

#[test]
fn source_text_is_compiled_by_default() {
    let w = world(1);
    match compile(text_args("x = 1", "exec"), &w.ctx, &w.settings, &w.vm).unwrap() {
        CompileRequest::Text { source, mode, optimize, allow_incomplete } => {
            assert_eq!(source, "x = 1");
            assert_eq!(mode, Mode::Exec);
            assert_eq!(optimize, 1);
            assert!(!allow_incomplete);
        }
        other => panic!("another request: {:?}", other),
    }
    let err = compile(text_args("x", "ipython"), &w.ctx, &w.settings, &w.vm).unwrap_err();
    assert_eq!(err, Error::CompileMode);
}

#[test]
fn flags_choose_between_compiling_and_parsing() {
    let mut w = world(0);
    let flags = w.vm.new_int((AST_ONLY | ALLOW_INCOMPLETE) as i64);
    let mut args = text_args("1 +", "eval");
    args.flags = Some(flags);
    match compile(args, &w.ctx, &w.settings, &w.vm).unwrap() {
        CompileRequest::Parse { source, parse_mode, allow_incomplete } => {
            assert_eq!(source, "1 +");
            assert_eq!(parse_mode, ParseMode::Expression);
            assert!(allow_incomplete);
        }
        other => panic!("another request: {:?}", other),
    }
    let mut args = text_args("1", "ipython");
    args.flags = Some(w.vm.new_int(AST_ONLY as i64));
    assert!(matches!(
        compile(args, &w.ctx, &w.settings, &w.vm),
        Ok(CompileRequest::Parse { parse_mode: ParseMode::Ipython, allow_incomplete: false, .. })
    ));
    let mut args = text_args("1", "eval");
    args.flags = Some(w.vm.new_int(ALLOW_INCOMPLETE as i64));
    assert!(matches!(
        compile(args, &w.ctx, &w.settings, &w.vm),
        Ok(CompileRequest::Text { mode: Mode::Eval, allow_incomplete: true, .. })
    ));
    let mut args = text_args("1", "eval");
    args.flags = Some(w.vm.new_int(1));
    let err = compile(args, &w.ctx, &w.settings, &w.vm).unwrap_err();
    assert_eq!(err, Error::CompileFlags);
    assert_eq!(w.vm.message(&err), "compile() unrecognized flags");
    let mut args = text_args("1", "eval");
    args.flags = Some(w.vm.new_int(1 << 40));
    assert_eq!(compile(args, &w.ctx, &w.settings, &w.vm).unwrap_err(), Error::IntegerOverflow);
    let mut args = text_args("1", "eval");
    args.flags = Some(w.vm.new_str("x"));
    assert!(matches!(
        compile(args, &w.ctx, &w.settings, &w.vm),
        Err(Error::NotAnInteger { .. })
    ));
}

#[test]
fn the_level_of_optimization_is_settled_first() {
    let mut w = world(2);
    for (given, expected) in [(-1, Ok(2)), (0, Ok(0)), (255, Ok(255)), (256, Err(())), (-2, Err(()))] {
        let mut args = text_args("1", "nonsense");
        args.optimize = Some(w.vm.new_int(given));
        let r = compile(args, &w.ctx, &w.settings, &w.vm);
        match expected {
            Ok(_) => assert_eq!(r.unwrap_err(), Error::CompileMode),
            Err(()) => assert_eq!(r.unwrap_err(), Error::CompileOptimize),
        }
        let mut args = text_args("1", "exec");
        args.optimize = Some(w.vm.new_int(given));
        match (compile(args, &w.ctx, &w.settings, &w.vm), expected) {
            (Ok(CompileRequest::Text { optimize, .. }), Ok(level)) => assert_eq!(optimize, level),
            (Err(e), Err(())) => assert_eq!(w.vm.message(&e), "compile() optimize value invalid"),
            (other, _) => panic!("another outcome: {:?}", other),
        }
    }
    let mut args = text_args("1", "exec");
    args.optimize = Some(w.vm.new_int(i64::MAX));
    assert_eq!(compile(args, &w.ctx, &w.settings, &w.vm).unwrap_err(), Error::IntegerOverflow);
}

#[test]
fn a_syntax_tree_is_compiled_as_a_tree() {
    let mut w = world(0);
    let node = w.vm.new_object(w.settings.node_class, Payload::Instance);
    let mut args = text_args("", "single");
    args.source = Either::B(node);
    args.flags = Some(w.vm.new_int(1));
    match compile(args, &w.ctx, &w.settings, &w.vm).unwrap() {
        CompileRequest::Tree { node: n, mode, optimize } => {
            assert_eq!((n, mode, optimize), (node, Mode::Single, 0));
        }
        other => panic!("another request: {:?}", other),
    }
    let mut args = text_args("", "ipython");
    args.source = Either::B(node);
    assert_eq!(compile(args, &w.ctx, &w.settings, &w.vm).unwrap_err(), Error::CompileMode);
}

#[test]
fn a_source_is_text_or_a_tree() {
    let mut w = world(0);
    let text = w.vm.new_str("pass");
    let mut args = text_args("", "exec");
    args.source = Either::B(text);
    assert!(matches!(
        compile(args, &w.ctx, &w.settings, &w.vm),
        Ok(CompileRequest::Text { mode: Mode::Exec, .. })
    ));
    let n = w.vm.new_int(1);
    let mut args = text_args("", "exec");
    args.source = Either::B(n);
    let err = compile(args, &w.ctx, &w.settings, &w.vm).unwrap_err();
    assert_eq!(err, Error::CompileSource { class: ObjRef { id: pyprotocol::heap::INT_TYPE } });
    assert_eq!(
        w.vm.message(&err),
        "compile() arg 1 must be a string, bytes or AST object, not int"
    );
    let mut args = text_args("", "exec");
    args.source = Either::A(vec![b'a', b'b', 0xc3]);
    let err = compile(args, &w.ctx, &w.settings, &w.vm).unwrap_err();
    assert_eq!(err, Error::UndecodableSource { position: 2 });
    assert_eq!(err.kind(), ErrorKind::UnicodeDecodeError);
    assert_eq!(w.vm.message(&err), "invalid utf-8 sequence from index 2");
}

#[test]
fn a_symbol_table_is_asked_for_under_a_mode_of_the_compiler() {
    let request = symtable("x = 1", "<test>", "exec").unwrap();
    assert_eq!(request.source, "x = 1");
    assert_eq!(request.filename, "<test>");
    assert_eq!(request.mode, Mode::Exec);
    assert_eq!(symtable("x", "f", "ipython").unwrap_err(), Error::CompileMode);
}
