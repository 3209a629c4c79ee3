//! What `compile` decides before any compiler runs: how far the code is
//! optimized, what the source is, which flags it takes, and whether the
//! source is to be compiled or only parsed.

use vstd::prelude::*;

use crate::error::Error;
use crate::heap::Heap;
use crate::object::{ObjRef, Payload, PayloadView};
use crate::outside::{decode_text, is_zero, lemma_valid_up_to, str_eq};
use crate::scope::{Context, Either};
use crate::vm::Vm;

verus! {

/// The ways in which the compiler takes source.
#[derive(Clone, Copy, Debug, PartialEq, Eq, Structural)]
pub enum Mode {
    Exec,
    Eval,
    Single,
}

/// The ways in which the parser takes source.
#[derive(Clone, Copy, Debug, PartialEq, Eq, Structural)]
pub enum ParseMode {
    Module,
    Expression,
    Ipython,
}

/// The mode of the compiler that a text names.
pub open spec fn spec_compiler_mode(s: Seq<char>) -> Result<Mode, Error> {
    if s == "exec"@ {
        Ok(Mode::Exec)
    } else if s == "eval"@ {
        Ok(Mode::Eval)
    } else if s == "single"@ {
        Ok(Mode::Single)
    } else {
        Err(Error::CompileMode)
    }
}

/// The mode of the parser that a text names: statements for `exec` and
/// `single`, an expression for `eval`.
pub open spec fn spec_parser_mode(s: Seq<char>) -> Result<ParseMode, Error> {
    if s == "exec"@ || s == "single"@ {
        Ok(ParseMode::Module)
    } else if s == "eval"@ {
        Ok(ParseMode::Expression)
    } else if s == "ipython"@ {
        Ok(ParseMode::Ipython)
    } else {
        Err(Error::ParseMode)
    }
}

/// The mode of the compiler that `s` names.
pub fn compiler_mode(s: &str) -> (r: Result<Mode, Error>)
    ensures
        r == spec_compiler_mode(s@),
{
    if str_eq(s, "exec") {
        Ok(Mode::Exec)
    } else if str_eq(s, "eval") {
        Ok(Mode::Eval)
    } else if str_eq(s, "single") {
        Ok(Mode::Single)
    } else {
        Err(Error::CompileMode)
    }
}

/// The mode of the parser that `s` names.
pub fn parser_mode(s: &str) -> (r: Result<ParseMode, Error>)
    ensures
        r == spec_parser_mode(s@),
{
    if str_eq(s, "exec") || str_eq(s, "single") {
        Ok(ParseMode::Module)
    } else if str_eq(s, "eval") {
        Ok(ParseMode::Expression)
    } else if str_eq(s, "ipython") {
        Ok(ParseMode::Ipython)
    } else {
        Err(Error::ParseMode)
    }
}

/// What the runtime knows of its syntax trees: the type that every node of
/// a tree is an instance of, the flags that a compilation may carry, and
/// among them the flag that asks for the tree only and the flag that lets
/// incomplete input pass.
#[derive(Clone, Copy, Debug)]
pub struct CompileSettings {
    pub node_class: ObjRef,
    pub flags_mask: i32,
    pub ast_only: i32,
    pub allow_incomplete: i32,
}

/// The arguments of `compile`.
#[derive(Debug)]
pub struct CompileArgs {
    /// The bytes of a source text, or an object: a string, or a node of a
    /// syntax tree.
    pub source: Either<Vec<u8>, ObjRef>,
    pub filename: String,
    pub mode: String,
    pub flags: Option<ObjRef>,
    pub dont_inherit: Option<bool>,
    pub optimize: Option<ObjRef>,
    pub feature_version: Option<i32>,
}

/// What is to be done for a compilation.
#[derive(Debug)]
pub enum CompileRequest {
    /// Compile the syntax tree under `node`.
    Tree { node: ObjRef, mode: Mode, optimize: u8 },
    /// Compile the source text.
    Text { source: String, mode: Mode, optimize: u8, allow_incomplete: bool },
    /// Parse the source text and hand back its syntax tree.
    Parse { source: String, parse_mode: ParseMode, allow_incomplete: bool },
}

pub enum CompileRequestView {
    Tree { node: ObjRef, mode: Mode, optimize: u8 },
    Text { source: Seq<char>, mode: Mode, optimize: u8, allow_incomplete: bool },
    Parse { source: Seq<char>, parse_mode: ParseMode, allow_incomplete: bool },
}

impl View for CompileRequest {
    type V = CompileRequestView;

    open spec fn view(&self) -> CompileRequestView {
        match self {
            CompileRequest::Tree { node, mode, optimize } => CompileRequestView::Tree {
                node: *node,
                mode: *mode,
                optimize: *optimize,
            },
            CompileRequest::Text { source, mode, optimize, allow_incomplete } => {
                CompileRequestView::Text {
                    source: source@,
                    mode: *mode,
                    optimize: *optimize,
                    allow_incomplete: *allow_incomplete,
                }
            },
            CompileRequest::Parse { source, parse_mode, allow_incomplete } => {
                CompileRequestView::Parse {
                    source: source@,
                    parse_mode: *parse_mode,
                    allow_incomplete: *allow_incomplete,
                }
            },
        }
    }
}

impl Heap {
    /// The 32-bit integer that an optional argument holds, or `fallback`
    /// where it is not given.
    pub open spec fn small_integer(self, arg: Option<ObjRef>, fallback: i32) -> Result<i32, Error> {
        match arg {
            None => Ok(fallback),
            Some(o) => match self.integer(o) {
                Err(e) => Err(e),
                Ok(v) => if i32::MIN <= v <= i32::MAX {
                    Ok(v as i32)
                } else {
                    Err(Error::IntegerOverflow)
                },
            },
        }
    }

    /// How far the code is optimized: as the runtime is set where the
    /// argument is not given or -1, else as the argument says, which must
    /// then be a number from 0 to 255.
    pub open spec fn optimize_level(self, arg: Option<ObjRef>, set: u8) -> Result<u8, Error> {
        match self.small_integer(arg, -1i32) {
            Err(e) => Err(e),
            Ok(v) => if v == -1 {
                Ok(set)
            } else if 0 <= v <= u8::MAX {
                Ok(v as u8)
            } else {
                Err(Error::CompileOptimize)
            },
        }
    }

    /// The text of a source: decoded from the bytes, or the text of the
    /// string object.
    pub open spec fn source_text(self, source: Either<Seq<u8>, ObjRef>) -> Result<
        Seq<char>,
        Error,
    > {
        match source {
            Either::A(bytes) => if vstd::utf8::valid_utf8(bytes) {
                Ok(vstd::utf8::decode_utf8(bytes))
            } else {
                Err(
                    Error::UndecodableSource {
                        position: crate::outside::utf8_valid_up_to(bytes),
                    },
                )
            },
            Either::B(o) => match self.payload(o) {
                PayloadView::Str(s) => Ok(s),
                _ => Err(Error::CompileSource { class: self.class_of(o) }),
            },
        }
    }

    /// What a compilation comes to. The level of optimization is settled
    /// first. A source that is a node of a syntax tree is compiled as a
    /// tree. Any other source must be text; its flags must lie within the
    /// mask; and it is compiled, or, where the flags ask for the tree only,
    /// parsed. The mode is read as the compiler or the parser reads it.
    pub open spec fn compile_request(
        self,
        source: Either<Seq<u8>, ObjRef>,
        mode: Seq<char>,
        flags: Option<ObjRef>,
        optimize: Option<ObjRef>,
        set: u8,
        settings: CompileSettings,
    ) -> Result<CompileRequestView, Error> {
        match self.optimize_level(optimize, set) {
            Err(e) => Err(e),
            Ok(level) => if source matches Either::B(o) && self.is_instance(
                o,
                settings.node_class,
            ) {
                match spec_compiler_mode(mode) {
                    Err(e) => Err(e),
                    Ok(m) => Ok(
                        CompileRequestView::Tree { node: source->B_0, mode: m, optimize: level },
                    ),
                }
            } else {
                match self.source_text(source) {
                    Err(e) => Err(e),
                    Ok(text) => match self.small_integer(flags, 0) {
                        Err(e) => Err(e),
                        Ok(f) => if f & !settings.flags_mask != 0 {
                            Err(Error::CompileFlags)
                        } else if f & settings.ast_only == 0 {
                            match spec_compiler_mode(mode) {
                                Err(e) => Err(e),
                                Ok(m) => Ok(
                                    CompileRequestView::Text {
                                        source: text,
                                        mode: m,
                                        optimize: level,
                                        allow_incomplete: f & settings.allow_incomplete != 0,
                                    },
                                ),
                            }
                        } else {
                            match spec_parser_mode(mode) {
                                Err(e) => Err(e),
                                Ok(m) => Ok(
                                    CompileRequestView::Parse {
                                        source: text,
                                        parse_mode: m,
                                        allow_incomplete: f & settings.allow_incomplete != 0,
                                    },
                                ),
                            }
                        },
                    },
                }
            },
        }
    }
}

/// The view of a source.
pub open spec fn source_view(source: Either<Vec<u8>, ObjRef>) -> Either<Seq<u8>, ObjRef> {
    match source {
        Either::A(bytes) => Either::A(bytes@),
        Either::B(o) => Either::B(o),
    }
}

impl Vm {
    /// The 32-bit integer that an optional argument holds.
    pub fn small_integer(&self, arg: Option<ObjRef>, fallback: i32) -> (r: Result<i32, Error>)
        ensures
            r == self@.small_integer(arg, fallback),
    {
        match arg {
            None => Ok(fallback),
            Some(o) => match self.integer(o) {
                Err(e) => Err(e),
                Ok(v) => if v >= i32::MIN as i64 && v <= i32::MAX as i64 {
                    Ok(v as i32)
                } else {
                    Err(Error::IntegerOverflow)
                },
            },
        }
    }

    /// How far the code is optimized.
    pub fn optimize_level(&self, arg: Option<ObjRef>, set: u8) -> (r: Result<u8, Error>)
        ensures
            r == self@.optimize_level(arg, set),
    {
        match self.small_integer(arg, -1) {
            Err(e) => Err(e),
            Ok(v) => if v == -1 {
                Ok(set)
            } else if v >= 0 && v <= u8::MAX as i32 {
                Ok(v as u8)
            } else {
                Err(Error::CompileOptimize)
            },
        }
    }

    /// The text of a source.
    pub fn source_text(&self, source: &Either<Vec<u8>, ObjRef>) -> (r: Result<String, Error>)
        ensures
            match (r, self@.source_text(source_view(*source))) {
                (Ok(s), Ok(text)) => s@ == text,
                (Err(e), Err(f)) => e == f,
                _ => false,
            },
    {
        match source {
            Either::A(bytes) => match decode_text(bytes.as_slice()) {
                Ok(text) => Ok(text),
                Err(position) => {
                    proof {
                        lemma_valid_up_to(bytes@, position);
                    }
                    Err(Error::UndecodableSource { position })
                },
            },
            Either::B(o) => match self.payload(*o) {
                Some(Payload::Str(s)) => Ok(s.clone()),
                _ => Err(Error::CompileSource { class: self.class_of(*o) }),
            },
        }
    }
}

/// Decides what a compilation is to do. Nothing is compiled here: the
/// request that comes back says what the compiler or the parser is to be
/// given.
pub fn compile(args: CompileArgs, ctx: &Context, settings: &CompileSettings, vm: &Vm) -> (r:
    Result<CompileRequest, Error>)
    ensures
        match (
            r,
            vm@.compile_request(
                source_view(args.source),
                args.mode@,
                args.flags,
                args.optimize,
                ctx.optimize,
                *settings,
            ),
        ) {
            (Ok(request), Ok(expected)) => request@ == expected,
            (Err(e), Err(f)) => e == f,
            _ => false,
        },
{
    let optimize = match vm.optimize_level(args.optimize, ctx.optimize) {
        Ok(level) => level,
        Err(e) => {
            return Err(e);
        },
    };
    match args.source {
        Either::B(o) => {
            if vm.is_instance(o, settings.node_class) {
                return match compiler_mode(args.mode.as_str()) {
                    Ok(mode) => Ok(CompileRequest::Tree { node: o, mode, optimize }),
                    Err(e) => Err(e),
                };
            }
        },
        Either::A(_) => {},
    }
    let source = match vm.source_text(&args.source) {
        Ok(text) => text,
        Err(e) => {
            return Err(e);
        },
    };
    let flags = match vm.small_integer(args.flags, 0) {
        Ok(f) => f,
        Err(e) => {
            return Err(e);
        },
    };
    if !is_zero(flags & !settings.flags_mask) {
        return Err(Error::CompileFlags);
    }
    let allow_incomplete = !is_zero(flags & settings.allow_incomplete);
    if is_zero(flags & settings.ast_only) {
        match compiler_mode(args.mode.as_str()) {
            Ok(mode) => Ok(CompileRequest::Text { source, mode, optimize, allow_incomplete }),
            Err(e) => Err(e),
        }
    } else {
        match parser_mode(args.mode.as_str()) {
            Ok(parse_mode) => Ok(CompileRequest::Parse { source, parse_mode, allow_incomplete }),
            Err(e) => Err(e),
        }
    }
}

} // verus!
