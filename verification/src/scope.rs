//! The built-in functions that work on the running program: its scopes,
//! the evaluation of code objects, and the hooks of the system module.

use vstd::prelude::*;

use crate::compile::Mode;
use crate::error::{Error, ScopeUser};
use crate::heap::{lookup, Heap, DICT_TYPE, STR_TYPE};
use crate::object::{ArgsView, FuncArgs, MappingMethods, ObjRef, Payload, PayloadView};
use crate::protocol::ArgMapping;
use crate::outside::{
    decode_text, lemma_valid_up_to, trim_start, trimmed_start, utf8_valid_up_to,
};
use crate::vm::Vm;

verus! {

/// The entry of a global namespace that holds the built-in namespace.
pub const BUILTINS: &'static str = "__builtins__";

/// The attribute that holds the namespace of an object.
pub const DICT: &'static str = "__dict__";

/// The attribute of the system module that holds the breakpoint hook.
pub const BREAKPOINTHOOK: &'static str = "breakpointhook";

/// The attribute of a code object that holds the names of its free
/// variables.
pub const FREEVARS: &'static str = "co_freevars";

/// One of two values.
#[derive(Debug)]
pub enum Either<A, B> {
    A(A),
    B(B),
}

/// The namespaces of the code that is running.
#[derive(Clone, Copy, Debug)]
pub struct Frame {
    pub globals: ObjRef,
    pub locals: ArgMapping,
}

/// What the runtime knows besides its objects: the running frame, the
/// built-in namespace, the system module, the import function, and the
/// optimization level.
#[derive(Clone, Copy, Debug)]
pub struct Context {
    pub frame: Frame,
    pub builtins: ObjRef,
    pub sys_module: ObjRef,
    pub import_func: ObjRef,
    pub optimize: u8,
}

/// The global and local namespaces that code runs in.
#[derive(Clone, Copy, Debug, PartialEq, Eq, Structural)]
pub struct Scope {
    pub locals: ArgMapping,
    pub globals: ObjRef,
}

/// What running a source came to.
#[derive(Clone, Copy, Debug, PartialEq, Eq, Structural)]
pub enum Run {
    /// The code ran, and this is what it gave.
    Done(ObjRef),
    /// The source is text, which has to be compiled first: the string
    /// object `source` in the mode `mode`, under the file name `<string>`.
    /// The code object that comes of it is then run by `run_code`, in
    /// `scope` and for `user`. A runtime without a compiler fails here.
    Compile { source: ObjRef, mode: Mode, scope: Scope, user: ScopeUser },
}

/// The mode in which the text given to `eval` or `exec` is compiled.
pub open spec fn spec_mode_of(user: ScopeUser) -> Mode {
    match user {
        ScopeUser::Eval => Mode::Eval,
        ScopeUser::Exec => Mode::Exec,
    }
}

#[verifier::when_used_as_spec(spec_mode_of)]
pub fn mode_of(user: ScopeUser) -> (r: Mode)
    ensures
        r == spec_mode_of(user),
{
    match user {
        ScopeUser::Eval => Mode::Eval,
        ScopeUser::Exec => Mode::Exec,
    }
}

impl Run {
    /// Whether every object that the outcome names lies in the arena.
    pub open spec fn within(self, heap: Heap) -> bool {
        match self {
            Run::Done(o) => heap.has(o),
            Run::Compile { source, scope, .. } => heap.has(source) && scope.within(heap),
        }
    }
}

/// The namespaces given to `eval` and `exec`.
#[derive(Clone, Copy, Debug)]
pub struct ScopeArgs {
    pub globals: Option<ObjRef>,
    pub locals: Option<ArgMapping>,
}

impl Context {
    /// Whether every object that the context names lies in the arena.
    pub open spec fn within(self, heap: Heap) -> bool {
        &&& heap.has(self.frame.globals)
        &&& heap.has(self.frame.locals.target())
        &&& heap.has(self.builtins)
        &&& heap.has(self.sys_module)
        &&& heap.has(self.import_func)
    }
}

impl Scope {
    /// Whether both namespaces lie in the arena.
    pub open spec fn within(self, heap: Heap) -> bool {
        heap.has(self.globals) && heap.has(self.locals.target())
    }
}

impl ScopeArgs {
    /// Whether the namespaces that are given lie in the arena.
    pub open spec fn within(self, heap: Heap) -> bool {
        heap.has_some(self.globals) && (self.locals matches Some(m) ==> heap.has(m.target()))
    }
}

/// The methods of a plain dictionary.
pub open spec fn dict_methods() -> MappingMethods {
    MappingMethods { length: true, subscript: true, ass_subscript: true }
}

/// The object and the methods of the local namespace that is chosen: the
/// given one, or else the fallback.
pub open spec fn chosen_locals(
    locals: Option<ArgMapping>,
    fallback: ObjRef,
    methods: MappingMethods,
) -> (ObjRef, MappingMethods) {
    match locals {
        Some(l) => (l.target(), l.resolved()),
        None => (fallback, methods),
    }
}

impl Heap {
    /// Makes sure that the global namespace holds the built-in namespace:
    /// where it has no entry for it, one is stored.
    pub open spec fn with_builtins(self, globals: ObjRef, builtins: ObjRef) -> (
        Heap,
        Result<(), Error>,
    ) {
        if lookup(self.entries(globals), BUILTINS@) is Some {
            (self, Ok(()))
        } else {
            self.set_item(globals, BUILTINS@, builtins)
        }
    }

    /// The scope that `eval` or `exec` runs in: its globals, and the object
    /// and methods of its locals. Given globals must be a dictionary; the
    /// locals then default to the globals. Without given globals those of
    /// the running frame are taken, and the locals default to those of the
    /// frame. Either way the globals get the built-in namespace.
    pub open spec fn make_scope(self, args: ScopeArgs, ctx: Context, user: ScopeUser) -> (
        Heap,
        Result<(ObjRef, (ObjRef, MappingMethods)), Error>,
    ) {
        match args.globals {
            Some(g) => if !self.is_instance(g, ObjRef { id: DICT_TYPE }) {
                (
                    self,
                    Err(
                        Error::GlobalsNotDict {
                            user,
                            mapping: self.mapping_plan(g) is Ok,
                            class: self.class_of(g),
                        },
                    ),
                )
            } else {
                let (h, r) = self.with_builtins(g, ctx.builtins);
                match r {
                    Err(e) => (h, Err(e)),
                    Ok(()) => (h, Ok((g, chosen_locals(args.locals, g, dict_methods())))),
                }
            },
            None => {
                let (h, r) = self.with_builtins(ctx.frame.globals, ctx.builtins);
                match r {
                    Err(e) => (h, Err(e)),
                    Ok(()) => (
                        h,
                        Ok(
                            (
                                ctx.frame.globals,
                                chosen_locals(
                                    args.locals,
                                    ctx.frame.locals.target(),
                                    ctx.frame.locals.resolved(),
                                ),
                            ),
                        ),
                    ),
                }
            },
        }
    }

    /// Whether the code object `code` has free variables: its attribute
    /// `co_freevars` stores at least one.
    pub open spec fn has_free_variables(self, code: ObjRef) -> bool {
        match self.get_attr(code, FREEVARS@) {
            Some(names) => self.elements(names).len() > 0,
            None => false,
        }
    }

    /// Runs a source in a scope. Text, which must be a string object, is not
    /// run: it is handed out to be compiled, and nothing is changed. A code
    /// object must have no free
    /// variables; it runs with the locals of the scope.
    pub open spec fn run_code(self, source: Either<ObjRef, ObjRef>, scope: Scope, user: ScopeUser)
        -> (Heap, Result<Run, Error>) {
        match source {
            Either::A(text) => if self.payload(text) is Str {
                (self, Ok(Run::Compile { source: text, mode: spec_mode_of(user), scope, user }))
            } else {
                (self, Err(Error::CompileSource { class: self.class_of(text) }))
            },
            Either::B(code) => if self.has_free_variables(code) {
                (self, Err(Error::FreeVariables { user }))
            } else {
                let (h, r) = self.run_function(
                    code,
                    ArgsView::none(),
                    Some(scope.locals.target()),
                );
                (
                    h,
                    match r {
                        Ok(v) => Ok(Run::Done(v)),
                        Err(e) => Err(e),
                    },
                )
            },
        }
    }

    /// What evaluating source text gives once the scope stands: text with a
    /// null byte and text that is no UTF-8 are refused; otherwise the text
    /// without its leading white space becomes a new string, which is then
    /// run as a source.
    pub open spec fn eval_text(self, bytes: Seq<u8>, scope: Scope) -> (
        Heap,
        Result<Run, Error>,
    ) {
        if bytes.contains(0u8) {
            (self, Err(Error::NullBytes))
        } else if !vstd::utf8::valid_utf8(bytes) {
            (
                self,
                Err(
                    Error::SourceNotUtf8 {
                        byte: bytes[utf8_valid_up_to(bytes) as int],
                        position: utf8_valid_up_to(bytes),
                    },
                ),
            )
        } else {
            let text = self.next_ref();
            self.push(
                Heap::plain(
                    STR_TYPE,
                    PayloadView::Str(trimmed_start(vstd::utf8::decode_utf8(bytes))),
                ),
            ).run_code(Either::A(text), scope, ScopeUser::Eval)
        }
    }
}

impl Vm {
    /// Makes sure that the global namespace holds the built-in namespace.
    pub fn with_builtins(&mut self, globals: ObjRef, builtins: ObjRef) -> (r: Result<(), Error>)
        ensures
            (final(self)@, r) == old(self)@.with_builtins(globals, builtins),
            old(self)@.leads_to(final(self)@),
            old(self)@.intact() && old(self)@.has(globals) && old(self)@.has(builtins)
                ==> final(self)@.intact(),
    {
        let present = match self.payload(globals) {
            Some(Payload::Dict(entries)) => crate::lookup::lookup_entry(entries, BUILTINS).is_some(),
            _ => false,
        };
        if present {
            Ok(())
        } else {
            self.set_item(globals, BUILTINS, builtins)
        }
    }

    /// Whether the code object `code` has free variables.
    pub fn has_free_variables(&self, code: ObjRef) -> (r: bool)
        ensures
            r == self@.has_free_variables(code),
    {
        match self.get_attr(code, FREEVARS) {
            Some(names) => self.element_count(names) > 0,
            None => false,
        }
    }
}

impl ScopeArgs {
    /// The scope that `eval` or `exec` runs in.
    pub fn make_scope(self, ctx: &Context, vm: &mut Vm, user: ScopeUser) -> (r: Result<
        Scope,
        Error,
    >)
        ensures
            final(vm)@ == old(vm)@.make_scope(self, *ctx, user).0,
            match (r, old(vm)@.make_scope(self, *ctx, user).1) {
                (Ok(scope), Ok((globals, (locals, methods)))) => scope.globals == globals
                    && scope.locals.target() == locals && scope.locals.resolved() == methods,
                (Err(e), Err(f)) => e == f,
                _ => false,
            },
            old(vm)@.leads_to(final(vm)@),
            old(vm)@.intact() && self.within(old(vm)@) && ctx.within(old(vm)@)
                ==> final(vm)@.intact() && (r matches Ok(s) ==> s.within(final(vm)@)),
    {
        match self.globals {
            Some(globals) => {
                if !vm.is_instance(globals, ObjRef { id: DICT_TYPE }) {
                    let mapping = vm.mapping_plan_holds(globals);
                    return Err(
                        Error::GlobalsNotDict { user, mapping, class: vm.class_of(globals) },
                    );
                }
                match vm.with_builtins(globals, ctx.builtins) {
                    Ok(()) => {},
                    Err(e) => {
                        return Err(e);
                    },
                }
                let locals = match self.locals {
                    Some(l) => l,
                    None => ArgMapping::from_dict_exact(globals),
                };
                Ok(Scope { locals, globals })
            },
            None => {
                let globals = ctx.frame.globals;
                match vm.with_builtins(globals, ctx.builtins) {
                    Ok(()) => {},
                    Err(e) => {
                        return Err(e);
                    },
                }
                let locals = match self.locals {
                    Some(l) => l,
                    None => ctx.frame.locals,
                };
                Ok(Scope { locals, globals })
            },
        }
    }
}

impl Vm {
    /// Whether `o` would be bound as a mapping.
    pub fn mapping_plan_holds(&self, o: ObjRef) -> (r: bool)
        ensures
            r == (self@.mapping_plan(o) is Ok),
    {
        match self.mapping_methods(self.class_of(o)) {
            Some(m) => m.subscript,
            None => false,
        }
    }
}

/// Runs a source in a scope: a source text (`Either::A`), which is handed
/// out to be compiled, or a code object (`Either::B`), which must have no
/// free variables and is run.
pub fn run_code(vm: &mut Vm, source: Either<ObjRef, ObjRef>, scope: Scope, user: ScopeUser) -> (r:
    Result<Run, Error>)
    ensures
        (final(vm)@, r) == old(vm)@.run_code(source, scope, user),
        source is B ==> !(r matches Ok(Run::Compile { .. })),
        old(vm)@.leads_to(final(vm)@),
        old(vm)@.intact() && old(vm)@.has(match source { Either::A(o) => o, Either::B(o) => o })
            && scope.within(old(vm)@)
            ==> final(vm)@.intact() && (r matches Ok(run) ==> run.within(final(vm)@)),
{
    let code = match source {
        Either::A(text) => {
            let is_text = match vm.payload(text) {
                Some(Payload::Str(_)) => true,
                _ => false,
            };
            if !is_text {
                return Err(Error::CompileSource { class: vm.class_of(text) });
            }
            return Ok(Run::Compile { source: text, mode: mode_of(user), scope, user });
        },
        Either::B(code) => code,
    };
    if vm.has_free_variables(code) {
        return Err(Error::FreeVariables { user });
    }
    let args = FuncArgs { args: Vec::new(), kwargs: Vec::new() };
    match vm.run_function(code, &args, Some(scope.locals.as_object())) {
        Ok(v) => Ok(Run::Done(v)),
        Err(e) => Err(e),
    }
}

/// Whether `bytes` holds a null byte.
pub fn has_null(bytes: &Vec<u8>) -> (r: bool)
    ensures
        r == bytes@.contains(0u8),
{
    let mut i: usize = 0;
    while i < bytes.len()
        invariant
            i <= bytes.len(),
            forall|j: int| 0 <= j < i ==> bytes@[j] != 0u8,
        decreases bytes.len() - i,
    {
        if bytes[i] == 0 {
            return true;
        }
        i += 1;
    }
    false
}

/// Evaluates a source in the scope that `scope` describes: the bytes of a
/// source text (`Either::A`) or a code object (`Either::B`).
pub fn eval(source: Either<Vec<u8>, ObjRef>, scope: ScopeArgs, ctx: &Context, vm: &mut Vm) -> (r:
    Result<Run, Error>)
    ensures
        ({
            let (h, made) = old(vm)@.make_scope(scope, *ctx, ScopeUser::Eval);
            match made {
                Err(e) => final(vm)@ == h && r == Err::<Run, Error>(e),
                Ok((globals, (locals, methods))) => exists|made: Scope|
                    made.globals == globals && made.locals.target() == locals
                        && made.locals.resolved() == methods && match source {
                        Either::A(bytes) => (final(vm)@, r) == h.eval_text(bytes@, made),
                        Either::B(code) => (final(vm)@, r) == h.run_code(
                            Either::B(code),
                            made,
                            ScopeUser::Eval,
                        ),
                    },
            }
        }),
        old(vm)@.leads_to(final(vm)@),
        old(vm)@.intact() && (source matches Either::B(o) ==> old(vm)@.has(o))
            && scope.within(old(vm)@) && ctx.within(old(vm)@)
            ==> final(vm)@.intact() && (r matches Ok(run) ==> run.within(final(vm)@)),
{
    let scope = match scope.make_scope(ctx, vm, ScopeUser::Eval) {
        Ok(scope) => scope,
        Err(e) => {
            return Err(e);
        },
    };
    match source {
        Either::A(bytes) => {
            if has_null(&bytes) {
                return Err(Error::NullBytes);
            }
            let text = match decode_text(bytes.as_slice()) {
                Ok(text) => text,
                Err(position) => {
                    proof {
                        lemma_valid_up_to(bytes@, position);
                    }
                    return Err(Error::SourceNotUtf8 { byte: bytes[position], position });
                },
            };
            let trimmed = trim_start(text.as_str());
            let source = vm.new_str(trimmed.as_str());
            run_code(vm, Either::A(source), scope, ScopeUser::Eval)
        },
        Either::B(code) => run_code(vm, Either::B(code), scope, ScopeUser::Eval),
    }
}

/// Executes a source in the scope that `scope` describes: a string object
/// (`Either::A`) or a code object (`Either::B`).
pub fn exec(source: Either<ObjRef, ObjRef>, scope: ScopeArgs, ctx: &Context, vm: &mut Vm) -> (r:
    Result<Run, Error>)
    ensures
        ({
            let (h, made) = old(vm)@.make_scope(scope, *ctx, ScopeUser::Exec);
            match made {
                Err(e) => final(vm)@ == h && r == Err::<Run, Error>(e),
                Ok((globals, (locals, methods))) => exists|made: Scope|
                    made.globals == globals && made.locals.target() == locals
                        && made.locals.resolved() == methods && (final(vm)@, r) == h.run_code(
                        source,
                        made,
                        ScopeUser::Exec,
                    ),
            }
        }),
        old(vm)@.leads_to(final(vm)@),
        old(vm)@.intact() && old(vm)@.has(match source { Either::A(o) => o, Either::B(o) => o })
            && scope.within(old(vm)@) && ctx.within(old(vm)@)
            ==> final(vm)@.intact() && (r matches Ok(run) ==> run.within(final(vm)@)),
{
    let scope = match scope.make_scope(ctx, vm, ScopeUser::Exec) {
        Ok(scope) => scope,
        Err(e) => {
            return Err(e);
        },
    };
    run_code(vm, source, scope, ScopeUser::Exec)
}

/// The global namespace of the running frame.
pub fn globals(ctx: &Context) -> (r: ObjRef)
    ensures
        r == ctx.frame.globals,
{
    ctx.frame.globals
}

/// The local namespace of the running frame.
pub fn locals(ctx: &Context) -> (r: Result<ArgMapping, Error>)
    ensures
        r == Ok::<ArgMapping, Error>(ctx.frame.locals),
{
    Ok(ctx.frame.locals)
}

/// The namespace of `obj`, which is its attribute `__dict__`; without an
/// object, the local namespace of the running frame.
pub fn vars(obj: Option<ObjRef>, ctx: &Context, vm: &Vm) -> (r: Result<ObjRef, Error>)
    ensures
        r == match obj {
            Some(o) => match vm@.get_attr(o, DICT@) {
                Some(namespace) => Ok::<ObjRef, Error>(namespace),
                None => Err(Error::VarsNoDict),
            },
            None => Ok(ctx.frame.locals.target()),
        },
{
    match obj {
        Some(o) => match vm.get_attr(o, DICT) {
            Some(namespace) => Ok(namespace),
            None => Err(Error::VarsNoDict),
        },
        None => Ok(ctx.frame.locals.as_object()),
    }
}

/// Calls the breakpoint hook of the system module with `args`; a system
/// module that has lost its hook is an error.
pub fn breakpoint(args: FuncArgs, ctx: &Context, vm: &mut Vm) -> (r: Result<ObjRef, Error>)
    ensures
        (final(vm)@, r) == match old(vm)@.get_attr(ctx.sys_module, BREAKPOINTHOOK@) {
            Some(hook) => old(vm)@.call(hook, args@),
            None => (old(vm)@, Err(Error::LostBreakpointHook)),
        },
        old(vm)@.leads_to(final(vm)@),
        old(vm)@.intact() && old(vm)@.holds(args@) && ctx.within(old(vm)@)
            ==> final(vm)@.intact() && final(vm)@.has_ok(r),
{
    match vm.get_attr(ctx.sys_module, BREAKPOINTHOOK) {
        Some(hook) => vm.call(hook, &args),
        None => Err(Error::LostBreakpointHook),
    }
}

/// Imports: calls the import function of the runtime with `args`.
pub fn __import__(args: FuncArgs, ctx: &Context, vm: &mut Vm) -> (r: Result<ObjRef, Error>)
    ensures
        (final(vm)@, r) == old(vm)@.call(ctx.import_func, args@),
        old(vm)@.leads_to(final(vm)@),
        old(vm)@.intact() && old(vm)@.holds(args@) && ctx.within(old(vm)@)
            ==> final(vm)@.intact() && final(vm)@.has_ok(r),
{
    vm.call(ctx.import_func, &args)
}

} // verus!
