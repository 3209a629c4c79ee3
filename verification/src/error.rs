//! The errors of the runtime. An error is a small value that names what
//! went wrong and the objects involved; its text is rendered on demand.

use vstd::prelude::*;

use crate::object::ObjRef;

verus! {

/// The families an error belongs to.
#[derive(Clone, Copy, Debug, PartialEq, Eq, Structural)]
pub enum ErrorKind {
    /// An object lacks a required capability, or a hook returned the wrong
    /// shape.
    TypeMismatch,
    /// The metaclasses of the bases of a class cannot be reconciled.
    MetaclassConflict,
    /// An internal rule of the runtime was broken.
    RuntimeError,
    ValueError,
    IndexError,
    KeyError,
    AttributeError,
    OverflowError,
    StopIteration,
    SystemExit,
    SyntaxError,
    EofError,
    KeyboardInterrupt,
    OsError,
    ZeroDivisionError,
    UnicodeDecodeError,
}

/// The methods that the runtime calls on file objects.
#[derive(Clone, Copy, Debug, PartialEq, Eq, Structural)]
pub enum Method {
    Write,
    Flush,
    Fileno,
    Readline,
}

/// The two selections `min` and `max`.
#[derive(Clone, Copy, Debug, PartialEq, Eq, Structural)]
pub enum Extremum {
    Min,
    Max,
}

/// The two functions that build a scope from `globals` and `locals`.
#[derive(Clone, Copy, Debug, PartialEq, Eq, Structural)]
pub enum ScopeUser {
    Eval,
    Exec,
}

/// An error. Where a variant names a `class`, it is the type of the object
/// that was refused.
#[derive(Clone, Copy, Debug, PartialEq, Eq, Structural)]
pub enum Error {
    NotCallable { class: ObjRef },
    NotIterable { class: ObjRef },
    NotAnIterator { class: ObjRef },
    /// The argument of `next` is no iterator.
    NextNotIterator { class: ObjRef },
    /// The second argument of `isinstance` is no type.
    InstanceCheckNotType,
    /// The argument at `position` (1 or 2) of `issubclass` is no class.
    SubclassCheckNotClass { position: usize },
    /// The object of type `class` lacks a method that the runtime calls.
    MissingMethod { class: ObjRef, method: Method },
    LostStdin,
    LostStdout,
    LostStderr,
    /// The end of the input came where a line was to be read from a file.
    EndOfFile,
    /// The end of the input came where a line was to be read from the
    /// terminal.
    EndOfInput,
    /// The user interrupted the reading of a line.
    Interrupted,
    /// Reading from the terminal failed in the operating system; `message`
    /// is a string object that says how.
    Os { message: ObjRef },
    /// Reading from the terminal failed otherwise; `message` is a string
    /// object that says how.
    Readline { message: ObjRef },
    ReadlineNotString,
    CodegenNotSupported,
    NotMapping { class: ObjRef },
    NotSequence { class: ObjRef },
    NoLength { class: ObjRef },
    NotSubscriptable { class: ObjRef },
    NoItemAssignment { class: ObjRef },
    NoItemDeletion { class: ObjRef },
    NotAnInteger { class: ObjRef },
    NotACell { class: ObjRef },
    KeyMissing,
    IndexOutOfRange,
    /// The positional argument at `index` was needed and not given.
    MissingArgument { index: usize },
    /// A keyword argument that the callee does not take; `name` is a string
    /// object holding the keyword.
    UnexpectedKeyword { name: ObjRef },
    /// A type was called with something else than a name, a tuple of bases
    /// and a namespace.
    ConstructArity,
    /// The argument at `position` (counted from 1) of a type construction
    /// has the wrong type.
    ConstructArgument { position: usize, class: ObjRef },
    BasesNotTypes,
    /// The ancestors of the bases of a class cannot be linearized.
    InconsistentMro,
    MroEntriesNotTuple,
    MetaclassConflict,
    /// The namespace hook of metaclass `meta` (`None`: the metaclass is no
    /// type) returned an object of type `class`, which is no mapping.
    PrepareNotMapping { meta: Option<ObjRef>, class: ObjRef },
    /// The class cell was still empty after `class` had been constructed.
    ClassCellEmpty { meta: Option<ObjRef>, class: ObjRef },
    /// The class cell held `found`, not the constructed `class`.
    ClassCellMismatch { found: ObjRef, meta: Option<ObjRef>, class: ObjRef },
    AttributeNameNotString { class: ObjRef },
    /// The object of type `class` has no attribute called as the string
    /// object `name` says.
    NoAttribute { class: ObjRef, name: ObjRef },
    ChrRange,
    OrdLength { len: usize },
    OrdType { class: ObjRef },
    DefaultWithManyArguments { func: Extremum },
    NoArguments { func: Extremum },
    EmptySequence { func: Extremum },
    NotComparable { func: Extremum, left: ObjRef, right: ObjRef },
    ReversedNotSequence,
    NoRound { class: ObjRef },
    SumStrings,
    /// The start of a sum is a bytes object.
    SumBytes,
    /// The start of a sum is a bytearray object.
    SumByteArray,
    UnsupportedSum { left: ObjRef, right: ObjRef },
    /// `abs` of an object of type `class`, which holds no integer.
    BadOperand { class: ObjRef },
    UnsupportedDivmod { left: ObjRef, right: ObjRef },
    DivisionByZero,
    /// `pow` of objects that do not all hold integers; `modulus` is the
    /// type of the modulus where one was given.
    UnsupportedPow { left: ObjRef, right: ObjRef, modulus: Option<ObjRef> },
    /// `pow` with an exponent below zero, whose result is no integer.
    NegativeExponent,
    ZeroModulus,
    NotAsyncIterable { class: ObjRef },
    /// A format other than the empty one was asked of an object of type
    /// `class`.
    UnsupportedFormat { class: ObjRef },
    /// An object of type `class` cannot be hashed.
    Unhashable { class: ObjRef },
    /// The `__hash__` method returned something that holds no integer.
    HashNotInteger,
    /// Two items of a list that is sorted cannot be ordered: one of type
    /// `left` and the one before it, of type `right`.
    NotOrdered { left: ObjRef, right: ObjRef },
    /// The `__format__` method returned an object of type `class`, which is
    /// no string.
    FormatNotString { class: ObjRef },
    IntegerOverflow,
    CursorOverflow,
    VarsNoDict,
    LostBreakpointHook,
    GlobalsNotDict { user: ScopeUser, mapping: bool, class: ObjRef },
    FreeVariables { user: ScopeUser },
    NullBytes,
    CompileOptimize,
    CompileFlags,
    /// The mode is none of those that the compiler knows.
    CompileMode,
    /// The mode is none of those that the parser knows.
    ParseMode,
    /// The source of a compilation is an object of type `class`, which is
    /// neither text nor a syntax tree.
    CompileSource { class: ObjRef },
    /// The source of a compilation is no UTF-8 text from `position` on.
    UndecodableSource { position: usize },
    /// The source is no UTF-8 text: `byte` at `position` cannot be decoded.
    SourceNotUtf8 { byte: u8, position: usize },
    /// The exit request of the program, with its exit code.
    Exit { code: ObjRef },
    /// An error raised by user-level code: passed on untouched.
    Raised { kind: ErrorKind, value: ObjRef },
}

impl Error {
    /// The family of this error.
    pub open spec fn spec_kind(&self) -> ErrorKind {
        match self {
            Error::KeyMissing => ErrorKind::KeyError,
            Error::IndexOutOfRange => ErrorKind::IndexError,
            Error::MetaclassConflict => ErrorKind::MetaclassConflict,
            Error::ClassCellEmpty { .. } => ErrorKind::RuntimeError,
            Error::LostBreakpointHook => ErrorKind::RuntimeError,
            Error::LostStdin => ErrorKind::RuntimeError,
            Error::LostStdout => ErrorKind::RuntimeError,
            Error::LostStderr => ErrorKind::RuntimeError,
            Error::EndOfFile => ErrorKind::EofError,
            Error::EndOfInput => ErrorKind::EofError,
            Error::Interrupted => ErrorKind::KeyboardInterrupt,
            Error::Os { .. } => ErrorKind::OsError,
            Error::Readline { .. } => ErrorKind::RuntimeError,
            Error::MissingMethod { .. } => ErrorKind::AttributeError,
            Error::NoAttribute { .. } => ErrorKind::AttributeError,
            Error::ChrRange => ErrorKind::ValueError,
            Error::EmptySequence { .. } => ErrorKind::ValueError,
            Error::NullBytes => ErrorKind::SyntaxError,
            Error::CompileOptimize => ErrorKind::ValueError,
            Error::CompileFlags => ErrorKind::ValueError,
            Error::CompileMode => ErrorKind::ValueError,
            Error::ParseMode => ErrorKind::ValueError,
            Error::UndecodableSource { .. } => ErrorKind::UnicodeDecodeError,
            Error::SourceNotUtf8 { .. } => ErrorKind::SyntaxError,
            Error::IntegerOverflow => ErrorKind::OverflowError,
            Error::DivisionByZero => ErrorKind::ZeroDivisionError,
            Error::NegativeExponent => ErrorKind::ValueError,
            Error::ZeroModulus => ErrorKind::ValueError,
            Error::CursorOverflow => ErrorKind::OverflowError,
            Error::Exit { .. } => ErrorKind::SystemExit,
            Error::Raised { kind, .. } => *kind,
            _ => ErrorKind::TypeMismatch,
        }
    }

    #[verifier::when_used_as_spec(spec_kind)]
    pub fn kind(&self) -> (r: ErrorKind)
        ensures
            r == self.spec_kind(),
    {
        match self {
            Error::KeyMissing => ErrorKind::KeyError,
            Error::IndexOutOfRange => ErrorKind::IndexError,
            Error::MetaclassConflict => ErrorKind::MetaclassConflict,
            Error::ClassCellEmpty { .. } => ErrorKind::RuntimeError,
            Error::LostBreakpointHook => ErrorKind::RuntimeError,
            Error::LostStdin => ErrorKind::RuntimeError,
            Error::LostStdout => ErrorKind::RuntimeError,
            Error::LostStderr => ErrorKind::RuntimeError,
            Error::EndOfFile => ErrorKind::EofError,
            Error::EndOfInput => ErrorKind::EofError,
            Error::Interrupted => ErrorKind::KeyboardInterrupt,
            Error::Os { .. } => ErrorKind::OsError,
            Error::Readline { .. } => ErrorKind::RuntimeError,
            Error::MissingMethod { .. } => ErrorKind::AttributeError,
            Error::NoAttribute { .. } => ErrorKind::AttributeError,
            Error::ChrRange => ErrorKind::ValueError,
            Error::EmptySequence { .. } => ErrorKind::ValueError,
            Error::NullBytes => ErrorKind::SyntaxError,
            Error::CompileOptimize => ErrorKind::ValueError,
            Error::CompileFlags => ErrorKind::ValueError,
            Error::CompileMode => ErrorKind::ValueError,
            Error::ParseMode => ErrorKind::ValueError,
            Error::UndecodableSource { .. } => ErrorKind::UnicodeDecodeError,
            Error::SourceNotUtf8 { .. } => ErrorKind::SyntaxError,
            Error::IntegerOverflow => ErrorKind::OverflowError,
            Error::DivisionByZero => ErrorKind::ZeroDivisionError,
            Error::NegativeExponent => ErrorKind::ValueError,
            Error::ZeroModulus => ErrorKind::ValueError,
            Error::CursorOverflow => ErrorKind::OverflowError,
            Error::Exit { .. } => ErrorKind::SystemExit,
            Error::Raised { kind, .. } => *kind,
            _ => ErrorKind::TypeMismatch,
        }
    }
}

} // verus!
