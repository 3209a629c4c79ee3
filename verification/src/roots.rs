//! The built-in classes beyond the core: the further types and the
//! exceptions and warnings, each with its place in the arena, its name and
//! the class it derives from.

use vstd::prelude::*;

use crate::heap::{
    BOOL_TYPE, DICT_TYPE, INT_TYPE, LIST_TYPE, OBJECT_TYPE, ROOT_COUNT, STR_TYPE, TUPLE_TYPE,
    TYPE_TYPE,
};

verus! {

/// The place of the type `bytearray`.
pub const BYTEARRAY_TYPE: usize = 23;

/// The place of the type `bytes`.
pub const BYTES_TYPE: usize = 24;

/// The place of the type `classmethod`.
pub const CLASSMETHOD_TYPE: usize = 25;

/// The place of the type `complex`.
pub const COMPLEX_TYPE: usize = 26;

/// The place of the type `enumerate`.
pub const ENUMERATE_TYPE: usize = 27;

/// The place of the type `float`.
pub const FLOAT_TYPE: usize = 28;

/// The place of the type `frozenset`.
pub const FROZENSET_TYPE: usize = 29;

/// The place of the type `filter`.
pub const FILTER_TYPE: usize = 30;

/// The place of the type `map`.
pub const MAP_TYPE: usize = 31;

/// The place of the type `memoryview`.
pub const MEMORYVIEW_TYPE: usize = 32;

/// The place of the type `property`.
pub const PROPERTY_TYPE: usize = 33;

/// The place of the type `range`.
pub const RANGE_TYPE: usize = 34;

/// The place of the type `set`.
pub const SET_TYPE: usize = 35;

/// The place of the type `slice`.
pub const SLICE_TYPE: usize = 36;

/// The place of the type `staticmethod`.
pub const STATICMETHOD_TYPE: usize = 37;

/// The place of the type `super`.
pub const SUPER_TYPE: usize = 38;

/// The place of the type `zip`.
pub const ZIP_TYPE: usize = 39;

/// The place of the class `BaseException`.
pub const BASE_EXCEPTION: usize = 40;

/// The place of the class `BaseExceptionGroup`.
pub const BASE_EXCEPTION_GROUP: usize = 41;

/// The place of the class `ExceptionGroup`.
pub const EXCEPTION_GROUP: usize = 42;

/// The place of the class `SystemExit`.
pub const SYSTEM_EXIT: usize = 43;

/// The place of the class `KeyboardInterrupt`.
pub const KEYBOARD_INTERRUPT: usize = 44;

/// The place of the class `GeneratorExit`.
pub const GENERATOR_EXIT: usize = 45;

/// The place of the class `Exception`.
pub const EXCEPTION: usize = 46;

/// The place of the class `StopIteration`.
pub const STOP_ITERATION: usize = 47;

/// The place of the class `StopAsyncIteration`.
pub const STOP_ASYNC_ITERATION: usize = 48;

/// The place of the class `ArithmeticError`.
pub const ARITHMETIC_ERROR: usize = 49;

/// The place of the class `FloatingPointError`.
pub const FLOATING_POINT_ERROR: usize = 50;

/// The place of the class `OverflowError`.
pub const OVERFLOW_ERROR: usize = 51;

/// The place of the class `ZeroDivisionError`.
pub const ZERO_DIVISION_ERROR: usize = 52;

/// The place of the class `AssertionError`.
pub const ASSERTION_ERROR: usize = 53;

/// The place of the class `AttributeError`.
pub const ATTRIBUTE_ERROR: usize = 54;

/// The place of the class `BufferError`.
pub const BUFFER_ERROR: usize = 55;

/// The place of the class `EOFError`.
pub const EOF_ERROR: usize = 56;

/// The place of the class `ImportError`.
pub const IMPORT_ERROR: usize = 57;

/// The place of the class `ModuleNotFoundError`.
pub const MODULE_NOT_FOUND_ERROR: usize = 58;

/// The place of the class `LookupError`.
pub const LOOKUP_ERROR: usize = 59;

/// The place of the class `IndexError`.
pub const INDEX_ERROR: usize = 60;

/// The place of the class `KeyError`.
pub const KEY_ERROR: usize = 61;

/// The place of the class `MemoryError`.
pub const MEMORY_ERROR: usize = 62;

/// The place of the class `NameError`.
pub const NAME_ERROR: usize = 63;

/// The place of the class `UnboundLocalError`.
pub const UNBOUND_LOCAL_ERROR: usize = 64;

/// The place of the class `OSError`.
pub const OS_ERROR: usize = 65;

/// The place of the class `BlockingIOError`.
pub const BLOCKING_IO_ERROR: usize = 66;

/// The place of the class `ChildProcessError`.
pub const CHILD_PROCESS_ERROR: usize = 67;

/// The place of the class `ConnectionError`.
pub const CONNECTION_ERROR: usize = 68;

/// The place of the class `BrokenPipeError`.
pub const BROKEN_PIPE_ERROR: usize = 69;

/// The place of the class `ConnectionAbortedError`.
pub const CONNECTION_ABORTED_ERROR: usize = 70;

/// The place of the class `ConnectionRefusedError`.
pub const CONNECTION_REFUSED_ERROR: usize = 71;

/// The place of the class `ConnectionResetError`.
pub const CONNECTION_RESET_ERROR: usize = 72;

/// The place of the class `FileExistsError`.
pub const FILE_EXISTS_ERROR: usize = 73;

/// The place of the class `FileNotFoundError`.
pub const FILE_NOT_FOUND_ERROR: usize = 74;

/// The place of the class `InterruptedError`.
pub const INTERRUPTED_ERROR: usize = 75;

/// The place of the class `IsADirectoryError`.
pub const IS_A_DIRECTORY_ERROR: usize = 76;

/// The place of the class `NotADirectoryError`.
pub const NOT_A_DIRECTORY_ERROR: usize = 77;

/// The place of the class `PermissionError`.
pub const PERMISSION_ERROR: usize = 78;

/// The place of the class `ProcessLookupError`.
pub const PROCESS_LOOKUP_ERROR: usize = 79;

/// The place of the class `TimeoutError`.
pub const TIMEOUT_ERROR: usize = 80;

/// The place of the class `ReferenceError`.
pub const REFERENCE_ERROR: usize = 81;

/// The place of the class `RuntimeError`.
pub const RUNTIME_ERROR: usize = 82;

/// The place of the class `NotImplementedError`.
pub const NOT_IMPLEMENTED_ERROR: usize = 83;

/// The place of the class `RecursionError`.
pub const RECURSION_ERROR: usize = 84;

/// The place of the class `SyntaxError`.
pub const SYNTAX_ERROR: usize = 85;

/// The place of the class `_IncompleteInputError`.
pub const INCOMPLETE_INPUT_ERROR: usize = 86;

/// The place of the class `IndentationError`.
pub const INDENTATION_ERROR: usize = 87;

/// The place of the class `TabError`.
pub const TAB_ERROR: usize = 88;

/// The place of the class `SystemError`.
pub const SYSTEM_ERROR: usize = 89;

/// The place of the class `TypeError`.
pub const TYPE_ERROR: usize = 90;

/// The place of the class `ValueError`.
pub const VALUE_ERROR: usize = 91;

/// The place of the class `UnicodeError`.
pub const UNICODE_ERROR: usize = 92;

/// The place of the class `UnicodeDecodeError`.
pub const UNICODE_DECODE_ERROR: usize = 93;

/// The place of the class `UnicodeEncodeError`.
pub const UNICODE_ENCODE_ERROR: usize = 94;

/// The place of the class `UnicodeTranslateError`.
pub const UNICODE_TRANSLATE_ERROR: usize = 95;

/// The place of the class `Warning`.
pub const WARNING: usize = 96;

/// The place of the class `DeprecationWarning`.
pub const DEPRECATION_WARNING: usize = 97;

/// The place of the class `PendingDeprecationWarning`.
pub const PENDING_DEPRECATION_WARNING: usize = 98;

/// The place of the class `RuntimeWarning`.
pub const RUNTIME_WARNING: usize = 99;

/// The place of the class `SyntaxWarning`.
pub const SYNTAX_WARNING: usize = 100;

/// The place of the class `UserWarning`.
pub const USER_WARNING: usize = 101;

/// The place of the class `FutureWarning`.
pub const FUTURE_WARNING: usize = 102;

/// The place of the class `ImportWarning`.
pub const IMPORT_WARNING: usize = 103;

/// The place of the class `UnicodeWarning`.
pub const UNICODE_WARNING: usize = 104;

/// The place of the class `BytesWarning`.
pub const BYTES_WARNING: usize = 105;

/// The place of the class `ResourceWarning`.
pub const RESOURCE_WARNING: usize = 106;

/// The place of the class `EncodingWarning`.
pub const ENCODING_WARNING: usize = 107;

/// The class that the built-in class at `place` derives from. (The class
/// `ExceptionGroup` derives from `Exception` as well.)
pub open spec fn spec_parent_of(place: usize) -> usize {
    if place == BASE_EXCEPTION_GROUP || (SYSTEM_EXIT <= place && place <= EXCEPTION) {
        BASE_EXCEPTION
    } else if place == EXCEPTION_GROUP {
        BASE_EXCEPTION_GROUP
    } else if (STOP_ITERATION <= place && place <= ARITHMETIC_ERROR)
        || (ASSERTION_ERROR <= place && place <= IMPORT_ERROR) || place == LOOKUP_ERROR
        || place == MEMORY_ERROR || place == NAME_ERROR || place == OS_ERROR
        || place == REFERENCE_ERROR || place == RUNTIME_ERROR || place == SYNTAX_ERROR
        || (SYSTEM_ERROR <= place && place <= VALUE_ERROR) || place == WARNING {
        EXCEPTION
    } else if FLOATING_POINT_ERROR <= place && place <= ZERO_DIVISION_ERROR {
        ARITHMETIC_ERROR
    } else if place == MODULE_NOT_FOUND_ERROR {
        IMPORT_ERROR
    } else if place == INDEX_ERROR || place == KEY_ERROR {
        LOOKUP_ERROR
    } else if place == UNBOUND_LOCAL_ERROR {
        NAME_ERROR
    } else if (BLOCKING_IO_ERROR <= place && place <= CONNECTION_ERROR)
        || (FILE_EXISTS_ERROR <= place && place <= TIMEOUT_ERROR) {
        OS_ERROR
    } else if BROKEN_PIPE_ERROR <= place && place <= CONNECTION_RESET_ERROR {
        CONNECTION_ERROR
    } else if place == NOT_IMPLEMENTED_ERROR || place == RECURSION_ERROR {
        RUNTIME_ERROR
    } else if place == INCOMPLETE_INPUT_ERROR || place == INDENTATION_ERROR {
        SYNTAX_ERROR
    } else if place == TAB_ERROR {
        INDENTATION_ERROR
    } else if place == UNICODE_ERROR {
        VALUE_ERROR
    } else if UNICODE_DECODE_ERROR <= place && place <= UNICODE_TRANSLATE_ERROR {
        UNICODE_ERROR
    } else if DEPRECATION_WARNING <= place && place <= ENCODING_WARNING {
        WARNING
    } else {
        OBJECT_TYPE
    }
}

pub fn parent_of(place: usize) -> (r: usize)
    ensures
        r == spec_parent_of(place),
        r < ROOT_COUNT,
{
    if place == BASE_EXCEPTION_GROUP || (SYSTEM_EXIT <= place && place <= EXCEPTION) {
        BASE_EXCEPTION
    } else if place == EXCEPTION_GROUP {
        BASE_EXCEPTION_GROUP
    } else if (STOP_ITERATION <= place && place <= ARITHMETIC_ERROR)
        || (ASSERTION_ERROR <= place && place <= IMPORT_ERROR) || place == LOOKUP_ERROR
        || place == MEMORY_ERROR || place == NAME_ERROR || place == OS_ERROR
        || place == REFERENCE_ERROR || place == RUNTIME_ERROR || place == SYNTAX_ERROR
        || (SYSTEM_ERROR <= place && place <= VALUE_ERROR) || place == WARNING {
        EXCEPTION
    } else if FLOATING_POINT_ERROR <= place && place <= ZERO_DIVISION_ERROR {
        ARITHMETIC_ERROR
    } else if place == MODULE_NOT_FOUND_ERROR {
        IMPORT_ERROR
    } else if place == INDEX_ERROR || place == KEY_ERROR {
        LOOKUP_ERROR
    } else if place == UNBOUND_LOCAL_ERROR {
        NAME_ERROR
    } else if (BLOCKING_IO_ERROR <= place && place <= CONNECTION_ERROR)
        || (FILE_EXISTS_ERROR <= place && place <= TIMEOUT_ERROR) {
        OS_ERROR
    } else if BROKEN_PIPE_ERROR <= place && place <= CONNECTION_RESET_ERROR {
        CONNECTION_ERROR
    } else if place == NOT_IMPLEMENTED_ERROR || place == RECURSION_ERROR {
        RUNTIME_ERROR
    } else if place == INCOMPLETE_INPUT_ERROR || place == INDENTATION_ERROR {
        SYNTAX_ERROR
    } else if place == TAB_ERROR {
        INDENTATION_ERROR
    } else if place == UNICODE_ERROR {
        VALUE_ERROR
    } else if UNICODE_DECODE_ERROR <= place && place <= UNICODE_TRANSLATE_ERROR {
        UNICODE_ERROR
    } else if DEPRECATION_WARNING <= place && place <= ENCODING_WARNING {
        WARNING
    } else {
        OBJECT_TYPE
    }
}

/// The name of the built-in class at `place`; the empty text for a place
/// that holds none of the classes that the built-in module names.
pub open spec fn spec_root_name(place: usize) -> Seq<char> {
    if place == TYPE_TYPE {
        "type"@
    } else if place == OBJECT_TYPE {
        "object"@
    } else if place == BOOL_TYPE {
        "bool"@
    } else if place == INT_TYPE {
        "int"@
    } else if place == STR_TYPE {
        "str"@
    } else if place == TUPLE_TYPE {
        "tuple"@
    } else if place == LIST_TYPE {
        "list"@
    } else if place == DICT_TYPE {
        "dict"@
    } else if place == BYTEARRAY_TYPE {
        "bytearray"@
    } else if place == BYTES_TYPE {
        "bytes"@
    } else if place == CLASSMETHOD_TYPE {
        "classmethod"@
    } else if place == COMPLEX_TYPE {
        "complex"@
    } else if place == ENUMERATE_TYPE {
        "enumerate"@
    } else if place == FLOAT_TYPE {
        "float"@
    } else if place == FROZENSET_TYPE {
        "frozenset"@
    } else if place == FILTER_TYPE {
        "filter"@
    } else if place == MAP_TYPE {
        "map"@
    } else if place == MEMORYVIEW_TYPE {
        "memoryview"@
    } else if place == PROPERTY_TYPE {
        "property"@
    } else if place == RANGE_TYPE {
        "range"@
    } else if place == SET_TYPE {
        "set"@
    } else if place == SLICE_TYPE {
        "slice"@
    } else if place == STATICMETHOD_TYPE {
        "staticmethod"@
    } else if place == SUPER_TYPE {
        "super"@
    } else if place == ZIP_TYPE {
        "zip"@
    } else if place == BASE_EXCEPTION {
        "BaseException"@
    } else if place == BASE_EXCEPTION_GROUP {
        "BaseExceptionGroup"@
    } else if place == EXCEPTION_GROUP {
        "ExceptionGroup"@
    } else if place == SYSTEM_EXIT {
        "SystemExit"@
    } else if place == KEYBOARD_INTERRUPT {
        "KeyboardInterrupt"@
    } else if place == GENERATOR_EXIT {
        "GeneratorExit"@
    } else if place == EXCEPTION {
        "Exception"@
    } else if place == STOP_ITERATION {
        "StopIteration"@
    } else if place == STOP_ASYNC_ITERATION {
        "StopAsyncIteration"@
    } else if place == ARITHMETIC_ERROR {
        "ArithmeticError"@
    } else if place == FLOATING_POINT_ERROR {
        "FloatingPointError"@
    } else if place == OVERFLOW_ERROR {
        "OverflowError"@
    } else if place == ZERO_DIVISION_ERROR {
        "ZeroDivisionError"@
    } else if place == ASSERTION_ERROR {
        "AssertionError"@
    } else if place == ATTRIBUTE_ERROR {
        "AttributeError"@
    } else if place == BUFFER_ERROR {
        "BufferError"@
    } else if place == EOF_ERROR {
        "EOFError"@
    } else if place == IMPORT_ERROR {
        "ImportError"@
    } else if place == MODULE_NOT_FOUND_ERROR {
        "ModuleNotFoundError"@
    } else if place == LOOKUP_ERROR {
        "LookupError"@
    } else if place == INDEX_ERROR {
        "IndexError"@
    } else if place == KEY_ERROR {
        "KeyError"@
    } else if place == MEMORY_ERROR {
        "MemoryError"@
    } else if place == NAME_ERROR {
        "NameError"@
    } else if place == UNBOUND_LOCAL_ERROR {
        "UnboundLocalError"@
    } else if place == OS_ERROR {
        "OSError"@
    } else if place == BLOCKING_IO_ERROR {
        "BlockingIOError"@
    } else if place == CHILD_PROCESS_ERROR {
        "ChildProcessError"@
    } else if place == CONNECTION_ERROR {
        "ConnectionError"@
    } else if place == BROKEN_PIPE_ERROR {
        "BrokenPipeError"@
    } else if place == CONNECTION_ABORTED_ERROR {
        "ConnectionAbortedError"@
    } else if place == CONNECTION_REFUSED_ERROR {
        "ConnectionRefusedError"@
    } else if place == CONNECTION_RESET_ERROR {
        "ConnectionResetError"@
    } else if place == FILE_EXISTS_ERROR {
        "FileExistsError"@
    } else if place == FILE_NOT_FOUND_ERROR {
        "FileNotFoundError"@
    } else if place == INTERRUPTED_ERROR {
        "InterruptedError"@
    } else if place == IS_A_DIRECTORY_ERROR {
        "IsADirectoryError"@
    } else if place == NOT_A_DIRECTORY_ERROR {
        "NotADirectoryError"@
    } else if place == PERMISSION_ERROR {
        "PermissionError"@
    } else if place == PROCESS_LOOKUP_ERROR {
        "ProcessLookupError"@
    } else if place == TIMEOUT_ERROR {
        "TimeoutError"@
    } else if place == REFERENCE_ERROR {
        "ReferenceError"@
    } else if place == RUNTIME_ERROR {
        "RuntimeError"@
    } else if place == NOT_IMPLEMENTED_ERROR {
        "NotImplementedError"@
    } else if place == RECURSION_ERROR {
        "RecursionError"@
    } else if place == SYNTAX_ERROR {
        "SyntaxError"@
    } else if place == INCOMPLETE_INPUT_ERROR {
        "_IncompleteInputError"@
    } else if place == INDENTATION_ERROR {
        "IndentationError"@
    } else if place == TAB_ERROR {
        "TabError"@
    } else if place == SYSTEM_ERROR {
        "SystemError"@
    } else if place == TYPE_ERROR {
        "TypeError"@
    } else if place == VALUE_ERROR {
        "ValueError"@
    } else if place == UNICODE_ERROR {
        "UnicodeError"@
    } else if place == UNICODE_DECODE_ERROR {
        "UnicodeDecodeError"@
    } else if place == UNICODE_ENCODE_ERROR {
        "UnicodeEncodeError"@
    } else if place == UNICODE_TRANSLATE_ERROR {
        "UnicodeTranslateError"@
    } else if place == WARNING {
        "Warning"@
    } else if place == DEPRECATION_WARNING {
        "DeprecationWarning"@
    } else if place == PENDING_DEPRECATION_WARNING {
        "PendingDeprecationWarning"@
    } else if place == RUNTIME_WARNING {
        "RuntimeWarning"@
    } else if place == SYNTAX_WARNING {
        "SyntaxWarning"@
    } else if place == USER_WARNING {
        "UserWarning"@
    } else if place == FUTURE_WARNING {
        "FutureWarning"@
    } else if place == IMPORT_WARNING {
        "ImportWarning"@
    } else if place == UNICODE_WARNING {
        "UnicodeWarning"@
    } else if place == BYTES_WARNING {
        "BytesWarning"@
    } else if place == RESOURCE_WARNING {
        "ResourceWarning"@
    } else if place == ENCODING_WARNING {
        "EncodingWarning"@
    } else {
        ""@
    }
}

pub fn root_name(place: usize) -> (r: &'static str)
    ensures
        r@ == spec_root_name(place),
{
    if place == TYPE_TYPE {
        "type"
    } else if place == OBJECT_TYPE {
        "object"
    } else if place == BOOL_TYPE {
        "bool"
    } else if place == INT_TYPE {
        "int"
    } else if place == STR_TYPE {
        "str"
    } else if place == TUPLE_TYPE {
        "tuple"
    } else if place == LIST_TYPE {
        "list"
    } else if place == DICT_TYPE {
        "dict"
    } else if place == BYTEARRAY_TYPE {
        "bytearray"
    } else if place == BYTES_TYPE {
        "bytes"
    } else if place == CLASSMETHOD_TYPE {
        "classmethod"
    } else if place == COMPLEX_TYPE {
        "complex"
    } else if place == ENUMERATE_TYPE {
        "enumerate"
    } else if place == FLOAT_TYPE {
        "float"
    } else if place == FROZENSET_TYPE {
        "frozenset"
    } else if place == FILTER_TYPE {
        "filter"
    } else if place == MAP_TYPE {
        "map"
    } else if place == MEMORYVIEW_TYPE {
        "memoryview"
    } else if place == PROPERTY_TYPE {
        "property"
    } else if place == RANGE_TYPE {
        "range"
    } else if place == SET_TYPE {
        "set"
    } else if place == SLICE_TYPE {
        "slice"
    } else if place == STATICMETHOD_TYPE {
        "staticmethod"
    } else if place == SUPER_TYPE {
        "super"
    } else if place == ZIP_TYPE {
        "zip"
    } else if place == BASE_EXCEPTION {
        "BaseException"
    } else if place == BASE_EXCEPTION_GROUP {
        "BaseExceptionGroup"
    } else if place == EXCEPTION_GROUP {
        "ExceptionGroup"
    } else if place == SYSTEM_EXIT {
        "SystemExit"
    } else if place == KEYBOARD_INTERRUPT {
        "KeyboardInterrupt"
    } else if place == GENERATOR_EXIT {
        "GeneratorExit"
    } else if place == EXCEPTION {
        "Exception"
    } else if place == STOP_ITERATION {
        "StopIteration"
    } else if place == STOP_ASYNC_ITERATION {
        "StopAsyncIteration"
    } else if place == ARITHMETIC_ERROR {
        "ArithmeticError"
    } else if place == FLOATING_POINT_ERROR {
        "FloatingPointError"
    } else if place == OVERFLOW_ERROR {
        "OverflowError"
    } else if place == ZERO_DIVISION_ERROR {
        "ZeroDivisionError"
    } else if place == ASSERTION_ERROR {
        "AssertionError"
    } else if place == ATTRIBUTE_ERROR {
        "AttributeError"
    } else if place == BUFFER_ERROR {
        "BufferError"
    } else if place == EOF_ERROR {
        "EOFError"
    } else if place == IMPORT_ERROR {
        "ImportError"
    } else if place == MODULE_NOT_FOUND_ERROR {
        "ModuleNotFoundError"
    } else if place == LOOKUP_ERROR {
        "LookupError"
    } else if place == INDEX_ERROR {
        "IndexError"
    } else if place == KEY_ERROR {
        "KeyError"
    } else if place == MEMORY_ERROR {
        "MemoryError"
    } else if place == NAME_ERROR {
        "NameError"
    } else if place == UNBOUND_LOCAL_ERROR {
        "UnboundLocalError"
    } else if place == OS_ERROR {
        "OSError"
    } else if place == BLOCKING_IO_ERROR {
        "BlockingIOError"
    } else if place == CHILD_PROCESS_ERROR {
        "ChildProcessError"
    } else if place == CONNECTION_ERROR {
        "ConnectionError"
    } else if place == BROKEN_PIPE_ERROR {
        "BrokenPipeError"
    } else if place == CONNECTION_ABORTED_ERROR {
        "ConnectionAbortedError"
    } else if place == CONNECTION_REFUSED_ERROR {
        "ConnectionRefusedError"
    } else if place == CONNECTION_RESET_ERROR {
        "ConnectionResetError"
    } else if place == FILE_EXISTS_ERROR {
        "FileExistsError"
    } else if place == FILE_NOT_FOUND_ERROR {
        "FileNotFoundError"
    } else if place == INTERRUPTED_ERROR {
        "InterruptedError"
    } else if place == IS_A_DIRECTORY_ERROR {
        "IsADirectoryError"
    } else if place == NOT_A_DIRECTORY_ERROR {
        "NotADirectoryError"
    } else if place == PERMISSION_ERROR {
        "PermissionError"
    } else if place == PROCESS_LOOKUP_ERROR {
        "ProcessLookupError"
    } else if place == TIMEOUT_ERROR {
        "TimeoutError"
    } else if place == REFERENCE_ERROR {
        "ReferenceError"
    } else if place == RUNTIME_ERROR {
        "RuntimeError"
    } else if place == NOT_IMPLEMENTED_ERROR {
        "NotImplementedError"
    } else if place == RECURSION_ERROR {
        "RecursionError"
    } else if place == SYNTAX_ERROR {
        "SyntaxError"
    } else if place == INCOMPLETE_INPUT_ERROR {
        "_IncompleteInputError"
    } else if place == INDENTATION_ERROR {
        "IndentationError"
    } else if place == TAB_ERROR {
        "TabError"
    } else if place == SYSTEM_ERROR {
        "SystemError"
    } else if place == TYPE_ERROR {
        "TypeError"
    } else if place == VALUE_ERROR {
        "ValueError"
    } else if place == UNICODE_ERROR {
        "UnicodeError"
    } else if place == UNICODE_DECODE_ERROR {
        "UnicodeDecodeError"
    } else if place == UNICODE_ENCODE_ERROR {
        "UnicodeEncodeError"
    } else if place == UNICODE_TRANSLATE_ERROR {
        "UnicodeTranslateError"
    } else if place == WARNING {
        "Warning"
    } else if place == DEPRECATION_WARNING {
        "DeprecationWarning"
    } else if place == PENDING_DEPRECATION_WARNING {
        "PendingDeprecationWarning"
    } else if place == RUNTIME_WARNING {
        "RuntimeWarning"
    } else if place == SYNTAX_WARNING {
        "SyntaxWarning"
    } else if place == USER_WARNING {
        "UserWarning"
    } else if place == FUTURE_WARNING {
        "FutureWarning"
    } else if place == IMPORT_WARNING {
        "ImportWarning"
    } else if place == UNICODE_WARNING {
        "UnicodeWarning"
    } else if place == BYTES_WARNING {
        "BytesWarning"
    } else if place == RESOURCE_WARNING {
        "ResourceWarning"
    } else if place == ENCODING_WARNING {
        "EncodingWarning"
    } else {
        ""
    }
}

} // verus!
