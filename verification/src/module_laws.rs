//! What a module holds once the built-in names are bound in it.

use vstd::prelude::*;

use crate::bootstrap::lemma_initial_places;
use crate::class_laws::lemma_position;
use crate::heap::{
    bind, bind_all, lookup, position, Heap, FALSE, NONE, OBJECT_TYPE, TRUE, TYPE_TYPE,
};
use crate::make::spec_bool_object;
use crate::module::{builtin_names, spec_entry_name, ENTRY_COUNT, OS_ERROR_ENTRY};
use crate::object::{AttrView, ObjRef};
use crate::roots::OS_ERROR;

verus! {

/// After a name is bound it is found with its value, and every other name
/// is found as before.
pub proof fn lemma_lookup_bind(
    entries: Seq<AttrView>,
    name: Seq<char>,
    value: ObjRef,
    other: Seq<char>,
)
    ensures
        lookup(bind(entries, name, value), other) == if other == name {
            Some(value)
        } else {
            lookup(entries, other)
        },
{
    let after = bind(entries, name, value);
    lemma_position(entries, name, 0);
    lemma_position(entries, other, 0);
    lemma_position(after, other, 0);
    let i = position(entries, name, 0);
    let bound = if i < entries.len() {
        i
    } else {
        entries.len() as int
    };
    assert(after[bound].name == name);
    assert(forall|m: int| 0 <= m < entries.len() && m != i ==> after[m] == entries[m]);
}

/// Where names are bound one after the other, the last binding of a name
/// decides what is found under it.
pub proof fn lemma_last_binding_wins(
    attrs: Seq<AttrView>,
    entries: Seq<AttrView>,
    from: int,
    last: int,
)
    requires
        0 <= from <= last < entries.len(),
        forall|j: int|
            last < j < entries.len() ==> (#[trigger] entries[j]).name != entries[last].name,
    ensures
        lookup(bind_all(attrs, entries, from), entries[last].name) == Some(entries[last].value),
    decreases entries.len() - from,
{
    let name = entries[last].name;
    if from < last {
        lemma_last_binding_wins(
            bind(attrs, entries[from].name, entries[from].value),
            entries,
            from + 1,
            last,
        );
    } else {
        let bound = bind(attrs, name, entries[last].value);
        lemma_lookup_bind(attrs, name, entries[last].value, name);
        lemma_later_bindings_keep(bound, entries, last + 1, name);
    }
}

/// Bindings of other names leave what is found under a name as it is.
pub proof fn lemma_later_bindings_keep(
    attrs: Seq<AttrView>,
    entries: Seq<AttrView>,
    from: int,
    name: Seq<char>,
)
    requires
        0 <= from <= entries.len(),
        forall|j: int| from <= j < entries.len() ==> (#[trigger] entries[j]).name != name,
    ensures
        lookup(bind_all(attrs, entries, from), name) == lookup(attrs, name),
    decreases entries.len() - from,
{
    if from < entries.len() {
        lemma_lookup_bind(attrs, entries[from].name, entries[from].value, name);
        lemma_later_bindings_keep(
            bind(attrs, entries[from].name, entries[from].value),
            entries,
            from + 1,
            name,
        );
    }
}

/// The names that the laws below speak of stand once among the built-in
/// names, and the three names of `OSError` stand nowhere else.
proof fn lemma_where_names_stand(i: usize)
    requires
        i < ENTRY_COUNT,
    ensures
        spec_entry_name(i) == "__debug__"@ <==> i == 0,
        spec_entry_name(i) == "None"@ <==> i == 26,
        spec_entry_name(i) == "True"@ <==> i == 27,
        spec_entry_name(i) == "False"@ <==> i == 28,
        spec_entry_name(i) == "type"@ <==> i == 24,
        spec_entry_name(i) == "object"@ <==> i == 15,
        spec_entry_name(i) == "OSError"@ <==> i == OS_ERROR_ENTRY,
        spec_entry_name(i) == "IOError"@ <==> i == OS_ERROR_ENTRY + 1,
        spec_entry_name(i) == "EnvironmentError"@ <==> i == OS_ERROR_ENTRY + 2,
{
    reveal_strlit("__debug__");
    reveal_strlit("bool");
    reveal_strlit("bytearray");
    reveal_strlit("bytes");
    reveal_strlit("classmethod");
    reveal_strlit("complex");
    reveal_strlit("dict");
    reveal_strlit("enumerate");
    reveal_strlit("float");
    reveal_strlit("frozenset");
    reveal_strlit("filter");
    reveal_strlit("int");
    reveal_strlit("list");
    reveal_strlit("map");
    reveal_strlit("memoryview");
    reveal_strlit("object");
    reveal_strlit("property");
    reveal_strlit("range");
    reveal_strlit("set");
    reveal_strlit("slice");
    reveal_strlit("staticmethod");
    reveal_strlit("str");
    reveal_strlit("super");
    reveal_strlit("tuple");
    reveal_strlit("type");
    reveal_strlit("zip");
    reveal_strlit("None");
    reveal_strlit("True");
    reveal_strlit("False");
    reveal_strlit("NotImplemented");
    reveal_strlit("Ellipsis");
    reveal_strlit("BaseException");
    reveal_strlit("BaseExceptionGroup");
    reveal_strlit("ExceptionGroup");
    reveal_strlit("SystemExit");
    reveal_strlit("KeyboardInterrupt");
    reveal_strlit("GeneratorExit");
    reveal_strlit("Exception");
    reveal_strlit("StopIteration");
    reveal_strlit("StopAsyncIteration");
    reveal_strlit("ArithmeticError");
    reveal_strlit("FloatingPointError");
    reveal_strlit("OverflowError");
    reveal_strlit("ZeroDivisionError");
    reveal_strlit("AssertionError");
    reveal_strlit("AttributeError");
    reveal_strlit("BufferError");
    reveal_strlit("EOFError");
    reveal_strlit("ImportError");
    reveal_strlit("ModuleNotFoundError");
    reveal_strlit("LookupError");
    reveal_strlit("IndexError");
    reveal_strlit("KeyError");
    reveal_strlit("MemoryError");
    reveal_strlit("NameError");
    reveal_strlit("UnboundLocalError");
    reveal_strlit("OSError");
    reveal_strlit("IOError");
    reveal_strlit("EnvironmentError");
    reveal_strlit("BlockingIOError");
    reveal_strlit("ChildProcessError");
    reveal_strlit("ConnectionError");
    reveal_strlit("BrokenPipeError");
    reveal_strlit("ConnectionAbortedError");
    reveal_strlit("ConnectionRefusedError");
    reveal_strlit("ConnectionResetError");
    reveal_strlit("FileExistsError");
    reveal_strlit("FileNotFoundError");
    reveal_strlit("InterruptedError");
    reveal_strlit("IsADirectoryError");
    reveal_strlit("NotADirectoryError");
    reveal_strlit("PermissionError");
    reveal_strlit("ProcessLookupError");
    reveal_strlit("TimeoutError");
    reveal_strlit("ReferenceError");
    reveal_strlit("RuntimeError");
    reveal_strlit("NotImplementedError");
    reveal_strlit("RecursionError");
    reveal_strlit("SyntaxError");
    reveal_strlit("_IncompleteInputError");
    reveal_strlit("IndentationError");
    reveal_strlit("TabError");
    reveal_strlit("SystemError");
    reveal_strlit("TypeError");
    reveal_strlit("ValueError");
    reveal_strlit("UnicodeError");
    reveal_strlit("UnicodeDecodeError");
    reveal_strlit("UnicodeEncodeError");
    reveal_strlit("UnicodeTranslateError");
    reveal_strlit("Warning");
    reveal_strlit("DeprecationWarning");
    reveal_strlit("PendingDeprecationWarning");
    reveal_strlit("RuntimeWarning");
    reveal_strlit("SyntaxWarning");
    reveal_strlit("UserWarning");
    reveal_strlit("FutureWarning");
    reveal_strlit("ImportWarning");
    reveal_strlit("UnicodeWarning");
    reveal_strlit("BytesWarning");
    reveal_strlit("ResourceWarning");
    reveal_strlit("EncodingWarning");
    let name = spec_entry_name(i);
    assert(name.len() == 9 && name[0] == '_' <==> i == 0);
    assert(name.len() == 4 && name[0] == 'N' <==> i == 26);
    assert(name.len() == 4 && name[0] == 'T' <==> i == 27);
    assert(name.len() == 5 && name[0] == 'F' <==> i == 28);
    assert(name.len() == 4 && name[0] == 't' <==> i == 24);
    assert(name.len() == 6 && name[0] == 'o' <==> i == 15);
    assert(name.len() == 7 && name[0] == 'O' <==> i == OS_ERROR_ENTRY);
    assert(name.len() == 7 && name[0] == 'I' <==> i == OS_ERROR_ENTRY + 1);
    assert(name.len() == 16 && name[0] == 'E' <==> i == OS_ERROR_ENTRY + 2);
}

/// The built-in module binds `OSError`, `IOError` and `EnvironmentError`
/// to one object: the class at the place of `OSError`, whose own name in
/// an arena as it is first made is `OSError`. This holds whatever the
/// module held before, and at every optimization level.
pub proof fn lemma_os_error_aliases(attrs: Seq<AttrView>, debug: bool)
    ensures
        lookup(bind_all(attrs, builtin_names(debug), 0), "OSError"@) == Some(
            ObjRef { id: OS_ERROR },
        ),
        lookup(bind_all(attrs, builtin_names(debug), 0), "IOError"@) == Some(
            ObjRef { id: OS_ERROR },
        ),
        lookup(bind_all(attrs, builtin_names(debug), 0), "EnvironmentError"@) == Some(
            ObjRef { id: OS_ERROR },
        ),
        Heap::initial().is_type(ObjRef { id: OS_ERROR }),
        Heap::initial().type_view(ObjRef { id: OS_ERROR }).name == "OSError"@,
{
    let names = builtin_names(debug);
    let first = OS_ERROR_ENTRY as int;
    assert forall|j: int| 0 <= j < names.len() implies (((#[trigger] names[j]).name == "OSError"@)
        <==> j == first) && ((names[j].name == "IOError"@) <==> j == first + 1) && ((names[j].name
        == "EnvironmentError"@) <==> j == first + 2) by {
        lemma_where_names_stand(j as usize);
    }
    lemma_last_binding_wins(attrs, names, 0, first);
    lemma_last_binding_wins(attrs, names, 0, first + 1);
    lemma_last_binding_wins(attrs, names, 0, first + 2);
    lemma_initial_places();
}

/// The built-in module binds the debug flag to the truth value that says
/// whether the optimization level is 0, the names `None`, `True` and
/// `False` to the three constants, and `type` and `object` to the two
/// root types.
pub proof fn lemma_constants_bound(attrs: Seq<AttrView>, debug: bool)
    ensures
        lookup(bind_all(attrs, builtin_names(debug), 0), "__debug__"@) == Some(
            spec_bool_object(debug),
        ),
        lookup(bind_all(attrs, builtin_names(debug), 0), "None"@) == Some(ObjRef { id: NONE }),
        lookup(bind_all(attrs, builtin_names(debug), 0), "True"@) == Some(ObjRef { id: TRUE }),
        lookup(bind_all(attrs, builtin_names(debug), 0), "False"@) == Some(ObjRef { id: FALSE }),
        lookup(bind_all(attrs, builtin_names(debug), 0), "type"@) == Some(
            ObjRef { id: TYPE_TYPE },
        ),
        lookup(bind_all(attrs, builtin_names(debug), 0), "object"@) == Some(
            ObjRef { id: OBJECT_TYPE },
        ),
{
    let names = builtin_names(debug);
    assert forall|j: int| 0 <= j < names.len() implies (((#[trigger] names[j]).name
        == "__debug__"@) <==> j == 0) && ((names[j].name == "None"@) <==> j == 26) && ((
    names[j].name == "True"@) <==> j == 27) && ((names[j].name == "False"@) <==> j == 28) && ((
    names[j].name == "type"@) <==> j == 24) && ((names[j].name == "object"@) <==> j == 15) by {
        lemma_where_names_stand(j as usize);
    }
    lemma_last_binding_wins(attrs, names, 0, 0);
    lemma_last_binding_wins(attrs, names, 0, 26);
    lemma_last_binding_wins(attrs, names, 0, 27);
    lemma_last_binding_wins(attrs, names, 0, 28);
    lemma_last_binding_wins(attrs, names, 0, 24);
    lemma_last_binding_wins(attrs, names, 0, 15);
}

} // verus!
