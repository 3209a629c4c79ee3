//! The built-in module: the names under which the built-in types,
//! constants, exceptions and warnings are found.

use vstd::prelude::*;

use crate::check::{lemma_bind_within, lemma_reads_within};
use crate::heap::{
    bind_all, distinct_names, lookup, BOOL_TYPE, DICT_TYPE, ELLIPSIS, FALSE, INT_TYPE, LIST_TYPE, NONE,
    NOT_IMPLEMENTED, OBJECT_TYPE, ROOT_COUNT, STR_TYPE, TRUE, TUPLE_TYPE, TYPE_TYPE,
};
use crate::items::bind_entry;
use crate::make::{bool_object, spec_bool_object};
use crate::module_laws::{lemma_constants_bound, lemma_os_error_aliases};
use crate::object::{AttrView, ObjRef};
use crate::roots::{
    root_name, spec_root_name, BASE_EXCEPTION, BYTEARRAY_TYPE, BYTES_TYPE, CLASSMETHOD_TYPE,
    COMPLEX_TYPE, ENUMERATE_TYPE, FILTER_TYPE, FLOAT_TYPE, FROZENSET_TYPE, MAP_TYPE,
    MEMORYVIEW_TYPE, OS_ERROR, PROPERTY_TYPE, RANGE_TYPE, SET_TYPE, SLICE_TYPE,
    STATICMETHOD_TYPE, SUPER_TYPE, ZIP_TYPE,
};
use crate::scope::Context;
use crate::vm::Vm;

verus! {

/// The number of names that the built-in module gets.
pub const ENTRY_COUNT: usize = 101;

/// The entry of the first exception, `BaseException`. From there on the
/// exceptions and warnings follow in the order of their places.
pub const FIRST_EXCEPTION_ENTRY: usize = 31;

/// The entry of `OSError`. The two entries behind it, `IOError` and
/// `EnvironmentError`, are further names of the same class.
pub const OS_ERROR_ENTRY: usize = 56;

/// The place of the object that entry `i` names, for every entry but the
/// first, which names the debug flag.
pub open spec fn spec_entry_place(i: usize) -> usize {
    if i == 1 {
        BOOL_TYPE
    } else if i == 2 {
        BYTEARRAY_TYPE
    } else if i == 3 {
        BYTES_TYPE
    } else if i == 4 {
        CLASSMETHOD_TYPE
    } else if i == 5 {
        COMPLEX_TYPE
    } else if i == 6 {
        DICT_TYPE
    } else if i == 7 {
        ENUMERATE_TYPE
    } else if i == 8 {
        FLOAT_TYPE
    } else if i == 9 {
        FROZENSET_TYPE
    } else if i == 10 {
        FILTER_TYPE
    } else if i == 11 {
        INT_TYPE
    } else if i == 12 {
        LIST_TYPE
    } else if i == 13 {
        MAP_TYPE
    } else if i == 14 {
        MEMORYVIEW_TYPE
    } else if i == 15 {
        OBJECT_TYPE
    } else if i == 16 {
        PROPERTY_TYPE
    } else if i == 17 {
        RANGE_TYPE
    } else if i == 18 {
        SET_TYPE
    } else if i == 19 {
        SLICE_TYPE
    } else if i == 20 {
        STATICMETHOD_TYPE
    } else if i == 21 {
        STR_TYPE
    } else if i == 22 {
        SUPER_TYPE
    } else if i == 23 {
        TUPLE_TYPE
    } else if i == 24 {
        TYPE_TYPE
    } else if i == 25 {
        ZIP_TYPE
    } else if i == 26 {
        NONE
    } else if i == 27 {
        TRUE
    } else if i == 28 {
        FALSE
    } else if i == 29 {
        NOT_IMPLEMENTED
    } else if i == 30 {
        ELLIPSIS
    } else if i <= OS_ERROR_ENTRY {
        (BASE_EXCEPTION + (i - FIRST_EXCEPTION_ENTRY)) as usize
    } else if i <= OS_ERROR_ENTRY + 2 {
        OS_ERROR
    } else {
        (BASE_EXCEPTION + (i - FIRST_EXCEPTION_ENTRY - 2)) as usize
    }
}

pub fn entry_place(i: usize) -> (r: usize)
    requires
        0 < i < ENTRY_COUNT,
    ensures
        r == spec_entry_place(i),
        r < ROOT_COUNT,
{
    if i == 1 {
        BOOL_TYPE
    } else if i == 2 {
        BYTEARRAY_TYPE
    } else if i == 3 {
        BYTES_TYPE
    } else if i == 4 {
        CLASSMETHOD_TYPE
    } else if i == 5 {
        COMPLEX_TYPE
    } else if i == 6 {
        DICT_TYPE
    } else if i == 7 {
        ENUMERATE_TYPE
    } else if i == 8 {
        FLOAT_TYPE
    } else if i == 9 {
        FROZENSET_TYPE
    } else if i == 10 {
        FILTER_TYPE
    } else if i == 11 {
        INT_TYPE
    } else if i == 12 {
        LIST_TYPE
    } else if i == 13 {
        MAP_TYPE
    } else if i == 14 {
        MEMORYVIEW_TYPE
    } else if i == 15 {
        OBJECT_TYPE
    } else if i == 16 {
        PROPERTY_TYPE
    } else if i == 17 {
        RANGE_TYPE
    } else if i == 18 {
        SET_TYPE
    } else if i == 19 {
        SLICE_TYPE
    } else if i == 20 {
        STATICMETHOD_TYPE
    } else if i == 21 {
        STR_TYPE
    } else if i == 22 {
        SUPER_TYPE
    } else if i == 23 {
        TUPLE_TYPE
    } else if i == 24 {
        TYPE_TYPE
    } else if i == 25 {
        ZIP_TYPE
    } else if i == 26 {
        NONE
    } else if i == 27 {
        TRUE
    } else if i == 28 {
        FALSE
    } else if i == 29 {
        NOT_IMPLEMENTED
    } else if i == 30 {
        ELLIPSIS
    } else if i <= OS_ERROR_ENTRY {
        BASE_EXCEPTION + (i - FIRST_EXCEPTION_ENTRY)
    } else if i <= OS_ERROR_ENTRY + 2 {
        OS_ERROR
    } else {
        BASE_EXCEPTION + (i - FIRST_EXCEPTION_ENTRY - 2)
    }
}

/// The name of entry `i`: the name of the class at its place, or the name
/// of a constant, or a further name of `OSError`.
pub open spec fn spec_entry_name(i: usize) -> Seq<char> {
    if i == 0 {
        "__debug__"@
    } else if i == 26 {
        "None"@
    } else if i == 27 {
        "True"@
    } else if i == 28 {
        "False"@
    } else if i == 29 {
        "NotImplemented"@
    } else if i == 30 {
        "Ellipsis"@
    } else if i == OS_ERROR_ENTRY + 1 {
        "IOError"@
    } else if i == OS_ERROR_ENTRY + 2 {
        "EnvironmentError"@
    } else {
        spec_root_name(spec_entry_place(i))
    }
}

pub fn entry_name(i: usize) -> (r: &'static str)
    requires
        i < ENTRY_COUNT,
    ensures
        r@ == spec_entry_name(i),
{
    if i == 0 {
        "__debug__"
    } else if i == 26 {
        "None"
    } else if i == 27 {
        "True"
    } else if i == 28 {
        "False"
    } else if i == 29 {
        "NotImplemented"
    } else if i == 30 {
        "Ellipsis"
    } else if i == OS_ERROR_ENTRY + 1 {
        "IOError"
    } else if i == OS_ERROR_ENTRY + 2 {
        "EnvironmentError"
    } else {
        root_name(entry_place(i))
    }
}

/// The object that entry `i` names: the truth value of the debug flag for
/// the first entry, the object at the place of the entry for any other.
pub open spec fn spec_entry_value(debug: bool, i: usize) -> ObjRef {
    if i == 0 {
        spec_bool_object(debug)
    } else {
        ObjRef { id: spec_entry_place(i) }
    }
}

pub fn entry_value(debug: bool, i: usize) -> (r: ObjRef)
    requires
        i < ENTRY_COUNT,
    ensures
        r == spec_entry_value(debug, i),
{
    if i == 0 {
        bool_object(debug)
    } else {
        ObjRef { id: entry_place(i) }
    }
}

/// The names of the built-in module, in the order in which they are bound:
/// the debug flag, the types, the constants, the exceptions and the
/// warnings.
pub open spec fn builtin_names(debug: bool) -> Seq<AttrView> {
    Seq::new(
        ENTRY_COUNT as nat,
        |i: int|
            AttrView {
                name: spec_entry_name(i as usize),
                value: spec_entry_value(debug, i as usize),
            },
    )
}

/// Fills the built-in module: binds the debug flag, which is true exactly
/// at optimization level 0, and every built-in type, constant, exception
/// and warning under its name. `IOError` and `EnvironmentError` are bound
/// to the class of `OSError`. A name that the module has already is
/// rebound.
pub fn init_module(vm: &mut Vm, module: ObjRef, ctx: &Context)
    ensures
        final(vm)@ == old(vm)@.with_attrs(
            module,
            bind_all(old(vm)@.attrs(module), builtin_names(ctx.optimize == 0), 0),
        ),
        old(vm)@.leads_to(final(vm)@),
        old(vm)@.intact() ==> final(vm)@.intact(),
        old(vm)@.has(module) ==> {
            let bound = final(vm)@.attrs(module);
            &&& lookup(bound, "__debug__"@) == Some(spec_bool_object(ctx.optimize == 0))
            &&& lookup(bound, "OSError"@) == Some(ObjRef { id: OS_ERROR })
            &&& lookup(bound, "IOError"@) == Some(ObjRef { id: OS_ERROR })
            &&& lookup(bound, "EnvironmentError"@) == Some(ObjRef { id: OS_ERROR })
            &&& lookup(bound, "type"@) == Some(ObjRef { id: TYPE_TYPE })
            &&& lookup(bound, "object"@) == Some(ObjRef { id: OBJECT_TYPE })
            &&& lookup(bound, "None"@) == Some(ObjRef { id: NONE })
            &&& lookup(bound, "True"@) == Some(ObjRef { id: TRUE })
            &&& lookup(bound, "False"@) == Some(ObjRef { id: FALSE })
        },
{
    let debug_mode: bool = ctx.optimize == 0;
    proof {
        if vm@.intact() {
            lemma_reads_within(vm@, module);
        }
        lemma_os_error_aliases(vm@.attrs(module), debug_mode);
        lemma_constants_bound(vm@.attrs(module), debug_mode);
    }
    let mut attrs = vm.attrs(module);
    let ghost names = builtin_names(debug_mode);
    let ghost start = attrs.deep_view();
    let mut i: usize = 0;
    while i < ENTRY_COUNT
        invariant
            old(vm)@.leads_to(vm@),
            i <= ENTRY_COUNT,
            names == builtin_names(debug_mode),
            bind_all(start, names, 0) == bind_all(attrs.deep_view(), names, i as int),
            old(vm)@.intact() ==> vm@.values_in(attrs.deep_view()) && distinct_names(
                attrs.deep_view(),
            ),
        decreases ENTRY_COUNT - i,
    {
        proof {
            if vm@.intact() {
                lemma_bind_within(
                    vm@,
                    attrs.deep_view(),
                    spec_entry_name(i),
                    spec_entry_value(debug_mode, i),
                );
            }
        }
        bind_entry(&mut attrs, entry_name(i), entry_value(debug_mode, i));
        i += 1;
    }
    vm.set_attrs(module, attrs);
}

} // verus!
