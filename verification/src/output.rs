//! The built-in functions that turn objects into text and numbers into
//! characters: `print`, `repr`, `ascii`, `bin`, `hex`, `oct`, `chr`, `ord`.

use vstd::prelude::*;
use vstd::string::*;

use crate::error::{Error, Method};
use crate::heap::{Heap, STR_TYPE};
use crate::object::{ArgsView, FuncArgs, ObjRef, Payload, PayloadView};
use crate::protocol::ArgIntoBool;
use crate::render::{method_name, spec_method_name};
use crate::scope::Context;
use crate::outside::{only_char, to_u32};
use crate::text::{prefixed, spec_to_ascii, to_ascii, with_prefix};
use crate::vm::Vm;

verus! {

/// The attribute of the system module that holds the standard output.
pub const STDOUT: &'static str = "stdout";

/// The greatest code point.
pub const MAX_CODE_POINT: u32 = 0x10FFFF;

impl Heap {
    /// The representation of `o`: text stands in single quotes, any other
    /// object as it is shown.
    pub open spec fn repr(self, o: ObjRef) -> Seq<char> {
        match self.payload(o) {
            PayloadView::Str(s) => "'"@ + s + "'"@,
            _ => self.display(o),
        }
    }

    /// Calls a method of the file object `obj` on `args`. The method is
    /// the attribute of its name; an object without it is refused.
    pub open spec fn call_method(self, obj: ObjRef, method: Method, args: Seq<ObjRef>) -> (
        Heap,
        Result<ObjRef, Error>,
    ) {
        match self.get_attr(obj, spec_method_name(method)) {
            Some(callee) => self.call(callee, ArgsView::positional(args)),
            None => (self, Err(Error::MissingMethod { class: self.class_of(obj), method })),
        }
    }

    /// Writes `objects[from..]` to `file`: each object as a new string of
    /// how it is shown, with `sep` written before every object but the
    /// first of all.
    pub open spec fn print_from(self, file: ObjRef, objects: Seq<ObjRef>, from: int, sep: ObjRef)
        -> (Heap, Result<(), Error>)
        decreases objects.len() - from,
    {
        if from < 0 || from >= objects.len() {
            (self, Ok(()))
        } else {
            let (h0, r0) = if from > 0 {
                self.call_method(file, Method::Write, seq![sep])
            } else {
                (self, Ok::<ObjRef, Error>(sep))
            };
            match r0 {
                Err(e) => (h0, Err(e)),
                Ok(_) => {
                    let text = h0.next_ref();
                    let h1 = h0.push(
                        Heap::plain(STR_TYPE, PayloadView::Str(h0.display(objects[from]))),
                    );
                    let (h2, r2) = h1.call_method(file, Method::Write, seq![text]);
                    match r2 {
                        Err(e) => (h2, Err(e)),
                        Ok(_) => h2.print_from(file, objects, from + 1, sep),
                    }
                },
            }
        }
    }

    /// Prints `objects` to `file`: the objects with the separator between
    /// them (a new string of one space where none is given), then the end
    /// (a new string of one line feed where none is given), then a flush
    /// where one is asked for. The first write that fails ends it.
    pub open spec fn print_to(
        self,
        file: ObjRef,
        objects: Seq<ObjRef>,
        sep: Option<ObjRef>,
        end: Option<ObjRef>,
        flush: bool,
    ) -> (Heap, Result<(), Error>) {
        let (h0, sep_obj) = match sep {
            Some(s) => (self, s),
            None => (self.push(Heap::plain(STR_TYPE, PayloadView::Str(" "@))), self.next_ref()),
        };
        let (h1, r1) = h0.print_from(file, objects, 0, sep_obj);
        match r1 {
            Err(e) => (h1, Err(e)),
            Ok(()) => {
                let (h2, end_obj) = match end {
                    Some(e) => (h1, e),
                    None => (
                        h1.push(Heap::plain(STR_TYPE, PayloadView::Str("\n"@))),
                        h1.next_ref(),
                    ),
                };
                let (h3, r3) = h2.call_method(file, Method::Write, seq![end_obj]);
                match r3 {
                    Err(e) => (h3, Err(e)),
                    Ok(_) => if flush {
                        let (h4, r4) = h3.call_method(file, Method::Flush, Seq::empty());
                        (
                            h4,
                            match r4 {
                                Ok(_) => Ok(()),
                                Err(e) => Err(e),
                            },
                        )
                    } else {
                        (h3, Ok(()))
                    },
                }
            },
        }
    }

    /// What `print` does: the file is the one given, or else the standard
    /// output of the system module, which must be there.
    pub open spec fn print_all(self, objects: Seq<ObjRef>, options: PrintOptions, sys_module: ObjRef)
        -> (Heap, Result<(), Error>) {
        let file = match options.file {
            Some(f) => Some(f),
            None => self.get_attr(sys_module, STDOUT@),
        };
        match file {
            None => (self, Err(Error::LostStdout)),
            Some(f) => self.print_to(f, objects, options.sep, options.end, options.flush.value),
        }
    }
}

impl Vm {
    /// The representation of `o`.
    pub fn repr_text(&self, o: ObjRef) -> (r: String)
        ensures
            r@ == self@.repr(o),
    {
        match self.payload(o) {
            Some(Payload::Str(s)) => crate::text::join3("'", s.as_str(), "'"),
            _ => self.display(o),
        }
    }

    /// Calls a method of the file object `obj` on `args`.
    pub fn call_method(&mut self, obj: ObjRef, method: Method, args: Vec<ObjRef>) -> (r: Result<
        ObjRef,
        Error,
    >)
        ensures
            (final(self)@, r) == old(self)@.call_method(obj, method, args@),
            old(self)@.leads_to(final(self)@),
            old(self)@.intact() && old(self)@.has(obj) && old(self)@.refs_in(args@)
                ==> final(self)@.intact() && final(self)@.has_ok(r),
    {
        match self.get_attr(obj, method_name(method)) {
            Some(callee) => {
                let args = FuncArgs { args, kwargs: Vec::new() };
                self.call(callee, &args)
            },
            None => Err(Error::MissingMethod { class: self.class_of(obj), method }),
        }
    }

    /// Writes the string object `text` to `file`.
    fn write(&mut self, file: ObjRef, text: ObjRef) -> (r: Result<ObjRef, Error>)
        ensures
            (final(self)@, r) == old(self)@.call_method(file, Method::Write, seq![text]),
            old(self)@.leads_to(final(self)@),
            old(self)@.intact() && old(self)@.has(file) && old(self)@.has(text)
                ==> final(self)@.intact() && final(self)@.has_ok(r),
    {
        let mut args: Vec<ObjRef> = Vec::new();
        args.push(text);
        self.call_method(file, Method::Write, args)
    }

    /// Prints `objects` to `file`.
    pub fn print_to(
        &mut self,
        file: ObjRef,
        objects: &Vec<ObjRef>,
        sep: Option<ObjRef>,
        end: Option<ObjRef>,
        flush: bool,
    ) -> (r: Result<(), Error>)
        ensures
            (final(self)@, r) == old(self)@.print_to(file, objects@, sep, end, flush),
            old(self)@.leads_to(final(self)@),
            old(self)@.intact() && old(self)@.has(file) && old(self)@.refs_in(objects@)
                && old(self)@.has_some(sep) && old(self)@.has_some(end)
                ==> final(self)@.intact(),
    {
        let sep_obj = match sep {
            Some(s) => s,
            None => self.new_str(" "),
        };
        let ghost start = self@;
        let mut i: usize = 0;
        while i < objects.len()
            invariant
                old(self)@.leads_to(self@),
                i <= objects.len(),
                old(self)@.print_to(file, objects@, sep, end, flush).0 == start.print_to(
                    file,
                    objects@,
                    Some(sep_obj),
                    end,
                    flush,
                ).0,
                old(self)@.print_to(file, objects@, sep, end, flush).1 == start.print_to(
                    file,
                    objects@,
                    Some(sep_obj),
                    end,
                    flush,
                ).1,
                start.print_from(file, objects@, 0, sep_obj) == self@.print_from(
                    file,
                    objects@,
                    i as int,
                    sep_obj,
                ),
                old(self)@.intact() && old(self)@.has(file) && old(self)@.refs_in(objects@)
                    && old(self)@.has_some(sep) && old(self)@.has_some(end) ==> self@.intact()
                    && self@.has(sep_obj),
            decreases objects.len() - i,
        {
            if i > 0 {
                match self.write(file, sep_obj) {
                    Ok(_) => {},
                    Err(e) => {
                        return Err(e);
                    },
                }
            }
            let shown = self.display(objects[i]);
            let text = self.new_str(shown.as_str());
            match self.write(file, text) {
                Ok(_) => {},
                Err(e) => {
                    return Err(e);
                },
            }
            i += 1;
        }
        let end_obj = match end {
            Some(e) => e,
            None => self.new_str("\n"),
        };
        match self.write(file, end_obj) {
            Ok(_) => {},
            Err(e) => {
                return Err(e);
            },
        }
        if flush {
            match self.call_method(file, Method::Flush, Vec::new()) {
                Ok(_) => Ok(()),
                Err(e) => Err(e),
            }
        } else {
            Ok(())
        }
    }
}

/// The options of `print`.
#[derive(Clone, Copy, Debug)]
pub struct PrintOptions {
    /// The string written between two objects; one space where it is
    /// `None`.
    pub sep: Option<ObjRef>,
    /// The string written after the last object; a line feed where it is
    /// `None`.
    pub end: Option<ObjRef>,
    /// Whether the file is flushed at the end.
    pub flush: ArgIntoBool,
    /// The file object written to; the standard output where it is `None`.
    pub file: Option<ObjRef>,
}

impl Default for PrintOptions {
    fn default() -> (r: PrintOptions)
        ensures
            r.sep is None,
            r.end is None,
            r.flush.value == false,
            r.file is None,
    {
        PrintOptions { sep: None, end: None, flush: ArgIntoBool { value: false }, file: None }
    }
}

/// Prints `objects`: writes them to the file of the options, or else to
/// the standard output that the system module holds.
pub fn print(objects: Vec<ObjRef>, options: PrintOptions, ctx: &Context, vm: &mut Vm) -> (r:
    Result<(), Error>)
    ensures
        (final(vm)@, r) == old(vm)@.print_all(objects@, options, ctx.sys_module),
        old(vm)@.leads_to(final(vm)@),
        old(vm)@.intact() && old(vm)@.refs_in(objects@) && old(vm)@.has_some(options.sep)
            && old(vm)@.has_some(options.end) && old(vm)@.has_some(options.file)
            && ctx.within(old(vm)@)
            ==> final(vm)@.intact(),
{
    let sys_module = ctx.sys_module;
    let file = match options.file {
        Some(f) => f,
        None => match vm.get_attr(sys_module, STDOUT) {
            Some(f) => f,
            None => {
                return Err(Error::LostStdout);
            },
        },
    };
    vm.print_to(file, &objects, options.sep, options.end, options.flush.value)
}

/// The representation of `obj`, as a new string object.
pub fn repr(obj: ObjRef, vm: &mut Vm) -> (r: Result<ObjRef, Error>)
    ensures
        final(vm)@ == old(vm)@.push(Heap::plain(STR_TYPE, PayloadView::Str(old(vm)@.repr(obj)))),
        r == Ok::<ObjRef, Error>(old(vm)@.next_ref()),
        old(vm)@.leads_to(final(vm)@),
        old(vm)@.intact() && old(vm)@.has(obj) ==> final(vm)@.intact() && final(vm)@.has_ok(r),
{
    let text = vm.repr_text(obj);
    Ok(vm.new_str(text.as_str()))
}

/// The representation of `obj` in ASCII: every character outside ASCII is
/// replaced by its backslash escape.
pub fn ascii(obj: ObjRef, vm: &Vm) -> (r: Result<String, Error>)
    ensures
        r matches Ok(s) && s@ == spec_to_ascii(vm@.repr(obj), 0),
{
    let text = vm.repr_text(obj);
    Ok(to_ascii(text.as_str()))
}

/// `x` in binary notation: `0b` and the digits, behind a minus sign where
/// `x` is negative.
pub fn bin(x: i64) -> (r: String)
    ensures
        r@ == prefixed(x as int, "0b"@, 2),
{
    with_prefix(x, "0b", 2)
}

/// `number` in hexadecimal notation, in lower case: `0x` and the digits,
/// behind a minus sign where it is negative.
pub fn hex(number: i64) -> (r: String)
    ensures
        r@ == prefixed(number as int, "0x"@, 16),
{
    with_prefix(number, "0x", 16)
}

/// `number` in octal notation, as a new string object: `0o` and the
/// digits, behind a minus sign where it is negative.
pub fn oct(number: i64, vm: &mut Vm) -> (r: Result<ObjRef, Error>)
    ensures
        final(vm)@ == old(vm)@.push(
            Heap::plain(STR_TYPE, PayloadView::Str(prefixed(number as int, "0o"@, 8))),
        ),
        r == Ok::<ObjRef, Error>(old(vm)@.next_ref()),
        old(vm)@.leads_to(final(vm)@),
        old(vm)@.intact() ==> final(vm)@.intact() && final(vm)@.has_ok(r),
{
    let text = with_prefix(number, "0o", 8);
    Ok(vm.new_str(text.as_str()))
}

/// The code point `i`, where it is one: a number from 0 to 0x10FFFF.
pub fn chr(i: isize) -> (r: Result<u32, Error>)
    ensures
        r == if 0 <= i <= MAX_CODE_POINT {
            Ok::<u32, Error>(i as u32)
        } else {
            Err(Error::ChrRange)
        },
{
    match to_u32(i) {
        Some(code) => if code <= MAX_CODE_POINT {
            Ok(code)
        } else {
            Err(Error::ChrRange)
        },
        None => Err(Error::ChrRange),
    }
}

/// The code of the one character of the string `string`, or the one byte
/// of the bytes. A string or bytes of any other length are refused with
/// their length, and an object that is neither with its type.
pub fn ord(string: ObjRef, vm: &Vm) -> (r: Result<u32, Error>)
    ensures
        r == match vm@.payload(string) {
            PayloadView::Str(s) => if s.len() == 1 {
                Ok::<u32, Error>(s[0] as u32)
            } else {
                Err(Error::OrdLength { len: s.len() as usize })
            },
            PayloadView::Bytes(b) => if b.len() == 1 {
                Ok::<u32, Error>(b[0] as u32)
            } else {
                Err(Error::OrdLength { len: b.len() as usize })
            },
            _ => Err(Error::OrdType { class: vm@.class_of(string) }),
        },
{
    match vm.payload(string) {
        Some(Payload::Bytes(b)) => if b.len() == 1 {
            Ok(b[0] as u32)
        } else {
            Err(Error::OrdLength { len: b.len() })
        },
        Some(Payload::Str(s)) => match only_char(s.as_str()) {
            Some(c) => Ok(c as u32),
            None => Err(Error::OrdLength { len: s.as_str().unicode_len() }),
        },
        _ => Err(Error::OrdType { class: vm.class_of(string) }),
    }
}

} // verus!
