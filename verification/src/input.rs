//! Reading a line: from the terminal where the standard streams are the
//! terminal's, else through the standard input of the system module.

use vstd::prelude::*;
use vstd::string::*;

use crate::error::{Error, Method};
use crate::heap::{Heap, STR_TYPE};
use crate::make::none;
use crate::object::{ObjRef, PayloadView};
use crate::scope::Context;
use crate::vm::Vm;

verus! {

/// The attribute of the system module that holds the standard input.
pub const STDIN: &'static str = "stdin";

/// The attribute of the system module that holds the standard error.
pub const STDERR: &'static str = "stderr";

/// What reading a line from the terminal came to.
#[derive(Debug)]
pub enum ReadlineResult {
    Line(String),
    Eof,
    Interrupt,
    Io(String),
    Other(String),
}

/// How `input` goes on: the line is there, or it has to be read from the
/// terminal.
#[derive(Clone, Copy, Debug, PartialEq, Eq, Structural)]
pub enum InputStep {
    Line(ObjRef),
    Terminal,
}

/// A line without the line feed at its end, where it has one.
pub open spec fn without_line_feed(s: Seq<char>) -> Seq<char> {
    if s.len() > 0 && s.last() == '\n' {
        s.drop_last()
    } else {
        s
    }
}

/// `line` without the line feed at its end, where it has one.
pub fn strip_line_feed(line: &str) -> (r: String)
    ensures
        r@ == without_line_feed(line@),
{
    let n = line.unicode_len();
    if n > 0 && line.get_char(n - 1) == '\n' {
        let short = line.substring_char(0, n - 1);
        short.to_owned()
    } else {
        line.to_owned()
    }
}

impl Heap {
    /// Whether the file object `obj` stands for the file descriptor
    /// `expected`: its method `fileno` returns that integer.
    pub open spec fn fd_matches(self, obj: ObjRef, expected: i64) -> (Heap, bool) {
        let (h, r) = self.call_method(obj, Method::Fileno, Seq::empty());
        (
            h,
            match r {
                Ok(v) => match h.integer(v) {
                    Ok(fd) => fd == expected,
                    Err(_) => false,
                },
                Err(_) => false,
            },
        )
    }

    /// A line read from the file object `file` through its method
    /// `readline`, without the line feed at its end. The empty text is the
    /// end of the file.
    pub open spec fn file_readline(self, file: ObjRef) -> (Heap, Result<ObjRef, Error>) {
        let (h, r) = self.call_method(file, Method::Readline, Seq::empty());
        match r {
            Err(e) => (h, Err(e)),
            Ok(v) => match h.payload(v) {
                PayloadView::Str(s) => if s.len() == 0 {
                    (h, Err(Error::EndOfFile))
                } else if s.last() == '\n' {
                    (h.push(Heap::plain(STR_TYPE, PayloadView::Str(s.drop_last()))), Ok(h.next_ref()))
                } else {
                    (h, Ok(v))
                },
                _ => (h, Err(Error::ReadlineNotString)),
            },
        }
    }

    /// How a line is read through the three standard streams. The standard
    /// error is flushed. Where the standard input and output stand for the
    /// file descriptors 0 and 1 and the input is a terminal, the line is to
    /// be read from the terminal. Else the prompt is written to the
    /// standard output, which is flushed, and a line is read from the
    /// standard input.
    pub open spec fn read_through(
        self,
        prompt: Option<ObjRef>,
        terminal: bool,
        stdin: ObjRef,
        stdout: ObjRef,
        stderr: ObjRef,
    ) -> (Heap, Result<InputStep, Error>) {
        let h1 = self.call_method(stderr, Method::Flush, Seq::empty()).0;
        let (h2, first) = h1.fd_matches(stdin, 0);
        let (h3, second) = if first {
            h2.fd_matches(stdout, 1)
        } else {
            (h2, false)
        };
        if first && second && terminal {
            (h3, Ok(InputStep::Terminal))
        } else {
            let (h4, written) = match prompt {
                Some(p) => h3.call_method(stdout, Method::Write, seq![p]),
                None => (h3, Ok::<ObjRef, Error>(none())),
            };
            match written {
                Err(e) => (h4, Err(e)),
                Ok(_) => {
                    let h5 = h4.call_method(stdout, Method::Flush, Seq::empty()).0;
                    let (h6, line) = h5.file_readline(stdin);
                    (
                        h6,
                        match line {
                            Ok(l) => Ok(InputStep::Line(l)),
                            Err(e) => Err(e),
                        },
                    )
                },
            }
        }
    }

    /// What `input` does: the three standard streams are those that the
    /// system module holds, each of which must be there.
    pub open spec fn input_begin(self, prompt: Option<ObjRef>, terminal: bool, sys_module: ObjRef)
        -> (Heap, Result<InputStep, Error>) {
        match self.get_attr(sys_module, STDIN@) {
            None => (self, Err(Error::LostStdin)),
            Some(stdin) => match self.get_attr(sys_module, crate::output::STDOUT@) {
                None => (self, Err(Error::LostStdout)),
                Some(stdout) => match self.get_attr(sys_module, STDERR@) {
                    None => (self, Err(Error::LostStderr)),
                    Some(stderr) => self.read_through(prompt, terminal, stdin, stdout, stderr),
                },
            },
        }
    }
}

impl Vm {
    /// Whether the file object `obj` stands for the file descriptor
    /// `expected`.
    pub fn fd_matches(&mut self, obj: ObjRef, expected: i64) -> (r: bool)
        ensures
            (final(self)@, r) == old(self)@.fd_matches(obj, expected),
            old(self)@.leads_to(final(self)@),
            old(self)@.intact() && old(self)@.has(obj) ==> final(self)@.intact(),
    {
        match self.call_method(obj, Method::Fileno, Vec::new()) {
            Ok(v) => match self.integer(v) {
                Ok(fd) => fd == expected,
                Err(_) => false,
            },
            Err(_) => false,
        }
    }

    /// A line read from the file object `file`.
    pub fn file_readline(&mut self, file: ObjRef) -> (r: Result<ObjRef, Error>)
        ensures
            (final(self)@, r) == old(self)@.file_readline(file),
            old(self)@.leads_to(final(self)@),
            old(self)@.intact() && old(self)@.has(file)
                ==> final(self)@.intact() && final(self)@.has_ok(r),
    {
        let v = match self.call_method(file, Method::Readline, Vec::new()) {
            Ok(v) => v,
            Err(e) => {
                return Err(e);
            },
        };
        let text = match self.str_value(v) {
            Some(text) => text,
            None => {
                return Err(Error::ReadlineNotString);
            },
        };
        let n = text.as_str().unicode_len();
        if n == 0 {
            return Err(Error::EndOfFile);
        }
        if text.as_str().get_char(n - 1) == '\n' {
            let short = text.as_str().substring_char(0, n - 1);
            Ok(self.new_str(short))
        } else {
            Ok(v)
        }
    }
}

/// Begins to read a line for `input`. `terminal` says whether the input of
/// the process is a terminal. Either the line comes back, as a string
/// object without its line feed, or the caller is to read it from the
/// terminal and to hand what came of it to `input_finish`.
pub fn input(prompt: Option<ObjRef>, terminal: bool, ctx: &Context, vm: &mut Vm) -> (r: Result<
    InputStep,
    Error,
>)
    ensures
        (final(vm)@, r) == old(vm)@.input_begin(prompt, terminal, ctx.sys_module),
        old(vm)@.leads_to(final(vm)@),
        old(vm)@.intact() && old(vm)@.has_some(prompt) && ctx.within(old(vm)@)
            ==> final(vm)@.intact() && (r matches Ok(InputStep::Line(o)) ==> final(vm)@.has(o)),
{
    let stdin = match vm.get_attr(ctx.sys_module, STDIN) {
        Some(f) => f,
        None => {
            return Err(Error::LostStdin);
        },
    };
    let stdout = match vm.get_attr(ctx.sys_module, crate::output::STDOUT) {
        Some(f) => f,
        None => {
            return Err(Error::LostStdout);
        },
    };
    let stderr = match vm.get_attr(ctx.sys_module, STDERR) {
        Some(f) => f,
        None => {
            return Err(Error::LostStderr);
        },
    };
    let _ = vm.call_method(stderr, Method::Flush, Vec::new());
    let first = vm.fd_matches(stdin, 0);
    let second = if first {
        vm.fd_matches(stdout, 1)
    } else {
        false
    };
    if first && second && terminal {
        return Ok(InputStep::Terminal);
    }
    match prompt {
        Some(p) => {
            let mut args: Vec<ObjRef> = Vec::new();
            args.push(p);
            match vm.call_method(stdout, Method::Write, args) {
                Ok(_) => {},
                Err(e) => {
                    return Err(e);
                },
            }
        },
        None => {},
    }
    let _ = vm.call_method(stdout, Method::Flush, Vec::new());
    match vm.file_readline(stdin) {
        Ok(line) => Ok(InputStep::Line(line)),
        Err(e) => Err(e),
    }
}

/// What `input` returns once the terminal was read: the line, without the
/// line feed at its end, as a new string object, or the error that stands
/// for what went wrong.
pub fn input_finish(result: ReadlineResult, vm: &mut Vm) -> (r: Result<ObjRef, Error>)
    ensures
        match result {
            ReadlineResult::Line(s) => final(vm)@ == old(vm)@.push(
                Heap::plain(STR_TYPE, PayloadView::Str(without_line_feed(s@))),
            ) && r == Ok::<ObjRef, Error>(old(vm)@.next_ref()),
            ReadlineResult::Eof => final(vm)@ == old(vm)@ && r == Err::<ObjRef, Error>(
                Error::EndOfInput,
            ),
            ReadlineResult::Interrupt => final(vm)@ == old(vm)@ && r == Err::<ObjRef, Error>(
                Error::Interrupted,
            ),
            ReadlineResult::Io(s) => final(vm)@ == old(vm)@.push(
                Heap::plain(STR_TYPE, PayloadView::Str(s@)),
            ) && r == Err::<ObjRef, Error>(Error::Os { message: old(vm)@.next_ref() }),
            ReadlineResult::Other(s) => final(vm)@ == old(vm)@.push(
                Heap::plain(STR_TYPE, PayloadView::Str(s@)),
            ) && r == Err::<ObjRef, Error>(Error::Readline { message: old(vm)@.next_ref() }),
        },
        old(vm)@.leads_to(final(vm)@),
        old(vm)@.intact() ==> final(vm)@.intact() && final(vm)@.has_ok(r),
{
    match result {
        ReadlineResult::Line(s) => {
            let line = strip_line_feed(s.as_str());
            Ok(vm.new_str(line.as_str()))
        },
        ReadlineResult::Eof => Err(Error::EndOfInput),
        ReadlineResult::Interrupt => Err(Error::Interrupted),
        ReadlineResult::Io(s) => Err(Error::Os { message: vm.new_str(s.as_str()) }),
        ReadlineResult::Other(s) => Err(Error::Readline { message: vm.new_str(s.as_str()) }),
    }
}

} // verus!
