//! Text: how an object is shown, and the wording of every error.

use vstd::prelude::*;
use vstd::string::*;

use crate::error::{Error, Extremum, Method, ScopeUser};
use crate::heap::Heap;
use crate::object::{ObjRef, Payload, PayloadView};
use crate::text::{decimal, join3, join5, numeral, put_decimal, put_numeral};
use crate::vm::Vm;

verus! {

/// The name of the selection.
pub open spec fn spec_extremum_name(func: Extremum) -> Seq<char> {
    match func {
        Extremum::Min => "min"@,
        Extremum::Max => "max"@,
    }
}

pub fn extremum_name(func: Extremum) -> (r: &'static str)
    ensures
        r@ == spec_extremum_name(func),
{
    match func {
        Extremum::Min => "min",
        Extremum::Max => "max",
    }
}

/// The comparison by which the selection prefers one item to another.
pub open spec fn spec_extremum_sign(func: Extremum) -> Seq<char> {
    match func {
        Extremum::Min => "<"@,
        Extremum::Max => ">"@,
    }
}

pub fn extremum_sign(func: Extremum) -> (r: &'static str)
    ensures
        r@ == spec_extremum_sign(func),
{
    match func {
        Extremum::Min => "<",
        Extremum::Max => ">",
    }
}

/// The name of the function that builds the scope.
pub open spec fn spec_scope_user_name(user: ScopeUser) -> Seq<char> {
    match user {
        ScopeUser::Eval => "eval"@,
        ScopeUser::Exec => "exec"@,
    }
}

pub fn scope_user_name(user: ScopeUser) -> (r: &'static str)
    ensures
        r@ == spec_scope_user_name(user),
{
    match user {
        ScopeUser::Eval => "eval",
        ScopeUser::Exec => "exec",
    }
}

/// The name of a method of file objects.
pub open spec fn spec_method_name(method: Method) -> Seq<char> {
    match method {
        Method::Write => "write"@,
        Method::Flush => "flush"@,
        Method::Fileno => "fileno"@,
        Method::Readline => "readline"@,
    }
}

pub fn method_name(method: Method) -> (r: &'static str)
    ensures
        r@ == spec_method_name(method),
{
    match method {
        Method::Write => "write",
        Method::Flush => "flush",
        Method::Fileno => "fileno",
        Method::Readline => "readline",
    }
}

/// What a type construction expects at the given position.
pub open spec fn spec_expected_at(position: usize) -> Seq<char> {
    if position == 1 {
        "str"@
    } else if position == 2 {
        "tuple"@
    } else {
        "dict"@
    }
}

pub fn expected_at(position: usize) -> (r: &'static str)
    ensures
        r@ == spec_expected_at(position),
{
    if position == 1 {
        "str"
    } else if position == 2 {
        "tuple"
    } else {
        "dict"
    }
}

impl Heap {
    /// How `o` is shown: a string as its text, an integer in decimal
    /// notation, a type as `<class 'name'>`, any other object by the name
    /// of its type.
    pub open spec fn display(self, o: ObjRef) -> Seq<char> {
        match self.payload(o) {
            PayloadView::Str(s) => s,
            PayloadView::Int(i) => decimal(i as int),
            PayloadView::Bool(b) => if b {
                "True"@
            } else {
                "False"@
            },
            PayloadView::NoneValue => "None"@,
            PayloadView::Type(tv) => "<class '"@ + tv.name + "'>"@,
            _ => "<"@ + self.name_of(self.class_of(o)) + " object>"@,
        }
    }

    /// The name of a metaclass in a message; a metaclass that is no type
    /// has none.
    pub open spec fn meta_name(self, meta: Option<ObjRef>) -> Seq<char> {
        match meta {
            Some(m) => self.name_of(m),
            None => "<metaclass>"@,
        }
    }

    /// The wording of an error.
    pub open spec fn message(self, e: Error) -> Seq<char> {
        match e {
            Error::NotCallable { class } => "'"@ + self.name_of(class) + "' object is not callable"@,
            Error::NotIterable { class } => "'"@ + self.name_of(class) + "' object is not iterable"@,
            Error::NotAnIterator { class } => "'"@ + self.name_of(class)
                + "' object is not an iterator"@,
            Error::NextNotIterator { class } => ""@ + self.name_of(class)
                + " object is not an iterator"@,
            Error::InstanceCheckNotType =>
                "isinstance() arg 2 must be a type, a tuple of types, or a union"@,
            Error::SubclassCheckNotClass { position } => if position == 1 {
                "issubclass() arg 1 must be a class"@
            } else {
                "issubclass() arg 2 must be a class, a tuple of classes, or a union"@
            },
            Error::MissingMethod { class, method } => "'"@ + self.name_of(class)
                + "' object has no attribute '"@ + spec_method_name(method) + "'"@,
            Error::LostStdin => "lost sys.stdin"@,
            Error::LostStdout => "lost sys.stdout"@,
            Error::LostStderr => "lost sys.stderr"@,
            Error::EndOfFile => "EOF when reading a line"@,
            Error::EndOfInput => ""@,
            Error::Interrupted => ""@,
            Error::Os { message } => self.display(message),
            Error::Readline { message } => self.display(message),
            Error::ReadlineNotString => "object.readline() returned non-string"@,
            Error::CodegenNotSupported =>
                "can't compile() to bytecode: this runtime has no compiler"@,
            Error::NotMapping { class } => "<class '"@ + self.name_of(class)
                + "'> is not a mapping object"@,
            Error::NotSequence { class } => "'"@ + self.name_of(class) + "' is not a sequence"@,
            Error::NoLength { class } => "object of type '"@ + self.name_of(class)
                + "' has no len()"@,
            Error::NotSubscriptable { class } => "'"@ + self.name_of(class)
                + "' object is not subscriptable"@,
            Error::NoItemAssignment { class } => "'"@ + self.name_of(class)
                + "' object does not support item assignment"@,
            Error::NoItemDeletion { class } => "'"@ + self.name_of(class)
                + "' object does not support item deletion"@,
            Error::NotAnInteger { class } => "'"@ + self.name_of(class)
                + "' object cannot be interpreted as an integer"@,
            Error::NotACell { class } => "expected type 'cell', not '"@ + self.name_of(class)
                + "'"@,
            Error::KeyMissing => "key not found"@,
            Error::IndexOutOfRange => "index out of range"@,
            Error::MissingArgument { index } => "missing positional argument "@ + decimal(
                index as int,
            ) + ""@,
            Error::UnexpectedKeyword { name } => "Unexpected keyword argument "@ + self.display(
                name,
            ) + ""@,
            Error::ConstructArity => "type() takes 1 or 3 arguments"@,
            Error::ConstructArgument { position, class } => "type.__new__() argument "@ + decimal(
                position as int,
            ) + " must be "@ + spec_expected_at(position) + ", not "@ + self.name_of(class),
            Error::BasesNotTypes => "bases must be types"@,
            Error::InconsistentMro =>
                "Cannot create a consistent method resolution order (MRO) for bases"@,
            Error::MroEntriesNotTuple => "__mro_entries__ must return a tuple"@,
            Error::MetaclassConflict =>
                "the metaclass of a derived class must be a subclass of the metaclasses of all its bases"@,
            Error::PrepareNotMapping { meta, class } => ""@ + self.meta_name(meta)
                + ".__prepare__() must return a mapping, not <class '"@ + self.name_of(class)
                + "'>"@,
            Error::ClassCellEmpty { meta, class } => "class not set defining '"@ + self.meta_name(
                meta,
            ) + "' as "@ + self.display(class)
                + ": was the class cell propagated to type construction?"@,
            Error::ClassCellMismatch { found, meta, class } => "class cell set to "@
                + self.display(found) + " defining '"@ + self.meta_name(meta) + "' as "@
                + self.display(class),
            Error::AttributeNameNotString { class } => "attribute name must be string, not '"@
                + self.name_of(class) + "'"@,
            Error::NoAttribute { class, name } => "'"@ + self.name_of(class)
                + "' object has no attribute '"@ + self.display(name) + "'"@,
            Error::ChrRange => "chr() arg not in range(0x110000)"@,
            Error::OrdLength { len } => "ord() expected a character, but string of length "@
                + decimal(len as int) + " found"@,
            Error::OrdType { class } => "ord() expected string of length 1, but "@ + self.name_of(
                class,
            ) + " found"@,
            Error::DefaultWithManyArguments { func } => "Cannot specify a default for "@
                + spec_extremum_name(func) + "() with multiple positional arguments"@,
            Error::NoArguments { func } => ""@ + spec_extremum_name(func)
                + " expected at least 1 argument, got 0"@,
            Error::EmptySequence { func } => ""@ + spec_extremum_name(func)
                + "() arg is an empty sequence"@,
            Error::NotComparable { func, left, right } => "'"@ + spec_extremum_sign(func)
                + "' not supported between instances of '"@ + self.name_of(left) + "' and '"@
                + self.name_of(right) + "'"@,
            Error::ReversedNotSequence => "argument to reversed() must be a sequence"@,
            Error::NoRound { class } => "type "@ + self.name_of(class)
                + " doesn't define __round__"@,
            Error::SumStrings => "sum() can't sum strings [use ''.join(seq) instead]"@,
            Error::SumBytes => "sum() can't sum bytes [use b''.join(seq) instead]"@,
            Error::SumByteArray => "sum() can't sum bytearray [use b''.join(seq) instead]"@,
            Error::UnsupportedSum { left, right } => "unsupported operand type(s) for +: '"@
                + self.name_of(left) + "' and '"@ + self.name_of(right) + "'"@,
            Error::BadOperand { class } => "bad operand type for abs(): '"@ + self.name_of(class)
                + "'"@,
            Error::UnsupportedDivmod { left, right } =>
                "unsupported operand type(s) for divmod(): '"@ + self.name_of(left) + "' and '"@
                + self.name_of(right) + "'"@,
            Error::DivisionByZero => "integer division or modulo by zero"@,
            Error::UnsupportedPow { left, right, modulus } => match modulus {
                None => "unsupported operand type(s) for ** or pow(): '"@ + self.name_of(left)
                    + "' and '"@ + self.name_of(right) + "'"@,
                Some(m) => "unsupported operand type(s) for ** or pow(): '"@ + self.name_of(left)
                    + "', '"@ + self.name_of(right) + "', '"@ + self.name_of(m) + "'"@,
            },
            Error::NegativeExponent => "pow() with a negative exponent gives no integer"@,
            Error::ZeroModulus => "pow() 3rd argument cannot be 0"@,
            Error::NotAsyncIterable { class } => "'"@ + self.name_of(class)
                + "' object is not an async iterable"@,
            Error::UnsupportedFormat { class } => "unsupported format string passed to "@
                + self.name_of(class) + ".__format__"@,
            Error::FormatNotString { class } => "__format__ must return a str"@ + ", not "@
                + self.name_of(class),
            Error::Unhashable { class } => "unhashable type: '"@ + self.name_of(class) + "'"@,
            Error::HashNotInteger => "__hash__ method should return an integer"@,
            Error::NotOrdered { left, right } => "'<' not supported between instances of '"@
                + self.name_of(left) + "' and '"@ + self.name_of(right) + "'"@,
            Error::IntegerOverflow => "integer result too large"@,
            Error::CursorOverflow => "iter index too large"@,
            Error::VarsNoDict => "vars() argument must have __dict__ attribute"@,
            Error::LostBreakpointHook => "lost sys.breakpointhook"@,
            Error::GlobalsNotDict { user, mapping, class } => match user {
                ScopeUser::Eval => if mapping {
                    "globals must be a real dict; try eval(expr, {}, mapping)"@
                } else {
                    "globals must be a dict"@
                },
                ScopeUser::Exec => "exec() globals must be a dict, not "@ + self.name_of(class)
                    + ""@,
            },
            Error::FreeVariables { user } => "code object passed to "@ + spec_scope_user_name(user)
                + "() may not contain free variables"@,
            Error::NullBytes => "source code string cannot contain null bytes"@,
            Error::CompileOptimize => "compile() optimize value invalid"@,
            Error::CompileFlags => "compile() unrecognized flags"@,
            Error::CompileMode => "mode must be \"exec\", \"eval\", or \"single\""@,
            Error::ParseMode => "mode must be \"exec\", \"eval\", \"ipython\", or \"single\""@,
            Error::CompileSource { class } =>
                "compile() arg 1 must be a string, bytes or AST object, not "@ + self.name_of(
                class,
            ) + ""@,
            Error::UndecodableSource { position } => "invalid utf-8 sequence from index "@
                + decimal(position as int) + ""@,
            Error::SourceNotUtf8 { byte, position } =>
                "(unicode error) 'utf-8' codec can't decode byte 0x"@ + numeral(byte as nat, 16)
                + " in position "@ + decimal(position as int) + ": invalid start byte"@,
            Error::Exit { code } => self.display(code),
            Error::Raised { value, .. } => self.display(value),
        }
    }
}

impl Vm {
    /// How `o` is shown.
    pub fn display(&self, o: ObjRef) -> (r: String)
        ensures
            r@ == self@.display(o),
    {
        match self.payload(o) {
            Some(Payload::Str(s)) => s.clone(),
            Some(Payload::Int(i)) => {
                let mut r = String::new();
                put_decimal(&mut r, *i as i128);
                r
            },
            Some(Payload::Bool(b)) => if *b {
                "True".to_owned()
            } else {
                "False".to_owned()
            },
            Some(Payload::NoneValue) => "None".to_owned(),
            Some(Payload::Type(td)) => join3("<class '", td.name.as_str(), "'>"),
            _ => {
                let name = self.name_of(self.class_of(o));
                join3("<", name.as_str(), " object>")
            },
        }
    }

    /// The name of a metaclass in a message.
    pub fn meta_name(&self, meta: Option<ObjRef>) -> (r: String)
        ensures
            r@ == self@.meta_name(meta),
    {
        match meta {
            Some(m) => self.name_of(m),
            None => "<metaclass>".to_owned(),
        }
    }

    /// The wording of an error.
    pub fn message(&self, e: &Error) -> (r: String)
        ensures
            r@ == self@.message(*e),
    {
        match *e {
            Error::NotCallable { class } => join3(
                "'",
                self.name_of(class).as_str(),
                "' object is not callable",
            ),
            Error::NotIterable { class } => join3(
                "'",
                self.name_of(class).as_str(),
                "' object is not iterable",
            ),
            Error::NotAnIterator { class } => join3(
                "'",
                self.name_of(class).as_str(),
                "' object is not an iterator",
            ),
            Error::NextNotIterator { class } => join3(
                "",
                self.name_of(class).as_str(),
                " object is not an iterator",
            ),
            Error::InstanceCheckNotType =>
                "isinstance() arg 2 must be a type, a tuple of types, or a union".to_owned(),
            Error::SubclassCheckNotClass { position } => if position == 1 {
                "issubclass() arg 1 must be a class".to_owned()
            } else {
                "issubclass() arg 2 must be a class, a tuple of classes, or a union".to_owned()
            },
            Error::MissingMethod { class, method } => join5(
                "'",
                self.name_of(class).as_str(),
                "' object has no attribute '",
                method_name(method),
                "'",
            ),
            Error::LostStdin => "lost sys.stdin".to_owned(),
            Error::LostStdout => "lost sys.stdout".to_owned(),
            Error::LostStderr => "lost sys.stderr".to_owned(),
            Error::EndOfFile => "EOF when reading a line".to_owned(),
            Error::EndOfInput => "".to_owned(),
            Error::Interrupted => "".to_owned(),
            Error::Os { message } => self.display(message),
            Error::Readline { message } => self.display(message),
            Error::ReadlineNotString => "object.readline() returned non-string".to_owned(),
            Error::CodegenNotSupported =>
                "can't compile() to bytecode: this runtime has no compiler".to_owned(),
            Error::NotMapping { class } => join3(
                "<class '",
                self.name_of(class).as_str(),
                "'> is not a mapping object",
            ),
            Error::NotSequence { class } => join3(
                "'",
                self.name_of(class).as_str(),
                "' is not a sequence",
            ),
            Error::NoLength { class } => join3(
                "object of type '",
                self.name_of(class).as_str(),
                "' has no len()",
            ),
            Error::NotSubscriptable { class } => join3(
                "'",
                self.name_of(class).as_str(),
                "' object is not subscriptable",
            ),
            Error::NoItemAssignment { class } => join3(
                "'",
                self.name_of(class).as_str(),
                "' object does not support item assignment",
            ),
            Error::NoItemDeletion { class } => join3(
                "'",
                self.name_of(class).as_str(),
                "' object does not support item deletion",
            ),
            Error::NotAnInteger { class } => join3(
                "'",
                self.name_of(class).as_str(),
                "' object cannot be interpreted as an integer",
            ),
            Error::NotACell { class } => join3(
                "expected type 'cell', not '",
                self.name_of(class).as_str(),
                "'",
            ),
            Error::KeyMissing => "key not found".to_owned(),
            Error::IndexOutOfRange => "index out of range".to_owned(),
            Error::MissingArgument { index } => {
                let mut number = String::new();
                put_decimal(&mut number, index as i128);
                join3("missing positional argument ", number.as_str(), "")
            },
            Error::UnexpectedKeyword { name } => join3(
                "Unexpected keyword argument ",
                self.display(name).as_str(),
                "",
            ),
            Error::ConstructArity => "type() takes 1 or 3 arguments".to_owned(),
            Error::ConstructArgument { position, class } => {
                let mut r = "type.__new__() argument ".to_owned();
                put_decimal(&mut r, position as i128);
                r.append(" must be ");
                r.append(expected_at(position));
                r.append(", not ");
                r.append(self.name_of(class).as_str());
                r
            },
            Error::BasesNotTypes => "bases must be types".to_owned(),
            Error::InconsistentMro =>
                "Cannot create a consistent method resolution order (MRO) for bases".to_owned(),
            Error::MroEntriesNotTuple => "__mro_entries__ must return a tuple".to_owned(),
            Error::MetaclassConflict =>
                "the metaclass of a derived class must be a subclass of the metaclasses of all its bases".to_owned(),
            Error::PrepareNotMapping { meta, class } => join5(
                "",
                self.meta_name(meta).as_str(),
                ".__prepare__() must return a mapping, not <class '",
                self.name_of(class).as_str(),
                "'>",
            ),
            Error::ClassCellEmpty { meta, class } => join5(
                "class not set defining '",
                self.meta_name(meta).as_str(),
                "' as ",
                self.display(class).as_str(),
                ": was the class cell propagated to type construction?",
            ),
            Error::ClassCellMismatch { found, meta, class } => {
                let mut r = "class cell set to ".to_owned();
                r.append(self.display(found).as_str());
                r.append(" defining '");
                r.append(self.meta_name(meta).as_str());
                r.append("' as ");
                r.append(self.display(class).as_str());
                r
            },
            Error::AttributeNameNotString { class } => join3(
                "attribute name must be string, not '",
                self.name_of(class).as_str(),
                "'",
            ),
            Error::NoAttribute { class, name } => join5(
                "'",
                self.name_of(class).as_str(),
                "' object has no attribute '",
                self.display(name).as_str(),
                "'",
            ),
            Error::ChrRange => "chr() arg not in range(0x110000)".to_owned(),
            Error::OrdLength { len } => {
                let mut number = String::new();
                put_decimal(&mut number, len as i128);
                join3("ord() expected a character, but string of length ", number.as_str(), " found")
            },
            Error::OrdType { class } => join3(
                "ord() expected string of length 1, but ",
                self.name_of(class).as_str(),
                " found",
            ),
            Error::DefaultWithManyArguments { func } => join3(
                "Cannot specify a default for ",
                extremum_name(func),
                "() with multiple positional arguments",
            ),
            Error::NoArguments { func } => join3(
                "",
                extremum_name(func),
                " expected at least 1 argument, got 0",
            ),
            Error::EmptySequence { func } => join3(
                "",
                extremum_name(func),
                "() arg is an empty sequence",
            ),
            Error::NotComparable { func, left, right } => {
                let mut r = "'".to_owned();
                r.append(extremum_sign(func));
                r.append("' not supported between instances of '");
                r.append(self.name_of(left).as_str());
                r.append("' and '");
                r.append(self.name_of(right).as_str());
                r.append("'");
                r
            },
            Error::ReversedNotSequence => "argument to reversed() must be a sequence".to_owned(),
            Error::NoRound { class } => join3(
                "type ",
                self.name_of(class).as_str(),
                " doesn't define __round__",
            ),
            Error::SumStrings => "sum() can't sum strings [use ''.join(seq) instead]".to_owned(),
            Error::SumBytes => "sum() can't sum bytes [use b''.join(seq) instead]".to_owned(),
            Error::SumByteArray => {
                "sum() can't sum bytearray [use b''.join(seq) instead]".to_owned()
            },
            Error::UnsupportedSum { left, right } => join5(
                "unsupported operand type(s) for +: '",
                self.name_of(left).as_str(),
                "' and '",
                self.name_of(right).as_str(),
                "'",
            ),
            Error::BadOperand { class } => join3(
                "bad operand type for abs(): '",
                self.name_of(class).as_str(),
                "'",
            ),
            Error::UnsupportedDivmod { left, right } => join5(
                "unsupported operand type(s) for divmod(): '",
                self.name_of(left).as_str(),
                "' and '",
                self.name_of(right).as_str(),
                "'",
            ),
            Error::DivisionByZero => "integer division or modulo by zero".to_owned(),
            Error::UnsupportedPow { left, right, modulus } => match modulus {
                None => join5(
                    "unsupported operand type(s) for ** or pow(): '",
                    self.name_of(left).as_str(),
                    "' and '",
                    self.name_of(right).as_str(),
                    "'",
                ),
                Some(m) => {
                    let mut r = "unsupported operand type(s) for ** or pow(): '".to_owned();
                    r.append(self.name_of(left).as_str());
                    r.append("', '");
                    r.append(self.name_of(right).as_str());
                    r.append("', '");
                    r.append(self.name_of(m).as_str());
                    r.append("'");
                    r
                },
            },
            Error::NegativeExponent => "pow() with a negative exponent gives no integer".to_owned(),
            Error::ZeroModulus => "pow() 3rd argument cannot be 0".to_owned(),
            Error::NotAsyncIterable { class } => join3(
                "'",
                self.name_of(class).as_str(),
                "' object is not an async iterable",
            ),
            Error::UnsupportedFormat { class } => join3(
                "unsupported format string passed to ",
                self.name_of(class).as_str(),
                ".__format__",
            ),
            Error::Unhashable { class } => join3(
                "unhashable type: '",
                self.name_of(class).as_str(),
                "'",
            ),
            Error::HashNotInteger => "__hash__ method should return an integer".to_owned(),
            Error::NotOrdered { left, right } => join5(
                "'<' not supported between instances of '",
                self.name_of(left).as_str(),
                "' and '",
                self.name_of(right).as_str(),
                "'",
            ),
            Error::FormatNotString { class } => join3(
                "__format__ must return a str",
                ", not ",
                self.name_of(class).as_str(),
            ),
            Error::IntegerOverflow => "integer result too large".to_owned(),
            Error::CursorOverflow => "iter index too large".to_owned(),
            Error::VarsNoDict => "vars() argument must have __dict__ attribute".to_owned(),
            Error::LostBreakpointHook => "lost sys.breakpointhook".to_owned(),
            Error::GlobalsNotDict { user, mapping, class } => match user {
                ScopeUser::Eval => if mapping {
                    "globals must be a real dict; try eval(expr, {}, mapping)".to_owned()
                } else {
                    "globals must be a dict".to_owned()
                },
                ScopeUser::Exec => join3(
                    "exec() globals must be a dict, not ",
                    self.name_of(class).as_str(),
                    "",
                ),
            },
            Error::FreeVariables { user } => join3(
                "code object passed to ",
                scope_user_name(user),
                "() may not contain free variables",
            ),
            Error::NullBytes => "source code string cannot contain null bytes".to_owned(),
            Error::CompileOptimize => "compile() optimize value invalid".to_owned(),
            Error::CompileFlags => "compile() unrecognized flags".to_owned(),
            Error::CompileMode => "mode must be \"exec\", \"eval\", or \"single\"".to_owned(),
            Error::ParseMode =>
                "mode must be \"exec\", \"eval\", \"ipython\", or \"single\"".to_owned(),
            Error::CompileSource { class } => join3(
                "compile() arg 1 must be a string, bytes or AST object, not ",
                self.name_of(class).as_str(),
                "",
            ),
            Error::UndecodableSource { position } => {
                let mut number = String::new();
                put_decimal(&mut number, position as i128);
                join3("invalid utf-8 sequence from index ", number.as_str(), "")
            },
            Error::SourceNotUtf8 { byte, position } => {
                let mut r = "(unicode error) 'utf-8' codec can't decode byte 0x".to_owned();
                put_numeral(&mut r, byte as u128, 16);
                r.append(" in position ");
                put_decimal(&mut r, position as i128);
                r.append(": invalid start byte");
                r
            },
            Error::Exit { code } => self.display(code),
            Error::Raised { value, .. } => self.display(value),
        }
    }
}

} // verus!
