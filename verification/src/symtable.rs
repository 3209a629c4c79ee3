//! Symbol tables: what the compiler has found out about the names of a
//! piece of code, and the questions a program can ask of it.

use vstd::prelude::*;

use crate::compile::{compiler_mode, spec_compiler_mode, Mode};
use crate::error::{Error, ErrorKind};
use crate::outside::str_eq;

verus! {

/// What the symbol table of a source is to be built from.
#[derive(Debug)]
pub struct SymtableRequest {
    pub source: String,
    pub filename: String,
    pub mode: Mode,
}

/// Decides how the symbol table of `source` is built: under the mode that
/// `mode` names, which must be one that the compiler knows. The table
/// itself is the compiler's to build.
pub fn symtable(source: &str, filename: &str, mode: &str) -> (r: Result<SymtableRequest, Error>)
    ensures
        match (r, spec_compiler_mode(mode@)) {
            (Ok(request), Ok(m)) => request.source@ == source@ && request.filename@ == filename@
                && request.mode == m,
            (Err(e), Err(f)) => e == f,
            _ => false,
        },
{
    match compiler_mode(mode) {
        Ok(mode) => Ok(
            SymtableRequest { source: source.to_owned(), filename: filename.to_owned(), mode },
        ),
        Err(e) => Err(e),
    }
}

/// The kind of code a symbol table belongs to.
#[derive(Clone, Copy, Debug, PartialEq, Eq, Structural)]
pub enum CompilerScope {
    Module,
    Class,
    Function,
    AsyncFunction,
    Lambda,
    Comprehension,
    TypeParams,
}

/// Where a name lives.
#[derive(Clone, Copy, Debug, PartialEq, Eq, Structural)]
pub enum SymbolScope {
    Unknown,
    Local,
    GlobalExplicit,
    GlobalImplicit,
    Free,
    Cell,
}

/// What was seen of a name.
#[derive(Clone, Copy, Debug, PartialEq, Eq, Structural)]
pub struct SymbolFlags {
    pub referenced: bool,
    pub assigned: bool,
    pub parameter: bool,
    pub annotated: bool,
    pub imported: bool,
    pub nonlocal: bool,
    pub iter: bool,
}

/// One name of a symbol table.
#[derive(Debug)]
pub struct Symbol {
    pub name: String,
    pub scope: SymbolScope,
    pub flags: SymbolFlags,
}

/// The symbols of one block of code, and the tables of the blocks inside
/// it.
#[derive(Debug)]
pub struct SymbolTable {
    pub name: String,
    pub typ: CompilerScope,
    pub line_number: u32,
    pub is_nested: bool,
    pub symbols: Vec<Symbol>,
    pub sub_tables: Vec<SymbolTable>,
}

/// Whether no two of the symbols have the same name.
pub open spec fn distinct_symbols(symbols: Seq<Symbol>) -> bool {
    forall|i: int, j: int|
        0 <= i < j < symbols.len() ==> (#[trigger] symbols[i]).name@ != (#[trigger] symbols[j]).name@
}

impl SymbolTable {
    /// Whether the table is well formed. Its symbols stand for a map from
    /// names to symbols that keeps the order in which the names came, so no
    /// name occurs twice among them; and the tables inside it are well
    /// formed too.
    pub open spec fn well_formed(&self) -> bool
        decreases self,
    {
        &&& distinct_symbols(self.symbols@)
        &&& forall|i: int|
            0 <= i < self.sub_tables.len() ==> (#[trigger] self.sub_tables[i]).well_formed()
    }

    /// A table without symbols and without tables inside it.
    pub fn new(name: String, typ: CompilerScope, line_number: u32, is_nested: bool) -> (r:
        SymbolTable)
        ensures
            r.name == name,
            r.typ == typ,
            r.line_number == line_number,
            r.is_nested == is_nested,
            r.symbols@.len() == 0,
            r.sub_tables@.len() == 0,
            r.well_formed(),
    {
        SymbolTable {
            name,
            typ,
            line_number,
            is_nested,
            symbols: Vec::new(),
            sub_tables: Vec::new(),
        }
    }

    /// Puts `symbol` into the table: in the place of the symbol of its
    /// name where there is one, else behind the last.
    pub fn insert(&mut self, symbol: Symbol)
        ensures
            final(self).name == old(self).name,
            final(self).typ == old(self).typ,
            final(self).line_number == old(self).line_number,
            final(self).is_nested == old(self).is_nested,
            final(self).sub_tables == old(self).sub_tables,
            ({
                let i = symbol_position(old(self).symbols@, symbol.name@, 0);
                final(self).symbols@ == if i < old(self).symbols@.len() {
                    old(self).symbols@.update(i, symbol)
                } else {
                    old(self).symbols@.push(symbol)
                }
            }),
            old(self).well_formed() ==> final(self).well_formed(),
    {
        let ghost before = self.symbols@;
        let ghost name = symbol.name@;
        let mut i: usize = 0;
        let mut found = false;
        while !found && i < self.symbols.len()
            invariant
                i <= self.symbols.len(),
                self.symbols@ == before,
                name == symbol.name@,
                symbol_position(before, name, 0) == symbol_position(before, name, i as int),
                found ==> i < before.len() && before[i as int].name@ == name,
            decreases self.symbols.len() - i + (if found { 0int } else { 1int }),
        {
            if str_eq(self.symbols[i].name.as_str(), symbol.name.as_str()) {
                found = true;
            } else {
                i += 1;
            }
        }
        proof {
            lemma_symbol_position(before, name, 0);
        }
        if found {
            self.symbols[i] = symbol;
        } else {
            self.symbols.push(symbol);
        }
        proof {
            let after = self.symbols@;
            if old(self).well_formed() {
                assert forall|a: int, b: int| 0 <= a < b < after.len() implies (
                #[trigger] after[a]).name@ != (#[trigger] after[b]).name@ by {
                    if a < before.len() && a != i {
                        assert(after[a] == before[a]);
                    }
                    if b < before.len() && b != i {
                        assert(after[b] == before[b]);
                    }
                }
            }
        }
    }

    /// Puts `table` behind the tables inside this one.
    pub fn push_table(&mut self, table: SymbolTable)
        ensures
            final(self).name == old(self).name,
            final(self).typ == old(self).typ,
            final(self).line_number == old(self).line_number,
            final(self).is_nested == old(self).is_nested,
            final(self).symbols == old(self).symbols,
            final(self).sub_tables@ == old(self).sub_tables@.push(table),
            old(self).well_formed() && table.well_formed() ==> final(self).well_formed(),
    {
        self.sub_tables.push(table);
    }

    /// Whether the table is well formed.
    pub fn is_well_formed(&self) -> (r: bool)
        ensures
            r == self.well_formed(),
        decreases self,
    {
        let mut i: usize = 0;
        while i < self.symbols.len()
            invariant
                i <= self.symbols.len(),
                forall|a: int, b: int|
                    0 <= a < b < self.symbols.len() && a < i ==> (#[trigger] self.symbols@[a]).name@
                        != (#[trigger] self.symbols@[b]).name@,
            decreases self.symbols.len() - i,
        {
            let mut j: usize = i + 1;
            while j < self.symbols.len()
                invariant
                    i < j <= self.symbols.len(),
                    forall|b: int|
                        i < b < j ==> self.symbols@[i as int].name@ != (
                        #[trigger] self.symbols@[b]).name@,
                decreases self.symbols.len() - j,
            {
                if str_eq(self.symbols[i].name.as_str(), self.symbols[j].name.as_str()) {
                    return false;
                }
                j += 1;
            }
            i += 1;
        }
        let mut k: usize = 0;
        while k < self.sub_tables.len()
            invariant
                k <= self.sub_tables.len(),
                distinct_symbols(self.symbols@),
                forall|a: int| 0 <= a < k ==> (#[trigger] self.sub_tables[a]).well_formed(),
            decreases self.sub_tables.len() - k,
        {
            if !self.sub_tables[k].is_well_formed() {
                return false;
            }
            k += 1;
        }
        true
    }
}

impl Symbol {
    /// Whether the name is global, declared so or not.
    pub open spec fn spec_is_global(&self) -> bool {
        self.scope == SymbolScope::GlobalExplicit || self.scope == SymbolScope::GlobalImplicit
    }

    #[verifier::when_used_as_spec(spec_is_global)]
    pub fn is_global(&self) -> (r: bool)
        ensures
            r == self.spec_is_global(),
    {
        match self.scope {
            SymbolScope::GlobalExplicit => true,
            SymbolScope::GlobalImplicit => true,
            _ => false,
        }
    }

    /// Whether the name is local to its block.
    pub open spec fn spec_is_local(&self) -> bool {
        self.scope == SymbolScope::Local || self.scope == SymbolScope::Cell
    }

    #[verifier::when_used_as_spec(spec_is_local)]
    pub fn is_local(&self) -> (r: bool)
        ensures
            r == self.spec_is_local(),
    {
        match self.scope {
            SymbolScope::Local => true,
            SymbolScope::Cell => true,
            _ => false,
        }
    }

    /// Whether the name is bound in its block: assigned, a parameter,
    /// imported, or the target of an iteration.
    pub open spec fn spec_is_bound(&self) -> bool {
        self.flags.assigned || self.flags.parameter || self.flags.imported || self.flags.iter
    }

    #[verifier::when_used_as_spec(spec_is_bound)]
    pub fn is_bound(&self) -> (r: bool)
        ensures
            r == self.spec_is_bound(),
    {
        self.flags.assigned || self.flags.parameter || self.flags.imported || self.flags.iter
    }
}

/// The name of a kind of code.
pub open spec fn spec_scope_text(typ: CompilerScope) -> Seq<char> {
    match typ {
        CompilerScope::Module => "module"@,
        CompilerScope::Class => "class"@,
        CompilerScope::Function => "function"@,
        CompilerScope::AsyncFunction => "async function"@,
        CompilerScope::Lambda => "lambda"@,
        CompilerScope::Comprehension => "comprehension"@,
        CompilerScope::TypeParams => "type parameter"@,
    }
}

pub fn scope_text(typ: CompilerScope) -> (r: &'static str)
    ensures
        r@ == spec_scope_text(typ),
{
    match typ {
        CompilerScope::Module => "module",
        CompilerScope::Class => "class",
        CompilerScope::Function => "function",
        CompilerScope::AsyncFunction => "async function",
        CompilerScope::Lambda => "lambda",
        CompilerScope::Comprehension => "comprehension",
        CompilerScope::TypeParams => "type parameter",
    }
}

/// The position of the first symbol called `name` at or after `from`, or
/// the number of symbols where there is none.
pub open spec fn symbol_position(symbols: Seq<Symbol>, name: Seq<char>, from: int) -> int
    decreases symbols.len() - from,
{
    if from < 0 || from >= symbols.len() {
        symbols.len() as int
    } else if symbols[from].name@ == name {
        from
    } else {
        symbol_position(symbols, name, from + 1)
    }
}

/// The first symbol of a name is found where it stands, and no symbol
/// before it has the name.
pub proof fn lemma_symbol_position(symbols: Seq<Symbol>, name: Seq<char>, from: int)
    requires
        0 <= from <= symbols.len(),
    ensures
        from <= symbol_position(symbols, name, from) <= symbols.len(),
        symbol_position(symbols, name, from) < symbols.len() ==> symbols[symbol_position(
            symbols,
            name,
            from,
        )].name@ == name,
        forall|k: int|
            from <= k < symbol_position(symbols, name, from) ==> (#[trigger] symbols[k]).name@
                != name,
    decreases symbols.len() - from,
{
    if from < symbols.len() && symbols[from].name@ != name {
        lemma_symbol_position(symbols, name, from + 1);
    }
}

/// The positions, in order, of the tables from position `from` on that are
/// called `name`.
pub open spec fn named_tables(tables: Seq<SymbolTable>, name: Seq<char>, from: int) -> Seq<int>
    decreases tables.len() - from,
{
    if from < 0 || from >= tables.len() {
        Seq::empty()
    } else if tables[from].name@ == name {
        seq![from] + named_tables(tables, name, from + 1)
    } else {
        named_tables(tables, name, from + 1)
    }
}

/// Whether `found` are the tables of `tables` at the positions `places`.
pub open spec fn picked(found: Seq<&SymbolTable>, tables: Seq<SymbolTable>, places: Seq<int>)
    -> bool {
    &&& found.len() == places.len()
    &&& forall|k: int|
        0 <= k < places.len() ==> 0 <= #[trigger] places[k] < tables.len() && *found[k]
            == tables[places[k]]
}

/// The tables of the blocks inside `table` that are called `name`.
pub fn namespaces_of<'a>(table: &'a SymbolTable, name: &str) -> (r: Vec<&'a SymbolTable>)
    ensures
        picked(r@, table.sub_tables@, named_tables(table.sub_tables@, name@, 0)),
{
    let mut out: Vec<&'a SymbolTable> = Vec::new();
    let ghost mut places: Seq<int> = Seq::empty();
    let mut i: usize = 0;
    while i < table.sub_tables.len()
        invariant
            i <= table.sub_tables.len(),
            picked(out@, table.sub_tables@, places),
            places + named_tables(table.sub_tables@, name@, i as int) == named_tables(
                table.sub_tables@,
                name@,
                0,
            ),
        decreases table.sub_tables.len() - i,
    {
        if str_eq(table.sub_tables[i].name.as_str(), name) {
            out.push(&table.sub_tables[i]);
            proof {
                places = places.push(i as int);
            }
        }
        i += 1;
    }
    out
}

/// A symbol table as a program sees it.
#[derive(Clone, Copy, Debug)]
pub struct PySymbolTable<'a> {
    pub symtable: &'a SymbolTable,
}

/// One symbol as a program sees it: the symbol, the tables of the blocks
/// it names, and whether it belongs to the top block.
#[derive(Debug)]
pub struct PySymbol<'a> {
    pub symbol: &'a Symbol,
    pub namespaces: Vec<&'a SymbolTable>,
    pub is_top_scope: bool,
}

/// Why a question to a symbol table has no answer.
#[derive(Clone, Copy, Debug, PartialEq, Eq, Structural)]
pub enum SymtableError {
    /// The table has no symbol of that name.
    LookupFailed,
    /// The symbol names no block, or more than one.
    NotOneNamespace,
}

impl SymtableError {
    /// The family of the error: a lookup that fails is a key error, and a
    /// symbol that names no block or several is a value error.
    pub open spec fn spec_kind(&self) -> ErrorKind {
        match self {
            SymtableError::LookupFailed => ErrorKind::KeyError,
            SymtableError::NotOneNamespace => ErrorKind::ValueError,
        }
    }

    #[verifier::when_used_as_spec(spec_kind)]
    pub fn kind(&self) -> (r: ErrorKind)
        ensures
            r == self.spec_kind(),
    {
        match self {
            SymtableError::LookupFailed => ErrorKind::KeyError,
            SymtableError::NotOneNamespace => ErrorKind::ValueError,
        }
    }
}

/// The wording of a failed lookup of `name`.
pub fn lookup_failed_message(name: &str) -> (r: String)
    ensures
        r@ == "lookup "@ + name@ + " failed"@,
{
    crate::text::join3("lookup ", name, " failed")
}

/// The wording of the error of a symbol that names no block or several.
pub fn not_one_namespace_message() -> (r: &'static str)
    ensures
        r@ == "namespace is bound to multiple namespaces"@,
{
    "namespace is bound to multiple namespaces"
}

/// Wraps a symbol table for a program to see.
pub fn to_py_symbol_table<'a>(symtable: &'a SymbolTable) -> (r: PySymbolTable<'a>)
    ensures
        r.symtable == symtable,
{
    PySymbolTable { symtable }
}

impl<'a> PySymbolTable<'a> {
    /// Whether this is the table of the top block, which is called `top`.
    pub open spec fn is_top(&self) -> bool {
        self.symtable.name@ == "top"@
    }

    pub fn get_name(&self) -> (r: String)
        ensures
            r@ == self.symtable.name@,
    {
        self.symtable.name.clone()
    }

    pub fn get_type(&self) -> (r: String)
        ensures
            r@ == spec_scope_text(self.symtable.typ),
    {
        scope_text(self.symtable.typ).to_owned()
    }

    pub fn get_lineno(&self) -> (r: u32)
        ensures
            r == self.symtable.line_number,
    {
        self.symtable.line_number
    }

    pub fn is_nested(&self) -> (r: bool)
        ensures
            r == self.symtable.is_nested,
    {
        self.symtable.is_nested
    }

    /// Whether the locals of the block are optimized: it is a function.
    pub fn is_optimized(&self) -> (r: bool)
        ensures
            r == (self.symtable.typ == CompilerScope::Function || self.symtable.typ
                == CompilerScope::AsyncFunction),
    {
        match self.symtable.typ {
            CompilerScope::Function => true,
            CompilerScope::AsyncFunction => true,
            _ => false,
        }
    }

    fn symbol_at(&self, i: usize) -> (r: PySymbol<'a>)
        requires
            i < self.symtable.symbols.len(),
        ensures
            *r.symbol == self.symtable.symbols@[i as int],
            picked(
                r.namespaces@,
                self.symtable.sub_tables@,
                named_tables(self.symtable.sub_tables@, self.symtable.symbols@[i as int].name@, 0),
            ),
            r.is_top_scope == self.is_top(),
    {
        let symbol = &self.symtable.symbols[i];
        PySymbol {
            symbol,
            namespaces: namespaces_of(self.symtable, symbol.name.as_str()),
            is_top_scope: str_eq(self.symtable.name.as_str(), "top"),
        }
    }

    /// The symbol called `name`, with the tables of the blocks of that
    /// name. It is found exactly where the table has a symbol of that name;
    /// in a well-formed table there is only one. A lookup that fails is a
    /// key error.
    pub fn lookup(&self, name: &str) -> (r: Result<PySymbol<'a>, SymtableError>)
        ensures
            r is Ok <==> exists|j: int|
                0 <= j < self.symtable.symbols.len() && (#[trigger] self.symtable.symbols@[j]).name@
                    == name@,
            r matches Err(e) ==> e.spec_kind() == ErrorKind::KeyError,
            r matches Ok(found) ==> found.symbol.name@ == name@ && (self.symtable.well_formed()
                ==> forall|j: int|
                0 <= j < self.symtable.symbols.len() && (#[trigger] self.symtable.symbols@[j]).name@
                    == name@ ==> j == symbol_position(self.symtable.symbols@, name@, 0)),
            match r {
                Ok(found) => {
                    let i = symbol_position(self.symtable.symbols@, name@, 0);
                    &&& i < self.symtable.symbols.len()
                    &&& *found.symbol == self.symtable.symbols@[i]
                    &&& picked(
                        found.namespaces@,
                        self.symtable.sub_tables@,
                        named_tables(self.symtable.sub_tables@, name@, 0),
                    )
                    &&& found.is_top_scope == self.is_top()
                },
                Err(e) => e == SymtableError::LookupFailed && symbol_position(
                    self.symtable.symbols@,
                    name@,
                    0,
                ) == self.symtable.symbols.len(),
            },
    {
        proof {
            lemma_symbol_position(self.symtable.symbols@, name@, 0);
        }
        let mut i: usize = 0;
        while i < self.symtable.symbols.len()
            invariant
                i <= self.symtable.symbols.len(),
                symbol_position(self.symtable.symbols@, name@, 0) == symbol_position(
                    self.symtable.symbols@,
                    name@,
                    i as int,
                ),
            decreases self.symtable.symbols.len() - i,
        {
            if str_eq(self.symtable.symbols[i].name.as_str(), name) {
                return Ok(self.symbol_at(i));
            }
            i += 1;
        }
        Err(SymtableError::LookupFailed)
    }

    /// The names of the symbols, in order. In a well-formed table no name
    /// comes twice.
    pub fn get_identifiers(&self) -> (r: Vec<String>)
        ensures
            r.len() == self.symtable.symbols.len(),
            forall|i: int| 0 <= i < r.len() ==> r@[i]@ == self.symtable.symbols@[i].name@,
            self.symtable.well_formed() ==> forall|i: int, j: int|
                0 <= i < j < r.len() ==> (#[trigger] r@[i])@ != (#[trigger] r@[j])@,
    {
        let mut out: Vec<String> = Vec::new();
        let mut i: usize = 0;
        while i < self.symtable.symbols.len()
            invariant
                i <= self.symtable.symbols.len(),
                out.len() == i,
                forall|k: int| 0 <= k < i ==> out@[k]@ == self.symtable.symbols@[k].name@,
            decreases self.symtable.symbols.len() - i,
        {
            out.push(self.symtable.symbols[i].name.clone());
            i += 1;
        }
        out
    }

    /// The symbols, in order, each with the tables of the blocks of its
    /// name.
    pub fn get_symbols(&self) -> (r: Vec<PySymbol<'a>>)
        ensures
            r.len() == self.symtable.symbols.len(),
            forall|i: int|
                0 <= i < r.len() ==> {
                    &&& *(#[trigger] r@[i]).symbol == self.symtable.symbols@[i]
                    &&& picked(
                        r@[i].namespaces@,
                        self.symtable.sub_tables@,
                        named_tables(
                            self.symtable.sub_tables@,
                            self.symtable.symbols@[i].name@,
                            0,
                        ),
                    )
                    &&& r@[i].is_top_scope == self.is_top()
                },
    {
        let mut out: Vec<PySymbol<'a>> = Vec::new();
        let mut i: usize = 0;
        while i < self.symtable.symbols.len()
            invariant
                i <= self.symtable.symbols.len(),
                out.len() == i,
                forall|k: int|
                    0 <= k < i ==> {
                        &&& *(#[trigger] out@[k]).symbol == self.symtable.symbols@[k]
                        &&& picked(
                            out@[k].namespaces@,
                            self.symtable.sub_tables@,
                            named_tables(
                                self.symtable.sub_tables@,
                                self.symtable.symbols@[k].name@,
                                0,
                            ),
                        )
                        &&& out@[k].is_top_scope == self.is_top()
                    },
            decreases self.symtable.symbols.len() - i,
        {
            out.push(self.symbol_at(i));
            i += 1;
        }
        out
    }

    pub fn has_children(&self) -> (r: bool)
        ensures
            r == (self.symtable.sub_tables.len() > 0),
    {
        self.symtable.sub_tables.len() > 0
    }

    /// The tables of the blocks inside this one, in order.
    pub fn get_children(&self) -> (r: Vec<PySymbolTable<'a>>)
        ensures
            r.len() == self.symtable.sub_tables.len(),
            forall|i: int|
                0 <= i < r.len() ==> *(#[trigger] r@[i]).symtable == self.symtable.sub_tables@[i],
            self.symtable.well_formed() ==> forall|i: int|
                0 <= i < r.len() ==> (#[trigger] r@[i]).symtable.well_formed(),
    {
        let mut out: Vec<PySymbolTable<'a>> = Vec::new();
        let mut i: usize = 0;
        while i < self.symtable.sub_tables.len()
            invariant
                i <= self.symtable.sub_tables.len(),
                out.len() == i,
                forall|k: int|
                    0 <= k < i ==> *(#[trigger] out@[k]).symtable == self.symtable.sub_tables@[k],
            decreases self.symtable.sub_tables.len() - i,
        {
            out.push(to_py_symbol_table(&self.symtable.sub_tables[i]));
            i += 1;
        }
        out
    }
}

impl<'a> PySymbol<'a> {
    pub fn get_name(&self) -> (r: String)
        ensures
            r@ == self.symbol.name@,
    {
        self.symbol.name.clone()
    }

    /// Whether the name is global: by its scope, or because it is bound in
    /// the top block.
    pub fn is_global(&self) -> (r: bool)
        ensures
            r == (self.symbol.spec_is_global() || (self.is_top_scope
                && self.symbol.spec_is_bound())),
    {
        self.symbol.is_global() || (self.is_top_scope && self.symbol.is_bound())
    }

    pub fn is_declared_global(&self) -> (r: bool)
        ensures
            r == (self.symbol.scope == SymbolScope::GlobalExplicit),
    {
        match self.symbol.scope {
            SymbolScope::GlobalExplicit => true,
            _ => false,
        }
    }

    /// Whether the name is local: by its scope, or because it is bound in
    /// the top block.
    pub fn is_local(&self) -> (r: bool)
        ensures
            r == (self.symbol.spec_is_local() || (self.is_top_scope
                && self.symbol.spec_is_bound())),
    {
        self.symbol.is_local() || (self.is_top_scope && self.symbol.is_bound())
    }

    pub fn is_imported(&self) -> (r: bool)
        ensures
            r == self.symbol.flags.imported,
    {
        self.symbol.flags.imported
    }

    /// Whether the symbol is nested: never.
    pub fn is_nested(&self) -> (r: bool)
        ensures
            !r,
    {
        false
    }

    pub fn is_nonlocal(&self) -> (r: bool)
        ensures
            r == self.symbol.flags.nonlocal,
    {
        self.symbol.flags.nonlocal
    }

    pub fn is_referenced(&self) -> (r: bool)
        ensures
            r == self.symbol.flags.referenced,
    {
        self.symbol.flags.referenced
    }

    pub fn is_assigned(&self) -> (r: bool)
        ensures
            r == self.symbol.flags.assigned,
    {
        self.symbol.flags.assigned
    }

    pub fn is_parameter(&self) -> (r: bool)
        ensures
            r == self.symbol.flags.parameter,
    {
        self.symbol.flags.parameter
    }

    pub fn is_free(&self) -> (r: bool)
        ensures
            r == (self.symbol.scope == SymbolScope::Free),
    {
        match self.symbol.scope {
            SymbolScope::Free => true,
            _ => false,
        }
    }

    /// Whether the name is that of a block.
    pub fn is_namespace(&self) -> (r: bool)
        ensures
            r == (self.namespaces.len() > 0),
    {
        self.namespaces.len() > 0
    }

    pub fn is_annotated(&self) -> (r: bool)
        ensures
            r == self.symbol.flags.annotated,
    {
        self.symbol.flags.annotated
    }

    /// The tables of the blocks that the symbol names.
    pub fn get_namespaces(&self) -> (r: Vec<PySymbolTable<'a>>)
        ensures
            r.len() == self.namespaces.len(),
            forall|i: int| 0 <= i < r.len() ==> (#[trigger] r@[i]).symtable == self.namespaces@[i],
    {
        let mut out: Vec<PySymbolTable<'a>> = Vec::new();
        let mut i: usize = 0;
        while i < self.namespaces.len()
            invariant
                i <= self.namespaces.len(),
                out.len() == i,
                forall|k: int| 0 <= k < i ==> (#[trigger] out@[k]).symtable == self.namespaces@[k],
            decreases self.namespaces.len() - i,
        {
            out.push(to_py_symbol_table(self.namespaces[i]));
            i += 1;
        }
        out
    }

    /// The table of the one block that the symbol names.
    pub fn get_namespace(&self) -> (r: Result<PySymbolTable<'a>, SymtableError>)
        ensures
            r == if self.namespaces.len() == 1 {
                Ok::<PySymbolTable<'a>, SymtableError>(
                    PySymbolTable { symtable: self.namespaces@[0] },
                )
            } else {
                Err(SymtableError::NotOneNamespace)
            },
    {
        if self.namespaces.len() != 1 {
            return Err(SymtableError::NotOneNamespace);
        }
        Ok(to_py_symbol_table(self.namespaces[0]))
    }
}

} // verus!
