//! A protocol-binding layer for a dynamically typed runtime: native code
//! takes arbitrary objects, checks once that they are callable, iterable,
//! mappings or sequences, and keeps a handle to use that capability; on top
//! of it, the construction of new classes at run time.
//!
//! The objects live in an arena (`vm`), whose mathematical model (`heap`)
//! every contract speaks of. `object` and `error` hold the shapes of the
//! values; `bootstrap` and `make` make objects, and `roots` lists the
//! built-in classes that every arena starts with; `lookup`, `items`, `call`,
//! `linearize` and `iteration` are the object system that the handles rest
//! on. The handles are in `protocol` and `sequence`, their part in tracing
//! in `trace`, and the construction of classes in `class`. The built-in
//! functions are in `builtins`, `numbers`, `power`, `sorting`, `listing`,
//! `hashing`, `output`, `scope`, `input`, `compile` and `module`;
//! `symtable` holds the symbol tables. Where a built-in function needs the
//! compiler, the terminal or the hasher of the runtime, it decides what is
//! to be done and hands that out.
//! `laws`, `class_laws`, `builtin_laws` and `module_laws` state what holds
//! in every arena. `check` says when an arena is intact (closed under its
//! references, with the built-in objects in place) and tests it at run
//! time; a new arena is intact, and every operation keeps it so, as its
//! contract says. `render` and `text` make text, and `outside` holds the
//! few calls whose contracts are taken on trust.

pub mod bootstrap;
pub mod builtin_laws;
pub mod builtins;
pub mod call;
pub mod check;
pub mod class;
pub mod class_laws;
pub mod compile;
pub mod error;
pub mod hashing;
pub mod heap;
pub mod input;
pub mod items;
pub mod iteration;
pub mod laws;
pub mod linearize;
pub mod listing;
pub mod lookup;
pub mod make;
pub mod module;
pub mod module_laws;
pub mod numbers;
pub mod object;
pub mod output;
pub mod outside;
pub mod power;
pub mod protocol;
pub mod render;
pub mod roots;
pub mod scope;
pub mod sequence;
pub mod sorting;
pub mod symtable;
pub mod text;
pub mod trace;
pub mod vm;
