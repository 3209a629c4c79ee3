//! The shapes of the values that live in the arena: references, capability
//! slots, routines, payloads, and the mathematical view of each.

use vstd::prelude::*;

use crate::error::Error;

verus! {

/// A reference to an object: its position in the arena. Copying a reference
/// never copies the object; two equal references denote one object.
#[derive(Clone, Copy, Debug, PartialEq, Eq, Structural)]
pub struct ObjRef {
    pub id: usize,
}

/// What happens when an object is called.
#[derive(Clone, Copy, Debug, PartialEq, Eq, Structural)]
pub enum CallSlot {
    /// The callee is a function object: its routine runs.
    Function,
    /// The callee is a type object: it constructs a new class from a name,
    /// a tuple of bases and a namespace.
    Construct,
}

/// How an iterator is obtained from an iterable.
#[derive(Clone, Copy, Debug, PartialEq, Eq, Structural)]
pub enum IterSlot {
    /// A fresh cursor over the elements the object stores.
    Elements,
    /// The object is its own iterator.
    Identity,
}

/// How an iterator advances.
#[derive(Clone, Copy, Debug, PartialEq, Eq, Structural)]
pub enum NextSlot {
    /// Walks the stored elements of a source from the front.
    Elements,
    /// Walks a source through indexed access, from index 0 upwards.
    Subscript,
    /// Calls a callable until it returns the sentinel.
    Sentinel,
    /// Walks a source through indexed access, from the last index downwards.
    Reversed,
}

/// The operations of the mapping protocol that a type exposes.
#[derive(Clone, Copy, Debug, PartialEq, Eq, Structural)]
pub struct MappingMethods {
    pub length: bool,
    pub subscript: bool,
    pub ass_subscript: bool,
}

/// The operations of the sequence protocol that a type exposes.
#[derive(Clone, Copy, Debug, PartialEq, Eq, Structural)]
pub struct SequenceMethods {
    pub length: bool,
    pub item: bool,
}

/// The capabilities a slot table can hold.
#[derive(Clone, Copy, Debug, PartialEq, Eq, Structural)]
pub enum Capability {
    Call,
    Iter,
    IterNext,
    Mapping,
    Sequence,
}

/// One resolved slot, tagged by its capability.
#[derive(Clone, Copy, Debug)]
pub enum Slot {
    Call(CallSlot),
    Iter(IterSlot),
    IterNext(NextSlot),
    Mapping(MappingMethods),
    Sequence(SequenceMethods),
}

impl Slot {
    pub open spec fn capability(self) -> Capability {
        match self {
            Slot::Call(_) => Capability::Call,
            Slot::Iter(_) => Capability::Iter,
            Slot::IterNext(_) => Capability::IterNext,
            Slot::Mapping(_) => Capability::Mapping,
            Slot::Sequence(_) => Capability::Sequence,
        }
    }
}

/// The slot table of one type: each capability is present or absent.
#[derive(Clone, Copy, Debug)]
pub struct Slots {
    pub call: Option<CallSlot>,
    pub iter: Option<IterSlot>,
    pub iternext: Option<NextSlot>,
    pub as_mapping: Option<MappingMethods>,
    pub as_sequence: Option<SequenceMethods>,
}

impl Slots {
    /// The table with no capability at all.
    pub open spec fn spec_empty() -> Slots {
        Slots { call: None, iter: None, iternext: None, as_mapping: None, as_sequence: None }
    }

    #[verifier::when_used_as_spec(spec_empty)]
    pub fn empty() -> (r: Slots)
        ensures
            r == Slots::spec_empty(),
    {
        Slots { call: None, iter: None, iternext: None, as_mapping: None, as_sequence: None }
    }

    /// The slot this table holds for a capability.
    pub open spec fn spec_get(&self, cap: Capability) -> Option<Slot> {
        match cap {
            Capability::Call => match self.call {
                Some(s) => Some(Slot::Call(s)),
                None => None,
            },
            Capability::Iter => match self.iter {
                Some(s) => Some(Slot::Iter(s)),
                None => None,
            },
            Capability::IterNext => match self.iternext {
                Some(s) => Some(Slot::IterNext(s)),
                None => None,
            },
            Capability::Mapping => match self.as_mapping {
                Some(s) => Some(Slot::Mapping(s)),
                None => None,
            },
            Capability::Sequence => match self.as_sequence {
                Some(s) => Some(Slot::Sequence(s)),
                None => None,
            },
        }
    }

    #[verifier::when_used_as_spec(spec_get)]
    pub fn get(&self, cap: Capability) -> (r: Option<Slot>)
        ensures
            r == self.spec_get(cap),
    {
        match cap {
            Capability::Call => match self.call {
                Some(s) => Some(Slot::Call(s)),
                None => None,
            },
            Capability::Iter => match self.iter {
                Some(s) => Some(Slot::Iter(s)),
                None => None,
            },
            Capability::IterNext => match self.iternext {
                Some(s) => Some(Slot::IterNext(s)),
                None => None,
            },
            Capability::Mapping => match self.as_mapping {
                Some(s) => Some(Slot::Mapping(s)),
                None => None,
            },
            Capability::Sequence => match self.as_sequence {
                Some(s) => Some(Slot::Sequence(s)),
                None => None,
            },
        }
    }
}

/// A named entry: an attribute of an object, an item of a namespace, a
/// keyword argument.
#[derive(Debug)]
pub struct Attr {
    pub name: String,
    pub value: ObjRef,
}

pub struct AttrView {
    pub name: Seq<char>,
    pub value: ObjRef,
}

impl View for Attr {
    type V = AttrView;

    open spec fn view(&self) -> AttrView {
        AttrView { name: self.name@, value: self.value }
    }
}

impl DeepView for Attr {
    type V = AttrView;

    open spec fn deep_view(&self) -> AttrView {
        self@
    }
}

/// What a function object does when it runs. Routines are the user-level
/// code of this runtime: they are data, and running one is deterministic.
#[derive(Debug)]
pub enum Routine {
    /// Returns the given object, whatever the arguments.
    Return(ObjRef),
    /// Raises the given error, whatever the arguments.
    Raise(Error),
    /// Returns the positional argument at the given index.
    Argument(usize),
    /// A class body: stores each entry into the local namespace, in order,
    /// then returns `result` (a class cell, or the `None` object).
    Body { stores: Vec<Attr>, result: ObjRef },
    /// Appends its positional arguments to the list `sink` and returns the
    /// `None` object.
    Record(ObjRef),
}

pub enum RoutineView {
    Return(ObjRef),
    Raise(Error),
    Argument(usize),
    Body { stores: Seq<AttrView>, result: ObjRef },
    Record(ObjRef),
}

impl View for Routine {
    type V = RoutineView;

    open spec fn view(&self) -> RoutineView {
        match self {
            Routine::Return(o) => RoutineView::Return(*o),
            Routine::Raise(e) => RoutineView::Raise(*e),
            Routine::Argument(i) => RoutineView::Argument(*i),
            Routine::Body { stores, result } => RoutineView::Body {
                stores: stores.deep_view(),
                result: *result,
            },
            Routine::Record(sink) => RoutineView::Record(*sink),
        }
    }
}

/// The descriptor of a type: its name, its direct bases, its linearized
/// ancestors (itself first) and its own slot table.
#[derive(Debug)]
pub struct TypeData {
    pub name: String,
    pub bases: Vec<ObjRef>,
    pub mro: Vec<ObjRef>,
    pub slots: Slots,
}

pub struct TypeView {
    pub name: Seq<char>,
    pub bases: Seq<ObjRef>,
    pub mro: Seq<ObjRef>,
    pub slots: Slots,
}

impl TypeView {
    /// The descriptor read through a reference that denotes no type: it has
    /// no ancestors and no slots.
    pub open spec fn void() -> TypeView {
        TypeView {
            name: Seq::empty(),
            bases: Seq::empty(),
            mro: Seq::empty(),
            slots: Slots::spec_empty(),
        }
    }
}

impl View for TypeData {
    type V = TypeView;

    open spec fn view(&self) -> TypeView {
        TypeView { name: self.name@, bases: self.bases@, mro: self.mro@, slots: self.slots }
    }
}

/// The native data of an object.
#[derive(Debug)]
pub enum Payload {
    /// No native data.
    Instance,
    NoneValue,
    Bool(bool),
    Int(i64),
    Str(String),
    /// The bytes of a bytes object or of a bytearray.
    Bytes(Vec<u8>),
    Tuple(Vec<ObjRef>),
    List(Vec<ObjRef>),
    /// An insertion-ordered mapping from names to objects.
    Dict(Vec<Attr>),
    Type(TypeData),
    /// A cell that is empty or holds one object.
    Cell(Option<ObjRef>),
    Function(Routine),
    /// A cursor over the stored elements of `source`.
    ElementsIter { source: ObjRef, pos: usize },
    /// A cursor that reads `source` by index, upwards.
    SubscriptIter { source: ObjRef, pos: usize, done: bool },
    /// A cursor that calls `callable` through `call` until `sentinel` comes.
    SentinelIter { callable: ObjRef, call: CallSlot, sentinel: ObjRef, pulls: usize, done: bool },
    /// A cursor that reads `source` by index, downwards; `remaining` items
    /// are still to come.
    ReverseIter { source: ObjRef, remaining: usize },
}

pub enum PayloadView {
    Instance,
    NoneValue,
    Bool(bool),
    Int(i64),
    Str(Seq<char>),
    Bytes(Seq<u8>),
    Tuple(Seq<ObjRef>),
    List(Seq<ObjRef>),
    Dict(Seq<AttrView>),
    Type(TypeView),
    Cell(Option<ObjRef>),
    Function(RoutineView),
    ElementsIter { source: ObjRef, pos: usize },
    SubscriptIter { source: ObjRef, pos: usize, done: bool },
    SentinelIter { callable: ObjRef, call: CallSlot, sentinel: ObjRef, pulls: usize, done: bool },
    ReverseIter { source: ObjRef, remaining: usize },
}

impl View for Payload {
    type V = PayloadView;

    open spec fn view(&self) -> PayloadView {
        match self {
            Payload::Instance => PayloadView::Instance,
            Payload::NoneValue => PayloadView::NoneValue,
            Payload::Bool(b) => PayloadView::Bool(*b),
            Payload::Int(i) => PayloadView::Int(*i),
            Payload::Str(s) => PayloadView::Str(s@),
            Payload::Bytes(b) => PayloadView::Bytes(b@),
            Payload::Tuple(v) => PayloadView::Tuple(v@),
            Payload::List(v) => PayloadView::List(v@),
            Payload::Dict(v) => PayloadView::Dict(v.deep_view()),
            Payload::Type(t) => PayloadView::Type(t@),
            Payload::Cell(c) => PayloadView::Cell(*c),
            Payload::Function(r) => PayloadView::Function(r@),
            Payload::ElementsIter { source, pos } => PayloadView::ElementsIter {
                source: *source,
                pos: *pos,
            },
            Payload::SubscriptIter { source, pos, done } => PayloadView::SubscriptIter {
                source: *source,
                pos: *pos,
                done: *done,
            },
            Payload::SentinelIter { callable, call, sentinel, pulls, done } => {
                PayloadView::SentinelIter {
                    callable: *callable,
                    call: *call,
                    sentinel: *sentinel,
                    pulls: *pulls,
                    done: *done,
                }
            },
            Payload::ReverseIter { source, remaining } => PayloadView::ReverseIter {
                source: *source,
                remaining: *remaining,
            },
        }
    }
}

/// One object of the arena: its type, its native data, its own attributes.
#[derive(Debug)]
pub struct Object {
    pub class: ObjRef,
    pub payload: Payload,
    pub attrs: Vec<Attr>,
}

pub struct ObjectView {
    pub class: ObjRef,
    pub payload: PayloadView,
    pub attrs: Seq<AttrView>,
}

impl View for Object {
    type V = ObjectView;

    open spec fn view(&self) -> ObjectView {
        ObjectView { class: self.class, payload: self.payload@, attrs: self.attrs.deep_view() }
    }
}

impl DeepView for Object {
    type V = ObjectView;

    open spec fn deep_view(&self) -> ObjectView {
        self@
    }
}

/// The arguments of a call: positional ones, then keyword ones in the order
/// they were written.
#[derive(Debug)]
pub struct FuncArgs {
    pub args: Vec<ObjRef>,
    pub kwargs: Vec<Attr>,
}

pub struct ArgsView {
    pub args: Seq<ObjRef>,
    pub kwargs: Seq<AttrView>,
}

impl View for FuncArgs {
    type V = ArgsView;

    open spec fn view(&self) -> ArgsView {
        ArgsView { args: self.args@, kwargs: self.kwargs.deep_view() }
    }
}

impl ArgsView {
    /// No argument at all.
    pub open spec fn none() -> ArgsView {
        ArgsView { args: Seq::empty(), kwargs: Seq::empty() }
    }

    /// Positional arguments only.
    pub open spec fn positional(args: Seq<ObjRef>) -> ArgsView {
        ArgsView { args, kwargs: Seq::empty() }
    }
}

} // verus!
