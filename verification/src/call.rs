//! Calling: running the routine of a function object, and constructing a
//! class by calling a type object.

use vstd::prelude::*;

use crate::check::{lemma_linearize_within, lemma_reads_within, lemma_unbind_within};
use crate::error::Error;
use crate::heap::{lookup, unbind, Heap, NONE, OBJECT_TYPE};
use crate::items::{clone_entries, clone_refs, unbind_entry};
use crate::linearize::{layers_of, merge, merge_layers};
use crate::lookup::lookup_entry;
use crate::object::{
    ArgsView, Attr, CallSlot, FuncArgs, ObjRef, Object, ObjectView, Payload, PayloadView, Routine,
    RoutineView, Slots, TypeData, TypeView,
};
use crate::vm::Vm;

verus! {

/// The namespace entry through which a class body hands its class cell to
/// the construction of the type.
pub const CLASSCELL: &'static str = "__classcell__";

impl Heap {
    /// Whether every reference of `refs` denotes a type.
    pub open spec fn all_types(self, refs: Seq<ObjRef>) -> bool {
        forall|i: int| 0 <= i < refs.len() ==> self.is_type(#[trigger] refs[i])
    }

    /// The layers that the ancestors of a class are merged from: the
    /// ancestors of each base, and then the bases themselves.
    pub open spec fn layers(self, bases: Seq<ObjRef>) -> Seq<Seq<ObjRef>> {
        Seq::new(bases.len(), |i: int| self.mro(bases[i])).push(bases)
    }

    /// The linearization of the ancestors of a class with the given bases:
    /// the merge of the ancestors of the bases, which keeps every type
    /// before its own ancestors and the bases in their order. Bases that
    /// cannot be merged so have no linearization.
    pub open spec fn linearize(self, bases: Seq<ObjRef>) -> Option<Seq<ObjRef>> {
        merge(self.layers(bases))
    }

    /// Runs a routine on `args`. `locals` is the namespace a class body
    /// stores into; without one a body stores nothing.
    pub open spec fn run(self, routine: RoutineView, args: ArgsView, locals: Option<ObjRef>) -> (
        Heap,
        Result<ObjRef, Error>,
    ) {
        match routine {
            RoutineView::Return(o) => (self, Ok(o)),
            RoutineView::Raise(e) => (self, Err(e)),
            RoutineView::Argument(i) => if i < args.args.len() {
                (self, Ok(args.args[i as int]))
            } else {
                (self, Err(Error::MissingArgument { index: i }))
            },
            RoutineView::Record(sink) => (
                if self.payload(sink) is List {
                    self.with_payload(sink, PayloadView::List(self.elements(sink) + args.args))
                } else {
                    self
                },
                Ok(ObjRef { id: NONE }),
            ),
            RoutineView::Body { stores, result } => match locals {
                None => (self, Ok(result)),
                Some(ns) => {
                    let (h, r) = self.store_all(ns, stores, 0);
                    match r {
                        Ok(()) => (h, Ok(result)),
                        Err(e) => (h, Err(e)),
                    }
                },
            },
        }
    }

    /// Runs the routine of the function object `callee`.
    pub open spec fn run_function(self, callee: ObjRef, args: ArgsView, locals: Option<ObjRef>) -> (
        Heap,
        Result<ObjRef, Error>,
    ) {
        match self.payload(callee) {
            PayloadView::Function(routine) => self.run(routine, args, locals),
            _ => (self, Err(Error::NotCallable { class: self.class_of(callee) })),
        }
    }

    /// The direct bases of a class: those given, or `object` where none is
    /// given.
    pub open spec fn parents(self, bases: Seq<ObjRef>) -> Seq<ObjRef> {
        if bases.len() == 0 {
            seq![ObjRef { id: OBJECT_TYPE }]
        } else {
            bases
        }
    }

    /// Constructs a class as an instance of `meta` from a name, a tuple of
    /// bases and a namespace. Without bases the class derives from `object`.
    /// The bases must be types whose ancestors can be linearized.
    /// Keyword arguments are taken and not looked at.
    /// The entries of the namespace become the attributes of the class; a
    /// class cell found under `__classcell__` is taken out of them and set to
    /// the new class.
    pub open spec fn construct(self, meta: ObjRef, args: ArgsView) -> (
        Heap,
        Result<ObjRef, Error>,
    ) {
        if args.args.len() != 3 {
            (self, Err(Error::ConstructArity))
        } else {
            let name = args.args[0];
            let bases = args.args[1];
            let ns = args.args[2];
            let cell = lookup(self.entries(ns), CLASSCELL@);
            if !(self.payload(name) is Str) {
                (self, Err(Error::ConstructArgument { position: 1, class: self.class_of(name) }))
            } else if !(self.payload(bases) is Tuple) {
                (self, Err(Error::ConstructArgument { position: 2, class: self.class_of(bases) }))
            } else if !(self.payload(ns) is Dict) {
                (self, Err(Error::ConstructArgument { position: 3, class: self.class_of(ns) }))
            } else if !self.all_types(self.elements(bases)) {
                (self, Err(Error::BasesNotTypes))
            } else if self.linearize(self.parents(self.elements(bases))) is None {
                (self, Err(Error::InconsistentMro))
            } else if cell is Some && !(self.payload(cell->0) is Cell) {
                (self, Err(Error::NotACell { class: self.class_of(cell->0) }))
            } else {
                let r = self.next_ref();
                let parents = self.parents(self.elements(bases));
                let descriptor = TypeView {
                    name: self.payload(name)->Str_0,
                    bases: parents,
                    mro: seq![r] + self.linearize(parents)->0,
                    slots: Slots::spec_empty(),
                };
                let h = self.push(
                    ObjectView {
                        class: meta,
                        payload: PayloadView::Type(descriptor),
                        attrs: unbind(self.entries(ns), CLASSCELL@),
                    },
                );
                match cell {
                    Some(c) => (h.with_payload(c, PayloadView::Cell(Some(r))), Ok(r)),
                    None => (h, Ok(r)),
                }
            }
        }
    }

    /// Calls `callee` through an already resolved slot.
    pub open spec fn invoke(self, slot: CallSlot, callee: ObjRef, args: ArgsView) -> (
        Heap,
        Result<ObjRef, Error>,
    ) {
        match slot {
            CallSlot::Function => self.run_function(callee, args, None),
            CallSlot::Construct => self.construct(callee, args),
        }
    }

    /// Calls `callee`: resolves the call slot of its type, then goes through
    /// it.
    pub open spec fn call(self, callee: ObjRef, args: ArgsView) -> (Heap, Result<ObjRef, Error>) {
        match self.call_slot(self.class_of(callee)) {
            Some(slot) => self.invoke(slot, callee, args),
            None => (self, Err(Error::NotCallable { class: self.class_of(callee) })),
        }
    }
}

impl Vm {
    /// Whether every reference of `refs` denotes a type.
    pub fn all_types(&self, refs: &Vec<ObjRef>) -> (r: bool)
        ensures
            r == self@.all_types(refs@),
    {
        let mut i: usize = 0;
        while i < refs.len()
            invariant
                i <= refs.len(),
                forall|j: int| 0 <= j < i ==> self@.is_type(#[trigger] refs@[j]),
            decreases refs.len() - i,
        {
            if !self.is_type(refs[i]) {
                return false;
            }
            i += 1;
        }
        true
    }

    /// The direct bases of a class: those given, or `object` where none is
    /// given.
    pub fn parents(&self, bases: Vec<ObjRef>) -> (r: Vec<ObjRef>)
        ensures
            r@ == self@.parents(bases@),
    {
        if bases.len() == 0 {
            let mut only: Vec<ObjRef> = Vec::new();
            only.push(ObjRef { id: OBJECT_TYPE });
            only
        } else {
            bases
        }
    }

    /// The linearized ancestors of a class with the given bases, or `None`
    /// where the bases have no linearization.
    pub fn linearize(&self, bases: &Vec<ObjRef>) -> (r: Option<Vec<ObjRef>>)
        ensures
            match (r, self@.linearize(bases@)) {
                (Some(v), Some(s)) => v@ == s,
                (None, None) => true,
                _ => false,
            },
    {
        let mut layers: Vec<Vec<ObjRef>> = Vec::new();
        let mut i: usize = 0;
        while i < bases.len()
            invariant
                i <= bases.len(),
                layers.len() == i,
                forall|j: int| 0 <= j < i ==> (#[trigger] layers@[j])@ == self@.mro(bases@[j]),
            decreases bases.len() - i,
        {
            let line = match self.type_data(bases[i]) {
                Some(td) => clone_refs(&td.mro),
                None => Vec::new(),
            };
            layers.push(line);
            i += 1;
        }
        layers.push(clone_refs(bases));
        assert(layers_of(layers@) =~= self@.layers(bases@));
        merge_layers(layers)
    }

    /// Runs the routine of the function object `callee` on `args`. `locals`
    /// is the namespace a class body stores into.
    pub fn run_function(&mut self, callee: ObjRef, args: &FuncArgs, locals: Option<ObjRef>) -> (r:
        Result<ObjRef, Error>)
        ensures
            (final(self)@, r) == old(self)@.run_function(callee, args@, locals),
            old(self)@.leads_to(final(self)@),
            old(self)@.intact() && old(self)@.has(callee) && old(self)@.holds(args@)
                && old(self)@.has_some(locals) ==> final(self)@.intact()
                && final(self)@.has_ok(r),
    {
        proof {
            if self@.intact() {
                lemma_reads_within(self@, callee);
                match self@.payload(callee) {
                    PayloadView::Function(RoutineView::Record(list)) => {
                        lemma_reads_within(self@, list);
                    },
                    _ => {},
                }
            }
        }
        let mut stores: Option<Vec<Attr>> = None;
        let mut sink: Option<(ObjRef, Vec<ObjRef>)> = None;
        let outcome: Result<ObjRef, Error> = match self.payload(callee) {
            Some(Payload::Function(routine)) => match routine {
                Routine::Return(o) => Ok(*o),
                Routine::Raise(e) => Err(*e),
                Routine::Argument(i) => if *i < args.args.len() {
                    Ok(args.args[*i])
                } else {
                    Err(Error::MissingArgument { index: *i })
                },
                Routine::Body { stores: s, result } => {
                    stores = Some(clone_entries(s));
                    Ok(*result)
                },
                Routine::Record(list) => {
                    match self.payload(*list) {
                        Some(Payload::List(items)) => {
                            let mut all = clone_refs(items);
                            let mut more = clone_refs(&args.args);
                            all.append(&mut more);
                            sink = Some((*list, all));
                        },
                        _ => {},
                    }
                    Ok(ObjRef { id: NONE })
                },
            },
            _ => Err(Error::NotCallable { class: self.class_of(callee) }),
        };
        match sink {
            Some((list, all)) => {
                self.set_payload(list, Payload::List(all));
                return outcome;
            },
            None => {},
        }
        match (stores, locals) {
            (Some(s), Some(ns)) => match self.store_all(ns, &s) {
                Ok(()) => outcome,
                Err(e) => Err(e),
            },
            _ => outcome,
        }
    }

    /// Constructs a class as an instance of `meta` from a name, a tuple of
    /// bases and a namespace.
    pub fn construct(&mut self, meta: ObjRef, args: &FuncArgs) -> (r: Result<ObjRef, Error>)
        ensures
            (final(self)@, r) == old(self)@.construct(meta, args@),
            old(self)@.leads_to(final(self)@),
            old(self)@.intact() && old(self)@.has(meta) && old(self)@.holds(args@)
                ==> final(self)@.intact() && final(self)@.has_ok(r),
    {
        if args.args.len() != 3 {
            return Err(Error::ConstructArity);
        }
        let name_obj = args.args[0];
        let bases_obj = args.args[1];
        let ns = args.args[2];
        let name: String = match self.payload(name_obj) {
            Some(Payload::Str(s)) => s.clone(),
            _ => {
                return Err(
                    Error::ConstructArgument { position: 1, class: self.class_of(name_obj) },
                );
            },
        };
        let given: Vec<ObjRef> = match self.payload(bases_obj) {
            Some(Payload::Tuple(items)) => clone_refs(items),
            _ => {
                return Err(
                    Error::ConstructArgument { position: 2, class: self.class_of(bases_obj) },
                );
            },
        };
        let mut attrs: Vec<Attr> = match self.payload(ns) {
            Some(Payload::Dict(entries)) => clone_entries(entries),
            _ => {
                return Err(Error::ConstructArgument { position: 3, class: self.class_of(ns) });
            },
        };
        if !self.all_types(&given) {
            return Err(Error::BasesNotTypes);
        }
        let parents = self.parents(given);
        let mut line = match self.linearize(&parents) {
            Some(line) => line,
            None => {
                return Err(Error::InconsistentMro);
            },
        };
        let cell = lookup_entry(&attrs, CLASSCELL);
        match cell {
            Some(c) => {
                let is_cell = match self.payload(c) {
                    Some(Payload::Cell(_)) => true,
                    _ => false,
                };
                if !is_cell {
                    return Err(Error::NotACell { class: self.class_of(c) });
                }
            },
            None => {},
        }
        proof {
            if self@.intact() && self@.holds(args@) {
                lemma_reads_within(self@, bases_obj);
                lemma_reads_within(self@, ns);
                assert(self@.refs_in(given@));
                lemma_linearize_within(self@, given@);
                lemma_unbind_within(self@, self@.entries(ns), CLASSCELL@);
            }
        }
        let r = ObjRef { id: self.len() };
        let mut mro: Vec<ObjRef> = Vec::new();
        mro.push(r);
        mro.append(&mut line);
        unbind_entry(&mut attrs, CLASSCELL);
        let descriptor = TypeData { name, bases: parents, mro, slots: Slots::empty() };
        self.allocate(Object { class: meta, payload: Payload::Type(descriptor), attrs });
        match cell {
            Some(c) => {
                self.set_payload(c, Payload::Cell(Some(r)));
            },
            None => {},
        }
        Ok(r)
    }

    /// Calls `callee` through an already resolved slot.
    pub fn invoke(&mut self, slot: CallSlot, callee: ObjRef, args: &FuncArgs) -> (r: Result<
        ObjRef,
        Error,
    >)
        ensures
            (final(self)@, r) == old(self)@.invoke(slot, callee, args@),
            old(self)@.leads_to(final(self)@),
            old(self)@.intact() && old(self)@.has(callee) && old(self)@.holds(args@)
                ==> final(self)@.intact() && final(self)@.has_ok(r),
    {
        match slot {
            CallSlot::Function => self.run_function(callee, args, None),
            CallSlot::Construct => self.construct(callee, args),
        }
    }

    /// Calls `callee` with `args`: returns what the callee returns, or the
    /// error it raises.
    pub fn call(&mut self, callee: ObjRef, args: &FuncArgs) -> (r: Result<ObjRef, Error>)
        ensures
            (final(self)@, r) == old(self)@.call(callee, args@),
            old(self)@.leads_to(final(self)@),
            old(self)@.intact() && old(self)@.has(callee) && old(self)@.holds(args@)
                ==> final(self)@.intact() && final(self)@.has_ok(r),
    {
        match self.call_slot(self.class_of(callee)) {
            Some(slot) => self.invoke(slot, callee, args),
            None => Err(Error::NotCallable { class: self.class_of(callee) }),
        }
    }
}

} // verus!
