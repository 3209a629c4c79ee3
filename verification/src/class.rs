//! The construction of a class from its body, its bases and its keyword
//! arguments: base normalization, metaclass selection, namespace
//! preparation, body execution, type construction and the check of the
//! class cell. The first error ends the construction; nothing is rolled
//! back.

use vstd::prelude::*;

use crate::check::{
    lemma_attr_within, lemma_lookup_within, lemma_reads_within, lemma_unbind_within,
};
use crate::error::Error;
use crate::heap::{lookup, unbind, Heap, DICT_TYPE, STR_TYPE, TUPLE_TYPE, TYPE_TYPE};
use crate::items::{clone_entries, clone_refs, unbind_entry};
use crate::lookup::lookup_entry;
use crate::object::{ArgsView, Attr, AttrView, FuncArgs, ObjRef, Payload, PayloadView};
use crate::protocol::{ArgMapping, ReadFromObject};
use crate::text::{last_segment, spec_last_segment};
use crate::vm::Vm;

verus! {

/// The hook by which an object that is no type names the bases that stand
/// for it.
pub const MRO_ENTRIES: &'static str = "__mro_entries__";

/// The hook by which a metaclass provides the namespace of a class.
pub const PREPARE: &'static str = "__prepare__";

/// The keyword argument that names the metaclass.
pub const METACLASS: &'static str = "metaclass";

/// The attribute of a class body, and then of the class, that holds the
/// type parameters of a generic class.
pub const TYPE_PARAMS: &'static str = "__type_params__";

/// The second attribute of the class under which its type parameters are
/// found.
pub const PARAMETERS: &'static str = "__parameters__";

/// The namespace entry under which the original bases are recorded.
pub const ORIG_BASES: &'static str = "__orig_bases__";

/// The namespace entry that carries the type parameters through the class
/// body. No attribute name a program can write starts with a dot.
pub const DOT_TYPE_PARAMS: &'static str = ".type_params";

/// The outcome of normalizing some bases: the bases that stand for them,
/// and whether a hook replaced one.
pub type Normalized = Result<(Seq<ObjRef>, bool), Error>;

/// `prefix` put before a normalized rest, with `replaced` added to its
/// flag; an error stays.
pub open spec fn joined(prefix: Seq<ObjRef>, replaced: bool, rest: (Heap, Normalized)) -> (
    Heap,
    Normalized,
) {
    (
        rest.0,
        match rest.1 {
            Ok((more, flag)) => Ok((prefix + more, replaced || flag)),
            Err(e) => Err(e),
        },
    )
}

/// What a class body handed back, read as an optional class cell: the
/// `None` object is no cell, a cell is itself, anything else is refused.
pub open spec fn as_class_cell(heap: Heap, returned: ObjRef) -> Result<Option<ObjRef>, Error> {
    match heap.payload(returned) {
        PayloadView::NoneValue => Ok(None),
        PayloadView::Cell(_) => Ok(Some(returned)),
        _ => Err(Error::NotACell { class: heap.class_of(returned) }),
    }
}

/// The check of the class cell once `class` was constructed: without a
/// cell nothing is checked; an empty cell and a cell that holds another
/// object are errors.
pub open spec fn verify_class_cell(
    heap: Heap,
    cell: Option<ObjRef>,
    meta: Option<ObjRef>,
    class: ObjRef,
) -> Result<(), Error> {
    match cell {
        None => Ok(()),
        Some(c) => match heap.payload(c) {
            PayloadView::Cell(Some(found)) => if found == class {
                Ok(())
            } else {
                Err(Error::ClassCellMismatch { found, meta, class })
            },
            _ => Err(Error::ClassCellEmpty { meta, class }),
        },
    }
}

impl Heap {
    /// The bases that stand for `bases[from..]`. A type stands for itself,
    /// and so does an object without the `__mro_entries__` hook. The hook
    /// of any other object is called with the tuple of all original bases,
    /// must return a tuple, and the elements of that tuple stand for the
    /// object.
    pub open spec fn normalize(self, bases: Seq<ObjRef>, original: ObjRef, from: int) -> (
        Heap,
        Normalized,
    )
        decreases bases.len() - from,
    {
        if from < 0 || from >= bases.len() {
            (self, Ok((Seq::empty(), false)))
        } else {
            let base = bases[from];
            let hook = self.get_attr(base, MRO_ENTRIES@);
            if self.is_instance(base, ObjRef { id: TYPE_TYPE }) || hook is None {
                joined(seq![base], false, self.normalize(bases, original, from + 1))
            } else {
                let (h, r) = self.call(hook->0, ArgsView::positional(seq![original]));
                match r {
                    Err(e) => (h, Err(e)),
                    Ok(entries) => if h.payload(entries) is Tuple {
                        joined(h.elements(entries), true, h.normalize(bases, original, from + 1))
                    } else {
                        (h, Err(Error::MroEntriesNotTuple))
                    },
                }
            }
        }
    }

    /// Base normalization: the tuple of bases the class is built from, and
    /// the tuple of the original bases where a hook replaced one.
    pub open spec fn resolve_bases(self, bases: Seq<ObjRef>) -> (
        Heap,
        Result<(ObjRef, Option<ObjRef>), Error>,
    ) {
        let original = self.next_ref();
        let (h, r) = self.push(Heap::plain(TUPLE_TYPE, PayloadView::Tuple(bases))).normalize(
            bases,
            original,
            0,
        );
        match r {
            Err(e) => (h, Err(e)),
            Ok((list, replaced)) => if replaced {
                (
                    h.push(Heap::plain(TUPLE_TYPE, PayloadView::Tuple(list))),
                    Ok((h.next_ref(), Some(original))),
                )
            } else {
                (h, Ok((original, None)))
            },
        }
    }

    /// The most derived metaclass: starting from `candidate`, each of
    /// `bases[from..]` in order either hands over its own type (where that
    /// type derives from the candidate), or is covered by the candidate
    /// (where the candidate derives from that type), or is in conflict.
    pub open spec fn winner(self, bases: Seq<ObjRef>, from: int, candidate: ObjRef) -> Result<
        ObjRef,
        Error,
    >
        decreases bases.len() - from,
    {
        if from < 0 || from >= bases.len() {
            Ok(candidate)
        } else {
            let base_class = self.class_of(bases[from]);
            if self.is_subclass(base_class, candidate) {
                self.winner(bases, from + 1, base_class)
            } else if self.is_subclass(candidate, base_class) {
                self.winner(bases, from + 1, candidate)
            } else {
                Err(Error::MetaclassConflict)
            }
        }
    }

    /// Metaclass determination: the metaclass to call, and the same again
    /// where it is a type. An explicit metaclass that is no type is taken
    /// as it is; otherwise the most derived metaclass is selected, starting
    /// from the explicit one or else from `type`.
    pub open spec fn select_metaclass(self, explicit: Option<ObjRef>, bases: Seq<ObjRef>) -> Result<
        (ObjRef, Option<ObjRef>),
        Error,
    > {
        match explicit {
            Some(m) => if self.is_type(m) {
                match self.winner(bases, 0, m) {
                    Ok(w) => Ok((w, Some(w))),
                    Err(e) => Err(e),
                }
            } else {
                Ok((m, None))
            },
            None => match self.winner(bases, 0, ObjRef { id: TYPE_TYPE }) {
                Ok(w) => Ok((w, Some(w))),
                Err(e) => Err(e),
            },
        }
    }

    /// The type parameters of a class body: the non-empty tuple under its
    /// attribute `__type_params__`.
    pub open spec fn type_params(self, function: ObjRef) -> Option<ObjRef> {
        match self.get_attr(function, TYPE_PARAMS@) {
            Some(tp) => if self.payload(tp) is Tuple && self.elements(tp).len() > 0 {
                Some(tp)
            } else {
                None
            },
            None => None,
        }
    }

    /// Namespace preparation: a new dictionary where the metaclass has no
    /// `__prepare__` hook, else what the hook returns for the name, the
    /// bases and the keyword arguments, which must be a mapping. The type
    /// parameters of the body, where it has any, are stored in it under a
    /// reserved key.
    pub open spec fn prepare_namespace(
        self,
        function: ObjRef,
        metaclass: ObjRef,
        meta: Option<ObjRef>,
        name: ObjRef,
        bases: ObjRef,
        kwargs: Seq<AttrView>,
    ) -> (Heap, Result<ObjRef, Error>) {
        let (h, r) = match self.get_attr(metaclass, PREPARE@) {
            None => (
                self.push(Heap::plain(DICT_TYPE, PayloadView::Dict(Seq::empty()))),
                Ok::<ObjRef, Error>(self.next_ref()),
            ),
            Some(prepare) => self.call(prepare, ArgsView { args: seq![name, bases], kwargs }),
        };
        match r {
            Err(e) => (h, Err(e)),
            Ok(ns) => if h.mapping_plan(ns) is Err {
                (h, Err(Error::PrepareNotMapping { meta, class: h.class_of(ns) }))
            } else {
                match h.type_params(function) {
                    None => (h, Ok(ns)),
                    Some(tp) => {
                        let (h2, stored) = h.set_item(ns, DOT_TYPE_PARAMS@, tp);
                        match stored {
                            Ok(()) => (h2, Ok(ns)),
                            Err(e) => (h2, Err(e)),
                        }
                    },
                }
            },
        }
    }

    /// Body execution: the body runs with the namespace as its locals and
    /// hands back an optional class cell. Then the original bases, where
    /// there are any, are recorded in the namespace, and the reserved key
    /// of the type parameters is taken out of it.
    pub open spec fn execute_body(self, function: ObjRef, ns: ObjRef, orig_bases: Option<ObjRef>)
        -> (Heap, Result<Option<ObjRef>, Error>) {
        let (h, r) = self.run_function(function, ArgsView::none(), Some(ns));
        match r {
            Err(e) => (h, Err(e)),
            Ok(returned) => match as_class_cell(h, returned) {
                Err(e) => (h, Err(e)),
                Ok(cell) => {
                    let (h2, recorded) = match orig_bases {
                        Some(original) => h.set_item(ns, ORIG_BASES@, original),
                        None => (h, Ok(())),
                    };
                    match recorded {
                        Err(e) => (h2, Err(e)),
                        Ok(()) => (h2.del_item(ns, DOT_TYPE_PARAMS@).0, Ok(cell)),
                    }
                },
            },
        }
    }

    /// Type construction and cell verification: the metaclass is called
    /// with the name, the bases, the namespace and the keyword arguments;
    /// the class cell is checked against the class that came back; the type
    /// parameters of the body are attached to the class under two names.
    pub open spec fn finish_class(
        self,
        function: ObjRef,
        metaclass: ObjRef,
        meta: Option<ObjRef>,
        name: ObjRef,
        bases: ObjRef,
        ns: ObjRef,
        kwargs: Seq<AttrView>,
        cell: Option<ObjRef>,
    ) -> (Heap, Result<ObjRef, Error>) {
        let (h, r) = self.call(metaclass, ArgsView { args: seq![name, bases, ns], kwargs });
        match r {
            Err(e) => (h, Err(e)),
            Ok(class) => match verify_class_cell(h, cell, meta, class) {
                Err(e) => (h, Err(e)),
                Ok(()) => match h.type_params(function) {
                    None => (h, Ok(class)),
                    Some(tp) => {
                        let h1 = h.with_attrs(
                            class,
                            crate::heap::bind(h.attrs(class), TYPE_PARAMS@, tp),
                        );
                        (
                            h1.with_attrs(
                                class,
                                crate::heap::bind(h1.attrs(class), PARAMETERS@, tp),
                            ),
                            Ok(class),
                        )
                    },
                },
            },
        }
    }

    /// The construction of a class, phase by phase; the first error ends
    /// it.
    pub open spec fn build_class(
        self,
        function: ObjRef,
        qualified_name: Seq<char>,
        bases: Seq<ObjRef>,
        kwargs: Seq<AttrView>,
    ) -> (Heap, Result<ObjRef, Error>) {
        let name = self.next_ref();
        let h0 = self.push(
            Heap::plain(STR_TYPE, PayloadView::Str(spec_last_segment(qualified_name))),
        );
        let (h1, r1) = h0.resolve_bases(bases);
        match r1 {
            Err(e) => (h1, Err(e)),
            Ok((bases_obj, orig_bases)) => {
                let explicit = lookup(kwargs, METACLASS@);
                let rest = unbind(kwargs, METACLASS@);
                match h1.select_metaclass(explicit, h1.elements(bases_obj)) {
                    Err(e) => (h1, Err(e)),
                    Ok((metaclass, meta)) => {
                        let (h2, r2) = h1.prepare_namespace(
                            function,
                            metaclass,
                            meta,
                            name,
                            bases_obj,
                            rest,
                        );
                        match r2 {
                            Err(e) => (h2, Err(e)),
                            Ok(ns) => {
                                let (h3, r3) = h2.execute_body(function, ns, orig_bases);
                                match r3 {
                                    Err(e) => (h3, Err(e)),
                                    Ok(cell) => h3.finish_class(
                                        function,
                                        metaclass,
                                        meta,
                                        name,
                                        bases_obj,
                                        ns,
                                        rest,
                                        cell,
                                    ),
                                }
                            },
                        }
                    },
                }
            },
        }
    }
}

/// Whether `r` is the normalized outcome `expected`.
pub open spec fn normalized_as(r: Result<(Vec<ObjRef>, bool), Error>, expected: Normalized) -> bool {
    match (r, expected) {
        (Ok((v, b)), Ok((s, c))) => v@ == s && b == c,
        (Err(e), Err(f)) => e == f,
        _ => false,
    }
}

impl Vm {
    /// The bases that stand for `bases`, and whether a hook replaced one.
    pub fn normalize(&mut self, bases: &Vec<ObjRef>, original: ObjRef) -> (r: Result<
        (Vec<ObjRef>, bool),
        Error,
    >)
        ensures
            final(self)@ == old(self)@.normalize(bases@, original, 0).0,
            normalized_as(r, old(self)@.normalize(bases@, original, 0).1),
            old(self)@.leads_to(final(self)@),
            old(self)@.intact() && old(self)@.refs_in(bases@) && old(self)@.has(original)
                ==> final(self)@.intact() && (r matches Ok(p) ==> final(self)@.refs_in(p.0@)),
    {
        let ghost goal = self@.normalize(bases@, original, 0);
        let mut acc: Vec<ObjRef> = Vec::new();
        let mut replaced = false;
        let mut i: usize = 0;
        while i < bases.len()
            invariant
                old(self)@.leads_to(self@),
                i <= bases.len(),
                goal == old(self)@.normalize(bases@, original, 0),
                goal == joined(acc@, replaced, self@.normalize(bases@, original, i as int)),
                old(self)@.intact() && old(self)@.refs_in(bases@) && old(self)@.has(original)
                    ==> self@.intact() && self@.refs_in(acc@),
            decreases bases.len() - i,
        {
            let ghost here = self@;
            let ghost before = acc@;
            let base = bases[i];
            proof {
                if self@.intact() {
                    lemma_attr_within(self@, base, MRO_ENTRIES@);
                }
                assert(old(self)@.refs_in(bases@) ==> old(self)@.has(bases@[i as int]));
            }
            let hook = if self.is_instance(base, ObjRef { id: TYPE_TYPE }) {
                None
            } else {
                self.get_attr(base, MRO_ENTRIES)
            };
            match hook {
                None => {
                    acc.push(base);
                    proof {
                        let rest = here.normalize(bases@, original, i + 1);
                        if rest.1 is Ok {
                            assert(before + (seq![base] + rest.1->Ok_0.0) =~= acc@
                                + rest.1->Ok_0.0);
                        }
                    }
                },
                Some(method) => {
                    let mut positional: Vec<ObjRef> = Vec::new();
                    positional.push(original);
                    let args = FuncArgs { args: positional, kwargs: Vec::new() };
                    let entries = match self.call(method, &args) {
                        Ok(entries) => entries,
                        Err(e) => {
                            return Err(e);
                        },
                    };
                    let mut spliced = match self.payload(entries) {
                        Some(Payload::Tuple(items)) => clone_refs(items),
                        _ => {
                            return Err(Error::MroEntriesNotTuple);
                        },
                    };
                    let ghost added = spliced@;
                    proof {
                        if self@.intact() {
                            lemma_reads_within(self@, entries);
                        }
                    }
                    acc.append(&mut spliced);
                    replaced = true;
                    proof {
                        let rest = self@.normalize(bases@, original, i + 1);
                        if rest.1 is Ok {
                            assert(before + (added + rest.1->Ok_0.0) =~= acc@ + rest.1->Ok_0.0);
                        }
                    }
                },
            }
            i += 1;
        }
        Ok((acc, replaced))
    }

    /// Base normalization: the tuple of bases the class is built from, and
    /// the tuple of the original bases where a hook replaced one.
    pub fn resolve_bases(&mut self, bases: Vec<ObjRef>) -> (r: Result<
        (ObjRef, Option<ObjRef>),
        Error,
    >)
        ensures
            (final(self)@, r) == old(self)@.resolve_bases(bases@),
            old(self)@.leads_to(final(self)@),
            old(self)@.intact() && old(self)@.refs_in(bases@)
                ==> final(self)@.intact()
                && (r matches Ok(p) ==> final(self)@.has(p.0) && final(self)@.has_some(p.1)),
    {
        let given = clone_refs(&bases);
        let original = self.new_tuple(bases);
        match self.normalize(&given, original) {
            Err(e) => Err(e),
            Ok((list, replaced)) => if replaced {
                Ok((self.new_tuple(list), Some(original)))
            } else {
                Ok((original, None))
            },
        }
    }

    /// The most derived metaclass among `candidate` and the types of
    /// `bases`, taken left to right.
    pub fn winner(&self, bases: &Vec<ObjRef>, candidate: ObjRef) -> (r: Result<ObjRef, Error>)
        ensures
            r == self@.winner(bases@, 0, candidate),
            self@.intact() && self@.has(candidate) ==> self@.has_ok(r),
    {
        let mut current = candidate;
        let mut i: usize = 0;
        while i < bases.len()
            invariant
                i <= bases.len(),
                self@.winner(bases@, 0, candidate) == self@.winner(bases@, i as int, current),
                self@.intact() && self@.has(candidate) ==> self@.has(current),
            decreases bases.len() - i,
        {
            proof {
                if self@.intact() {
                    lemma_reads_within(self@, bases@[i as int]);
                }
            }
            let base_class = self.class_of(bases[i]);
            if self.is_subclass(base_class, current) {
                current = base_class;
            } else if !self.is_subclass(current, base_class) {
                return Err(Error::MetaclassConflict);
            }
            i += 1;
        }
        Ok(current)
    }

    /// Metaclass determination: the metaclass to call, and the same again
    /// where it is a type.
    pub fn select_metaclass(&self, explicit: Option<ObjRef>, bases: &Vec<ObjRef>) -> (r: Result<
        (ObjRef, Option<ObjRef>),
        Error,
    >)
        ensures
            r == self@.select_metaclass(explicit, bases@),
            self@.intact() && self@.has_some(explicit) ==> (r matches Ok(p) ==> self@.has(p.0)
                && self@.has_some(p.1)),
    {
        let start = match explicit {
            Some(m) => if self.is_type(m) {
                m
            } else {
                return Ok((m, None));
            },
            None => ObjRef { id: TYPE_TYPE },
        };
        match self.winner(bases, start) {
            Ok(w) => Ok((w, Some(w))),
            Err(e) => Err(e),
        }
    }

    /// The type parameters of a class body, where it has any.
    pub fn type_params(&self, function: ObjRef) -> (r: Option<ObjRef>)
        ensures
            r == self@.type_params(function),
    {
        match self.get_attr(function, TYPE_PARAMS) {
            Some(tp) => {
                let filled = match self.payload(tp) {
                    Some(Payload::Tuple(items)) => items.len() > 0,
                    _ => false,
                };
                if filled {
                    Some(tp)
                } else {
                    None
                }
            },
            None => None,
        }
    }

    /// Namespace preparation.
    pub fn prepare_namespace(
        &mut self,
        function: ObjRef,
        metaclass: ObjRef,
        meta: Option<ObjRef>,
        name: ObjRef,
        bases: ObjRef,
        kwargs: &Vec<Attr>,
    ) -> (r: Result<ObjRef, Error>)
        ensures
            (final(self)@, r) == old(self)@.prepare_namespace(
                function,
                metaclass,
                meta,
                name,
                bases,
                kwargs.deep_view(),
            ),
            old(self)@.leads_to(final(self)@),
            old(self)@.intact() && old(self)@.has(function) && old(self)@.has(metaclass)
                && old(self)@.has_some(meta) && old(self)@.has(name) && old(self)@.has(bases)
                && old(self)@.values_in(kwargs.deep_view())
                ==> final(self)@.intact() && final(self)@.has_ok(r),
    {
        let made = match self.get_attr(metaclass, PREPARE) {
            None => Ok(self.new_dict()),
            Some(prepare) => {
                let mut positional: Vec<ObjRef> = Vec::new();
                positional.push(name);
                positional.push(bases);
                let args = FuncArgs { args: positional, kwargs: clone_entries(kwargs) };
                assert(args@.args =~= seq![name, bases]);
                self.call(prepare, &args)
            },
        };
        let ns = match made {
            Ok(ns) => ns,
            Err(e) => {
                return Err(e);
            },
        };
        match ArgMapping::read_from_object(self, ns) {
            Ok(_) => {},
            Err(_) => {
                return Err(Error::PrepareNotMapping { meta, class: self.class_of(ns) });
            },
        }
        match self.type_params(function) {
            None => Ok(ns),
            Some(tp) => match self.set_item(ns, DOT_TYPE_PARAMS, tp) {
                Ok(()) => Ok(ns),
                Err(e) => Err(e),
            },
        }
    }

    /// Body execution, and what follows it in the namespace.
    pub fn execute_body(&mut self, function: ObjRef, ns: ObjRef, orig_bases: Option<ObjRef>) -> (r:
        Result<Option<ObjRef>, Error>)
        ensures
            (final(self)@, r) == old(self)@.execute_body(function, ns, orig_bases),
            old(self)@.leads_to(final(self)@),
            old(self)@.intact() && old(self)@.has(function) && old(self)@.has(ns)
                && old(self)@.has_some(orig_bases)
                ==> final(self)@.intact() && (r matches Ok(Some(x)) ==> final(self)@.has(x)),
    {
        let args = FuncArgs { args: Vec::new(), kwargs: Vec::new() };
        let returned = match self.run_function(function, &args, Some(ns)) {
            Ok(returned) => returned,
            Err(e) => {
                return Err(e);
            },
        };
        let cell = match self.payload(returned) {
            Some(Payload::NoneValue) => None,
            Some(Payload::Cell(_)) => Some(returned),
            _ => {
                return Err(Error::NotACell { class: self.class_of(returned) });
            },
        };
        match orig_bases {
            Some(original) => match self.set_item(ns, ORIG_BASES, original) {
                Ok(()) => {},
                Err(e) => {
                    return Err(e);
                },
            },
            None => {},
        }
        let _ = self.del_item(ns, DOT_TYPE_PARAMS);
        Ok(cell)
    }

    /// The check of the class cell once `class` was constructed.
    pub fn verify_class_cell(&self, cell: Option<ObjRef>, meta: Option<ObjRef>, class: ObjRef) -> (r:
        Result<(), Error>)
        ensures
            r == verify_class_cell(self@, cell, meta, class),
    {
        match cell {
            None => Ok(()),
            Some(c) => match self.payload(c) {
                Some(Payload::Cell(Some(found))) => if found.id == class.id {
                    Ok(())
                } else {
                    Err(Error::ClassCellMismatch { found: *found, meta, class })
                },
                _ => Err(Error::ClassCellEmpty { meta, class }),
            },
        }
    }

    /// Type construction and cell verification.
    pub fn finish_class(
        &mut self,
        function: ObjRef,
        metaclass: ObjRef,
        meta: Option<ObjRef>,
        name: ObjRef,
        bases: ObjRef,
        ns: ObjRef,
        kwargs: Vec<Attr>,
        cell: Option<ObjRef>,
    ) -> (r: Result<ObjRef, Error>)
        ensures
            (final(self)@, r) == old(self)@.finish_class(
                function,
                metaclass,
                meta,
                name,
                bases,
                ns,
                kwargs.deep_view(),
                cell,
            ),
            old(self)@.leads_to(final(self)@),
            old(self)@.intact() && old(self)@.has(function) && old(self)@.has(metaclass)
                && old(self)@.has_some(meta) && old(self)@.has(name) && old(self)@.has(bases)
                && old(self)@.has(ns) && old(self)@.values_in(kwargs.deep_view())
                && old(self)@.has_some(cell)
                ==> final(self)@.intact() && final(self)@.has_ok(r),
    {
        let mut positional: Vec<ObjRef> = Vec::new();
        positional.push(name);
        positional.push(bases);
        positional.push(ns);
        let args = FuncArgs { args: positional, kwargs };
        assert(args@.args =~= seq![name, bases, ns]);
        let class = match self.call(metaclass, &args) {
            Ok(class) => class,
            Err(e) => {
                return Err(e);
            },
        };
        match self.verify_class_cell(cell, meta, class) {
            Ok(()) => {},
            Err(e) => {
                return Err(e);
            },
        }
        match self.type_params(function) {
            None => {},
            Some(tp) => {
                self.set_attr(class, TYPE_PARAMS, tp);
                self.set_attr(class, PARAMETERS, tp);
            },
        }
        Ok(class)
    }
}

/// Builds a class: `function` is the class body, `qualified_name` the
/// dotted name of the class (its last segment names the type), `bases` the
/// candidate bases in order and `kwargs` the keyword arguments, of which
/// `metaclass` is taken out. Returns the finished type object, or the first
/// error of any phase.
pub fn __build_class__(
    function: ObjRef,
    qualified_name: &str,
    bases: Vec<ObjRef>,
    kwargs: Vec<Attr>,
    vm: &mut Vm,
) -> (r: Result<ObjRef, Error>)
    ensures
        (final(vm)@, r) == old(vm)@.build_class(
            function,
            qualified_name@,
            bases@,
            kwargs.deep_view(),
        ),
        old(vm)@.leads_to(final(vm)@),
        old(vm)@.intact() && old(vm)@.has(function) && old(vm)@.refs_in(bases@)
            && old(vm)@.values_in(kwargs.deep_view())
            ==> final(vm)@.intact() && final(vm)@.has_ok(r),
{
    let ghost given = kwargs.deep_view();
    let ghost whole = vm@.intact() && vm@.has(function) && vm@.refs_in(bases@) && vm@.values_in(
        given,
    );
    let mut kwargs = kwargs;
    let short = last_segment(qualified_name);
    let name = vm.new_str(short.as_str());
    let (bases_obj, orig_bases) = match vm.resolve_bases(bases) {
        Ok(pair) => pair,
        Err(e) => {
            return Err(e);
        },
    };
    let explicit = lookup_entry(&kwargs, METACLASS);
    unbind_entry(&mut kwargs, METACLASS);
    proof {
        if whole {
            assert(vm@.values_in(given)) by {
                assert(old(vm)@.values_in(given));
            }
            lemma_reads_within(vm@, bases_obj);
            lemma_lookup_within(vm@, given, METACLASS@);
            lemma_unbind_within(vm@, given, METACLASS@);
        }
    }
    let final_bases = vm.elements(bases_obj);
    let (metaclass, meta) = match vm.select_metaclass(explicit, &final_bases) {
        Ok(pair) => pair,
        Err(e) => {
            return Err(e);
        },
    };
    let ns = match vm.prepare_namespace(function, metaclass, meta, name, bases_obj, &kwargs) {
        Ok(ns) => ns,
        Err(e) => {
            return Err(e);
        },
    };
    let cell = match vm.execute_body(function, ns, orig_bases) {
        Ok(cell) => cell,
        Err(e) => {
            return Err(e);
        },
    };
    vm.finish_class(function, metaclass, meta, name, bases_obj, ns, kwargs, cell)
}

} // verus!
