//! `dir`: the names of an object, or of the local namespace, as a sorted
//! list.

use vstd::prelude::*;

use crate::error::Error;
use crate::heap::{Heap, LIST_TYPE, STR_TYPE};
use crate::items::clone_refs;
use crate::object::{ArgsView, Attr, AttrView, FuncArgs, ObjRef, Payload, PayloadView};
use crate::outside::str_eq;
use crate::protocol::TryFromObject;
use crate::scope::Context;
use crate::sequence::{materialize, ArgSequence};
use crate::sorting::{sort_order, sort_prefix};
use crate::vm::Vm;

verus! {

/// The method by which an object lists its names.
pub const DIR: &'static str = "__dir__";

/// Whether the text `a` comes before the text `b`, looking from place `i`
/// on: at the first place where they differ `a` has the smaller character,
/// or `a` ends there and `b` goes on.
pub open spec fn text_before_from(a: Seq<char>, b: Seq<char>, i: int) -> bool
    decreases b.len() - i,
{
    if i < 0 || i >= b.len() {
        false
    } else if i >= a.len() {
        true
    } else if a[i] != b[i] {
        (a[i] as u32) < (b[i] as u32)
    } else {
        text_before_from(a, b, i + 1)
    }
}

/// Whether the text `a` comes before the text `b` in the order of their
/// characters.
pub open spec fn text_before(a: Seq<char>, b: Seq<char>) -> bool {
    text_before_from(a, b, 0)
}

/// Whether the text `a` comes before the text `b`.
pub fn comes_before(a: &str, b: &str) -> (r: bool)
    ensures
        r == text_before(a@, b@),
{
    let n = a.unicode_len();
    let m = b.unicode_len();
    let mut i: usize = 0;
    while i < m
        invariant
            i <= m,
            n == a@.len(),
            m == b@.len(),
            text_before(a@, b@) == text_before_from(a@, b@, i as int),
        decreases m - i,
    {
        if i >= n {
            return true;
        }
        let x = a.get_char(i);
        let y = b.get_char(i);
        if x != y {
            return (x as u32) < (y as u32);
        }
        i += 1;
    }
    false
}

/// What an object is ordered by: the integer or the text that it holds.
pub enum Key {
    Int(i64),
    Text(Seq<char>),
    Other,
}

impl Heap {
    /// What `o` is ordered by.
    pub open spec fn key(self, o: ObjRef) -> Key {
        match self.payload(o) {
            PayloadView::Int(i) => Key::Int(i),
            PayloadView::Str(s) => Key::Text(s),
            _ => Key::Other,
        }
    }

    /// Whether `a` comes before `b`: both hold integers and that of `a` is
    /// smaller, or both hold text and that of `a` comes first.
    pub open spec fn before(self, a: ObjRef, b: ObjRef) -> bool {
        match (self.key(a), self.key(b)) {
            (Key::Int(x), Key::Int(y)) => x < y,
            (Key::Text(x), Key::Text(y)) => text_before(x, y),
            _ => false,
        }
    }

    /// Whether `a` and `b` can be ordered: both hold integers, or both
    /// hold text.
    pub open spec fn ordered(self, a: ObjRef, b: ObjRef) -> bool {
        match (self.key(a), self.key(b)) {
            (Key::Int(_), Key::Int(_)) => true,
            (Key::Text(_), Key::Text(_)) => true,
            _ => false,
        }
    }

    /// The first place from `from` on whose item cannot be ordered with
    /// the item before it, or the number of items where there is none.
    pub open spec fn first_unordered(self, items: Seq<ObjRef>, from: int) -> int
        decreases items.len() - from,
    {
        if from < 1 || from >= items.len() {
            items.len() as int
        } else if !self.ordered(items[from], items[from - 1]) {
            from
        } else {
            self.first_unordered(items, from + 1)
        }
    }

    /// How many of the first `upto` items come before item `i`.
    pub open spec fn count_before(self, items: Seq<ObjRef>, i: int, upto: int) -> int
        decreases upto,
    {
        if upto <= 0 {
            0
        } else {
            self.count_before(items, i, upto - 1) + if self.before(items[upto - 1], items[i]) {
                1int
            } else {
                0int
            }
        }
    }

    /// The rank of each item: how many items come before it.
    pub open spec fn ranks(self, items: Seq<ObjRef>) -> Seq<i64> {
        Seq::new(items.len(), |i: int| self.count_before(items, i, items.len() as int) as i64)
    }

    /// The items in ascending order: ordered by their ranks, so that those
    /// that no item comes before stand first, and items of the same rank
    /// keep the order in which they came.
    pub open spec fn in_order(self, items: Seq<ObjRef>) -> Seq<ObjRef> {
        let order = sort_prefix(self.ranks(items), false, items.len());
        Seq::new(items.len(), |k: int| items[order[k] as int])
    }

    /// A new list of `items` in ascending order. Each item must be of the
    /// kind of the item before it, integer or text: the first that is not
    /// is refused with its type and the type of the item before it.
    pub open spec fn sorted_list(self, items: Seq<ObjRef>) -> (Heap, Result<ObjRef, Error>) {
        let k = self.first_unordered(items, 1);
        if k < items.len() {
            (
                self,
                Err(
                    Error::NotOrdered {
                        left: self.class_of(items[k]),
                        right: self.class_of(items[k - 1]),
                    },
                ),
            )
        } else {
            (
                self.push(Heap::plain(LIST_TYPE, PayloadView::List(self.in_order(items)))),
                Ok(self.next_ref()),
            )
        }
    }
}

/// The names of `entries`, in order.
pub open spec fn entry_names(entries: Seq<AttrView>) -> Seq<Seq<char>> {
    Seq::new(entries.len(), |i: int| entries[i].name)
}

/// The first `n` of `names`, each once: a name that came before is left
/// out.
pub open spec fn without_repeats(names: Seq<Seq<char>>, n: int) -> Seq<Seq<char>>
    decreases n,
{
    if n <= 0 {
        Seq::empty()
    } else {
        let before = without_repeats(names, n - 1);
        if before.contains(names[n - 1]) {
            before
        } else {
            before.push(names[n - 1])
        }
    }
}

impl Heap {
    /// The names of the attributes of the types of `chain`, from place
    /// `from` on.
    pub open spec fn names_along(self, chain: Seq<ObjRef>, from: int) -> Seq<Seq<char>>
        decreases chain.len() - from,
    {
        if from < 0 || from >= chain.len() {
            Seq::empty()
        } else {
            entry_names(self.attrs(chain[from])) + self.names_along(chain, from + 1)
        }
    }

    /// The names under which `obj` has attributes: its own, those of its
    /// ancestors where it is a type, and those of its type and the
    /// ancestors of that. A name may come more than once.
    pub open spec fn attribute_names(self, obj: ObjRef) -> Seq<Seq<char>> {
        entry_names(self.attrs(obj)) + self.names_along(self.mro(obj), 0) + self.names_along(
            self.mro(self.class_of(obj)),
            0,
        )
    }

    /// The arena with a new string object for each of `names[from..]`.
    pub open spec fn with_texts(self, names: Seq<Seq<char>>, from: int) -> Heap
        decreases names.len() - from,
    {
        if from < 0 || from >= names.len() {
            self
        } else {
            self.push(Heap::plain(STR_TYPE, PayloadView::Str(names[from]))).with_texts(
                names,
                from + 1,
            )
        }
    }

    /// The references of the string objects that `with_texts` makes of
    /// `count` names.
    pub open spec fn text_refs(self, count: nat) -> Seq<ObjRef> {
        Seq::new(count, |i: int| ObjRef { id: (self.objects.len() + i) as usize })
    }

    /// A sorted list of new string objects, one for each of `names`.
    pub open spec fn list_of_names(self, names: Seq<Seq<char>>) -> (Heap, Result<ObjRef, Error>) {
        self.with_texts(names, 0).sorted_list(self.text_refs(names.len()))
    }

    /// The names of `obj` as a sorted list. Where the type of `obj` or an
    /// ancestor defines `__dir__`, that method is called on the object, and
    /// the items of what it returns are sorted. Otherwise the names of its
    /// attributes are listed, each once. Without an object, the names of
    /// the local namespace `locals` are listed.
    pub open spec fn dir_of(self, obj: Option<ObjRef>, locals: ObjRef) -> (
        Heap,
        Result<ObjRef, Error>,
    ) {
        match obj {
            None => self.list_of_names(entry_names(self.entries(locals))),
            Some(o) => match self.class_attr(self.class_of(o), DIR@) {
                Some(method) => {
                    let (h, made) = self.call(method, ArgsView::positional(seq![o]));
                    match made {
                        Err(e) => (h, Err(e)),
                        Ok(seq) => {
                            let (h2, items) = materialize::<ObjRef>(h, seq);
                            match items {
                                Err(e) => (h2, Err(e)),
                                Ok(found) => h2.sorted_list(found),
                            }
                        },
                    }
                },
                None => {
                    let all = self.attribute_names(o);
                    self.list_of_names(without_repeats(all, all.len() as int))
                },
            },
        }
    }
}

/// No text comes before itself, whatever place one looks from.
pub proof fn lemma_text_not_before_itself(a: Seq<char>, i: int)
    ensures
        !text_before_from(a, a, i),
    decreases a.len() - i,
{
    if 0 <= i < a.len() {
        lemma_text_not_before_itself(a, i + 1);
    }
}

/// The order of texts passes on: what comes before a text comes before
/// every text that this one comes before.
pub proof fn lemma_text_order_passes_on(a: Seq<char>, b: Seq<char>, c: Seq<char>, i: int)
    requires
        text_before_from(a, b, i),
        text_before_from(b, c, i),
    ensures
        text_before_from(a, c, i),
    decreases c.len() - i,
{
    if i < a.len() && a[i] == b[i] && b[i] == c[i] {
        lemma_text_order_passes_on(a, b, c, i + 1);
    }
}

/// An item that comes before another has the smaller rank: fewer items
/// come before it.
pub proof fn lemma_rank_follows_order(h: Heap, items: Seq<ObjRef>, x: int, y: int, upto: int)
    requires
        0 <= x < items.len(),
        0 <= y < items.len(),
        0 <= upto <= items.len(),
        h.before(items[x], items[y]),
    ensures
        h.count_before(items, x, upto) <= h.count_before(items, y, upto),
        upto > x ==> h.count_before(items, x, upto) < h.count_before(items, y, upto),
        0 <= h.count_before(items, x, upto) <= upto,
        0 <= h.count_before(items, y, upto) <= upto,
    decreases upto,
{
    if upto > 0 {
        lemma_rank_follows_order(h, items, x, y, upto - 1);
        let j = items[upto - 1];
        if h.before(j, items[x]) {
            match (h.key(j), h.key(items[x]), h.key(items[y])) {
                (Key::Text(p), Key::Text(q), Key::Text(r)) => {
                    lemma_text_order_passes_on(p, q, r, 0);
                },
                _ => {},
            }
        }
        if upto - 1 == x {
            match h.key(items[x]) {
                Key::Text(p) => {
                    lemma_text_not_before_itself(p, 0);
                },
                _ => {},
            }
        }
    }
}

/// The sorted items ascend and are the items that were given: the list
/// has each position of the given items once, and no item in it comes
/// before one that stands earlier.
pub proof fn lemma_in_order_ascends(h: Heap, items: Seq<ObjRef>)
    requires
        items.len() <= i64::MAX,
        items.len() <= usize::MAX,
    ensures
        h.in_order(items).len() == items.len(),
        forall|j: int|
            0 <= j < items.len() ==> exists|p: int|
                0 <= p < items.len() && h.in_order(items)[p] == #[trigger] items[j],
        forall|p: int, q: int|
            0 <= p < q < items.len() ==> !h.before(
                #[trigger] h.in_order(items)[q],
                #[trigger] h.in_order(items)[p],
            ),
{
    let n = items.len();
    let ranks = h.ranks(items);
    let order = sort_prefix(ranks, false, n);
    let sorted = h.in_order(items);
    crate::sorting::lemma_sort_is_stable(ranks, false, n);
    assert forall|j: int| 0 <= j < n implies exists|p: int|
        0 <= p < n && sorted[p] == #[trigger] items[j] by {
        assert(crate::sorting::holds(order, j));
        let p = choose|p: int| 0 <= p < order.len() && #[trigger] order[p] == j;
        assert(sorted[p] == items[j]);
    }
    assert forall|p: int, q: int| 0 <= p < q < n implies !h.before(
        #[trigger] sorted[q],
        #[trigger] sorted[p],
    ) by {
        let x = order[q] as int;
        let y = order[p] as int;
        if h.before(items[x], items[y]) {
            lemma_rank_follows_order(h, items, x, y, n as int);
        }
    }
}

/// The texts of strings.
pub open spec fn texts(names: Seq<String>) -> Seq<Seq<char>> {
    Seq::new(names.len(), |i: int| names[i]@)
}

/// The names of `entries`, in order, behind `out`.
fn put_names(out: &mut Vec<String>, entries: &Vec<Attr>)
    ensures
        texts(final(out)@) == texts(old(out)@) + entry_names(entries.deep_view()),
{
    let ghost start = texts(out@);
    let ghost view = entries.deep_view();
    let mut i: usize = 0;
    while i < entries.len()
        invariant
            i <= entries.len(),
            view == entries.deep_view(),
            texts(out@) == start + entry_names(view).subrange(0, i as int),
        decreases entries.len() - i,
    {
        let ghost before = texts(out@);
        out.push(entries[i].name.clone());
        assert(texts(out@) =~= before.push(view[i as int].name));
        i += 1;
    }
}

/// Whether one of `names` is `name`.
fn has_name(names: &Vec<String>, name: &str) -> (r: bool)
    ensures
        r == texts(names@).contains(name@),
{
    let mut i: usize = 0;
    while i < names.len()
        invariant
            i <= names.len(),
            forall|j: int| 0 <= j < i ==> texts(names@)[j] != name@,
        decreases names.len() - i,
    {
        if str_eq(names[i].as_str(), name) {
            assert(texts(names@)[i as int] == name@);
            return true;
        }
        i += 1;
    }
    false
}

/// The names, each once: a name that came before is left out.
pub fn unique(names: &Vec<String>) -> (r: Vec<String>)
    ensures
        texts(r@) == without_repeats(texts(names@), names@.len() as int),
{
    let mut out: Vec<String> = Vec::new();
    let mut i: usize = 0;
    while i < names.len()
        invariant
            i <= names.len(),
            texts(out@) == without_repeats(texts(names@), i as int),
        decreases names.len() - i,
    {
        let ghost before = texts(out@);
        if !has_name(&out, names[i].as_str()) {
            out.push(names[i].clone());
        }
        i += 1;
    }
    out
}

impl Vm {
    /// Whether `a` comes before `b`.
    pub fn before(&self, a: ObjRef, b: ObjRef) -> (r: bool)
        ensures
            r == self@.before(a, b),
    {
        match (self.payload(a), self.payload(b)) {
            (Some(Payload::Int(x)), Some(Payload::Int(y))) => *x < *y,
            (Some(Payload::Str(x)), Some(Payload::Str(y))) => comes_before(x.as_str(), y.as_str()),
            _ => false,
        }
    }

    /// Whether `a` and `b` can be ordered.
    pub fn ordered(&self, a: ObjRef, b: ObjRef) -> (r: bool)
        ensures
            r == self@.ordered(a, b),
    {
        match (self.payload(a), self.payload(b)) {
            (Some(Payload::Int(_)), Some(Payload::Int(_))) => true,
            (Some(Payload::Str(_)), Some(Payload::Str(_))) => true,
            _ => false,
        }
    }

    /// The rank of each item.
    pub fn ranks(&self, items: &Vec<ObjRef>) -> (r: Vec<i64>)
        ensures
            r@ == self@.ranks(items@),
    {
        let mut out: Vec<i64> = Vec::new();
        let mut i: usize = 0;
        while i < items.len()
            invariant
                i <= items.len(),
                out.len() == i,
                forall|k: int|
                    0 <= k < i ==> out@[k] == self@.count_before(
                        items@,
                        k,
                        items@.len() as int,
                    ) as i64,
            decreases items.len() - i,
        {
            let mut count: usize = 0;
            let mut j: usize = 0;
            while j < items.len()
                invariant
                    j <= items.len(),
                    i < items.len(),
                    count <= j,
                    count == self@.count_before(items@, i as int, j as int),
                decreases items.len() - j,
            {
                if self.before(items[j], items[i]) {
                    count += 1;
                }
                j += 1;
            }
            out.push(count as i64);
            i += 1;
        }
        out
    }

    /// A new list of `items` in ascending order.
    pub fn sorted_list(&mut self, items: Vec<ObjRef>) -> (r: Result<ObjRef, Error>)
        ensures
            (final(self)@, r) == old(self)@.sorted_list(items@),
            old(self)@.leads_to(final(self)@),
            old(self)@.intact() && old(self)@.refs_in(items@) ==> final(self)@.intact()
                && final(self)@.has_ok(r),
    {
        let mut k: usize = 1;
        while k < items.len()
            invariant
                1 <= k,
                self@ == old(self)@,
                self@.first_unordered(items@, 1) == self@.first_unordered(items@, k as int),
            decreases items.len() - k,
        {
            if !self.ordered(items[k], items[k - 1]) {
                return Err(
                    Error::NotOrdered {
                        left: self.class_of(items[k]),
                        right: self.class_of(items[k - 1]),
                    },
                );
            }
            k += 1;
        }
        let ranks = self.ranks(&items);
        let order = sort_order(&ranks, false);
        proof {
            crate::sorting::lemma_sort_is_stable(ranks@, false, ranks@.len());
        }
        let mut result: Vec<ObjRef> = Vec::new();
        let mut p: usize = 0;
        while p < order.len()
            invariant
                p <= order.len(),
                order.len() == items.len(),
                forall|q: int| 0 <= q < order.len() ==> (#[trigger] order@[q]) < items.len(),
                result.len() == p,
                forall|q: int| 0 <= q < p ==> result@[q] == items@[order@[q] as int],
                old(self)@.refs_in(items@) ==> old(self)@.refs_in(result@),
            decreases order.len() - p,
        {
            result.push(items[order[p]]);
            p += 1;
        }
        assert(result@ =~= self@.in_order(items@));
        Ok(self.new_list(result))
    }

    /// New string objects, one for each of `names`.
    pub fn new_texts(&mut self, names: &Vec<String>) -> (r: Vec<ObjRef>)
        ensures
            final(self)@ == old(self)@.with_texts(texts(names@), 0),
            r@ == old(self)@.text_refs(names@.len() as nat),
            old(self)@.leads_to(final(self)@),
            old(self)@.intact() ==> final(self)@.intact() && final(self)@.refs_in(r@),
    {
        let ghost all = texts(names@);
        let mut out: Vec<ObjRef> = Vec::new();
        let mut i: usize = 0;
        while i < names.len()
            invariant
                i <= names.len(),
                all == texts(names@),
                out.len() == i,
                self@.objects.len() == old(self)@.objects.len() + i,
                old(self)@.with_texts(all, 0) == self@.with_texts(all, i as int),
                forall|k: int|
                    0 <= k < i ==> out@[k] == (ObjRef {
                        id: (old(self)@.objects.len() + k) as usize,
                    }),
                old(self)@.leads_to(self@),
                old(self)@.intact() ==> self@.intact(),
            decreases names.len() - i,
        {
            let made = self.new_str(names[i].as_str());
            out.push(made);
            i += 1;
        }
        out
    }

    /// The names under which `obj` has attributes.
    pub fn attribute_names(&self, obj: ObjRef) -> (r: Vec<String>)
        ensures
            texts(r@) == self@.attribute_names(obj),
    {
        let mut out: Vec<String> = Vec::new();
        match self.object(obj) {
            Some(o) => {
                put_names(&mut out, &o.attrs);
            },
            None => {},
        }
        self.put_names_along(&mut out, obj);
        self.put_names_along(&mut out, self.class_of(obj));
        out
    }

    /// The names of the attributes of the ancestors of `t`, behind `out`.
    fn put_names_along(&self, out: &mut Vec<String>, t: ObjRef)
        ensures
            texts(final(out)@) == texts(old(out)@) + self@.names_along(self@.mro(t), 0),
    {
        let ghost start = texts(out@);
        let chain: Vec<ObjRef> = match self.type_data(t) {
            Some(td) => clone_refs(&td.mro),
            None => Vec::new(),
        };
        // The names are gathered per ancestor, the nearest first.
        let mut k: usize = 0;
        let ghost mut gathered: Seq<Seq<char>> = Seq::empty();
        while k < chain.len()
            invariant
                k <= chain.len(),
                chain@ == self@.mro(t),
                texts(out@) == start + gathered,
                gathered + self@.names_along(chain@, k as int) == self@.names_along(chain@, 0),
            decreases chain.len() - k,
        {
            match self.object(chain[k]) {
                Some(o) => {
                    put_names(out, &o.attrs);
                },
                None => {},
            }
            proof {
                gathered = gathered + entry_names(self@.attrs(chain@[k as int]));
            }
            k += 1;
        }
    }
}

/// The names of `obj`, or of the local namespace of the running frame
/// where no object is given, as a sorted list.
pub fn dir(obj: Option<ObjRef>, ctx: &Context, vm: &mut Vm) -> (r: Result<ObjRef, Error>)
    ensures
        (final(vm)@, r) == old(vm)@.dir_of(obj, ctx.frame.locals.target()),
        old(vm)@.leads_to(final(vm)@),
        old(vm)@.intact() && old(vm)@.has_some(obj) ==> final(vm)@.intact()
            && final(vm)@.has_ok(r),
{
    let names: Vec<String> = match obj {
        None => {
            let mut names: Vec<String> = Vec::new();
            match vm.payload(ctx.frame.locals.as_object()) {
                Some(Payload::Dict(entries)) => {
                    put_names(&mut names, entries);
                },
                _ => {},
            }
            names
        },
        Some(o) => match vm.class_attr(vm.class_of(o), DIR) {
            Some(method) => {
                let mut positional: Vec<ObjRef> = Vec::new();
                positional.push(o);
                let args = FuncArgs { args: positional, kwargs: Vec::new() };
                assert(args@.kwargs =~= Seq::empty());
                let seq = match vm.call(method, &args) {
                    Ok(seq) => seq,
                    Err(e) => {
                        return Err(e);
                    },
                };
                let items = match ArgSequence::<ObjRef>::try_from_object(vm, seq) {
                    Ok(items) => items.into_vec(),
                    Err(e) => {
                        return Err(e);
                    },
                };
                return vm.sorted_list(items);
            },
            None => {
                let all = vm.attribute_names(o);
                unique(&all)
            },
        },
    };
    let made = vm.new_texts(&names);
    vm.sorted_list(made)
}

} // verus!
