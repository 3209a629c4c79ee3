//! Sorting: `sorted`, a stable sort of the items of an iterable by integer
//! keys.

use vstd::prelude::*;

use crate::builtin_laws::int_of;
use crate::error::{Error, Extremum};
use crate::heap::{Heap, LIST_TYPE};
use crate::object::{ObjRef, PayloadView};
use crate::protocol::TryFromObject;
use crate::sequence::{materialize, ArgSequence};
use crate::vm::Vm;

verus! {

/// Whether a value `x` that stands before a value `y` is out of order:
/// greater in an ascending order, smaller in a reversed one.
pub open spec fn spec_out_of_order(x: i64, y: i64, reverse: bool) -> bool {
    if reverse {
        x < y
    } else {
        x > y
    }
}

#[verifier::when_used_as_spec(spec_out_of_order)]
pub fn out_of_order(x: i64, y: i64, reverse: bool) -> (r: bool)
    ensures
        r == spec_out_of_order(x, y, reverse),
{
    if reverse {
        x < y
    } else {
        x > y
    }
}

/// The first place at or after `from` in `order` whose value is out of
/// order before the value at `j`, or the length of `order` where there is
/// none.
pub open spec fn place_of(order: Seq<usize>, values: Seq<i64>, reverse: bool, j: int, from: int)
    -> int
    decreases order.len() - from,
{
    if from < 0 || from >= order.len() {
        order.len() as int
    } else if spec_out_of_order(values[order[from] as int], values[j], reverse) {
        from
    } else {
        place_of(order, values, reverse, j, from + 1)
    }
}

/// The order of the first `n` positions of `values`: each position is put
/// in turn before the first one whose value would be out of order before
/// its own, and behind all others. So equal values keep the order in which
/// they came.
pub open spec fn sort_prefix(values: Seq<i64>, reverse: bool, n: nat) -> Seq<usize>
    decreases n,
{
    if n == 0 {
        Seq::empty()
    } else {
        let before = sort_prefix(values, reverse, (n - 1) as nat);
        before.insert(place_of(before, values, reverse, n - 1, 0), (n - 1) as usize)
    }
}

/// Whether the position `j` stands somewhere in `order`.
pub open spec fn holds(order: Seq<usize>, j: int) -> bool {
    exists|p: int| 0 <= p < order.len() && #[trigger] order[p] == j
}

/// Whether `order` holds the first `n` positions in a stable order: every
/// position below `n` exactly once, no value out of order before a later
/// one, and of two equal values the one that came first before the other.
pub open spec fn stably_ordered(order: Seq<usize>, values: Seq<i64>, reverse: bool, n: nat)
    -> bool {
    &&& order.len() == n
    &&& forall|p: int| 0 <= p < n ==> (#[trigger] order[p]) < n
    &&& forall|j: int| 0 <= j < n ==> #[trigger] holds(order, j)
    &&& forall|p: int, q: int|
        0 <= p < q < n ==> {
            &&& !spec_out_of_order(
                values[(#[trigger] order[p]) as int],
                values[(#[trigger] order[q]) as int],
                reverse,
            )
            &&& values[order[p] as int] == values[order[q] as int] ==> order[p] < order[q]
        }
}

/// The place of a position in an order lies within the order; no value
/// before it is out of order before the value at the position, and the
/// value at the place is.
pub proof fn lemma_place_of(order: Seq<usize>, values: Seq<i64>, reverse: bool, j: int, from: int)
    requires
        0 <= from <= order.len(),
    ensures
        from <= place_of(order, values, reverse, j, from) <= order.len(),
        forall|p: int|
            from <= p < place_of(order, values, reverse, j, from) ==> !spec_out_of_order(
                values[(#[trigger] order[p]) as int],
                values[j],
                reverse,
            ),
        place_of(order, values, reverse, j, from) < order.len() ==> spec_out_of_order(
            values[order[place_of(order, values, reverse, j, from)] as int],
            values[j],
            reverse,
        ),
    decreases order.len() - from,
{
    if from < order.len() && !spec_out_of_order(values[order[from] as int], values[j], reverse) {
        lemma_place_of(order, values, reverse, j, from + 1);
    }
}

/// The sort is a stable sort: the order it gives for the first `n`
/// positions holds each of them once, has no value out of order, and keeps
/// equal values in the order in which they came.
pub proof fn lemma_sort_is_stable(values: Seq<i64>, reverse: bool, n: nat)
    requires
        n <= values.len(),
        n <= usize::MAX,
    ensures
        stably_ordered(sort_prefix(values, reverse, n), values, reverse, n),
    decreases n,
{
    if n > 0 {
        let before = sort_prefix(values, reverse, (n - 1) as nat);
        lemma_sort_is_stable(values, reverse, (n - 1) as nat);
        let j = n - 1;
        let place = place_of(before, values, reverse, j, 0);
        lemma_place_of(before, values, reverse, j, 0);
        let after = before.insert(place, j as usize);
        assert forall|i: int| 0 <= i < n implies #[trigger] holds(after, i) by {
            if i == j {
                assert(after[place] == j);
            } else {
                assert(holds(before, i));
                let p = choose|p: int| 0 <= p < before.len() && #[trigger] before[p] == i;
                if p < place {
                    assert(after[p] == i);
                } else {
                    assert(after[p + 1] == i);
                }
            }
        }
        assert forall|p: int, q: int| 0 <= p < q < n implies {
            &&& !spec_out_of_order(
                values[(#[trigger] after[p]) as int],
                values[(#[trigger] after[q]) as int],
                reverse,
            )
            &&& values[after[p] as int] == values[after[q] as int] ==> after[p] < after[q]
        } by {}
    }
}

/// The stable order of the positions of `values`.
pub fn sort_order(values: &Vec<i64>, reverse: bool) -> (r: Vec<usize>)
    ensures
        r@ == sort_prefix(values@, reverse, values@.len()),
{
    let mut order: Vec<usize> = Vec::new();
    let mut j: usize = 0;
    while j < values.len()
        invariant
            j <= values.len(),
            order@ == sort_prefix(values@, reverse, j as nat),
        decreases values.len() - j,
    {
        proof {
            lemma_sort_is_stable(values@, reverse, j as nat);
        }
        let mut place: usize = 0;
        let mut found = false;
        while place < order.len() && !found
            invariant
                j < values.len(),
                place <= order.len(),
                order.len() == j,
                forall|p: int| 0 <= p < order.len() ==> (#[trigger] order@[p]) < j,
                place_of(order@, values@, reverse, j as int, 0) == place_of(
                    order@,
                    values@,
                    reverse,
                    j as int,
                    place as int,
                ),
                found ==> place < order.len() && spec_out_of_order(
                    values@[order@[place as int] as int],
                    values@[j as int],
                    reverse,
                ),
            decreases order.len() - place + (if found { 0int } else { 1int }),
        {
            if out_of_order(values[order[place]], values[j], reverse) {
                found = true;
            } else {
                place += 1;
            }
        }
        order.insert(place, j);
        j += 1;
    }
    order
}

impl Heap {
    /// The keys of `items[from..]`, in order: each item itself, or what the
    /// key function returns for it.
    pub open spec fn keys_of(self, key: Option<ObjRef>, items: Seq<ObjRef>, from: int) -> (
        Heap,
        Result<Seq<ObjRef>, Error>,
    )
        decreases items.len() - from,
    {
        if from < 0 || from >= items.len() {
            (self, Ok(Seq::empty()))
        } else {
            let (h, r) = self.key_of(key, items[from]);
            match r {
                Err(e) => (h, Err(e)),
                Ok(k) => {
                    let (h2, rest) = h.keys_of(key, items, from + 1);
                    (
                        h2,
                        match rest {
                            Ok(more) => Ok(seq![k] + more),
                            Err(e) => Err(e),
                        },
                    )
                },
            }
        }
    }

    /// Whether each of `keys[from..]` can be compared with the key before
    /// it: both hold integers. The first pair that cannot is the error.
    pub open spec fn comparable(self, keys: Seq<ObjRef>, from: int) -> Result<(), Error>
        decreases keys.len() - from,
    {
        if from < 1 || from >= keys.len() {
            Ok(())
        } else {
            match self.prefers(Extremum::Min, keys[from], keys[from - 1]) {
                Err(e) => Err(e),
                Ok(_) => self.comparable(keys, from + 1),
            }
        }
    }

    /// A new list of the items of `iterable`, sorted by their keys, which
    /// must be integers: ascending, or descending where `reverse` is set,
    /// and with items of equal keys in the order in which they came.
    pub open spec fn sorted_of(self, iterable: ObjRef, opts: SortOptions) -> (
        Heap,
        Result<ObjRef, Error>,
    ) {
        let (h, r) = materialize::<ObjRef>(self, iterable);
        match r {
            Err(e) => (h, Err(e)),
            Ok(items) => {
                let (h1, made) = h.keys_of(h.effective_key(opts.key), items, 0);
                match made {
                    Err(e) => (h1, Err(e)),
                    Ok(keys) => match h1.comparable(keys, 1) {
                        Err(e) => (h1, Err(e)),
                        Ok(()) => {
                            let values = Seq::new(keys.len(), |i: int| int_of(h1, keys[i]));
                            let order = sort_prefix(values, opts.reverse, keys.len());
                            (
                                h1.push(
                                    Heap::plain(
                                        LIST_TYPE,
                                        PayloadView::List(
                                            Seq::new(
                                                order.len(),
                                                |k: int| items[order[k] as int],
                                            ),
                                        ),
                                    ),
                                ),
                                Ok(h1.next_ref()),
                            )
                        },
                    },
                }
            },
        }
    }
}

/// The options of a sort.
#[derive(Clone, Copy, Debug)]
pub struct SortOptions {
    /// The function that gives the key of an item; the items themselves
    /// are the keys where it is `None` or the `None` object.
    pub key: Option<ObjRef>,
    /// Whether the order is descending.
    pub reverse: bool,
}

impl Vm {
    /// The keys of `items`, in order.
    pub fn keys_of(&mut self, key: Option<ObjRef>, items: &Vec<ObjRef>) -> (r: Result<
        Vec<ObjRef>,
        Error,
    >)
        ensures
            final(self)@ == old(self)@.keys_of(key, items@, 0).0,
            crate::sequence::agrees(r, old(self)@.keys_of(key, items@, 0).1),
            old(self)@.leads_to(final(self)@),
            old(self)@.intact() && old(self)@.has_some(key) && old(self)@.refs_in(items@)
                ==> final(self)@.intact() && (r matches Ok(v) ==> final(self)@.refs_in(v@)),
    {
        let ghost goal = self@.keys_of(key, items@, 0);
        let mut keys: Vec<ObjRef> = Vec::new();
        let mut i: usize = 0;
        while i < items.len()
            invariant
                old(self)@.leads_to(self@),
                i <= items.len(),
                goal == old(self)@.keys_of(key, items@, 0),
                goal.0 == self@.keys_of(key, items@, i as int).0,
                goal.1 == crate::sequence::prepend(
                    keys@,
                    self@.keys_of(key, items@, i as int).1,
                ),
                old(self)@.intact() && old(self)@.has_some(key) && old(self)@.refs_in(items@)
                    ==> self@.intact() && self@.refs_in(keys@),
            decreases items.len() - i,
        {
            let ghost before = keys@;
            assert(old(self)@.refs_in(items@) ==> old(self)@.has(items@[i as int]));
            match self.key_of(key, items[i]) {
                Ok(k) => {
                    keys.push(k);
                    proof {
                        let rest = self@.keys_of(key, items@, i + 1).1;
                        if rest is Ok {
                            assert(before + (seq![k] + rest->Ok_0) =~= keys@ + rest->Ok_0);
                        }
                    }
                },
                Err(e) => {
                    return Err(e);
                },
            }
            i += 1;
        }
        Ok(keys)
    }

    /// The integers that the keys hold, where each can be compared with
    /// the key before it.
    pub fn key_values(&self, keys: &Vec<ObjRef>) -> (r: Result<Vec<i64>, Error>)
        ensures
            match r {
                Ok(values) => self@.comparable(keys@, 1) is Ok && values@.len() == keys@.len() && (
                keys@.len() > 1 ==> values@ == Seq::new(
                    keys@.len(),
                    |i: int| int_of(self@, keys@[i]),
                )),
                Err(e) => self@.comparable(keys@, 1) == Err::<(), Error>(e),
            },
    {
        let mut values: Vec<i64> = Vec::new();
        if keys.len() == 0 {
            return Ok(values);
        }
        values.push(
            match self.integer(keys[0]) {
                Ok(v) => v,
                Err(_) => 0,
            },
        );
        let mut i: usize = 1;
        while i < keys.len()
            invariant
                1 <= i <= keys.len(),
                values.len() == i,
                self@.comparable(keys@, 1) == self@.comparable(keys@, i as int),
                self@.integer(keys@[0]) is Ok ==> self@.integer(keys@[0]) == Ok::<i64, Error>(
                    values@[0],
                ),
                i > 1 ==> forall|k: int|
                    0 <= k < i ==> self@.integer(keys@[k]) == Ok::<i64, Error>(
                        #[trigger] values@[k],
                    ),
            decreases keys.len() - i,
        {
            match self.prefers(Extremum::Min, keys[i], keys[i - 1]) {
                Err(e) => {
                    return Err(e);
                },
                Ok(_) => {},
            }
            let v = match self.integer(keys[i]) {
                Ok(v) => v,
                Err(_) => 0,
            };
            values.push(v);
            i += 1;
        }
        Ok(values)
    }
}

/// A new list of the items of `iterable` in sorted order.
pub fn sorted(iterable: ObjRef, opts: SortOptions, vm: &mut Vm) -> (r: Result<ObjRef, Error>)
    ensures
        (final(vm)@, r) == old(vm)@.sorted_of(iterable, opts),
        old(vm)@.leads_to(final(vm)@),
        old(vm)@.intact() && old(vm)@.has(iterable) && old(vm)@.has_some(opts.key)
            ==> final(vm)@.intact() && final(vm)@.has_ok(r),
{
    let ghost whole = vm@.intact() && vm@.has(iterable) && vm@.has_some(opts.key);
    let items = match ArgSequence::<ObjRef>::try_from_object(vm, iterable) {
        Ok(sequence) => sequence.into_vec(),
        Err(e) => {
            return Err(e);
        },
    };
    let key = match opts.key {
        Some(k) => if vm.is_none(k) {
            None
        } else {
            Some(k)
        },
        None => None,
    };
    let ghost unkeyed = vm@;
    assert(whole ==> vm@.intact() && vm@.refs_in(items@) && vm@.has_some(key));
    let keys = match vm.keys_of(key, &items) {
        Ok(keys) => keys,
        Err(e) => {
            return Err(e);
        },
    };
    proof {
        lemma_keys_count(unkeyed, key, items@, 0);
    }
    let values = match vm.key_values(&keys) {
        Ok(values) => values,
        Err(e) => {
            return Err(e);
        },
    };
    let ghost spec_values = Seq::new(keys@.len(), |i: int| int_of(vm@, keys@[i]));
    proof {
        lemma_short_sorts(values@, spec_values, opts.reverse);
        lemma_sort_is_stable(spec_values, opts.reverse, keys@.len());
    }
    let order = sort_order(&values, opts.reverse);
    let mut result: Vec<ObjRef> = Vec::new();
    let mut k: usize = 0;
    while k < order.len()
        invariant
            old(vm)@.leads_to(vm@),
            k <= order.len(),
            order.len() == items.len(),
            forall|p: int| 0 <= p < order.len() ==> (#[trigger] order@[p]) < items.len(),
            result.len() == k,
            forall|p: int| 0 <= p < k ==> result@[p] == items@[order@[p] as int],
            unkeyed.refs_in(items@) ==> unkeyed.refs_in(result@),
        decreases order.len() - k,
    {
        assert(unkeyed.refs_in(items@) ==> unkeyed.has(items@[order@[k as int] as int]));
        result.push(items[order[k]]);
        k += 1;
    }
    assert(result@ =~= Seq::new(order@.len(), |k: int| items@[order@[k] as int]));
    Ok(vm.new_list(result))
}

/// There are as many keys as items.
pub proof fn lemma_keys_count(h: Heap, key: Option<ObjRef>, items: Seq<ObjRef>, from: int)
    requires
        0 <= from <= items.len(),
    ensures
        h.keys_of(key, items, from).1 matches Ok(keys) ==> keys.len() == items.len() - from,
    decreases items.len() - from,
{
    if from < items.len() {
        let (h1, r) = h.key_of(key, items[from]);
        if r is Ok {
            lemma_keys_count(h1, key, items, from + 1);
        }
    }
}

/// The order of at most one value does not depend on the value.
pub proof fn lemma_short_sorts(a: Seq<i64>, b: Seq<i64>, reverse: bool)
    requires
        a.len() == b.len(),
        a.len() > 1 ==> a == b,
    ensures
        sort_prefix(a, reverse, a.len()) == sort_prefix(b, reverse, b.len()),
{
    if a.len() == 1 {
        assert(sort_prefix(a, reverse, 0) == sort_prefix(b, reverse, 0));
    }
}

} // verus!
