//! The linearization of the ancestors of a class: the merge of the
//! linearizations of its bases that keeps every base before its own
//! ancestors and the bases in the order in which they were written.

use vstd::prelude::*;

use crate::object::ObjRef;

verus! {

/// The layers of a merge as sequences.
pub open spec fn layers_of(layers: Seq<Vec<ObjRef>>) -> Seq<Seq<ObjRef>> {
    Seq::new(layers.len(), |i: int| layers[i]@)
}

/// Whether `x` occurs in `layer` behind its head.
pub open spec fn tail_has(layer: Seq<ObjRef>, x: ObjRef) -> bool {
    exists|k: int| 1 <= k < layer.len() && layer[k] == x
}

/// Whether `x` occurs behind the head of one of the layers.
pub open spec fn in_a_tail(layers: Seq<Seq<ObjRef>>, x: ObjRef) -> bool {
    exists|i: int| 0 <= i < layers.len() && tail_has(#[trigger] layers[i], x)
}

/// Whether `layer` can give the next type: it has a head, and the head
/// occurs in no tail.
pub open spec fn gives_head(layers: Seq<Seq<ObjRef>>, layer: Seq<ObjRef>) -> bool {
    layer.len() > 0 && !in_a_tail(layers, layer[0])
}

/// The head of the first layer from position `from` on that can give the
/// next type.
pub open spec fn next_head(layers: Seq<Seq<ObjRef>>, from: int) -> Option<ObjRef>
    decreases layers.len() - from,
{
    if from < 0 || from >= layers.len() {
        None
    } else if gives_head(layers, layers[from]) {
        Some(layers[from][0])
    } else {
        next_head(layers, from + 1)
    }
}

/// `layer` without its head, where the head is `x`.
pub open spec fn head_off(layer: Seq<ObjRef>, x: ObjRef) -> Seq<ObjRef> {
    if layer.len() > 0 && layer[0] == x {
        layer.drop_first()
    } else {
        layer
    }
}

/// The layers, each without its head where the head is `x`.
pub open spec fn heads_off(layers: Seq<Seq<ObjRef>>, x: ObjRef) -> Seq<Seq<ObjRef>> {
    Seq::new(layers.len(), |i: int| head_off(layers[i], x))
}

/// The number of entries in the layers from position `from` on.
pub open spec fn weight(layers: Seq<Seq<ObjRef>>, from: int) -> nat
    decreases layers.len() - from,
{
    if from < 0 || from >= layers.len() {
        0
    } else {
        layers[from].len() + weight(layers, from + 1)
    }
}

/// Whether no layer has an entry.
pub open spec fn all_empty(layers: Seq<Seq<ObjRef>>) -> bool {
    forall|i: int| 0 <= i < layers.len() ==> (#[trigger] layers[i]).len() == 0
}

/// The merge of the layers: again and again the head of the first layer
/// whose head occurs in no tail is taken, and taken off every layer that it
/// heads. The merge fails where entries are left and no head can be taken.
/// Taking a head off makes the layers lighter (`lemma_heads_off_lighter`);
/// the comparison of the weights says no more than that, and it is what
/// ends the merge.
pub open spec fn merge(layers: Seq<Seq<ObjRef>>) -> Option<Seq<ObjRef>>
    decreases weight(layers, 0),
{
    if all_empty(layers) {
        Some(Seq::empty())
    } else {
        match next_head(layers, 0) {
            None => None,
            Some(x) => if weight(heads_off(layers, x), 0) < weight(layers, 0) {
                match merge(heads_off(layers, x)) {
                    Some(rest) => Some(seq![x] + rest),
                    None => None,
                }
            } else {
                None
            },
        }
    }
}

/// Taking a head off never adds entries, and it removes one from a layer
/// that the head heads.
pub proof fn lemma_heads_off_lighter(layers: Seq<Seq<ObjRef>>, x: ObjRef, from: int)
    requires
        0 <= from <= layers.len(),
    ensures
        weight(heads_off(layers, x), from) <= weight(layers, from),
        (exists|i: int| from <= i < layers.len() && (#[trigger] layers[i]).len() > 0 && layers[i][0]
            == x) ==> weight(heads_off(layers, x), from) < weight(layers, from),
    decreases layers.len() - from,
{
    if from < layers.len() {
        lemma_heads_off_lighter(layers, x, from + 1);
    }
}

/// The head that a merge takes next is the head of a layer.
pub proof fn lemma_next_head_is_a_head(layers: Seq<Seq<ObjRef>>, from: int)
    requires
        0 <= from,
        next_head(layers, from) is Some,
    ensures
        exists|i: int|
            from <= i < layers.len() && (#[trigger] layers[i]).len() > 0 && layers[i][0]
                == next_head(layers, from)->0,
    decreases layers.len() - from,
{
    if from < layers.len() && !gives_head(layers, layers[from]) {
        lemma_next_head_is_a_head(layers, from + 1);
    }
}

/// Whether every entry of every layer lies below `len`.
pub open spec fn layers_below(layers: Seq<Seq<ObjRef>>, len: nat) -> bool {
    forall|i: int, k: int|
        0 <= i < layers.len() && 0 <= k < layers[i].len() ==> (#[trigger] layers[i][k]).id < len
}

/// A merge invents nothing: where every entry of the layers lies below
/// `len`, so does every entry of the merge.
pub proof fn lemma_merge_within(layers: Seq<Seq<ObjRef>>, len: nat)
    requires
        layers_below(layers, len),
    ensures
        merge(layers) matches Some(line) ==> forall|k: int|
            0 <= k < line.len() ==> (#[trigger] line[k]).id < len,
    decreases weight(layers, 0),
{
    if !all_empty(layers) && next_head(layers, 0) is Some {
        let x = next_head(layers, 0)->0;
        let rest = heads_off(layers, x);
        lemma_next_head_is_a_head(layers, 0);
        lemma_heads_off_lighter(layers, x, 0);
        let i = choose|i: int|
            0 <= i < layers.len() && (#[trigger] layers[i]).len() > 0 && layers[i][0] == x;
        assert(layers[i][0].id < len);
        assert forall|j: int, k: int| 0 <= j < rest.len() && 0 <= k < rest[j].len() implies (
        #[trigger] rest[j][k]).id < len by {
            if layers[j].len() > 0 && layers[j][0] == x {
                assert(rest[j][k] == layers[j][k + 1]);
            } else {
                assert(rest[j][k] == layers[j][k]);
            }
        }
        lemma_merge_within(rest, len);
        match merge(rest) {
            Some(tail) => {
                let line = seq![x] + tail;
                assert forall|k: int| 0 <= k < line.len() implies (#[trigger] line[k]).id
                    < len by {
                    if k > 0 {
                        assert(line[k] == tail[k - 1]);
                    }
                }
            },
            None => {},
        }
    }
}

/// One step of the merge, said without the weights: where entries are left
/// and a head can be taken, the merge is that head before the merge of what
/// is left once the head was taken off.
pub proof fn lemma_merge_step(layers: Seq<Seq<ObjRef>>)
    requires
        !all_empty(layers),
        next_head(layers, 0) is Some,
    ensures
        merge(layers) == match merge(heads_off(layers, next_head(layers, 0)->0)) {
            Some(rest) => Some(seq![next_head(layers, 0)->0] + rest),
            None => None,
        },
{
    lemma_next_head_is_a_head(layers, 0);
    lemma_heads_off_lighter(layers, next_head(layers, 0)->0, 0);
}

/// Whether `x` occurs behind the head of one of the layers.
fn occurs_in_a_tail(layers: &Vec<Vec<ObjRef>>, x: ObjRef) -> (r: bool)
    ensures
        r == in_a_tail(layers_of(layers@), x),
{
    let ghost all = layers_of(layers@);
    let mut i: usize = 0;
    while i < layers.len()
        invariant
            i <= layers.len(),
            all == layers_of(layers@),
            forall|j: int| 0 <= j < i ==> !tail_has(#[trigger] all[j], x),
        decreases layers.len() - i,
    {
        let layer = &layers[i];
        let mut k: usize = 1;
        while k < layer.len()
            invariant
                1 <= k,
                k <= layer.len() || layer.len() == 0,
                i < layers.len(),
                all.len() == layers.len(),
                all[i as int] == layer@,
                all == layers_of(layers@),
                forall|m: int| 1 <= m < k ==> layer@[m] != x,
            decreases layer.len() - k,
        {
            if layer[k].id == x.id {
                return true;
            }
            k += 1;
        }
        i += 1;
    }
    false
}

/// The head that the merge takes next.
fn find_head(layers: &Vec<Vec<ObjRef>>) -> (r: Option<ObjRef>)
    ensures
        r == next_head(layers_of(layers@), 0),
{
    let ghost all = layers_of(layers@);
    let mut i: usize = 0;
    while i < layers.len()
        invariant
            i <= layers.len(),
            all == layers_of(layers@),
            next_head(all, 0) == next_head(all, i as int),
        decreases layers.len() - i,
    {
        if layers[i].len() > 0 {
            let head = layers[i][0];
            if !occurs_in_a_tail(layers, head) {
                return Some(head);
            }
        }
        i += 1;
    }
    None
}

/// Whether no layer has an entry.
fn none_left(layers: &Vec<Vec<ObjRef>>) -> (r: bool)
    ensures
        r == all_empty(layers_of(layers@)),
{
    let ghost all = layers_of(layers@);
    let mut i: usize = 0;
    while i < layers.len()
        invariant
            i <= layers.len(),
            all == layers_of(layers@),
            forall|j: int| 0 <= j < i ==> (#[trigger] all[j]).len() == 0,
        decreases layers.len() - i,
    {
        if layers[i].len() > 0 {
            assert(all[i as int].len() > 0);
            return false;
        }
        i += 1;
    }
    true
}

/// Takes `x` off every layer that it heads.
fn take_heads_off(layers: &mut Vec<Vec<ObjRef>>, x: ObjRef)
    ensures
        layers_of(final(layers)@) == heads_off(layers_of(old(layers)@), x),
{
    let ghost before = layers_of(layers@);
    let mut i: usize = 0;
    while i < layers.len()
        invariant
            i <= layers.len(),
            layers.len() == before.len(),
            forall|j: int| 0 <= j < i ==> (#[trigger] layers@[j])@ == head_off(before[j], x),
            forall|j: int| i <= j < layers.len() ==> (#[trigger] layers@[j])@ == before[j],
        decreases layers.len() - i,
    {
        if layers[i].len() > 0 && layers[i][0].id == x.id {
            layers[i].remove(0);
        }
        i += 1;
    }
}

/// Merges the layers; `None` where they cannot be merged.
pub fn merge_layers(layers: Vec<Vec<ObjRef>>) -> (r: Option<Vec<ObjRef>>)
    ensures
        match (r, merge(layers_of(layers@))) {
            (Some(v), Some(s)) => v@ == s,
            (None, None) => true,
            _ => false,
        },
{
    let mut layers = layers;
    let ghost goal = merge(layers_of(layers@));
    let mut out: Vec<ObjRef> = Vec::new();
    let mut outcome: Option<bool> = None;
    while outcome.is_none()
        invariant
            match outcome {
                None => goal == (match merge(layers_of(layers@)) {
                    Some(rest) => Some(out@ + rest),
                    None => None,
                }),
                Some(true) => goal == Some(out@),
                Some(false) => goal is None,
            },
        decreases
            (if outcome is None {
                weight(layers_of(layers@), 0) + 1
            } else {
                0
            }),
    {
        let ghost here = layers_of(layers@);
        if none_left(&layers) {
            outcome = Some(true);
        } else {
            match find_head(&layers) {
                None => {
                    outcome = Some(false);
                },
                Some(x) => {
                    proof {
                        lemma_next_head_is_a_head(here, 0);
                        lemma_heads_off_lighter(here, x, 0);
                    }
                    take_heads_off(&mut layers, x);
                    out.push(x);
                },
            }
        }
    }
    match outcome {
        Some(true) => Some(out),
        _ => None,
    }
}

} // verus!
