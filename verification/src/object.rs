//! Values of the interpreter.
use vstd::prelude::*;

use crate::host::Host;

verus! {

/// A value of the interpreter, as far as the bindings look into it.
pub enum MontyObject<H: Host> {
    Dataclass(H::Dataclass),
    List(Vec<MontyObject<H>>),
    Tuple(Vec<MontyObject<H>>),
    Dict(Vec<(MontyObject<H>, MontyObject<H>)>),
    Other(H::Leaf),
}

/// Whether `obj` is a dataclass instance or a list, a tuple or a dictionary
/// that holds one at any depth.
pub open spec fn has_dataclass<H: Host>(obj: MontyObject<H>) -> bool
    decreases obj,
{
    match obj {
        MontyObject::Dataclass(_) => true,
        MontyObject::List(items) => exists|i: int|
            0 <= i < items@.len() && has_dataclass(#[trigger] items@[i]),
        MontyObject::Tuple(items) => exists|i: int|
            0 <= i < items@.len() && has_dataclass(#[trigger] items@[i]),
        MontyObject::Dict(pairs) => exists|i: int|
            0 <= i < pairs@.len() && (has_dataclass((#[trigger] pairs@[i]).0) || has_dataclass(
                pairs@[i].1,
            )),
        MontyObject::Other(_) => false,
    }
}

/// Whether one of `items` is or holds a dataclass instance.
pub open spec fn any_has_dataclass<H: Host>(items: Seq<MontyObject<H>>) -> bool {
    exists|i: int| 0 <= i < items.len() && has_dataclass(#[trigger] items[i])
}

/// Whether a key or a value of `pairs` is or holds a dataclass instance.
pub open spec fn any_pair_has_dataclass<H: Host>(
    pairs: Seq<(MontyObject<H>, MontyObject<H>)>,
) -> bool {
    exists|i: int|
        0 <= i < pairs.len() && (has_dataclass((#[trigger] pairs[i]).0) || has_dataclass(
            pairs[i].1,
        ))
}

/// Checks whether a value contains a dataclass instance, also inside of
/// containers.
pub fn contains_dataclass<H: Host>(obj: &MontyObject<H>) -> (found: bool)
    ensures
        found == has_dataclass(*obj),
    decreases obj,
{
    match obj {
        MontyObject::Dataclass(_) => true,
        MontyObject::List(items) => any_contains_dataclass(items),
        MontyObject::Tuple(items) => any_contains_dataclass(items),
        MontyObject::Dict(pairs) => any_pair_contains_dataclass(pairs),
        MontyObject::Other(_) => false,
    }
}

/// Checks whether one of `items` contains a dataclass instance.
pub fn any_contains_dataclass<H: Host>(items: &Vec<MontyObject<H>>) -> (found: bool)
    ensures
        found == any_has_dataclass(items@),
    decreases items,
{
    let mut i: usize = 0;
    while i < items.len()
        invariant
            i <= items.len(),
            forall|j: int| 0 <= j < i ==> !has_dataclass(#[trigger] items@[j]),
        decreases items.len() - i,
    {
        if contains_dataclass(&items[i]) {
            return true;
        }
        i = i + 1;
    }
    false
}

/// Checks whether a key or a value of `pairs` contains a dataclass instance.
pub fn any_pair_contains_dataclass<H: Host>(pairs: &Vec<(MontyObject<H>, MontyObject<H>)>) -> (found:
    bool)
    ensures
        found == any_pair_has_dataclass(pairs@),
    decreases pairs,
{
    let mut i: usize = 0;
    while i < pairs.len()
        invariant
            i <= pairs.len(),
            forall|j: int|
                0 <= j < i ==> !has_dataclass((#[trigger] pairs@[j]).0) && !has_dataclass(
                    pairs@[j].1,
                ),
        decreases pairs.len() - i,
    {
        let pair = &pairs[i];
        assert(decreases_to!(pairs => pairs@[i as int]));
        if contains_dataclass(&pair.0) || contains_dataclass(&pair.1) {
            return true;
        }
        i = i + 1;
    }
    false
}

/// A dataclass instance is found at any depth: a container holds one if and
/// only if one of its items, keys or values is or holds one.
pub proof fn nested_dataclass_is_found<H: Host>(obj: MontyObject<H>)
    ensures
        obj matches MontyObject::List(items) ==> has_dataclass(obj) == any_has_dataclass(items@),
        obj matches MontyObject::Tuple(items) ==> has_dataclass(obj) == any_has_dataclass(items@),
        obj matches MontyObject::Dict(pairs) ==> has_dataclass(obj) == any_pair_has_dataclass(
            pairs@,
        ),
{
}

/// A dataclass instance is one, and a value that is neither one nor a container
/// holds none. Of a list, a tuple or a dictionary each item, key and value
/// counts, wherever it stands, and nothing else does.
pub proof fn every_item_counts<H: Host>(
    instance: H::Dataclass,
    leaf: H::Leaf,
    items: Seq<MontyObject<H>>,
    item: MontyObject<H>,
    pairs: Seq<(MontyObject<H>, MontyObject<H>)>,
    pair: (MontyObject<H>, MontyObject<H>),
)
    ensures
        has_dataclass(MontyObject::<H>::Dataclass(instance)),
        !has_dataclass(MontyObject::<H>::Other(leaf)),
        !any_has_dataclass::<H>(seq![]),
        any_has_dataclass(items.push(item)) == (any_has_dataclass(items) || has_dataclass(item)),
        !any_pair_has_dataclass::<H>(seq![]),
        any_pair_has_dataclass(pairs.push(pair)) == (any_pair_has_dataclass(pairs)
            || has_dataclass(pair.0) || has_dataclass(pair.1)),
{
    let more = items.push(item);
    if any_has_dataclass(items) {
        let i = choose|i: int| 0 <= i < items.len() && has_dataclass(#[trigger] items[i]);
        assert(has_dataclass(more[i]));
    }
    if has_dataclass(item) {
        assert(has_dataclass(more[items.len() as int]));
    }
    if any_has_dataclass(more) {
        let i = choose|i: int| 0 <= i < more.len() && has_dataclass(#[trigger] more[i]);
        if i < items.len() {
            assert(has_dataclass(items[i]));
        }
    }
    let more = pairs.push(pair);
    if any_pair_has_dataclass(pairs) {
        let i = choose|i: int|
            0 <= i < pairs.len() && (has_dataclass((#[trigger] pairs[i]).0) || has_dataclass(
                pairs[i].1,
            ));
        assert(more[i] == pairs[i]);
    }
    if has_dataclass(pair.0) || has_dataclass(pair.1) {
        assert(more[pairs.len() as int] == pair);
    }
    if any_pair_has_dataclass(more) {
        let i = choose|i: int|
            0 <= i < more.len() && (has_dataclass((#[trigger] more[i]).0) || has_dataclass(
                more[i].1,
            ));
        if i < pairs.len() {
            assert(more[i] == pairs[i]);
        }
    }
}

} // verus!
