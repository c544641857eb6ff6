//! Alphabetical order of texts, and a stable sort by rank and name.

use vstd::prelude::*;

verus! {

/// Whether the text `a` stands before the text `b`, or is the same text, in
/// the order of dictionaries: the first character in which they differ
/// decides, by its code point, and a text stands before every longer text
/// that begins with it. This is the order in which the standard library
/// compares strings.
pub open spec fn text_le(a: Seq<char>, b: Seq<char>) -> bool
    decreases a.len(),
{
    if a.len() == 0 {
        true
    } else if b.len() == 0 {
        false
    } else if (a[0] as u32) < (b[0] as u32) {
        true
    } else if (a[0] as u32) > (b[0] as u32) {
        false
    } else {
        text_le(a.skip(1), b.skip(1))
    }
}

/// Of two texts one stands before or with the other.
pub proof fn lemma_text_le_total(a: Seq<char>, b: Seq<char>)
    ensures
        text_le(a, b) || text_le(b, a),
    decreases a.len(),
{
    if a.len() > 0 && b.len() > 0 && a[0] as u32 == b[0] as u32 {
        lemma_text_le_total(a.skip(1), b.skip(1));
    }
}

/// The order of texts is transitive.
pub proof fn lemma_text_le_transitive(a: Seq<char>, b: Seq<char>, c: Seq<char>)
    requires
        text_le(a, b),
        text_le(b, c),
    ensures
        text_le(a, c),
    decreases a.len(),
{
    if a.len() > 0 && b.len() > 0 && c.len() > 0 && a[0] as u32 == b[0] as u32 && b[0] as u32
        == c[0] as u32 {
        lemma_text_le_transitive(a.skip(1), b.skip(1), c.skip(1));
    }
}

/// Whether the text `a` stands before or with the text `b`.
pub fn text_at_most(a: &Vec<char>, b: &Vec<char>) -> (r: bool)
    ensures
        r == text_le(a@, b@),
{
    let mut i: usize = 0;
    assert(a@.skip(0) =~= a@);
    assert(b@.skip(0) =~= b@);
    while i < a.len() && i < b.len() && a[i] as u32 == b[i] as u32
        invariant
            i <= a.len(),
            i <= b.len(),
            text_le(a@, b@) == text_le(a@.skip(i as int), b@.skip(i as int)),
        decreases a.len() - i,
    {
        assert(a@.skip(i as int).skip(1) =~= a@.skip(i + 1));
        assert(b@.skip(i as int).skip(1) =~= b@.skip(i + 1));
        i = i + 1;
    }
    if i >= a.len() {
        true
    } else if i >= b.len() {
        false
    } else {
        (a[i] as u32) < (b[i] as u32)
    }
}

/// What items are sorted by: first the rank, the lower the earlier, then the
/// name, in the order of texts, an item without a name before those with
/// one.
#[derive(Debug)]
pub struct SortKey {
    pub rank: i64,
    pub name: Option<Vec<char>>,
}

/// A sort key as a mathematical value.
pub struct KeyModel {
    pub rank: i64,
    pub name: Option<Seq<char>>,
}

impl View for SortKey {
    type V = KeyModel;

    open spec fn view(&self) -> KeyModel {
        KeyModel {
            rank: self.rank,
            name: match self.name {
                Some(name) => Some(name@),
                None => None,
            },
        }
    }
}

/// Whether the name `a` stands before or with the name `b`.
pub open spec fn name_le(a: Option<Seq<char>>, b: Option<Seq<char>>) -> bool {
    match (a, b) {
        (None, _) => true,
        (Some(_), None) => false,
        (Some(first), Some(second)) => text_le(first, second),
    }
}

/// Whether an item with the key `a` may stand before one with the key `b`.
pub open spec fn key_le(a: KeyModel, b: KeyModel) -> bool {
    a.rank < b.rank || (a.rank == b.rank && name_le(a.name, b.name))
}

/// Of two keys one may stand before the other.
pub proof fn lemma_key_le_total(a: KeyModel, b: KeyModel)
    ensures
        key_le(a, b) || key_le(b, a),
{
    if a.name is Some && b.name is Some {
        lemma_text_le_total(a.name->0, b.name->0);
    }
}

/// The order of keys is transitive.
pub proof fn lemma_key_le_transitive(a: KeyModel, b: KeyModel, c: KeyModel)
    requires
        key_le(a, b),
        key_le(b, c),
    ensures
        key_le(a, c),
{
    if a.rank == b.rank && b.rank == c.rank && a.name is Some && b.name is Some
        && c.name is Some {
        lemma_text_le_transitive(a.name->0, b.name->0, c.name->0);
    }
}

/// Whether an item with the key `a` may stand before one with the key `b`.
pub fn key_at_most(a: &SortKey, b: &SortKey) -> (r: bool)
    ensures
        r == key_le(a@, b@),
{
    if a.rank != b.rank {
        a.rank < b.rank
    } else {
        match &a.name {
            None => true,
            Some(first) => match &b.name {
                None => false,
                Some(second) => text_at_most(first, second),
            },
        }
    }
}

/// Keyed items as mathematical values: each key by its view.
pub open spec fn keyed<T>(items: Seq<(SortKey, T)>) -> Seq<(KeyModel, T)> {
    Seq::new(items.len(), |i: int| (items[i].0@, items[i].1))
}

/// Keyed items with each payload replaced by what `f` makes of it.
pub open spec fn relabelled<T, U>(items: Seq<(KeyModel, T)>, f: spec_fn(T) -> U) -> Seq<
    (KeyModel, U),
> {
    Seq::new(items.len(), |i: int| (items[i].0, f(items[i].1)))
}

/// The payloads of keyed items.
pub open spec fn payloads<T>(items: Seq<(KeyModel, T)>) -> Seq<T> {
    Seq::new(items.len(), |i: int| items[i].1)
}

/// Whether each item may stand before all that follow it.
pub open spec fn in_order<T>(items: Seq<(KeyModel, T)>) -> bool {
    forall|i: int, j: int| 0 <= i < j < items.len() ==> key_le(items[i].0, items[j].0)
}

/// The sequence `sorted` with `item` put behind the last item that may
/// stand before it.
pub open spec fn placed<T>(sorted: Seq<(KeyModel, T)>, item: (KeyModel, T)) -> Seq<
    (KeyModel, T),
>
    decreases sorted.len(),
{
    if sorted.len() == 0 {
        seq![item]
    } else if key_le(sorted.last().0, item.0) {
        sorted.push(item)
    } else {
        placed(sorted.drop_last(), item).push(sorted.last())
    }
}

/// The items in the order of their keys. Items whose keys are the same stay
/// in the order in which they came.
pub open spec fn arranged<T>(items: Seq<(KeyModel, T)>) -> Seq<(KeyModel, T)>
    decreases items.len(),
{
    if items.len() == 0 {
        Seq::empty()
    } else {
        placed(arranged(items.drop_last()), items.last())
    }
}

/// Where [`placed`] puts an item: behind the item at `at - 1`, which may
/// stand before it, and before all items from `at` on, which may not.
pub proof fn lemma_placed_at<T>(sorted: Seq<(KeyModel, T)>, item: (KeyModel, T), at: int)
    requires
        0 <= at <= sorted.len(),
        at > 0 ==> key_le(sorted[at - 1].0, item.0),
        forall|k: int| at <= k < sorted.len() ==> !key_le(#[trigger] sorted[k].0, item.0),
    ensures
        placed(sorted, item) == sorted.insert(at, item),
    decreases sorted.len(),
{
    if sorted.len() == 0 {
        assert(sorted.insert(at, item) =~= seq![item]);
    } else if at == sorted.len() {
        assert(sorted.insert(at, item) =~= sorted.push(item));
    } else {
        assert(!key_le(sorted[sorted.len() - 1].0, item.0));
        lemma_placed_at(sorted.drop_last(), item, at);
        assert(sorted.drop_last().insert(at, item).push(sorted.last()) =~= sorted.insert(
            at,
            item,
        ));
    }
}

/// Placing an item keeps every item and adds the new one.
pub proof fn lemma_placed_keeps_items<T>(sorted: Seq<(KeyModel, T)>, item: (KeyModel, T))
    ensures
        placed(sorted, item).to_multiset() == sorted.to_multiset().insert(item),
        placed(sorted, item).len() == sorted.len() + 1,
    decreases sorted.len(),
{
    broadcast use vstd::seq_lib::group_to_multiset_ensures;

    if sorted.len() == 0 {
        assert(seq![item] =~= Seq::<(KeyModel, T)>::empty().push(item));
        assert(sorted =~= Seq::<(KeyModel, T)>::empty());
    } else if key_le(sorted.last().0, item.0) {
    } else {
        lemma_placed_keeps_items(sorted.drop_last(), item);
        assert(sorted =~= sorted.drop_last().push(sorted.last()));
        assert(placed(sorted, item).to_multiset() =~= sorted.to_multiset().insert(item));
    }
}

/// Each item of a sequence with an item placed in it is that item or one of
/// the sequence.
pub proof fn lemma_placed_member<T>(sorted: Seq<(KeyModel, T)>, item: (KeyModel, T), k: int)
    requires
        0 <= k < placed(sorted, item).len(),
    ensures
        placed(sorted, item)[k] == item || exists|m: int|
            0 <= m < sorted.len() && sorted[m] == placed(sorted, item)[k],
    decreases sorted.len(),
{
    lemma_placed_keeps_items(sorted, item);
    if sorted.len() == 0 {
    } else if key_le(sorted.last().0, item.0) {
        if k < sorted.len() {
            assert(sorted[k] == placed(sorted, item)[k]);
        }
    } else {
        lemma_placed_keeps_items(sorted.drop_last(), item);
        if k == placed(sorted, item).len() - 1 {
            assert(sorted[sorted.len() - 1] == placed(sorted, item)[k]);
        } else {
            lemma_placed_member(sorted.drop_last(), item, k);
            if placed(sorted.drop_last(), item)[k] != item {
                let m = choose|m: int|
                    0 <= m < sorted.drop_last().len() && sorted.drop_last()[m] == placed(
                        sorted.drop_last(),
                        item,
                    )[k];
                assert(sorted[m] == placed(sorted, item)[k]);
            }
        }
    }
}

/// Placing an item in a sequence that is in order leaves it in order.
pub proof fn lemma_placed_in_order<T>(sorted: Seq<(KeyModel, T)>, item: (KeyModel, T))
    requires
        in_order(sorted),
    ensures
        in_order(placed(sorted, item)),
    decreases sorted.len(),
{
    let out = placed(sorted, item);
    if sorted.len() == 0 {
    } else if key_le(sorted.last().0, item.0) {
        assert forall|i: int, j: int| 0 <= i < j < out.len() implies key_le(
            out[i].0,
            out[j].0,
        ) by {
            if j == sorted.len() {
                if i < sorted.len() - 1 {
                    assert(key_le(sorted[i].0, sorted[sorted.len() - 1].0));
                    lemma_key_le_transitive(sorted[i].0, sorted.last().0, item.0);
                }
            } else {
                assert(key_le(sorted[i].0, sorted[j].0));
            }
        }
    } else {
        let shorter = sorted.drop_last();
        assert forall|i: int, j: int| 0 <= i < j < shorter.len() implies key_le(
            shorter[i].0,
            shorter[j].0,
        ) by {
            assert(key_le(sorted[i].0, sorted[j].0));
        }
        lemma_placed_in_order(shorter, item);
        lemma_placed_keeps_items(shorter, item);
        let inner = placed(shorter, item);
        lemma_key_le_total(sorted.last().0, item.0);
        assert forall|k: int| 0 <= k < inner.len() implies key_le(
            #[trigger] inner[k].0,
            sorted.last().0,
        ) by {
            lemma_placed_member(shorter, item, k);
            if inner[k] == item {
            } else {
                let m = choose|m: int| 0 <= m < shorter.len() && shorter[m] == inner[k];
                assert(key_le(sorted[m].0, sorted[sorted.len() - 1].0));
            }
        }
        assert forall|i: int, j: int| 0 <= i < j < out.len() implies key_le(
            out[i].0,
            out[j].0,
        ) by {
            if j == out.len() - 1 {
                assert(out[i] == inner[i]);
            } else {
                assert(key_le(inner[i].0, inner[j].0));
            }
        }
    }
}

/// What [`arranged`] hands back is in order and holds the items that it was
/// given, each as often as it was given.
pub proof fn law_arranged_is_sorted<T>(items: Seq<(KeyModel, T)>)
    ensures
        in_order(arranged(items)),
        arranged(items).to_multiset() == items.to_multiset(),
        arranged(items).len() == items.len(),
    decreases items.len(),
{
    broadcast use vstd::seq_lib::group_to_multiset_ensures;

    if items.len() == 0 {
    } else {
        law_arranged_is_sorted(items.drop_last());
        lemma_placed_in_order(arranged(items.drop_last()), items.last());
        lemma_placed_keeps_items(arranged(items.drop_last()), items.last());
        assert(items =~= items.drop_last().push(items.last()));
    }
}

/// The order depends on the keys alone: changing what the items carry and
/// arranging them comes to the same as arranging them first.
pub proof fn lemma_arranged_relabelled<T, U>(items: Seq<(KeyModel, T)>, f: spec_fn(T) -> U)
    ensures
        arranged(relabelled(items, f)) == relabelled(arranged(items), f),
    decreases items.len(),
{
    if items.len() == 0 {
        assert(relabelled(items, f) =~= Seq::<(KeyModel, U)>::empty());
        assert(relabelled(arranged(items), f) =~= Seq::<(KeyModel, U)>::empty());
    } else {
        lemma_arranged_relabelled(items.drop_last(), f);
        assert(relabelled(items, f).drop_last() =~= relabelled(items.drop_last(), f));
        lemma_placed_relabelled(arranged(items.drop_last()), items.last(), f);
    }
}

/// Placing an item and changing what the items carry can be done in either
/// order.
pub proof fn lemma_placed_relabelled<T, U>(
    sorted: Seq<(KeyModel, T)>,
    item: (KeyModel, T),
    f: spec_fn(T) -> U,
)
    ensures
        placed(relabelled(sorted, f), (item.0, f(item.1))) == relabelled(placed(sorted, item), f),
    decreases sorted.len(),
{
    let other = relabelled(sorted, f);
    let new = (item.0, f(item.1));
    if sorted.len() == 0 {
        assert(placed(other, new) =~= relabelled(placed(sorted, item), f));
    } else if key_le(sorted.last().0, item.0) {
        assert(placed(other, new) =~= relabelled(placed(sorted, item), f));
    } else {
        lemma_placed_relabelled(sorted.drop_last(), item, f);
        assert(other.drop_last() =~= relabelled(sorted.drop_last(), f));
        assert(placed(other, new) =~= relabelled(placed(sorted, item), f));
    }
}

/// Sorts `items` by their keys. Items whose keys are the same stay in the
/// order in which they came.
pub fn sort_by_key<T>(items: Vec<(SortKey, T)>) -> (r: Vec<(SortKey, T)>)
    ensures
        keyed(r@) == arranged(keyed(items@)),
{
    let ghost given = items@;
    let mut out: Vec<(SortKey, T)> = Vec::new();
    assert(keyed(out@) =~= arranged(keyed(given).take(0)));
    for item in it: items
        invariant
            it.seq() == given,
            out@.len() == it.index(),
            keyed(out@) == arranged(keyed(given).take(it.index() as int)),
    {
        let ghost done = it.index() as int;
        let ghost before = out@;
        let mut at: usize = out.len();
        while at > 0 && !key_at_most(&out[at - 1].0, &item.0)
            invariant
                at <= out.len(),
                forall|k: int| at <= k < out@.len() ==> !key_le(#[trigger] out@[k].0@, item.0@),
            decreases at,
        {
            at = at - 1;
        }
        proof {
            assert forall|k: int| at <= k < keyed(before).len() implies !key_le(
                #[trigger] keyed(before)[k].0,
                item.0@,
            ) by {
                assert(!key_le(before[k].0@, item.0@));
            }
            lemma_placed_at(keyed(before), (item.0@, item.1), at as int);
            assert(keyed(given).take(done + 1).drop_last() =~= keyed(given).take(done));
            assert(keyed(given).take(done + 1).last() == (item.0@, item.1));
        }
        out.insert(at, item);
        assert(keyed(out@) =~= keyed(before).insert(at as int, (item.0@, item.1)));
    }
    assert(keyed(given).take(given.len() as int) =~= keyed(given));
    out
}

/// What the keyed items carry, in their order.
pub fn into_payloads<T>(items: Vec<(SortKey, T)>) -> (r: Vec<T>)
    ensures
        r@ == payloads(keyed(items@)),
{
    let ghost given = items@;
    let mut r: Vec<T> = Vec::new();
    for item in it: items
        invariant
            it.seq() == given,
            r@ == payloads(keyed(given.take(it.index() as int))),
    {
        let ghost done = r@.len() as int;
        r.push(item.1);
        assert(r@ =~= payloads(keyed(given.take(done + 1))));
    }
    assert(given.take(given.len() as int) =~= given);
    r
}

} // verus!
