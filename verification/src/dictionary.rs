//! Dictionary order of texts, and the arrangement of things by key.

use crate::text::{chars_of, matches_at};
use vstd::prelude::*;

verus! {


/// `a` stands at or before `b` in the dictionary: at the first place where
/// they differ `a` has the smaller character, or `a` ends where `b` goes on.
pub open spec fn text_le(a: Seq<char>, b: Seq<char>) -> bool
    decreases a.len(),
{
    if a.len() == 0 {
        true
    } else if b.len() == 0 {
        false
    } else if a[0] != b[0] {
        a[0] < b[0]
    } else {
        text_le(a.skip(1), b.skip(1))
    }
}

/// Of two texts one stands at or before the other.
pub proof fn lemma_text_le_total(a: Seq<char>, b: Seq<char>)
    ensures
        text_le(a, b) || text_le(b, a),
    decreases a.len(),
{
    if a.len() > 0 && b.len() > 0 && a[0] == b[0] {
        lemma_text_le_total(a.skip(1), b.skip(1));
    }
}

/// Two texts that stand at or before each other are the same text.
pub proof fn lemma_text_le_antisymmetric(a: Seq<char>, b: Seq<char>)
    requires
        text_le(a, b),
        text_le(b, a),
    ensures
        a == b,
    decreases a.len(),
{
    if a.len() > 0 && b.len() > 0 {
        lemma_text_le_antisymmetric(a.skip(1), b.skip(1));
        assert(a =~= seq![a[0]] + a.skip(1));
        assert(b =~= seq![b[0]] + b.skip(1));
    } else {
        assert(a =~= b);
    }
}

/// The dictionary order is transitive.
pub proof fn lemma_text_le_transitive(a: Seq<char>, b: Seq<char>, c: Seq<char>)
    requires
        text_le(a, b),
        text_le(b, c),
    ensures
        text_le(a, c),
    decreases a.len(),
{
    if a.len() > 0 && b.len() > 0 && c.len() > 0 && a[0] == b[0] && b[0] == c[0] {
        lemma_text_le_transitive(a.skip(1), b.skip(1), c.skip(1));
    }
}

/// Every text stands at or before itself.
pub proof fn lemma_text_le_reflexive(a: Seq<char>)
    ensures
        text_le(a, a),
    decreases a.len(),
{
    if a.len() > 0 {
        lemma_text_le_reflexive(a.skip(1));
    }
}

/// Tests whether `a` stands at or before `b` in the dictionary.
pub fn text_at_or_before(a: &Vec<char>, b: &Vec<char>) -> (r: bool)
    ensures
        r == text_le(a@, b@),
{
    let mut i: usize = 0;
    assert(a@.skip(0) =~= a@ && b@.skip(0) =~= b@);
    loop
        invariant
            i <= a.len(),
            i <= b.len(),
            text_le(a@, b@) == text_le(a@.skip(i as int), b@.skip(i as int)),
        decreases a.len() - i,
    {
        if i == a.len() {
            return true;
        }
        if i == b.len() {
            return false;
        }
        proof {
            assert(a@.skip(i as int).skip(1) =~= a@.skip(i + 1));
            assert(b@.skip(i as int).skip(1) =~= b@.skip(i + 1));
        }
        if a[i] != b[i] {
            return a[i] < b[i];
        }
        i += 1;
    }
}

/// Tests whether `a` and `b` are the same text.
pub fn same_chars(a: &Vec<char>, b: &Vec<char>) -> (r: bool)
    ensures
        r == (a@ == b@),
{
    if a.len() != b.len() {
        return false;
    }
    let r = matches_at(a, b, 0);
    assert(a@.subrange(0, a@.len() as int) =~= a@);
    r
}

/// A key to arrange things by: a text, then a number, then a text.
#[derive(Debug, Clone)]
pub struct SortKey {
    pub name: Vec<char>,
    pub number: usize,
    pub detail: Vec<char>,
}

/// A key as mathematics.
pub struct KeyModel {
    pub name: Seq<char>,
    pub number: usize,
    pub detail: Seq<char>,
}

impl View for SortKey {
    type V = KeyModel;

    open spec fn view(&self) -> KeyModel {
        KeyModel { name: self.name@, number: self.number, detail: self.detail@ }
    }
}

/// The keys of a list as mathematics.
pub open spec fn key_models(keys: Seq<SortKey>) -> Seq<KeyModel> {
    Seq::new(keys.len(), |i: int| keys[i]@)
}

/// `a` stands at or before `b` by name, then by number, then
/// by detail.
pub open spec fn key_le(a: KeyModel, b: KeyModel) -> bool {
    if a.name != b.name {
        text_le(a.name, b.name)
    } else if a.number != b.number {
        a.number < b.number
    } else {
        text_le(a.detail, b.detail)
    }
}

/// Of two keys one stands at or before the other.
pub proof fn lemma_key_le_total(a: KeyModel, b: KeyModel)
    ensures
        key_le(a, b) || key_le(b, a),
{
    lemma_text_le_total(a.name, b.name);
    lemma_text_le_total(a.detail, b.detail);
}

/// Two keys that stand at or before each other are the same key.
pub proof fn lemma_key_le_antisymmetric(a: KeyModel, b: KeyModel)
    requires
        key_le(a, b),
        key_le(b, a),
    ensures
        a == b,
{
    if a.name != b.name {
        lemma_text_le_antisymmetric(a.name, b.name);
    } else if a.number == b.number {
        lemma_text_le_antisymmetric(a.detail, b.detail);
    }
}

/// The order of keys is transitive.
pub proof fn lemma_key_le_transitive(a: KeyModel, b: KeyModel, c: KeyModel)
    requires
        key_le(a, b),
        key_le(b, c),
    ensures
        key_le(a, c),
{
    lemma_text_le_reflexive(a.name);
    lemma_text_le_reflexive(a.detail);
    if a.name != b.name && b.name != c.name {
        lemma_text_le_transitive(a.name, b.name, c.name);
        if a.name == c.name {
            lemma_text_le_antisymmetric(a.name, b.name);
        }
    } else if a.name == b.name && b.name == c.name {
        if a.number == b.number && b.number == c.number {
            lemma_text_le_transitive(a.detail, b.detail, c.detail);
        }
    }
}

/// The thing at `x` stands before the one at `y`: by key, and among
/// things with the same key, by position.
pub open spec fn before(keys: Seq<KeyModel>, x: int, y: int) -> bool {
    if keys[x] == keys[y] {
        x < y
    } else {
        key_le(keys[x], keys[y])
    }
}

/// `order` names each of the positions `0 .. n` once.
pub open spec fn is_arrangement(order: Seq<usize>, n: nat) -> bool {
    &&& order.len() == n
    &&& forall|i: int| 0 <= i < order.len() ==> #[trigger] order[i] < n
    &&& forall|i: int, j: int|
        0 <= i < j < order.len() ==> #[trigger] order[i] != #[trigger] order[j]
    &&& forall|k: int| 0 <= k < n ==> #[trigger] names_position(order, k)
}

/// Each thing that `order` names stands before all that it names later.
pub open spec fn in_key_order(keys: Seq<KeyModel>, order: Seq<usize>) -> bool {
    forall|a: int, b: int|
        0 <= a < b < order.len() ==> before(keys, #[trigger] order[a] as int, #[trigger] order[b] as int)
}

/// `order` names the position `k`.
pub open spec fn names_position(order: Seq<usize>, k: int) -> bool {
    exists|i: int| 0 <= i < order.len() && #[trigger] order[i] == k
}

/// Tests whether `a` stands at or before `b`.
pub fn key_at_or_before(a: &SortKey, b: &SortKey) -> (r: bool)
    ensures
        r == key_le(a@, b@),
{
    if !same_chars(&a.name, &b.name) {
        text_at_or_before(&a.name, &b.name)
    } else if a.number != b.number {
        a.number < b.number
    } else {
        text_at_or_before(&a.detail, &b.detail)
    }
}

/// Arranges the positions of `keys` by key: by name, number and detail;
/// things with the same key keep the order in which they came.
pub fn arrange(keys: &Vec<SortKey>) -> (order: Vec<usize>)
    ensures
        is_arrangement(order@, keys@.len()),
        in_key_order(key_models(keys@), order@),
{
    let n: usize = keys.len();
    let ghost models = key_models(keys@);
    let mut order: Vec<usize> = Vec::new();
    let mut k: usize = 0;
    while k < n
        invariant
            n == keys@.len(),
            k <= n,
            models == key_models(keys@),
            is_arrangement(order@, k as nat),
            in_key_order(models, order@),
        decreases n - k,
    {
        let mut p: usize = order.len();
        while p > 0 && !key_at_or_before(&keys[order[p - 1]], &keys[k])
            invariant
                p <= order@.len(),
                order@.len() == k,
                k < n,
                n == keys@.len(),
                models == key_models(keys@),
                is_arrangement(order@, k as nat),
                forall|q: int|
                    p <= q < order@.len() ==> !key_le(
                        models[#[trigger] order@[q] as int],
                        models[k as int],
                    ),
            decreases p,
        {
            p -= 1;
        }
        let ghost old_order = order@;
        order.insert(p, k);
        proof {
            let new_order = order@;
            assert forall|a: int, b: int| 0 <= a < b < new_order.len() implies before(
                models,
                #[trigger] new_order[a] as int,
                #[trigger] new_order[b] as int,
            ) by {
                if b < p {
                    assert(new_order[a] == old_order[a] && new_order[b] == old_order[b]);
                } else if b == p {
                    // `a` stays in front of the newcomer
                    assert(new_order[a] == old_order[a]);
                    let last = old_order[p - 1] as int;
                    assert(key_le(models[last], models[k as int]));
                    if a < p - 1 {
                        assert(before(models, old_order[a] as int, old_order[p - 1] as int));
                        lemma_text_le_reflexive(models[last].name);
                        lemma_text_le_reflexive(models[last].detail);
                        lemma_key_le_transitive(
                            models[old_order[a] as int],
                            models[last],
                            models[k as int],
                        );
                    }
                } else if a == p {
                    // the newcomer stays in front of `b`
                    assert(new_order[b] == old_order[b - 1]);
                    lemma_key_le_total(models[old_order[b - 1] as int], models[k as int]);
                    lemma_text_le_reflexive(models[k as int].name);
                    lemma_text_le_reflexive(models[k as int].detail);
                } else if a < p {
                    assert(new_order[a] == old_order[a] && new_order[b] == old_order[b - 1]);
                } else {
                    assert(new_order[a] == old_order[a - 1] && new_order[b] == old_order[b - 1]);
                }
            }
            assert forall|i: int, j: int| 0 <= i < j < new_order.len() implies #[trigger] new_order[i]
                != #[trigger] new_order[j] by {
                let oi = if i < p {
                    i
                } else {
                    i - 1
                };
                let oj = if j < p {
                    j
                } else {
                    j - 1
                };
                if i != p && j != p {
                    assert(new_order[i] == old_order[oi] && new_order[j] == old_order[oj]);
                } else if i == p {
                    assert(new_order[j] == old_order[oj]);
                } else {
                    assert(new_order[i] == old_order[oi]);
                }
            }
            assert forall|i: int| 0 <= i < new_order.len() implies #[trigger] new_order[i] < k
                + 1 by {
                if i < p {
                    assert(new_order[i] == old_order[i]);
                } else if i > p {
                    assert(new_order[i] == old_order[i - 1]);
                }
            }
            assert forall|v: int| 0 <= v < k + 1 implies #[trigger] names_position(
                new_order,
                v,
            ) by {
                if v == k {
                    assert(new_order[p as int] == k);
                } else {
                    assert(names_position(old_order, v));
                    let i = choose|i: int| 0 <= i < old_order.len() && old_order[i] == v;
                    if i < p {
                        assert(new_order[i] == v);
                    } else {
                        assert(new_order[i + 1] == v);
                    }
                }
            }
        }
        k += 1;
    }
    order
}

/// The texts that a list of strings holds.
pub open spec fn string_texts(names: Seq<String>) -> Seq<Seq<char>> {
    Seq::new(names.len(), |i: int| names[i]@)
}

/// The name at `x` stands before the one at `y` in the dictionary; of two
/// equal names the one that came first.
pub open spec fn name_before(names: Seq<Seq<char>>, x: int, y: int) -> bool {
    if names[x] == names[y] {
        x < y
    } else {
        text_le(names[x], names[y])
    }
}

/// Each name that `order` names stands before all that it names later.
pub open spec fn in_name_order(names: Seq<Seq<char>>, order: Seq<usize>) -> bool {
    forall|a: int, b: int|
        0 <= a < b < order.len() ==> name_before(
            names,
            #[trigger] order[a] as int,
            #[trigger] order[b] as int,
        )
}

/// Arranges the positions of `names` in dictionary order.
pub fn name_order(names: &Vec<String>) -> (order: Vec<usize>)
    ensures
        is_arrangement(order@, names@.len()),
        in_name_order(string_texts(names@), order@),
{
    let mut keys: Vec<SortKey> = Vec::new();
    let mut i: usize = 0;
    while i < names.len()
        invariant
            i <= names.len(),
            keys@.len() == i,
            forall|j: int|
                0 <= j < i ==> (#[trigger] keys@[j])@ == (KeyModel {
                    name: names@[j]@,
                    number: 0,
                    detail: Seq::empty(),
                }),
        decreases names.len() - i,
    {
        keys.push(SortKey { name: chars_of(names[i].as_str()), number: 0, detail: Vec::new() });
        i += 1;
    }
    let order = arrange(&keys);
    proof {
        let texts = string_texts(names@);
        let models = key_models(keys@);
        assert forall|a: int, b: int| 0 <= a < b < order@.len() implies name_before(
            texts,
            #[trigger] order@[a] as int,
            #[trigger] order@[b] as int,
        ) by {
            let x = order@[a] as int;
            let y = order@[b] as int;
            assert(before(models, x, y));
            assert(models[x] == keys@[x]@ && models[y] == keys@[y]@);
            assert(models[x].name == texts[x] && models[y].name == texts[y]);
            if texts[x] == texts[y] {
                assert(models[x] == models[y]);
            }
        }
    }
    order
}

/// `value` is among the first `upto` positions that `order` names.
pub open spec fn named_before(order: Seq<usize>, upto: int, value: usize) -> bool {
    exists|q: int| 0 <= q < upto && q < order.len() && #[trigger] order[q] == value
}

/// `order` names each wanted position once, and no other.
pub open spec fn is_selection(order: Seq<usize>, wanted: Seq<bool>) -> bool {
    &&& forall|t: int|
        0 <= t < order.len() ==> #[trigger] order[t] < wanted.len() && wanted[order[t] as int]
    &&& forall|i: int, j: int|
        0 <= i < j < order.len() ==> #[trigger] order[i] != #[trigger] order[j]
    &&& forall|k: int| 0 <= k < wanted.len() && wanted[k] ==> #[trigger] names_position(order, k)
}

/// The wanted positions of `names`, in dictionary order of the names.
pub(crate) fn select_in_name_order(names: &Vec<String>, wanted: &Vec<bool>) -> (chosen: Vec<
    usize,
>)
    requires
        wanted@.len() == names@.len(),
    ensures
        is_selection(chosen@, wanted@),
        in_name_order(string_texts(names@), chosen@),
{
    let order = name_order(names);
    let ghost texts = string_texts(names@);
    let mut chosen: Vec<usize> = Vec::new();
    let mut j: usize = 0;
    while j < order.len()
        invariant
            j <= order@.len(),
            wanted@.len() == names@.len(),
            texts == string_texts(names@),
            is_arrangement(order@, names@.len()),
            in_name_order(texts, order@),
            in_name_order(texts, chosen@),
            forall|t: int|
                0 <= t < chosen@.len() ==> {
                    &&& #[trigger] chosen@[t] < wanted@.len()
                    &&& wanted@[chosen@[t] as int]
                    &&& named_before(order@, j as int, chosen@[t])
                },
            forall|a: int, b: int|
                0 <= a < b < chosen@.len() ==> #[trigger] chosen@[a] != #[trigger] chosen@[b],
            forall|q: int|
                0 <= q < j && wanted@[#[trigger] order@[q] as int] ==> names_position(
                    chosen@,
                    order@[q] as int,
                ),
        decreases order.len() - j,
    {
        let v: usize = order[j];
        let ghost before_push = chosen@;
        if wanted[v] {
            chosen.push(v);
            proof {
                let after = chosen@;
                let last = after.len() - 1;
                assert forall|t: int| 0 <= t < last implies name_before(
                    texts,
                    after[t] as int,
                    v as int,
                ) && after[t] != v by {
                    assert(after[t] == before_push[t]);
                    assert(named_before(order@, j as int, before_push[t]));
                    let q = choose|q: int|
                        0 <= q < j && q < order@.len() && order@[q] == before_push[t];
                    assert(name_before(texts, order@[q] as int, order@[j as int] as int));
                }
                assert forall|a: int, b: int| 0 <= a < b < after.len() implies name_before(
                    texts,
                    #[trigger] after[a] as int,
                    #[trigger] after[b] as int,
                ) by {
                    if b < last {
                        assert(after[a] == before_push[a] && after[b] == before_push[b]);
                    }
                }
                assert forall|a: int, b: int| 0 <= a < b < after.len() implies #[trigger] after[a]
                    != #[trigger] after[b] by {
                    if b < last {
                        assert(after[a] == before_push[a] && after[b] == before_push[b]);
                    }
                }
                assert(after[last] == order@[j as int]);
            }
        }
        proof {
            let after = chosen@;
            assert forall|t: int| 0 <= t < after.len() implies {
                &&& #[trigger] after[t] < wanted@.len()
                &&& wanted@[after[t] as int]
                &&& named_before(order@, j + 1, after[t])
            } by {
                if t < before_push.len() {
                    assert(after[t] == before_push[t]);
                    assert(named_before(order@, j as int, before_push[t]));
                    let q = choose|q: int|
                        0 <= q < j && q < order@.len() && order@[q] == before_push[t];
                    assert(order@[q] == after[t]);
                } else {
                    assert(order@[j as int] == after[t]);
                }
            }
            assert forall|q: int|
                0 <= q < j + 1 && wanted@[#[trigger] order@[q] as int] implies names_position(
                after,
                order@[q] as int,
            ) by {
                if q < j {
                    assert(names_position(before_push, order@[q] as int));
                    let i = choose|i: int|
                        0 <= i < before_push.len() && before_push[i] == order@[q] as int;
                    assert(after[i] == order@[q]);
                } else {
                    assert(after[after.len() - 1] == order@[q]);
                }
            }
        }
        j += 1;
    }
    proof {
        assert forall|k: int| 0 <= k < wanted@.len() && wanted@[k] implies #[trigger] names_position(
            chosen@,
            k,
        ) by {
            assert(names_position(order@, k));
            let q = choose|q: int| 0 <= q < order@.len() && order@[q] == k;
            assert(wanted@[order@[q] as int]);
        }
    }
    chosen
}

} // verus!
