//! Putting the answers of a batch request back into the order of the request.
//!
//! The service answers a batch request with the items it knows, in an order
//! of its own, and leaves out what it does not know. The functions here match
//! the answers to the requested keys by value and mark the gaps.

use vstd::multiset::Multiset;
use vstd::prelude::*;

verus! {

/// An item that the service sends in answer to a requested key of type `K`.
pub trait Answer<K>: Sized {
    /// Whether this item is the answer to the request for `key`.
    spec fn answers(&self, key: K) -> bool;

    /// Whether this item is the answer to the request for `key`.
    fn is_answer_to(&self, key: &K) -> (is: bool)
        ensures
            is == self.answers(*key),
    ;

    /// An item answers one key only.
    proof fn lemma_answers_one_key(&self, a: K, b: K)
        requires
            self.answers(a),
            self.answers(b),
        ensures
            a == b,
    ;
}

/// Whether one of `items` answers `key`.
pub open spec fn has_answer<K, T: Answer<K>>(items: Seq<T>, key: K) -> bool {
    exists|i: int| 0 <= i < items.len() && (#[trigger] items[i]).answers(key)
}

/// Whether `items[i]` answers `key` and nothing before it does.
pub open spec fn is_first_answer<K, T: Answer<K>>(items: Seq<T>, key: K, i: int) -> bool {
    &&& 0 <= i < items.len()
    &&& items[i].answers(key)
    &&& forall|j: int| 0 <= j < i ==> !(#[trigger] items[j]).answers(key)
}

/// The place of the first of `items` that answers `key`, where one does.
pub open spec fn first_answer<K, T: Answer<K>>(items: Seq<T>, key: K) -> int {
    choose|i: int| is_first_answer(items, key, i)
}

/// `items` after `items[i]` was taken out and the last item put in its place.
pub open spec fn taken_out<T>(items: Seq<T>, i: int) -> Seq<T> {
    items.update(i, items.last()).drop_last()
}

/// The answers to `keys`, one place for each key and in the order of the keys.
///
/// Each key gets the first of the remaining items that answers it, and that
/// item is then taken out, so that no item is handed out twice. A key that
/// none of the remaining items answers gets `None`.
pub open spec fn in_request_order<K, T: Answer<K>>(keys: Seq<K>, items: Seq<T>) -> Seq<Option<T>>
    decreases keys.len(),
{
    if keys.len() == 0 {
        Seq::empty()
    } else if has_answer(items, keys[0]) {
        let i = first_answer(items, keys[0]);
        seq![Some(items[i])] + in_request_order(keys.drop_first(), taken_out(items, i))
    } else {
        seq![None] + in_request_order(keys.drop_first(), items)
    }
}

/// There is one first answer at most.
pub proof fn lemma_first_answer_is_unique<K, T: Answer<K>>(items: Seq<T>, key: K, i: int)
    requires
        is_first_answer(items, key, i),
    ensures
        has_answer(items, key),
        first_answer(items, key) == i,
{
    let chosen = first_answer(items, key);
    assert(is_first_answer(items, key, chosen));
    if chosen < i {
        assert(!items[chosen].answers(key));
    }
    if i < chosen {
        assert(!items[i].answers(key));
    }
}

/// Where an answer exists, a first one does.
pub proof fn lemma_first_answer_exists<K, T: Answer<K>>(items: Seq<T>, key: K)
    requires
        has_answer(items, key),
    ensures
        is_first_answer(items, key, first_answer(items, key)),
{
    let some = choose|i: int| 0 <= i < items.len() && (#[trigger] items[i]).answers(key);
    lemma_first_answer_up_to(items, key, some);
}

proof fn lemma_first_answer_up_to<K, T: Answer<K>>(items: Seq<T>, key: K, bound: int)
    requires
        0 <= bound < items.len(),
        items[bound].answers(key),
    ensures
        exists|i: int| is_first_answer(items, key, i),
    decreases bound,
{
    if exists|j: int| 0 <= j < bound && (#[trigger] items[j]).answers(key) {
        let j = choose|j: int| 0 <= j < bound && (#[trigger] items[j]).answers(key);
        lemma_first_answer_up_to(items, key, j);
    } else {
        assert(is_first_answer(items, key, bound));
    }
}

/// Count and order are kept: the answers have one place for each key, and
/// what stands in the place of a key answers that key and is one of the items
/// that were sent.
pub proof fn lemma_request_order_is_kept<K, T: Answer<K>>(keys: Seq<K>, items: Seq<T>)
    ensures
        in_request_order(keys, items).len() == keys.len(),
        forall|i: int|
            0 <= i < keys.len() ==> match #[trigger] in_request_order(keys, items)[i] {
                Some(item) => item.answers(keys[i]) && items.contains(item),
                None => true,
            },
    decreases keys.len(),
{
    if keys.len() > 0 {
        let ordered = in_request_order(keys, items);
        let left = if has_answer(items, keys[0]) {
            taken_out(items, first_answer(items, keys[0]))
        } else {
            items
        };
        let later = in_request_order(keys.drop_first(), left);
        lemma_request_order_is_kept(keys.drop_first(), left);
        if has_answer(items, keys[0]) {
            lemma_first_answer_exists(items, keys[0]);
        }
        assert forall|i: int| 0 <= i < keys.len() implies match #[trigger] ordered[i] {
            Some(item) => item.answers(keys[i]) && items.contains(item),
            None => true,
        } by {
            if i > 0 {
                assert(ordered[i] == later[i - 1]);
                assert(keys.drop_first()[i - 1] == keys[i]);
                if let Some(item) = later[i - 1] {
                    if has_answer(items, keys[0]) {
                        lemma_taken_out_is_part(items, first_answer(items, keys[0]), item);
                    }
                }
            }
        }
    }
}

/// What is left after an item was taken out was there before.
proof fn lemma_taken_out_is_part<T>(items: Seq<T>, i: int, item: T)
    requires
        0 <= i < items.len(),
        taken_out(items, i).contains(item),
    ensures
        items.contains(item),
{
    let left = taken_out(items, i);
    let at = choose|at: int| 0 <= at < left.len() && left[at] == item;
    if at == i {
        assert(items[items.len() - 1] == item);
    } else {
        assert(items[at] == item);
    }
}

/// Taking out an item that does not answer `key` neither adds nor removes an
/// answer to `key`.
proof fn lemma_taken_out_keeps_answers<K, T: Answer<K>>(items: Seq<T>, i: int, key: K)
    requires
        0 <= i < items.len(),
        !items[i].answers(key),
    ensures
        has_answer(taken_out(items, i), key) <==> has_answer(items, key),
{
    let left = taken_out(items, i);
    if has_answer(left, key) {
        let at = choose|at: int| 0 <= at < left.len() && (#[trigger] left[at]).answers(key);
        if at == i {
            assert(items[items.len() - 1].answers(key));
        } else {
            assert(items[at].answers(key));
        }
    }
    if has_answer(items, key) {
        let at = choose|at: int| 0 <= at < items.len() && (#[trigger] items[at]).answers(key);
        if at == items.len() - 1 {
            assert(left[i].answers(key));
        } else {
            assert(left[at].answers(key));
        }
    }
}

/// Where no key is asked for twice, a gap means that the service sent no
/// answer: in the place of a key stands `None` if and only if none of the
/// items answers that key.
pub proof fn lemma_gaps_are_missing_answers<K, T: Answer<K>>(keys: Seq<K>, items: Seq<T>)
    requires
        keys.no_duplicates(),
    ensures
        forall|i: int|
            0 <= i < keys.len() ==> ((#[trigger] in_request_order(keys, items)[i]) is None
                <==> !has_answer(items, keys[i])),
    decreases keys.len(),
{
    if keys.len() > 0 {
        let ordered = in_request_order(keys, items);
        let found = has_answer(items, keys[0]);
        let first = first_answer(items, keys[0]);
        let left = if found {
            taken_out(items, first)
        } else {
            items
        };
        let later = in_request_order(keys.drop_first(), left);
        assert(keys.drop_first().no_duplicates());
        lemma_gaps_are_missing_answers(keys.drop_first(), left);
        lemma_request_order_is_kept(keys.drop_first(), left);
        if found {
            lemma_first_answer_exists(items, keys[0]);
        }
        assert forall|i: int| 0 <= i < keys.len() implies ((#[trigger] ordered[i]) is None
            <==> !has_answer(items, keys[i])) by {
            if i > 0 {
                assert(ordered[i] == later[i - 1]);
                assert(keys.drop_first()[i - 1] == keys[i]);
                if found {
                    if items[first].answers(keys[i]) {
                        items[first].lemma_answers_one_key(keys[0], keys[i]);
                    }
                    lemma_taken_out_keeps_answers(items, first, keys[i]);
                }
            }
        }
    }
}

/// The items that stand in `ordered`, each as often as it stands there.
pub open spec fn handed_out<T>(ordered: Seq<Option<T>>) -> Multiset<T>
    decreases ordered.len(),
{
    if ordered.len() == 0 {
        Multiset::empty()
    } else {
        match ordered.first() {
            Some(item) => handed_out(ordered.drop_first()).insert(item),
            None => handed_out(ordered.drop_first()),
        }
    }
}

/// Taking `items[i]` out leaves all the items but that one.
proof fn lemma_taken_out_is_one_less<T>(items: Seq<T>, i: int)
    requires
        0 <= i < items.len(),
    ensures
        taken_out(items, i).to_multiset() == items.to_multiset().remove(items[i]),
{
    broadcast use vstd::seq_lib::group_to_multiset_ensures;

    let last = items.len() - 1;
    let shorter = items.remove(last);
    assert(shorter == items.drop_last());
    if i == last {
        assert(taken_out(items, i) == shorter);
    } else {
        assert(taken_out(items, i) == shorter.remove(i).insert(i, items[last]));
        assert(shorter[i] == items[i]);
        assert(shorter.contains(shorter[i]));
        assert(items.contains(items[last]));
        assert(taken_out(items, i).to_multiset() =~= items.to_multiset().remove(items[i]));
    }
}

/// No item is handed out more often than it was sent: the items that stand in
/// the answers are part of the items that were sent, counted one by one.
pub proof fn lemma_items_are_handed_out_once<K, T: Answer<K>>(keys: Seq<K>, items: Seq<T>)
    ensures
        handed_out(in_request_order(keys, items)).subset_of(items.to_multiset()),
    decreases keys.len(),
{
    if keys.len() > 0 {
        let ordered = in_request_order(keys, items);
        if has_answer(items, keys[0]) {
            lemma_first_answer_exists(items, keys[0]);
            let i = first_answer(items, keys[0]);
            let left = taken_out(items, i);
            lemma_items_are_handed_out_once(keys.drop_first(), left);
            lemma_taken_out_is_one_less(items, i);
            assert(ordered.first() == Some(items[i]));
            assert(ordered.drop_first() == in_request_order(keys.drop_first(), left));
            assert(items.contains(items[i]));
            broadcast use vstd::seq_lib::group_to_multiset_ensures;

            assert(handed_out(ordered).subset_of(items.to_multiset()));
        } else {
            lemma_items_are_handed_out_once(keys.drop_first(), items);
            assert(ordered.first() == None::<T>);
            assert(ordered.drop_first() == in_request_order(keys.drop_first(), items));
        }
    }
}

/// Find the first of `items` that answers `key`.
pub fn position<K, T: Answer<K>>(items: &Vec<T>, key: &K) -> (found: Option<usize>)
    ensures
        match found {
            Some(i) => is_first_answer(items@, *key, i as int),
            None => !has_answer(items@, *key),
        },
{
    let mut i: usize = 0;
    while i < items.len()
        invariant
            i <= items.len(),
            forall|j: int| 0 <= j < i ==> !(#[trigger] items@[j]).answers(*key),
        decreases items.len() - i,
    {
        if items[i].is_answer_to(key) {
            return Some(i);
        }
        i += 1;
    }
    None
}

/// Put `items` into the order of `keys`: in the place of each key stands the
/// item that answers it, or `None` where no item does.
pub fn order_by_request<K, T: Answer<K>>(keys: &Vec<K>, items: Vec<T>) -> (ordered: Vec<Option<T>>)
    ensures
        ordered@ == in_request_order(keys@, items@),
{
    let ghost sent = items@;
    let mut left = items;
    let mut ordered: Vec<Option<T>> = Vec::new();
    let mut k: usize = 0;
    proof {
        assert(keys@.skip(0) == keys@);
        assert(ordered@ + in_request_order(keys@, sent) == in_request_order(keys@, sent));
    }
    while k < keys.len()
        invariant
            k <= keys.len(),
            in_request_order(keys@, sent) == ordered@ + in_request_order(
                keys@.skip(k as int),
                left@,
            ),
        decreases keys.len() - k,
    {
        let ghost rest = keys@.skip(k as int);
        let ghost before = ordered@;
        let ghost had = left@;
        proof {
            assert(rest[0] == keys@[k as int]);
            assert(rest.drop_first() == keys@.skip(k + 1));
        }
        match position(&left, &keys[k]) {
            Some(i) => {
                proof {
                    lemma_first_answer_is_unique(had, keys@[k as int], i as int);
                }
                let item = left.swap_remove(i);
                ordered.push(Some(item));
                assert(ordered@ + in_request_order(keys@.skip(k + 1), left@) == before
                    + in_request_order(rest, had));
            },
            None => {
                ordered.push(None);
                assert(ordered@ + in_request_order(keys@.skip(k + 1), left@) == before
                    + in_request_order(rest, had));
            },
        }
        k += 1;
    }
    assert(keys@.skip(k as int).len() == 0);
    ordered
}

} // verus!
