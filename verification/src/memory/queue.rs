use crate::model::identity::Identity;
use crate::model::total_order::{is_below, is_same, TotalOrder};
use crate::repository::pending_stop_order::triggered;
use crate::repository::queue::{
    ahead, enqueued, head, index_of, is_index, is_slot, lemma_index_of, lemma_slot, lookup,
    replaced, slot, without, Queued,
};
use vstd::prelude::*;

verus! {

/// Decides `ahead`.
pub fn goes_ahead<K: TotalOrder>(ascending: bool, a: &K, b: &K) -> (r: bool)
    ensures
        r == ahead(ascending, *a, *b),
{
    if ascending {
        is_below(a, b)
    } else {
        is_below(b, a)
    }
}

/// Where an entry with `key` joins `queue`.
pub fn slot_of<T: Queued>(queue: &Vec<T>, ascending: bool, key: &T::Key) -> (r: usize)
    ensures
        r == slot(ascending, queue@, *key),
        r <= queue.len(),
{
    let mut i: usize = 0;
    while i < queue.len()
        invariant
            i <= queue.len(),
            forall|j: int| 0 <= j < i ==> !ahead(ascending, *key, (#[trigger] queue@[j]).queue_key()),
        decreases queue.len() - i,
    {
        let at = queue[i].key_of();
        if goes_ahead(ascending, key, &at) {
            proof {
                lemma_slot(ascending, queue@, *key);
                assert(is_slot(ascending, queue@, *key, i as int));
            }
            return i;
        }
        i += 1;
    }
    proof {
        lemma_slot(ascending, queue@, *key);
        assert(is_slot(ascending, queue@, *key, i as int));
    }
    i
}

/// The index of the first entry of `queue` with `id`, or the length of `queue`.
pub fn position_of<T: Queued>(queue: &Vec<T>, id: &T::Id) -> (r: usize)
    ensures
        r == index_of(queue@, *id),
        r <= queue.len(),
{
    let mut i: usize = 0;
    while i < queue.len()
        invariant
            i <= queue.len(),
            forall|j: int| 0 <= j < i ==> (#[trigger] queue@[j]).queue_id() != *id,
        decreases queue.len() - i,
    {
        let at = queue[i].id_of();
        if at.same_as(id) {
            proof {
                lemma_index_of(queue@, *id);
                assert(is_index(queue@, *id, i as int));
            }
            return i;
        }
        i += 1;
    }
    proof {
        lemma_index_of(queue@, *id);
        assert(is_index(queue@, *id, i as int));
    }
    i
}

/// Lets `x` join `queue` behind the entries that it does not go ahead of.
pub fn enqueue<T: Queued>(queue: &mut Vec<T>, ascending: bool, x: T)
    ensures
        final(queue)@ == enqueued(ascending, old(queue)@, x),
{
    let key = x.key_of();
    let at = slot_of(queue, ascending, &key);
    queue.insert(at, x);
}

/// The first entry of `queue`.
pub fn first_of<T: Queued>(queue: &Vec<T>) -> (r: Option<T>)
    ensures
        r == head(queue@),
{
    if queue.len() > 0 {
        Some(queue[0])
    } else {
        None
    }
}

/// The first entry of `queue` with `id`.
pub fn find<T: Queued>(queue: &Vec<T>, id: &T::Id) -> (r: Option<T>)
    ensures
        r == lookup(queue@, *id),
{
    let at = position_of(queue, id);
    if at < queue.len() {
        Some(queue[at])
    } else {
        None
    }
}

/// Takes the first entry with `id` out of `queue`, and says whether there was one.
pub fn dequeue<T: Queued>(queue: &mut Vec<T>, id: &T::Id) -> (r: bool)
    ensures
        r == crate::repository::queue::holds(old(queue)@, *id),
        final(queue)@ == without(old(queue)@, *id),
{
    let at = position_of(queue, id);
    if at < queue.len() {
        queue.remove(at);
        true
    } else {
        false
    }
}

/// Puts `x` in the place of the entry of `queue` that has its id: where that entry
/// stands if the key is the same, behind the entries of its new key if it is not.
/// A queue that has no such entry stays as it is.
pub fn replace<T: Queued>(queue: &mut Vec<T>, ascending: bool, x: T)
    ensures
        final(queue)@ == replaced(ascending, old(queue)@, x),
{
    let id = x.id_of();
    let at = position_of(queue, &id);
    if at < queue.len() {
        let key = x.key_of();
        let was = queue[at].key_of();
        if is_same(&was, &key) {
            queue.set(at, x);
        } else {
            queue.remove(at);
            enqueue(queue, ascending, x);
        }
    }
}

/// The first `limit` entries of `queue` that the market has reached at `mark`, or all
/// of them if they are fewer.
pub fn reached_by<T: Queued>(queue: &Vec<T>, ascending: bool, mark: &T::Key, limit: i64) -> (r:
    Vec<T>)
    ensures
        r@ == triggered(ascending, queue@, *mark, limit as int),
{
    let n = slot_of(queue, ascending, mark);
    let count: usize = if limit <= 0 {
        0
    } else if (limit as u64) < (n as u64) {
        limit as usize
    } else {
        n
    };
    let mut list: Vec<T> = Vec::new();
    let mut i: usize = 0;
    while i < count
        invariant
            i <= count <= queue.len(),
            list@ == queue@.subrange(0, i as int),
        decreases count - i,
    {
        list.push(queue[i]);
        assert(list@ =~= queue@.subrange(0, i as int + 1));
        i += 1;
    }
    list
}

} // verus!
