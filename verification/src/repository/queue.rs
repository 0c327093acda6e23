use crate::model::order_id::OrderId;
use crate::model::price::Price;
use crate::model::total_order::{below, same, TotalOrder};
use vstd::prelude::*;

verus! {

/// What waits in a queue ordered by price and, at one price, by arrival: it has an id
/// by which it is found, and a key by which it is ordered.
pub trait Queued: Copy + Sized {
    type Id: OrderId;

    type Key: Price;

    /// The id by which the entry is found.
    spec fn queue_id(self) -> Self::Id;

    /// The price by which the queue is ordered.
    spec fn queue_key(self) -> Self::Key;

    fn id_of(&self) -> (r: Self::Id)
        ensures
            r == self.queue_id(),
    ;

    fn key_of(&self) -> (r: Self::Key)
        ensures
            r == self.queue_key(),
    ;
}

/// `a` goes strictly before `b` in a queue that serves low keys first (`ascending`) or
/// high keys first.
pub open spec fn ahead<K: TotalOrder>(ascending: bool, a: K, b: K) -> bool {
    if ascending {
        below(a, b)
    } else {
        below(b, a)
    }
}

/// No entry of `s` stands behind one that it should go ahead of.
pub open spec fn ordered<T: Queued>(ascending: bool, s: Seq<T>) -> bool {
    forall|i: int, j: int|
        0 <= i < j < s.len() ==> !ahead(
            ascending,
            (#[trigger] s[j]).queue_key(),
            (#[trigger] s[i]).queue_key(),
        )
}

/// No two entries of `s` share an id.
pub open spec fn distinct<T: Queued>(s: Seq<T>) -> bool {
    forall|i: int, j: int|
        0 <= i < s.len() && 0 <= j < s.len() && i != j ==> (#[trigger] s[i]).queue_id() != (
        #[trigger] s[j]).queue_id()
}

/// Where an entry with `key` joins `s`: behind every entry that it does not go ahead
/// of, so behind those of its own price that came before it.
pub open spec fn slot<T: Queued>(ascending: bool, s: Seq<T>, key: T::Key) -> int
    decreases s.len(),
{
    if s.len() == 0 || ahead(ascending, key, s[0].queue_key()) {
        0
    } else {
        1 + slot(ascending, s.drop_first(), key)
    }
}

/// `s` with `x` in its place.
pub open spec fn enqueued<T: Queued>(ascending: bool, s: Seq<T>, x: T) -> Seq<T> {
    s.insert(slot(ascending, s, x.queue_key()), x)
}

/// The index of the first entry of `s` with `id`; the length of `s` if there is none.
pub open spec fn index_of<T: Queued>(s: Seq<T>, id: T::Id) -> int
    decreases s.len(),
{
    if s.len() == 0 || s[0].queue_id() == id {
        0
    } else {
        1 + index_of(s.drop_first(), id)
    }
}

/// Whether an entry of `s` has `id`.
pub open spec fn holds<T: Queued>(s: Seq<T>, id: T::Id) -> bool {
    index_of(s, id) < s.len()
}

/// The first entry of `s` with `id`.
pub open spec fn lookup<T: Queued>(s: Seq<T>, id: T::Id) -> Option<T> {
    if holds(s, id) {
        Some(s[index_of(s, id)])
    } else {
        None
    }
}

/// `s` without its first entry with `id`.
pub open spec fn without<T: Queued>(s: Seq<T>, id: T::Id) -> Seq<T> {
    if holds(s, id) {
        s.remove(index_of(s, id))
    } else {
        s
    }
}

/// `s` with `x` in the place of the entry that has the id of `x`. Where the key stays
/// the same the entry keeps its place; where it changes, the entry leaves and joins
/// again, behind those of its new price.
pub open spec fn replaced<T: Queued>(ascending: bool, s: Seq<T>, x: T) -> Seq<T> {
    let i = index_of(s, x.queue_id());
    if !holds(s, x.queue_id()) {
        s
    } else if same(s[i].queue_key(), x.queue_key()) {
        s.update(i, x)
    } else {
        enqueued(ascending, s.remove(i), x)
    }
}

/// The first entry of `s`, if it has one.
pub open spec fn head<T>(s: Seq<T>) -> Option<T> {
    if s.len() > 0 {
        Some(s[0])
    } else {
        None
    }
}

/// `k` is where `slot` puts `key`: nothing before `k` lets it pass, and what stands at
/// `k` does.
pub open spec fn is_slot<T: Queued>(ascending: bool, s: Seq<T>, key: T::Key, k: int) -> bool {
    &&& 0 <= k <= s.len()
    &&& forall|i: int| 0 <= i < k ==> !ahead(ascending, key, (#[trigger] s[i]).queue_key())
    &&& k < s.len() ==> ahead(ascending, key, s[k].queue_key())
}

/// `k` is what `index_of` answers: nothing before `k` has `id`, and what stands at `k`
/// has it.
pub open spec fn is_index<T: Queued>(s: Seq<T>, id: T::Id, k: int) -> bool {
    &&& 0 <= k <= s.len()
    &&& forall|i: int| 0 <= i < k ==> (#[trigger] s[i]).queue_id() != id
    &&& k < s.len() ==> s[k].queue_id() == id
}

/// `slot` answers the one index that `is_slot` describes.
pub proof fn lemma_slot<T: Queued>(ascending: bool, s: Seq<T>, key: T::Key)
    ensures
        is_slot(ascending, s, key, slot(ascending, s, key)),
        forall|k: int| is_slot(ascending, s, key, k) ==> k == slot(ascending, s, key),
    decreases s.len(),
{
    if s.len() == 0 || ahead(ascending, key, s[0].queue_key()) {
        assert forall|k: int| is_slot(ascending, s, key, k) implies k == 0 by {
            if k > 0 {
                assert(!ahead(ascending, key, s[0].queue_key()));
            }
        }
    } else {
        let t = s.drop_first();
        lemma_slot(ascending, t, key);
        let r = slot(ascending, t, key);
        assert forall|i: int| 0 <= i < r + 1 implies !ahead(
            ascending,
            key,
            (#[trigger] s[i]).queue_key(),
        ) by {
            if i > 0 {
                assert(s[i] == t[i - 1]);
            }
        }
        if r + 1 < s.len() {
            assert(s[r + 1] == t[r]);
        }
        assert forall|k: int| is_slot(ascending, s, key, k) implies k == r + 1 by {
            assert(k > 0);
            assert forall|i: int| 0 <= i < k - 1 implies !ahead(
                ascending,
                key,
                (#[trigger] t[i]).queue_key(),
            ) by {
                assert(t[i] == s[i + 1]);
            }
            if k - 1 < t.len() {
                assert(t[k - 1] == s[k]);
            }
            assert(is_slot(ascending, t, key, k - 1));
        }
    }
}

/// `index_of` answers the one index that `is_index` describes.
pub proof fn lemma_index_of<T: Queued>(s: Seq<T>, id: T::Id)
    ensures
        is_index(s, id, index_of(s, id)),
        forall|k: int| is_index(s, id, k) ==> k == index_of(s, id),
    decreases s.len(),
{
    if s.len() == 0 || s[0].queue_id() == id {
        assert forall|k: int| is_index(s, id, k) implies k == 0 by {
            if k > 0 {
                assert(s[0].queue_id() != id);
            }
        }
    } else {
        let t = s.drop_first();
        lemma_index_of(t, id);
        let r = index_of(t, id);
        assert forall|i: int| 0 <= i < r + 1 implies (#[trigger] s[i]).queue_id() != id by {
            if i > 0 {
                assert(s[i] == t[i - 1]);
            }
        }
        if r + 1 < s.len() {
            assert(s[r + 1] == t[r]);
        }
        assert forall|k: int| is_index(s, id, k) implies k == r + 1 by {
            assert(k > 0);
            assert forall|i: int| 0 <= i < k - 1 implies (#[trigger] t[i]).queue_id() != id by {
                assert(t[i] == s[i + 1]);
            }
            if k - 1 < t.len() {
                assert(t[k - 1] == s[k]);
            }
            assert(is_index(t, id, k - 1));
        }
    }
}

/// An entry of `s` has `id` exactly when some index of `s` shows it.
pub proof fn lemma_holds<T: Queued>(s: Seq<T>, id: T::Id)
    ensures
        holds(s, id) <==> exists|i: int| 0 <= i < s.len() && (#[trigger] s[i]).queue_id() == id,
{
    lemma_index_of(s, id);
    if holds(s, id) {
        assert(s[index_of(s, id)].queue_id() == id);
    }
}

/// In an ordered queue, everything from the slot of `key` on lets `key` pass.
pub proof fn lemma_slot_splits<T: Queued>(ascending: bool, s: Seq<T>, key: T::Key)
    requires
        ordered(ascending, s),
    ensures
        forall|i: int|
            slot(ascending, s, key) <= i < s.len() ==> ahead(
                ascending,
                key,
                (#[trigger] s[i]).queue_key(),
            ),
{
    lemma_slot(ascending, s, key);
    let k = slot(ascending, s, key);
    assert forall|i: int| k <= i < s.len() implies ahead(
        ascending,
        key,
        (#[trigger] s[i]).queue_key(),
    ) by {
        if i > k {
            let a = s[k].queue_key();
            let b = s[i].queue_key();
            assert(!ahead(ascending, b, a));
            T::Key::lemma_leq_total(a, b);
            if ascending {
                crate::model::total_order::lemma_below_transitive(key, a, b);
            } else {
                crate::model::total_order::lemma_below_transitive(b, a, key);
            }
        }
    }
}

/// An ordered queue stays ordered when an entry joins it.
pub proof fn lemma_enqueued_ordered<T: Queued>(ascending: bool, s: Seq<T>, x: T)
    requires
        ordered(ascending, s),
    ensures
        ordered(ascending, enqueued(ascending, s, x)),
{
    let key = x.queue_key();
    let k = slot(ascending, s, key);
    lemma_slot(ascending, s, key);
    lemma_slot_splits(ascending, s, key);
    let r = enqueued(ascending, s, x);
    assert forall|i: int, j: int| 0 <= i < j < r.len() implies !ahead(
        ascending,
        (#[trigger] r[j]).queue_key(),
        (#[trigger] r[i]).queue_key(),
    ) by {
        if j == k {
            assert(r[i] == s[i]);
        } else if i == k {
            assert(r[j] == s[j - 1]);
            T::Key::lemma_leq_total(key, s[j - 1].queue_key());
        } else {
            let i0 = if i < k {
                i
            } else {
                i - 1
            };
            let j0 = if j < k {
                j
            } else {
                j - 1
            };
            assert(r[i] == s[i0]);
            assert(r[j] == s[j0]);
        }
    }
}

/// The ids of a queue after an entry joined it: those it had, and the new one.
pub proof fn lemma_enqueued_holds<T: Queued>(ascending: bool, s: Seq<T>, x: T, id: T::Id)
    ensures
        holds(enqueued(ascending, s, x), id) <==> (holds(s, id) || id == x.queue_id()),
{
    let k = slot(ascending, s, x.queue_key());
    lemma_slot(ascending, s, x.queue_key());
    let r = enqueued(ascending, s, x);
    lemma_holds(s, id);
    lemma_holds(r, id);
    if holds(s, id) {
        let i = choose|i: int| 0 <= i < s.len() && (#[trigger] s[i]).queue_id() == id;
        if i < k {
            assert(r[i] == s[i]);
        } else {
            assert(r[i + 1] == s[i]);
        }
    }
    if id == x.queue_id() {
        assert(r[k] == x);
    }
    if holds(r, id) {
        let j = choose|j: int| 0 <= j < r.len() && (#[trigger] r[j]).queue_id() == id;
        if j < k {
            assert(r[j] == s[j]);
        } else if j > k {
            assert(r[j] == s[j - 1]);
        }
    }
}

/// A queue without doubles stays so when an entry with a new id joins it.
pub proof fn lemma_enqueued_distinct<T: Queued>(ascending: bool, s: Seq<T>, x: T)
    requires
        distinct(s),
        !holds(s, x.queue_id()),
    ensures
        distinct(enqueued(ascending, s, x)),
{
    let k = slot(ascending, s, x.queue_key());
    lemma_slot(ascending, s, x.queue_key());
    lemma_holds(s, x.queue_id());
    let r = enqueued(ascending, s, x);
    assert forall|i: int, j: int| 0 <= i < r.len() && 0 <= j < r.len() && i != j implies (
    #[trigger] r[i]).queue_id() != (#[trigger] r[j]).queue_id() by {
        let i0 = if i < k {
            i
        } else {
            i - 1
        };
        let j0 = if j < k {
            j
        } else {
            j - 1
        };
        if i != k {
            assert(r[i] == s[i0]);
        }
        if j != k {
            assert(r[j] == s[j0]);
        }
    }
}

/// Taking an entry out of a queue leaves it ordered and without doubles, and leaves
/// it no id that it did not have.
pub proof fn lemma_remove_keeps<T: Queued>(ascending: bool, s: Seq<T>, k: int)
    requires
        0 <= k < s.len(),
    ensures
        ordered(ascending, s) ==> ordered(ascending, s.remove(k)),
        distinct(s) ==> distinct(s.remove(k)),
        forall|id: T::Id| holds(s.remove(k), id) ==> holds(s, id),
        distinct(s) ==> !holds(s.remove(k), s[k].queue_id()),
        forall|id: T::Id| holds(s, id) && id != s[k].queue_id() ==> holds(s.remove(k), id),
{
    let r = s.remove(k);
    assert forall|i: int| 0 <= i < r.len() implies #[trigger] r[i] == s[if i < k {
        i
    } else {
        i + 1
    }] by {}
    if ordered(ascending, s) {
        assert forall|i: int, j: int| 0 <= i < j < r.len() implies !ahead(
            ascending,
            (#[trigger] r[j]).queue_key(),
            (#[trigger] r[i]).queue_key(),
        ) by {
            let i0 = if i < k {
                i
            } else {
                i + 1
            };
            let j0 = if j < k {
                j
            } else {
                j + 1
            };
            assert(r[i] == s[i0]);
            assert(r[j] == s[j0]);
        }
    }
    if distinct(s) {
        assert forall|i: int, j: int|
            0 <= i < r.len() && 0 <= j < r.len() && i != j implies (#[trigger] r[i]).queue_id()
            != (#[trigger] r[j]).queue_id() by {
            let i0 = if i < k {
                i
            } else {
                i + 1
            };
            let j0 = if j < k {
                j
            } else {
                j + 1
            };
            assert(r[i] == s[i0]);
            assert(r[j] == s[j0]);
        }
        lemma_holds(r, s[k].queue_id());
        if holds(r, s[k].queue_id()) {
            let i = choose|i: int| 0 <= i < r.len() && (#[trigger] r[i]).queue_id() == s[k].queue_id();
            let i0 = if i < k {
                i
            } else {
                i + 1
            };
            assert(r[i] == s[i0]);
        }
    }
    assert forall|id: T::Id| holds(r, id) implies holds(s, id) by {
        lemma_holds(r, id);
        lemma_holds(s, id);
        let i = choose|i: int| 0 <= i < r.len() && (#[trigger] r[i]).queue_id() == id;
        let i0 = if i < k {
            i
        } else {
            i + 1
        };
        assert(r[i] == s[i0]);
    }
    assert forall|id: T::Id| holds(s, id) && id != s[k].queue_id() implies holds(r, id) by {
        lemma_holds(r, id);
        lemma_holds(s, id);
        let i = choose|i: int| 0 <= i < s.len() && (#[trigger] s[i]).queue_id() == id;
        let i0 = if i < k {
            i
        } else {
            i - 1
        };
        assert(r[i0] == s[i]);
    }
}

/// Putting another entry with the same id and an equal key in the place of one leaves
/// the queue ordered, without doubles, and with the ids it had.
pub proof fn lemma_update_keeps<T: Queued>(ascending: bool, s: Seq<T>, k: int, x: T)
    requires
        0 <= k < s.len(),
        x.queue_id() == s[k].queue_id(),
        same(s[k].queue_key(), x.queue_key()),
    ensures
        ordered(ascending, s) ==> ordered(ascending, s.update(k, x)),
        distinct(s) ==> distinct(s.update(k, x)),
        forall|id: T::Id| holds(s.update(k, x), id) <==> holds(s, id),
{
    let r = s.update(k, x);
    if ordered(ascending, s) {
        assert forall|i: int, j: int| 0 <= i < j < r.len() implies !ahead(
            ascending,
            (#[trigger] r[j]).queue_key(),
            (#[trigger] r[i]).queue_key(),
        ) by {
            let a = s[i].queue_key();
            let b = s[j].queue_key();
            assert(!ahead(ascending, b, a));
            if i == k {
                if ascending {
                    T::Key::lemma_leq_transitive(x.queue_key(), a, b);
                } else {
                    T::Key::lemma_leq_transitive(b, a, x.queue_key());
                }
            } else if j == k {
                if ascending {
                    T::Key::lemma_leq_transitive(a, b, x.queue_key());
                } else {
                    T::Key::lemma_leq_transitive(x.queue_key(), b, a);
                }
            }
        }
    }
    if distinct(s) {
        assert forall|i: int, j: int|
            0 <= i < r.len() && 0 <= j < r.len() && i != j implies (#[trigger] r[i]).queue_id()
            != (#[trigger] r[j]).queue_id() by {
            assert(r[i].queue_id() == s[i].queue_id());
            assert(r[j].queue_id() == s[j].queue_id());
        }
    }
    assert forall|id: T::Id| holds(r, id) <==> holds(s, id) by {
        lemma_holds(r, id);
        lemma_holds(s, id);
        if holds(r, id) {
            let i = choose|i: int| 0 <= i < r.len() && (#[trigger] r[i]).queue_id() == id;
            assert(s[i].queue_id() == id);
        }
        if holds(s, id) {
            let i = choose|i: int| 0 <= i < s.len() && (#[trigger] s[i]).queue_id() == id;
            assert(r[i].queue_id() == id);
        }
    }
}

/// The first entry of a queue is the one that `index_of` finds under its id, so
/// `without` takes it and `replaced` with an equal key changes it in place.
pub proof fn lemma_first<T: Queued>(ascending: bool, s: Seq<T>, x: T)
    requires
        s.len() > 0,
    ensures
        index_of(s, s[0].queue_id()) == 0,
        holds(s, s[0].queue_id()),
        lookup(s, s[0].queue_id()) == Some(s[0]),
        without(s, s[0].queue_id()) == s.drop_first(),
        x.queue_id() == s[0].queue_id() && same(s[0].queue_key(), x.queue_key()) ==> replaced(
            ascending,
            s,
            x,
        ) == s.update(0, x),
{
    assert(s.remove(0) =~= s.drop_first());
}

/// An entry that joined a queue where its id was new leaves it as it was.
pub proof fn lemma_enqueued_without<T: Queued>(ascending: bool, s: Seq<T>, x: T)
    requires
        !holds(s, x.queue_id()),
    ensures
        without(enqueued(ascending, s, x), x.queue_id()) == s,
{
    let k = slot(ascending, s, x.queue_key());
    lemma_slot(ascending, s, x.queue_key());
    let r = enqueued(ascending, s, x);
    lemma_holds(s, x.queue_id());
    lemma_index_of(r, x.queue_id());
    assert(is_index(r, x.queue_id(), k)) by {
        assert forall|i: int| 0 <= i < k implies (#[trigger] r[i]).queue_id() != x.queue_id() by {
            assert(r[i] == s[i]);
        }
        assert(r[k] == x);
    }
    assert(r.remove(k) =~= s);
}

/// Of two entries with equal keys that join a queue one after the other, the first
/// stands before the second.
pub proof fn lemma_first_come_first_served<T: Queued>(ascending: bool, s: Seq<T>, a: T, b: T)
    requires
        same(a.queue_key(), b.queue_key()),
        !holds(s, a.queue_id()),
        !holds(s, b.queue_id()),
        a.queue_id() != b.queue_id(),
    ensures
        ({
            let r = enqueued(ascending, enqueued(ascending, s, a), b);
            index_of(r, a.queue_id()) < index_of(r, b.queue_id()) < r.len()
        }),
{
    let ka = slot(ascending, s, a.queue_key());
    lemma_slot(ascending, s, a.queue_key());
    let sa = enqueued(ascending, s, a);
    let kb = slot(ascending, sa, b.queue_key());
    lemma_slot(ascending, sa, b.queue_key());
    let r = enqueued(ascending, sa, b);
    assert(sa[ka] == a);
    T::Key::lemma_leq_total(a.queue_key(), b.queue_key());
    // `b` does not pass `a`, so its slot lies behind that of `a`.
    assert(kb > ka) by {
        if kb <= ka {
            if kb < ka {
                assert(sa[kb] == s[kb]);
                assert(!ahead(ascending, a.queue_key(), s[kb].queue_key()));
                if ascending {
                    crate::model::total_order::lemma_below_transitive(
                        a.queue_key(),
                        b.queue_key(),
                        s[kb].queue_key(),
                    );
                } else {
                    crate::model::total_order::lemma_below_transitive(
                        s[kb].queue_key(),
                        b.queue_key(),
                        a.queue_key(),
                    );
                }
            }
            assert(false);
        }
    }
    lemma_holds(s, a.queue_id());
    lemma_holds(s, b.queue_id());
    lemma_index_of(r, a.queue_id());
    lemma_index_of(r, b.queue_id());
    assert(is_index(r, a.queue_id(), ka)) by {
        assert forall|i: int| 0 <= i < ka implies (#[trigger] r[i]).queue_id() != a.queue_id() by {
            assert(r[i] == sa[i]);
            assert(sa[i] == s[i]);
        }
        assert(r[ka] == sa[ka]);
    }
    assert(is_index(r, b.queue_id(), kb)) by {
        assert forall|i: int| 0 <= i < kb implies (#[trigger] r[i]).queue_id() != b.queue_id() by {
            assert(r[i] == sa[i]);
            if i < ka {
                assert(sa[i] == s[i]);
            } else if i > ka {
                assert(sa[i] == s[i - 1]);
            }
        }
        assert(r[kb] == b);
    }
}

/// Without its first entry a queue is still ordered and without doubles, it has no id
/// that it did not have, and it has lost the id of that entry if it had no doubles.
pub proof fn lemma_drop_first_keeps<T: Queued>(ascending: bool, s: Seq<T>)
    requires
        s.len() > 0,
    ensures
        ordered(ascending, s) ==> ordered(ascending, s.drop_first()),
        distinct(s) ==> distinct(s.drop_first()),
        forall|id: T::Id| holds(s.drop_first(), id) ==> holds(s, id),
        distinct(s) ==> !holds(s.drop_first(), s[0].queue_id()),
        forall|id: T::Id| holds(s, id) && id != s[0].queue_id() ==> holds(s.drop_first(), id),
{
    assert(s.remove(0) =~= s.drop_first());
    lemma_remove_keeps(ascending, s, 0);
}

/// A queue without doubles that lets an entry with a new id join it, or that loses an
/// entry, holds an id as the lemmas above say; this one says it of `without`.
pub proof fn lemma_without_keeps<T: Queued>(ascending: bool, s: Seq<T>, id: T::Id)
    ensures
        ordered(ascending, s) ==> ordered(ascending, without(s, id)),
        distinct(s) ==> distinct(without(s, id)),
        forall|other: T::Id| holds(without(s, id), other) ==> holds(s, other),
        distinct(s) ==> !holds(without(s, id), id),
        forall|other: T::Id| holds(s, other) && other != id ==> holds(without(s, id), other),
{
    lemma_index_of(s, id);
    if holds(s, id) {
        lemma_remove_keeps(ascending, s, index_of(s, id));
    }
}

/// What `replaced` keeps: the order of the queue, that it has no doubles, and its ids.
pub proof fn lemma_replaced_keeps<T: Queued>(ascending: bool, s: Seq<T>, x: T)
    ensures
        ordered(ascending, s) ==> ordered(ascending, replaced(ascending, s, x)),
        distinct(s) ==> distinct(replaced(ascending, s, x)),
        forall|id: T::Id| holds(replaced(ascending, s, x), id) <==> holds(s, id),
{
    let i = index_of(s, x.queue_id());
    lemma_index_of(s, x.queue_id());
    if holds(s, x.queue_id()) {
        if same(s[i].queue_key(), x.queue_key()) {
            lemma_update_keeps(ascending, s, i, x);
        } else {
            let t = s.remove(i);
            lemma_remove_keeps(ascending, s, i);
            if ordered(ascending, s) {
                lemma_enqueued_ordered(ascending, t, x);
            }
            if distinct(s) {
                lemma_enqueued_distinct(ascending, t, x);
            }
            assert forall|id: T::Id| holds(replaced(ascending, s, x), id) <==> holds(s, id) by {
                lemma_enqueued_holds(ascending, t, x, id);
            }
        }
    }
}

/// Past the first `i` entries of a queue, where a key passes none of them, its slot
/// lies `i` places nearer.
pub proof fn lemma_slot_skip<T: Queued>(ascending: bool, s: Seq<T>, key: T::Key, i: int)
    requires
        0 <= i <= slot(ascending, s, key),
    ensures
        slot(ascending, s.skip(i), key) == slot(ascending, s, key) - i,
{
    let k = slot(ascending, s, key);
    lemma_slot(ascending, s, key);
    let t = s.skip(i);
    lemma_slot(ascending, t, key);
    assert(is_slot(ascending, t, key, k - i)) by {
        assert forall|j: int| 0 <= j < k - i implies !ahead(
            ascending,
            key,
            (#[trigger] t[j]).queue_key(),
        ) by {
            assert(t[j] == s[i + j]);
        }
        if k - i < t.len() {
            assert(t[k - i] == s[k]);
        }
    }
}

/// What does not go ahead of a thing that does not go ahead of a third does not go
/// ahead of the third.
pub proof fn lemma_not_ahead_transitive<K: TotalOrder>(ascending: bool, a: K, b: K, c: K)
    requires
        !ahead(ascending, b, a),
        !ahead(ascending, c, b),
    ensures
        !ahead(ascending, c, a),
{
    if ascending {
        K::lemma_leq_transitive(a, b, c);
    } else {
        K::lemma_leq_transitive(c, b, a);
    }
}

/// Every entry of a queue that an entry joined is that entry or was there before.
pub proof fn lemma_enqueued_entry<T: Queued>(ascending: bool, s: Seq<T>, x: T, i: int)
    requires
        0 <= i < enqueued(ascending, s, x).len(),
    ensures
        enqueued(ascending, s, x)[i] == x || exists|j: int|
            0 <= j < s.len() && #[trigger] s[j] == enqueued(ascending, s, x)[i],
{
    let k = slot(ascending, s, x.queue_key());
    lemma_slot(ascending, s, x.queue_key());
    let r = enqueued(ascending, s, x);
    if i < k {
        assert(s[i] == r[i]);
    } else if i > k {
        assert(s[i - 1] == r[i]);
    }
}

/// `lookup` finds an entry exactly where some entry has the id, and what it finds
/// has the id and is an entry of the queue.
pub proof fn lemma_lookup<T: Queued>(s: Seq<T>, id: T::Id)
    ensures
        lookup(s, id) is Some <==> exists|i: int|
            0 <= i < s.len() && (#[trigger] s[i]).queue_id() == id,
        lookup(s, id) matches Some(x) ==> x.queue_id() == id && s.contains(x),
{
    lemma_holds(s, id);
    lemma_index_of(s, id);
}

} // verus!
