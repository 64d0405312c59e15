//! The mathematical model of the cache: a map from key to (value, expiry),
//! the operations on it, and the laws they obey.
use vstd::prelude::*;

verus! {

/// A stored entry: the value and the instant (in nanoseconds since the
/// cache's epoch) after which it may be retired.
pub type EntryModel = (Seq<char>, u128);

/// The store: key to entry.
pub type StoreModel = Map<Seq<char>, EntryModel>;

/// The expiry instant given to a write made at `now` with time-to-live `ttl`;
/// it saturates at the largest representable instant.
pub open spec fn expiry_for(now: u128, ttl: u128) -> u128 {
    if now + ttl > u128::MAX {
        u128::MAX
    } else {
        (now + ttl) as u128
    }
}

/// What a read of `k` observes.
pub open spec fn get_model(m: StoreModel, k: Seq<char>) -> Option<Seq<char>> {
    if m.contains_key(k) {
        Some(m[k].0)
    } else {
        None
    }
}

/// A write: the entry for `k` is replaced wholesale.
pub open spec fn put_model(m: StoreModel, k: Seq<char>, v: Seq<char>, e: u128) -> StoreModel {
    m.insert(k, (v, e))
}

/// The freshness check: an entry is retired by a notification carrying
/// expiry `e` only if its own expiry is not later than `e`.
pub open spec fn is_stale(entry: EntryModel, e: u128) -> bool {
    entry.1 <= e
}

/// The conditional delete driven by an expiry notification `(k, e)`.
pub open spec fn remove_if_older_model(m: StoreModel, k: Seq<char>, e: u128) -> StoreModel {
    if m.contains_key(k) && is_stale(m[k], e) {
        m.remove(k)
    } else {
        m
    }
}

/// The number of bytes that `c` takes in UTF-8.
pub open spec fn utf8_width(c: char) -> nat {
    if (c as u32) < 0x80 {
        1
    } else if (c as u32) < 0x800 {
        2
    } else if (c as u32) < 0x10000 {
        3
    } else {
        4
    }
}

/// The number of bytes that `s` takes in UTF-8.
pub open spec fn utf8_len(s: Seq<char>) -> nat
    decreases s.len(),
{
    if s.len() == 0 {
        0
    } else {
        utf8_len(s.drop_last()) + utf8_width(s.last())
    }
}

/// The sum of the byte lengths of all values held in `m`.
pub open spec fn total_size(m: StoreModel) -> int
    decreases m.dom().len(),
    via total_size_decreases
{
    if m.dom().finite() && m.dom().len() > 0 {
        let k = m.dom().choose();
        utf8_len(m[k].0) + total_size(m.remove(k))
    } else {
        0
    }
}

#[via_fn]
proof fn total_size_decreases(m: StoreModel) {
    if m.dom().finite() && m.dom().len() > 0 {
        vstd::set::axiom_set_choose_len(m.dom());
        assert(m.remove(m.dom().choose()).dom() =~= m.dom().remove(m.dom().choose()));
        vstd::set::axiom_set_remove_len(m.dom(), m.dom().choose());
    }
}

/// One step of a store's history: a write `(true, key, value, expiry)` or a
/// conditional delete `(false, key, _, notified expiry)`.
pub type StoreOp = (bool, Seq<char>, Seq<char>, u128);

/// The store that a history of writes and conditional deletes makes from `m`.
pub open spec fn apply_ops(m: StoreModel, ops: Seq<StoreOp>) -> StoreModel
    decreases ops.len(),
{
    if ops.len() == 0 {
        m
    } else {
        let o = ops.last();
        let before = apply_ops(m, ops.drop_last());
        if o.0 {
            put_model(before, o.1, o.2, o.3)
        } else {
            remove_if_older_model(before, o.1, o.3)
        }
    }
}

/// Removing any present key from a finite store takes exactly that key's
/// value size off the total.
pub proof fn lemma_total_size_remove(m: StoreModel, k: Seq<char>)
    requires
        m.dom().finite(),
        m.contains_key(k),
    ensures
        total_size(m) == utf8_len(m[k].0) + total_size(m.remove(k)),
    decreases m.dom().len(),
{
    assert(m.dom().len() > 0) by {
        vstd::set::axiom_set_contains_len(m.dom(), k);
    }
    let j = m.dom().choose();
    vstd::set::axiom_set_choose_len(m.dom());
    if j != k {
        let mj = m.remove(j);
        let mk = m.remove(k);
        lemma_total_size_remove(mj, k);
        lemma_total_size_remove(mk, j);
        assert(mj.remove(k) =~= mk.remove(j));
    } else {
        assert(m.remove(j) =~= m.remove(k));
    }
}

/// A write changes the total by the new value's size, less the size of the
/// value it replaces.
pub proof fn lemma_total_size_put(m: StoreModel, k: Seq<char>, v: Seq<char>, e: u128)
    requires
        m.dom().finite(),
    ensures
        put_model(m, k, v, e).dom().finite(),
        total_size(put_model(m, k, v, e)) == total_size(m) + utf8_len(v) - (if m.contains_key(k) {
            utf8_len(m[k].0) as int
        } else {
            0
        }),
{
    let p = put_model(m, k, v, e);
    lemma_total_size_remove(p, k);
    if m.contains_key(k) {
        lemma_total_size_remove(m, k);
        assert(p.remove(k) =~= m.remove(k));
    } else {
        assert(p.remove(k) =~= m);
    }
}

} // verus!
