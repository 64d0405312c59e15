//! The laws the cache obeys, stated over the model that the operations'
//! contracts use.
use vstd::prelude::*;
use crate::cache::SimpleCache;
use crate::model::{
    apply_ops, expiry_for, get_model, put_model, remove_if_older_model, total_size, StoreModel,
    StoreOp,
};

verus! {

/// A key that no write names is never found, whatever history of writes of
/// other keys and conditional deletes a new cache has seen.
pub proof fn law_unwritten_key_misses(ops: Seq<StoreOp>, k: Seq<char>)
    requires
        forall|i: int| 0 <= i < ops.len() && (#[trigger] ops[i]).0 ==> ops[i].1 != k,
    ensures
        get_model(apply_ops(StoreModel::empty(), ops), k).is_none(),
    decreases ops.len(),
{
    if ops.len() > 0 {
        let rest = ops.drop_last();
        assert(forall|i: int| 0 <= i < rest.len() ==> rest[i] == ops[i]);
        law_unwritten_key_misses(rest, k);
        assert(ops.last() == ops[ops.len() - 1]);
    }
}

/// Expiries follow the clock: a write at a later reading never expires
/// earlier. With `put`'s readings, which never go down, a key's expiry never
/// decreases from one write to the next.
pub proof fn law_later_reading_later_expiry(t1: u128, t2: u128, ttl: u128)
    requires
        t1 <= t2,
    ensures
        expiry_for(t1, ttl) <= expiry_for(t2, ttl),
{
}

/// A read right after a write of `k` finds the value written.
pub proof fn law_put_then_get(m: StoreModel, k: Seq<char>, v: Seq<char>, e: u128)
    ensures
        get_model(put_model(m, k, v, e), k) == Some(v),
{
}

/// Of two writes of one key, the second wins, whatever the cleaner did in
/// between (here: one conditional delete of any key at any expiry).
pub proof fn law_last_write_wins(
    m: StoreModel,
    k: Seq<char>,
    v1: Seq<char>,
    e1: u128,
    v2: Seq<char>,
    e2: u128,
    clean_key: Seq<char>,
    clean_expiry: u128,
)
    ensures
        get_model(
            put_model(remove_if_older_model(put_model(m, k, v1, e1), clean_key, clean_expiry), k, v2, e2),
            k,
        ) == Some(v2),
{
}

/// The notification of an earlier write does not retire a later write of the
/// same key whose expiry is later.
pub proof fn law_stale_notification_ignored(
    m: StoreModel,
    k: Seq<char>,
    v1: Seq<char>,
    e1: u128,
    v2: Seq<char>,
    e2: u128,
)
    requires
        e1 < e2,
    ensures
        get_model(remove_if_older_model(put_model(put_model(m, k, v1, e1), k, v2, e2), k, e1), k)
            == Some(v2),
{
}

/// A conditional delete leaves the store as it is when the entry's expiry is
/// later than the notified one.
pub proof fn law_fresher_entry_kept(m: StoreModel, k: Seq<char>, e: u128)
    requires
        m.contains_key(k),
        m[k].1 > e,
    ensures
        remove_if_older_model(m, k, e) == m,
{
}

/// A conditional delete of a key with no entry changes nothing.
pub proof fn law_missing_key_untouched(m: StoreModel, k: Seq<char>, e: u128)
    requires
        !m.contains_key(k),
    ensures
        remove_if_older_model(m, k, e) == m,
{
}

/// The notification of a write, once acted on, retires that write if no
/// later write came in between.
pub proof fn law_own_notification_retires(m: StoreModel, k: Seq<char>, v: Seq<char>, e: u128)
    ensures
        get_model(remove_if_older_model(put_model(m, k, v, e), k, e), k).is_none(),
{
}

/// In every well-formed cache, the size gauge's net total equals the sum of
/// the byte lengths of the values held, and the item gauge the number of keys.
pub proof fn law_gauges_match_store(c: &SimpleCache)
    requires
        c.wf(),
    ensures
        c.reported_size() == total_size(c.entries()),
        c.reported_items() == c.entries().len(),
{
}

} // verus!
