//! The cache engine: the store, the expiry-notification queue, and the
//! decisions of the background cleaner.
use vstd::prelude::*;
use std::time::Instant;
use chashmap::CHashMap;
use crate::clock::{instant_now, nanos_since};
use crate::metrics::{add_size, count_query, set_items, sub_size, CacheMetrics};
use crate::model::{
    expiry_for, get_model, lemma_total_size_put, lemma_total_size_remove, put_model,
    remove_if_older_model, total_size, utf8_len, StoreModel,
};
use crate::queue::{queue_drain, queue_new, queue_push, queued, ExpiryQueue};
use crate::store::{
    store_compact, store_contents, store_get, store_insert, store_is_compact, store_len, store_new,
    store_remove,
};

verus! {

/// Relies on `String::len`: the number of bytes of the value's UTF-8 form.
#[verifier::external_body]
fn byte_len(s: &String) -> (r: usize)
    ensures
        r == utf8_len(s@),
{
    s.len()
}

/// A key/value cache whose entries live for a fixed duration after their
/// most recent write. Every write queues an expiry notification; the cleaner
/// takes the queued notifications and retires entries whose expiry passed.
pub struct SimpleCache {
    /// How long an entry lives after its last write, in nanoseconds.
    key_live_duration: u128,
    /// The instant that time is measured from.
    epoch: Instant,
    /// The latest clock reading handed out, in nanoseconds since `epoch`.
    last_reading: u128,
    backing_store: CHashMap<String, (String, u128)>,
    queue: ExpiryQueue,
    metrics: CacheMetrics,
    /// The sum of everything this cache added to and took from the size gauge.
    size_reported: Ghost<int>,
    /// The last value this cache gave the item gauge (zero before any).
    items_reported: Ghost<int>,
    /// How many hits this cache has counted.
    hits: Ghost<nat>,
    /// How many misses this cache has counted.
    misses: Ghost<nat>,
}

impl SimpleCache {
    /// The live entries: each key to its value and expiry.
    pub closed spec fn entries(&self) -> StoreModel {
        store_contents(self.backing_store)
    }

    /// The queued expiry notifications, oldest first.
    pub closed spec fn pending(&self) -> Seq<(Seq<char>, u128)> {
        queued(self.queue)
    }

    /// The time-to-live of every entry, in nanoseconds.
    pub closed spec fn ttl(&self) -> u128 {
        self.key_live_duration
    }

    /// The net amount this cache has written to the size gauge.
    pub closed spec fn reported_size(&self) -> int {
        self.size_reported@
    }

    /// What this cache last wrote to the item gauge.
    pub closed spec fn reported_items(&self) -> int {
        self.items_reported@
    }

    /// How many hits this cache has added to the query counter.
    pub closed spec fn hits(&self) -> nat {
        self.hits@
    }

    /// How many misses this cache has added to the query counter.
    pub closed spec fn misses(&self) -> nat {
        self.misses@
    }

    /// The latest clock reading handed out by `now`.
    pub closed spec fn last_reading(&self) -> u128 {
        self.last_reading
    }

    /// The telemetry this cache writes to.
    pub closed spec fn metrics(&self) -> CacheMetrics {
        self.metrics
    }

    /// The store's table has a free bucket for every lookup.
    pub closed spec fn store_ready(&self) -> bool {
        store_is_compact(self.backing_store)
    }

    /// The time-to-live, the telemetry and the clock are those of `other`.
    pub open spec fn same_setup(&self, other: &Self) -> bool {
        &&& self.ttl() == other.ttl()
        &&& self.metrics() == other.metrics()
        &&& self.last_reading() == other.last_reading()
    }

    /// The hit and miss counts are those of `other`.
    pub open spec fn same_queries(&self, other: &Self) -> bool {
        &&& self.hits() == other.hits()
        &&& self.misses() == other.misses()
    }

    /// The gauges' net values are those of `other`.
    pub open spec fn same_gauges(&self, other: &Self) -> bool {
        &&& self.reported_size() == other.reported_size()
        &&& self.reported_items() == other.reported_items()
    }

    /// The store is finite and ready for lookups, and the gauges that this
    /// cache writes agree with it: the size gauge with the sum of the values'
    /// byte lengths, the item gauge with the number of keys.
    pub open spec fn wf(&self) -> bool {
        &&& self.entries().dom().finite()
        &&& self.store_ready()
        &&& self.reported_size() == total_size(self.entries())
        &&& self.reported_items() == self.entries().len()
    }

    /// A cache with no entry and no notification, whose entries live for
    /// `key_live_duration_nanos` nanoseconds after their last write, and
    /// which writes its telemetry to `metrics`.
    pub fn new(key_live_duration_nanos: u128, metrics: CacheMetrics) -> (r: Self)
        ensures
            r.wf(),
            r.ttl() == key_live_duration_nanos,
            r.metrics() == metrics,
            r.last_reading() == 0,
            r.entries() == StoreModel::empty(),
            r.pending() == Seq::<(Seq<char>, u128)>::empty(),
            r.reported_size() == 0,
            r.reported_items() == 0,
            r.hits() == 0,
            r.misses() == 0,
    {
        let r = SimpleCache {
            key_live_duration: key_live_duration_nanos,
            epoch: instant_now(),
            last_reading: 0,
            backing_store: store_new(),
            queue: queue_new(),
            metrics,
            size_reported: Ghost(0),
            items_reported: Ghost(0),
            hits: Ghost(0),
            misses: Ghost(0),
        };
        proof {
            assert(r.entries().dom() =~= Set::<Seq<char>>::empty());
        }
        r
    }

    /// The time-to-live of every entry, in nanoseconds.
    pub fn key_live_duration(&self) -> (r: u128)
        ensures
            r == self.ttl(),
    {
        self.key_live_duration
    }

    /// The current instant: nanoseconds since the cache was made. Readings
    /// never go down.
    pub fn now(&mut self) -> (r: u128)
        requires
            old(self).wf(),
        ensures
            final(self).wf(),
            r >= old(self).last_reading(),
            final(self).last_reading() == r,
            final(self).ttl() == old(self).ttl(),
            final(self).metrics() == old(self).metrics(),
            final(self).entries() == old(self).entries(),
            final(self).pending() == old(self).pending(),
            final(self).same_gauges(old(self)),
            final(self).same_queries(old(self)),
    {
        let t = nanos_since(&self.epoch);
        if t > self.last_reading {
            self.last_reading = t;
        }
        self.last_reading
    }

    /// The number of live entries.
    pub fn len(&self) -> (r: usize)
        ensures
            r == self.entries().len(),
    {
        store_len(&self.backing_store)
    }

    /// The value under `key` passed through `as_value`, or `None` if there is
    /// no entry. Counts a hit or a miss. Expiry is not checked here: an entry
    /// stays visible until the cleaner retires it.
    pub fn get<V, F: Fn(&String) -> V>(&mut self, key: &str, as_value: F) -> (r: Option<V>)
        requires
            old(self).wf(),
            forall|s: &String| as_value.requires((s,)),
        ensures
            final(self).wf(),
            final(self).same_setup(old(self)),
            final(self).same_gauges(old(self)),
            final(self).entries() == old(self).entries(),
            final(self).pending() == old(self).pending(),
            r.is_some() == get_model(old(self).entries(), key@).is_some(),
            r.is_some() ==> exists|s: String|
                s@ == get_model(old(self).entries(), key@).unwrap()
                    && #[trigger] as_value.ensures((&s,), r.unwrap()),
            final(self).hits() == old(self).hits() + if r.is_some() { 1nat } else { 0nat },
            final(self).misses() == old(self).misses() + if r.is_some() { 0nat } else { 1nat },
    {
        let k = key.to_owned();
        match store_get(&self.backing_store, &k) {
            Some(entry) => {
                count_query(&self.metrics, "hit");
                self.hits = Ghost(self.hits@ + 1);
                let r = Some(as_value(&entry.0));
                proof {
                    assert(entry.0@ == get_model(old(self).entries(), key@).unwrap());
                    assert(as_value.ensures((&entry.0,), r.unwrap()));
                }
                r
            },
            None => {
                count_query(&self.metrics, "miss");
                self.misses = Ghost(self.misses@ + 1);
                None
            },
        }
    }

    /// Writes `value` under `key` at instant `now`: the entry is replaced by
    /// `value` expiring one time-to-live after `now`, the gauges are adjusted
    /// by the change, and a notification of the new expiry is queued.
    pub fn put_at(&mut self, key: &str, value: String, now: u128)
        requires
            old(self).wf(),
        ensures
            final(self).wf(),
            final(self).same_setup(old(self)),
            final(self).same_queries(old(self)),
            final(self).entries() == put_model(
                old(self).entries(),
                key@,
                value@,
                expiry_for(now, old(self).ttl()),
            ),
            final(self).pending() == old(self).pending().push(
                (key@, expiry_for(now, old(self).ttl())),
            ),
    {
        let expiry: u128 = if now > u128::MAX - self.key_live_duration {
            u128::MAX
        } else {
            now + self.key_live_duration
        };
        let value_size = byte_len(&value);
        let k = key.to_owned();
        proof {
            lemma_total_size_put(self.entries(), key@, value@, expiry);
        }
        let ghost before = self.entries();
        let replaced = store_insert(&mut self.backing_store, k.clone(), value, expiry);
        match replaced {
            Some(old_value) => {
                let old_size = byte_len(&old_value);
                sub_size(&self.metrics, old_size);
                self.size_reported = Ghost(self.size_reported@ - old_size);
            },
            None => {},
        }
        let items = store_len(&self.backing_store);
        set_items(&self.metrics, items);
        self.items_reported = Ghost(items as int);
        add_size(&self.metrics, value_size);
        self.size_reported = Ghost(self.size_reported@ + value_size);
        queue_push(&mut self.queue, k, expiry);
        proof {
            assert(before == old(self).entries());
        }
    }

    /// Writes `value` under `key` at the instant `now` reads (see `put_at`);
    /// that reading is kept as the latest.
    pub fn put(&mut self, key: &str, value: String)
        requires
            old(self).wf(),
        ensures
            final(self).wf(),
            final(self).ttl() == old(self).ttl(),
            final(self).metrics() == old(self).metrics(),
            final(self).same_queries(old(self)),
            final(self).last_reading() >= old(self).last_reading(),
            final(self).entries() == put_model(
                old(self).entries(),
                key@,
                value@,
                expiry_for(final(self).last_reading(), old(self).ttl()),
            ),
            final(self).pending() == old(self).pending().push(
                (key@, expiry_for(final(self).last_reading(), old(self).ttl())),
            ),
    {
        let now = self.now();
        self.put_at(key, value, now);
    }

    /// Retires the entry under `key` if its expiry is not later than `expiry`
    /// (the freshness check); a missing key or a fresher entry is left alone.
    pub fn remove_key_if_older_than(&mut self, key: &str, expiry: u128)
        requires
            old(self).wf(),
        ensures
            final(self).wf(),
            final(self).same_setup(old(self)),
            final(self).same_queries(old(self)),
            final(self).pending() == old(self).pending(),
            final(self).entries() == remove_if_older_model(old(self).entries(), key@, expiry),
            final(self).entries() == old(self).entries() ==> final(self).same_gauges(old(self)),
    {
        let k = key.to_owned();
        match store_get(&self.backing_store, &k) {
            Some(entry) => {
                if entry.1 <= expiry {
                    proof {
                        lemma_total_size_remove(self.entries(), key@);
                    }
                    store_remove(&mut self.backing_store, &k);
                    store_compact(&mut self.backing_store);
                    let items = store_len(&self.backing_store);
                    set_items(&self.metrics, items);
                    self.items_reported = Ghost(items as int);
                    let old_size = byte_len(&entry.0);
                    sub_size(&self.metrics, old_size);
                    self.size_reported = Ghost(self.size_reported@ - old_size);
                }
            },
            None => {},
        }
    }

    /// Takes every queued notification, oldest first, without waiting for
    /// more.
    pub fn take_pending(&mut self) -> (r: Vec<(String, u128)>)
        requires
            old(self).wf(),
        ensures
            final(self).wf(),
            final(self).same_setup(old(self)),
            final(self).same_queries(old(self)),
            final(self).same_gauges(old(self)),
            final(self).entries() == old(self).entries(),
            final(self).pending() == Seq::<(Seq<char>, u128)>::empty(),
            r@.len() == old(self).pending().len(),
            forall|i: int| 0 <= i < r@.len() ==> (#[trigger] r@[i]).0@ == old(self).pending()[i].0
                && r@[i].1 == old(self).pending()[i].1,
    {
        queue_drain(&mut self.queue)
    }

    /// One step of the cleaner on the notification `(key, expiry)` at instant
    /// `now`: while the expiry lies ahead, it returns how long to wait, in
    /// nanoseconds, and changes nothing; once it has come, it applies the
    /// conditional delete and returns zero.
    pub fn clean_step(&mut self, key: &str, expiry: u128, now: u128) -> (r: u128)
        requires
            old(self).wf(),
        ensures
            final(self).wf(),
            final(self).same_setup(old(self)),
            final(self).same_queries(old(self)),
            final(self).pending() == old(self).pending(),
            expiry > now ==> r == expiry - now && final(self).entries() == old(self).entries()
                && final(self).same_gauges(old(self)),
            expiry <= now ==> r == 0 && final(self).entries() == remove_if_older_model(
                old(self).entries(),
                key@,
                expiry,
            ),
    {
        if expiry > now {
            expiry - now
        } else {
            self.remove_key_if_older_than(key, expiry);
            0
        }
    }
}

} // verus!
