use std::time::Duration;
use ttl_cache::cache::SimpleCache;
use ttl_cache::metrics::CacheMetrics;

const MS: u128 = 1_000_000;

fn shared(metrics: &CacheMetrics) -> CacheMetrics {
    CacheMetrics {
        queries: metrics.queries.clone(),
        items: metrics.items.clone(),
        size: metrics.size.clone(),
    }
}

fn new_cache() -> (SimpleCache, CacheMetrics) {
    let metrics = CacheMetrics::new();
    let cache = SimpleCache::new(Duration::from_millis(4).as_nanos(), shared(&metrics));
    (cache, metrics)
}


fn run_cleaner_at(cache: &mut SimpleCache, now: u128) -> Vec<u128> {
    let mut waits = Vec::new();
    for (key, expiry) in cache.take_pending() {
        waits.push(cache.clean_step(&key, expiry, now));
    }
    waits
}

#[test]
fn cach_hit_returns_value() {
    let (mut sut, _) = new_cache();

    sut.put("", "".to_string());
    let result = sut.get("", |v: &String| v.clone());

    assert_eq!(result, Some("".to_string()));
}

#[test]
fn cache_miss_returns_none() {
    let (mut sut, _) = new_cache();

    let result = sut.get("bar", |v: &String| v.clone());

    assert_eq!(result, None);
}

#[test]
fn expired_items_are_removed_from_the_cache() {
    let (mut sut, _) = new_cache();

    sut.put_at("", "".to_string(), 0);
    let waits = run_cleaner_at(&mut sut, 5 * MS);
    let result = sut.get("", |v: &String| v.clone());

    assert_eq!(waits, vec![0]);
    assert_eq!(result, None);
}

#[test]
fn items_that_are_updated_with_new_value_do_not_expire_on_previous_expiry() {
    let (mut sut, _) = new_cache();

    sut.put_at("", "old_value".to_string(), 0);
    sut.put_at("", "new_value".to_string(), 5 * MS);
    let pending = sut.take_pending();
    let first = &pending[0];
    let wait = sut.clean_step(&first.0, first.1, 5 * MS);
    let result = sut.get("", |v: &String| v.clone());

    assert_eq!(wait, 0);
    assert_eq!(result, Some("new_value".to_string()));
}

#[test]
fn unexpired_values_are_not_removed() {
    let (mut sut, _) = new_cache();

    sut.put("", "old_value".to_string());

    let now = sut.now();
    sut.remove_key_if_older_than("", now);
    let result = sut.get("", |v: &String| v.clone());

    assert_eq!(result, Some("old_value".to_string()));
}

#[test]
fn expired_values_are_removed() {
    let (mut sut, _) = new_cache();

    sut.put("", "old_value".to_string());

    let later = sut.now() + 5 * MS;
    sut.remove_key_if_older_than("", later);
    let result = sut.get("", |v: &String| v.clone());

    assert_eq!(result, None);
}

#[test]
fn key_that_does_not_exist_does_not_add_anything_to_cache() {
    let (mut sut, _) = new_cache();

    let later = sut.now() + 5 * MS;
    sut.remove_key_if_older_than("", later);
    let result = sut.get("", |v: &String| v.clone());

    assert_eq!(result, None);
}

#[test]
fn metrics_query_hit_is_incremented() {
    let (mut sut, metrics) = new_cache();

    sut.put("", "".to_string());
    let _ = sut.get("", |v: &String| v.clone());

    assert_eq!(
        metrics
            .queries
            .get_metric_with_label_values(&["hit"])
            .unwrap()
            .get(),
        1
    );
}

#[test]
fn metrics_query_miss_is_incremented() {
    let (mut sut, metrics) = new_cache();

    let _ = sut.get("", |v: &String| v.clone());

    assert_eq!(
        metrics
            .queries
            .get_metric_with_label_values(&["miss"])
            .unwrap()
            .get(),
        1
    );
}

#[test]
fn metrics_cache_put_increments_items() {
    let (mut sut, metrics) = new_cache();

    sut.put("", "".to_string());

    assert_eq!(metrics.items.get(), 1);
}

#[test]
fn metrics_cache_put_increases_size() {
    let (mut sut, metrics) = new_cache();
    let value = "AAA".to_string();
    let expected = value.len() as i64;

    sut.put("", value);

    assert_eq!(metrics.size.get(), expected);
}

#[test]
fn metrics_cache_put_replacing_a_value_adjusts_size() {
    let (mut sut, metrics) = new_cache();
    let value1 = "AAAAA".to_string();
    let value2 = "BB".to_string();
    let expected = value2.len() as i64;

    sut.put("", value1);
    sut.put("", value2);

    assert_eq!(metrics.size.get(), expected);
}
