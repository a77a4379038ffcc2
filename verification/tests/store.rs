use dingtalk::credential::{AppCredential, StoredValue};
use dingtalk::store::MemoryStore;

fn token(text: &str) -> StoredValue {
    StoredValue::Token(text.to_string())
}

fn record(token: &str, corp: &str) -> StoredValue {
    StoredValue::AppRecord(AppCredential {
        access_token: token.to_string(),
        refresh_token: "refresh".to_string(),
        corp_id: corp.to_string(),
        expire_in: 7200,
    })
}

#[test]
fn new_store_is_empty() {
    let store = MemoryStore::new();
    assert_eq!(store.now(), 0);
    assert_eq!(store.get("anything"), None);
    assert_eq!(store.get(""), None);
}

#[test]
fn with_clock_starts_at_the_given_time() {
    let store = MemoryStore::with_clock(1_000);
    assert_eq!(store.now(), 1_000);
    assert_eq!(store.get("k"), None);
}

#[test]
fn set_is_read_back() {
    let mut store = MemoryStore::new();
    store.set("k", token("tok1"));
    assert_eq!(store.get("k"), Some(token("tok1")));
    assert_eq!(store.get("other"), None);
}

#[test]
fn set_never_expires() {
    let mut store = MemoryStore::new();
    store.set("k", record("tok1", "corp"));
    store.advance(u64::MAX);
    assert_eq!(store.get("k"), Some(record("tok1", "corp")));
}

#[test]
fn ttl_is_honoured() {
    let mut store = MemoryStore::new();
    store.set_with_ttl("k", token("tok2"), 7200);
    assert_eq!(store.get("k"), Some(token("tok2")));
    store.advance(7199);
    assert_eq!(store.get("k"), Some(token("tok2")));
    store.advance(1);
    assert_eq!(store.now(), 7200);
    assert_eq!(store.get("k"), None);
    store.advance(100);
    assert_eq!(store.get("k"), None);
}

#[test]
fn ttl_counts_from_the_time_of_the_write() {
    let mut store = MemoryStore::with_clock(500);
    store.advance(500);
    store.set_with_ttl("k", token("tok"), 10);
    store.advance(9);
    assert_eq!(store.get("k"), Some(token("tok")));
    store.advance(1);
    assert_eq!(store.get("k"), None);
}

#[test]
fn zero_ttl_is_never_readable() {
    let mut store = MemoryStore::new();
    store.set_with_ttl("k", token("tok"), 0);
    assert_eq!(store.get("k"), None);
}

#[test]
fn zero_ttl_write_hides_the_earlier_value() {
    let mut store = MemoryStore::new();
    store.set("k", token("old"));
    store.set_with_ttl("k", token("new"), 0);
    assert_eq!(store.get("k"), None);
}

#[test]
fn write_replaces_value_and_expiry() {
    let mut store = MemoryStore::new();
    store.set_with_ttl("k", token("first"), 10);
    store.advance(5);
    store.set_with_ttl("k", token("second"), 10);
    store.advance(9);
    assert_eq!(store.get("k"), Some(token("second")));
    store.advance(1);
    assert_eq!(store.get("k"), None);
}

#[test]
fn set_after_ttl_write_removes_the_expiry() {
    let mut store = MemoryStore::new();
    store.set_with_ttl("k", token("first"), 10);
    store.set("k", token("second"));
    store.advance(1_000_000);
    assert_eq!(store.get("k"), Some(token("second")));
}

#[test]
fn write_after_expiry_is_readable_again() {
    let mut store = MemoryStore::new();
    store.set_with_ttl("k", token("first"), 10);
    store.advance(10);
    assert_eq!(store.get("k"), None);
    store.set_with_ttl("k", token("second"), 10);
    assert_eq!(store.get("k"), Some(token("second")));
}

#[test]
fn writes_under_other_keys_leave_a_key_alone() {
    let mut store = MemoryStore::new();
    store.set_with_ttl("a", token("ta"), 10);
    store.set("b", token("tb"));
    store.set_with_ttl("c", token("tc"), 1);
    store.set("b", token("tb2"));
    assert_eq!(store.get("a"), Some(token("ta")));
    assert_eq!(store.get("b"), Some(token("tb2")));
    assert_eq!(store.get("c"), Some(token("tc")));
    store.advance(1);
    assert_eq!(store.get("a"), Some(token("ta")));
    assert_eq!(store.get("c"), None);
}

#[test]
fn clock_stops_at_the_largest_value() {
    let mut store = MemoryStore::with_clock(u64::MAX - 5);
    store.set_with_ttl("k", token("tok"), 10);
    store.advance(100);
    assert_eq!(store.now(), u64::MAX);
    assert_eq!(store.get("k"), Some(token("tok")));
    store.advance(u64::MAX);
    assert_eq!(store.now(), u64::MAX);
}

#[test]
fn largest_ttl_does_not_overflow() {
    let mut store = MemoryStore::with_clock(u64::MAX - 1);
    store.set_with_ttl("k", token("tok"), u64::MAX);
    store.advance(1);
    assert_eq!(store.get("k"), Some(token("tok")));
}

#[test]
fn keys_are_compared_whole() {
    let mut store = MemoryStore::new();
    store.set("app", token("one"));
    store.set("app:", token("two"));
    store.set("", token("three"));
    assert_eq!(store.get("app"), Some(token("one")));
    assert_eq!(store.get("app:"), Some(token("two")));
    assert_eq!(store.get(""), Some(token("three")));
    assert_eq!(store.get("ap"), None);
}
