use dingtalk::cache::{
    acquire, apply_commit, exchange, granted_corp_id, peek, read, settle, Issuer,
};
use dingtalk::credential::{AppCredential, StoredValue, TenantCredential};
use dingtalk::error::TokenError;
use dingtalk::issuer::{
    app_token_request, tenant_token_request, IssueRequest, IssuedToken, IssuerReply,
};
use dingtalk::keys::{storage_key, Domain};
use dingtalk::manager::{Exchange, ExchangeStep, Lookup, StoreRead};
use dingtalk::store::MemoryStore;

/// An issuer that answers from a list and counts how often it is asked.
struct ScriptedIssuer {
    replies: Vec<IssuerReply>,
    calls: usize,
    asked: Vec<String>,
}

impl ScriptedIssuer {
    fn new(mut replies: Vec<IssuerReply>) -> ScriptedIssuer {
        replies.reverse();
        ScriptedIssuer { replies, calls: 0, asked: Vec::new() }
    }
}

impl Issuer for ScriptedIssuer {
    fn exchange(&mut self, request: &IssueRequest) -> IssuerReply {
        self.calls += 1;
        self.asked.push(request.url.clone());
        self.replies.pop().unwrap_or(IssuerReply::TransportFailure)
    }
}

fn granted(token: &str, ttl: i32) -> IssuerReply {
    IssuerReply::Response {
        status: 200,
        body: Some(IssuedToken::Tenant(TenantCredential {
            access_token: token.to_string(),
            expire_in: ttl,
        })),
    }
}

fn app_record(token: &str, refresh: &str, corp: &str) -> AppCredential {
    AppCredential {
        access_token: token.to_string(),
        refresh_token: refresh.to_string(),
        corp_id: corp.to_string(),
        expire_in: 7200,
    }
}

fn tenant_lookup(subject: &str) -> Lookup {
    Lookup::acquire(Domain::Tenant, subject, tenant_token_request("app1", "secret", subject))
}

fn token(text: &str) -> StoredValue {
    StoredValue::Token(text.to_string())
}

#[test]
fn cache_hit_returns_the_stored_token_without_asking() {
    let mut store = MemoryStore::new();
    let key = storage_key(Domain::Tenant, "corp1");
    store.set_with_ttl(&key, token("tok1"), 7200);
    let mut issuer = ScriptedIssuer::new(vec![granted("other", 7200)]);
    let end = acquire(&mut store, &mut issuer, tenant_lookup("corp1"));
    assert_eq!(end, Ok("tok1".to_string()));
    assert_eq!(issuer.calls, 0);
    assert_eq!(store.get(&key), Some(token("tok1")));
}

#[test]
fn cache_hit_on_an_unexpiring_record() {
    let mut store = MemoryStore::new();
    let key = storage_key(Domain::App, "app1");
    store.set(&key, StoredValue::AppRecord(app_record("tok1", "r", "c")));
    let mut issuer = ScriptedIssuer::new(vec![]);
    let lookup = Lookup::acquire(Domain::App, "app1", app_token_request("app1", "s", "code"));
    let end = acquire(&mut store, &mut issuer, lookup);
    assert_eq!(end, Ok("tok1".to_string()));
    assert_eq!(issuer.calls, 0);
}

#[test]
fn cache_miss_asks_once_and_stores_the_token() {
    let mut store = MemoryStore::new();
    let key = storage_key(Domain::Tenant, "corp1");
    let mut issuer = ScriptedIssuer::new(vec![granted("tok2", 7200), granted("tok3", 7200)]);
    let end = acquire(&mut store, &mut issuer, tenant_lookup("corp1"));
    assert_eq!(end, Ok("tok2".to_string()));
    assert_eq!(issuer.calls, 1);
    assert_eq!(issuer.asked, vec!["https://api.dingtalk.com/v1.0/oauth2/corp1/token".to_string()]);
    assert_eq!(store.get(&key), Some(token("tok2")));
    assert_eq!(store.get("corp1"), None);
}

#[test]
fn second_acquisition_is_served_from_the_store() {
    let mut store = MemoryStore::new();
    let mut issuer = ScriptedIssuer::new(vec![granted("tok2", 7200), granted("tok3", 7200)]);
    assert_eq!(acquire(&mut store, &mut issuer, tenant_lookup("corp1")), Ok("tok2".to_string()));
    store.advance(7199);
    assert_eq!(acquire(&mut store, &mut issuer, tenant_lookup("corp1")), Ok("tok2".to_string()));
    assert_eq!(issuer.calls, 1);
}

#[test]
fn acquired_token_expires_with_the_declared_lifetime() {
    let mut store = MemoryStore::new();
    let key = storage_key(Domain::Tenant, "corp1");
    let mut issuer = ScriptedIssuer::new(vec![granted("tok2", 7200)]);
    assert_eq!(acquire(&mut store, &mut issuer, tenant_lookup("corp1")), Ok("tok2".to_string()));
    store.advance(7199);
    assert_eq!(store.get(&key), Some(token("tok2")));
    store.advance(1);
    assert_eq!(store.get(&key), None);
}

#[test]
fn zero_lifetime_is_stored_for_one_second() {
    let mut store = MemoryStore::new();
    let key = storage_key(Domain::Tenant, "corp1");
    let mut issuer = ScriptedIssuer::new(vec![granted("tok2", 0)]);
    assert_eq!(acquire(&mut store, &mut issuer, tenant_lookup("corp1")), Ok("tok2".to_string()));
    assert_eq!(store.get(&key), Some(token("tok2")));
    store.advance(1);
    assert_eq!(store.get(&key), None);
}

#[test]
fn negative_lifetime_is_stored_for_one_second() {
    let mut store = MemoryStore::new();
    let key = storage_key(Domain::Tenant, "corp1");
    let mut issuer = ScriptedIssuer::new(vec![granted("tok2", -100)]);
    assert_eq!(acquire(&mut store, &mut issuer, tenant_lookup("corp1")), Ok("tok2".to_string()));
    assert_eq!(store.get(&key), Some(token("tok2")));
    store.advance(1);
    assert_eq!(store.get(&key), None);
}

#[test]
fn rejection_is_not_cached() {
    let mut store = MemoryStore::new();
    let key = storage_key(Domain::Tenant, "corp1");
    let mut issuer =
        ScriptedIssuer::new(vec![IssuerReply::Response { status: 403, body: None }]);
    let end = acquire(&mut store, &mut issuer, tenant_lookup("corp1"));
    assert_eq!(end, Err(TokenError::IssuanceRejected { status: 403 }));
    assert_eq!(issuer.calls, 1);
    assert_eq!(store.get(&key), None);
}

#[test]
fn rejection_with_a_body_is_not_cached() {
    let mut store = MemoryStore::new();
    let key = storage_key(Domain::Tenant, "corp1");
    let reply = IssuerReply::Response {
        status: 500,
        body: Some(IssuedToken::Tenant(TenantCredential {
            access_token: "poison".to_string(),
            expire_in: 7200,
        })),
    };
    let mut issuer = ScriptedIssuer::new(vec![reply]);
    let end = acquire(&mut store, &mut issuer, tenant_lookup("corp1"));
    assert_eq!(end, Err(TokenError::IssuanceRejected { status: 500 }));
    assert_eq!(store.get(&key), None);
}

#[test]
fn transport_failure_is_not_cached() {
    let mut store = MemoryStore::new();
    let key = storage_key(Domain::Tenant, "corp1");
    let mut issuer = ScriptedIssuer::new(vec![IssuerReply::TransportFailure]);
    let end = acquire(&mut store, &mut issuer, tenant_lookup("corp1"));
    assert_eq!(end, Err(TokenError::IssuanceTransportFailure));
    assert_eq!(store.get(&key), None);
}

#[test]
fn malformed_answer_is_not_cached() {
    let mut store = MemoryStore::new();
    let key = storage_key(Domain::Tenant, "corp1");
    let mut issuer =
        ScriptedIssuer::new(vec![IssuerReply::Response { status: 200, body: None }]);
    let end = acquire(&mut store, &mut issuer, tenant_lookup("corp1"));
    assert_eq!(end, Err(TokenError::MalformedIssuanceResponse));
    assert_eq!(store.get(&key), None);
}

#[test]
fn failure_leaves_other_entries_alone() {
    let mut store = MemoryStore::new();
    let other = storage_key(Domain::Tenant, "corp2");
    store.set_with_ttl(&other, token("kept"), 10);
    let mut issuer = ScriptedIssuer::new(vec![IssuerReply::TransportFailure]);
    let end = acquire(&mut store, &mut issuer, tenant_lookup("corp1"));
    assert_eq!(end, Err(TokenError::IssuanceTransportFailure));
    assert_eq!(store.get(&other), Some(token("kept")));
}

#[test]
fn failure_after_failure_asks_again() {
    let mut store = MemoryStore::new();
    let mut issuer = ScriptedIssuer::new(vec![
        IssuerReply::Response { status: 503, body: None },
        granted("tok2", 7200),
    ]);
    assert_eq!(
        acquire(&mut store, &mut issuer, tenant_lookup("corp1")),
        Err(TokenError::IssuanceRejected { status: 503 })
    );
    assert_eq!(acquire(&mut store, &mut issuer, tenant_lookup("corp1")), Ok("tok2".to_string()));
    assert_eq!(issuer.calls, 2);
}

#[test]
fn domains_are_isolated() {
    let mut store = MemoryStore::new();
    let mut issuer = ScriptedIssuer::new(vec![
        IssuerReply::Response {
            status: 200,
            body: Some(IssuedToken::App(app_record("app-token", "r", "corp9"))),
        },
        granted("tenant-token", 7200),
    ]);
    let app_lookup = Lookup::acquire(Domain::App, "app1", app_token_request("app1", "s", "c"));
    assert_eq!(acquire(&mut store, &mut issuer, app_lookup), Ok("app-token".to_string()));
    assert_eq!(
        acquire(&mut store, &mut issuer, tenant_lookup("app1")),
        Ok("tenant-token".to_string())
    );
    assert_eq!(issuer.calls, 2);
    assert_eq!(peek(&store, Domain::App, "app1"), Ok("app-token".to_string()));
    assert_eq!(peek(&store, Domain::Tenant, "app1"), Ok("tenant-token".to_string()));
    assert_eq!(
        store.get("app:app1"),
        Some(StoredValue::AppRecord(app_record("app-token", "r", "corp9")))
    );
    assert_eq!(store.get("tenant:app1"), Some(token("tenant-token")));
    store.advance(7200);
    assert_eq!(peek(&store, Domain::App, "app1"), Ok("app-token".to_string()));
    assert_eq!(peek(&store, Domain::Tenant, "app1"), Err(TokenError::CredentialAbsent));
}

#[test]
fn reissue_after_expiry_replaces_the_record() {
    let mut store = MemoryStore::new();
    let key = storage_key(Domain::Tenant, "corp1");
    let mut issuer = ScriptedIssuer::new(vec![granted("first", 100), granted("second", 50)]);
    assert_eq!(acquire(&mut store, &mut issuer, tenant_lookup("corp1")), Ok("first".to_string()));
    store.advance(100);
    assert_eq!(acquire(&mut store, &mut issuer, tenant_lookup("corp1")), Ok("second".to_string()));
    assert_eq!(issuer.calls, 2);
    assert_eq!(store.get(&key), Some(token("second")));
    store.advance(49);
    assert_eq!(store.get(&key), Some(token("second")));
    store.advance(1);
    assert_eq!(store.get(&key), None);
}

#[test]
fn app_exchange_replaces_every_field_of_the_record() {
    let mut store = MemoryStore::new();
    let key = storage_key(Domain::App, "app1");
    let mut issuer = ScriptedIssuer::new(vec![
        IssuerReply::Response {
            status: 200,
            body: Some(IssuedToken::App(app_record("t1", "r1", "c1"))),
        },
        IssuerReply::Response {
            status: 200,
            body: Some(IssuedToken::App(app_record("t2", "r2", "c2"))),
        },
    ]);
    let first = Exchange::begin(Domain::App, "app1", app_token_request("app1", "s", "code1"));
    let end = exchange(&mut store, &mut issuer, first);
    assert_eq!(end, Ok(StoredValue::AppRecord(app_record("t1", "r1", "c1"))));
    let second = Exchange::begin(Domain::App, "app1", app_token_request("app1", "s", "code2"));
    let end = exchange(&mut store, &mut issuer, second);
    assert_eq!(end, Ok(StoredValue::AppRecord(app_record("t2", "r2", "c2"))));
    assert_eq!(issuer.calls, 2);
    assert_eq!(store.get(&key), Some(StoredValue::AppRecord(app_record("t2", "r2", "c2"))));
}

#[test]
fn failed_exchange_keeps_the_earlier_record() {
    let mut store = MemoryStore::new();
    let key = storage_key(Domain::App, "app1");
    store.set(&key, StoredValue::AppRecord(app_record("t1", "r1", "c1")));
    let mut issuer =
        ScriptedIssuer::new(vec![IssuerReply::Response { status: 400, body: None }]);
    let pending = Exchange::begin(Domain::App, "app1", app_token_request("app1", "s", "used"));
    let end = exchange(&mut store, &mut issuer, pending);
    assert_eq!(end, Err(TokenError::IssuanceRejected { status: 400 }));
    assert_eq!(store.get(&key), Some(StoredValue::AppRecord(app_record("t1", "r1", "c1"))));
}

#[test]
fn peek_never_writes() {
    let store = MemoryStore::new();
    assert_eq!(peek(&store, Domain::App, "app1"), Err(TokenError::CredentialAbsent));
    assert_eq!(peek(&store, Domain::Tenant, "app1"), Err(TokenError::CredentialAbsent));
    assert_eq!(store.get("app:app1"), None);
}

#[test]
fn read_only_lookup_fails_on_a_miss_without_asking() {
    let mut store = MemoryStore::new();
    let mut issuer = ScriptedIssuer::new(vec![granted("tok", 10)]);
    let end = acquire(&mut store, &mut issuer, Lookup::read_only(Domain::App, "app1"));
    assert_eq!(end, Err(TokenError::CredentialAbsent));
    assert_eq!(issuer.calls, 0);
}

#[test]
fn read_reports_hits_and_misses() {
    let mut store = MemoryStore::new();
    assert_eq!(read(&store, "k"), StoreRead::Missing);
    store.set_with_ttl("k", token("tok"), 5);
    assert_eq!(read(&store, "k"), StoreRead::Found(token("tok")));
    store.advance(5);
    assert_eq!(read(&store, "k"), StoreRead::Missing);
}

#[test]
fn apply_commit_makes_the_write_that_a_commit_names() {
    let mut store = MemoryStore::new();
    let pending =
        Exchange::begin(Domain::Tenant, "corp1", tenant_token_request("a", "s", "corp1"));
    let commit = match pending.settle(granted("tok", 30)) {
        ExchangeStep::Write(commit) => commit,
        ExchangeStep::Failed(error) => panic!("unexpected failure {:?}", error),
    };
    apply_commit(&mut store, &commit);
    assert_eq!(store.get("tenant:corp1"), Some(token("tok")));
    store.advance(30);
    assert_eq!(store.get("tenant:corp1"), None);
}

#[test]
fn settle_writes_only_what_was_granted() {
    let mut store = MemoryStore::new();
    let pending =
        Exchange::begin(Domain::Tenant, "corp1", tenant_token_request("a", "s", "corp1"));
    assert_eq!(settle(&mut store, pending, granted("tok", 30)), Ok(token("tok")));
    assert_eq!(store.get("tenant:corp1"), Some(token("tok")));
    let pending =
        Exchange::begin(Domain::Tenant, "corp2", tenant_token_request("a", "s", "corp2"));
    assert_eq!(
        settle(&mut store, pending, IssuerReply::TransportFailure),
        Err(TokenError::IssuanceTransportFailure)
    );
    assert_eq!(store.get("tenant:corp2"), None);
}

#[test]
fn corp_id_is_taken_from_an_application_record() {
    let end = Ok(StoredValue::AppRecord(app_record("t", "r", "corp7")));
    assert_eq!(granted_corp_id(end), Ok("corp7".to_string()));
    assert_eq!(
        granted_corp_id(Ok(token("bare"))),
        Err(TokenError::MalformedIssuanceResponse)
    );
    assert_eq!(
        granted_corp_id(Err(TokenError::StoreUnavailable)),
        Err(TokenError::StoreUnavailable)
    );
}
