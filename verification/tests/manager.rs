use dingtalk::credential::{AppCredential, StoredValue, TenantCredential};
use dingtalk::error::TokenError;
use dingtalk::issuer::{app_token_request, tenant_token_request, IssuedToken, IssuerReply};
use dingtalk::keys::Domain;
use dingtalk::manager::{Exchange, ExchangeStep, Lookup, LookupStep, StoreRead};

fn tenant_lookup() -> Lookup {
    Lookup::acquire(Domain::Tenant, "corp1", tenant_token_request("app1", "secret", "corp1"))
}

fn granted(token: &str, ttl: i32) -> IssuerReply {
    IssuerReply::Response {
        status: 200,
        body: Some(IssuedToken::Tenant(TenantCredential {
            access_token: token.to_string(),
            expire_in: ttl,
        })),
    }
}

#[test]
fn lookup_reads_the_key_of_its_domain() {
    assert_eq!(tenant_lookup().key(), "tenant:corp1");
    assert_eq!(Lookup::read_only(Domain::App, "app1").key(), "app:app1");
}

#[test]
fn found_value_ends_the_acquisition() {
    let step = tenant_lookup().resolve(StoreRead::Found(StoredValue::Token("tok1".to_string())));
    assert_eq!(step, LookupStep::Granted("tok1".to_string()));
}

#[test]
fn found_record_hands_out_its_access_token() {
    let record = AppCredential {
        access_token: "at".to_string(),
        refresh_token: "rt".to_string(),
        corp_id: "corp".to_string(),
        expire_in: 7200,
    };
    let step = Lookup::read_only(Domain::App, "app1")
        .resolve(StoreRead::Found(StoredValue::AppRecord(record)));
    assert_eq!(step, LookupStep::Granted("at".to_string()));
}

#[test]
fn unavailable_store_fails_the_acquisition() {
    assert_eq!(
        tenant_lookup().resolve(StoreRead::Unavailable),
        LookupStep::Failed(TokenError::StoreUnavailable)
    );
    assert_eq!(
        Lookup::read_only(Domain::App, "app1").resolve(StoreRead::Unavailable),
        LookupStep::Failed(TokenError::StoreUnavailable)
    );
}

#[test]
fn miss_leads_to_the_exchange() {
    let step = tenant_lookup().resolve(StoreRead::Missing);
    let expected =
        Exchange::begin(Domain::Tenant, "corp1", tenant_token_request("app1", "secret", "corp1"));
    assert_eq!(step, LookupStep::Issue(expected));
}

#[test]
fn miss_without_an_exchange_is_an_absent_credential() {
    let step = Lookup::read_only(Domain::App, "app1").resolve(StoreRead::Missing);
    assert_eq!(step, LookupStep::Failed(TokenError::CredentialAbsent));
}

#[test]
fn exchange_names_its_request() {
    let pending = Exchange::begin(Domain::App, "app1", app_token_request("app1", "s", "code"));
    assert_eq!(pending.request(), &app_token_request("app1", "s", "code"));
}

#[test]
fn granted_tenant_token_is_written_with_its_lifetime() {
    let pending =
        Exchange::begin(Domain::Tenant, "corp1", tenant_token_request("a", "s", "corp1"));
    match pending.settle(granted("tok2", 7200)) {
        ExchangeStep::Write(commit) => {
            assert_eq!(commit.key(), "tenant:corp1");
            assert_eq!(commit.value(), &StoredValue::Token("tok2".to_string()));
            assert_eq!(commit.ttl(), Some(7200));
            assert_eq!(commit.finish(true), Ok(StoredValue::Token("tok2".to_string())));
        },
        ExchangeStep::Failed(error) => panic!("unexpected failure {:?}", error),
    }
}

#[test]
fn granted_app_record_is_written_without_lifetime() {
    let record = AppCredential {
        access_token: "at".to_string(),
        refresh_token: "rt".to_string(),
        corp_id: "corp".to_string(),
        expire_in: 7200,
    };
    let pending = Exchange::begin(Domain::App, "app1", app_token_request("app1", "s", "code"));
    let reply = IssuerReply::Response { status: 200, body: Some(IssuedToken::App(record.clone())) };
    match pending.settle(reply) {
        ExchangeStep::Write(commit) => {
            assert_eq!(commit.key(), "app:app1");
            assert_eq!(commit.value(), &StoredValue::AppRecord(record));
            assert_eq!(commit.ttl(), None);
        },
        ExchangeStep::Failed(error) => panic!("unexpected failure {:?}", error),
    }
}

#[test]
fn failed_write_is_a_store_failure() {
    let pending =
        Exchange::begin(Domain::Tenant, "corp1", tenant_token_request("a", "s", "corp1"));
    match pending.settle(granted("tok2", 7200)) {
        ExchangeStep::Write(commit) => {
            assert_eq!(commit.finish(false), Err(TokenError::StoreUnavailable));
        },
        ExchangeStep::Failed(error) => panic!("unexpected failure {:?}", error),
    }
}

#[test]
fn failed_exchange_writes_nothing() {
    let pending =
        Exchange::begin(Domain::Tenant, "corp1", tenant_token_request("a", "s", "corp1"));
    assert_eq!(
        pending.settle(IssuerReply::Response { status: 404, body: None }),
        ExchangeStep::Failed(TokenError::IssuanceRejected { status: 404 })
    );
    let pending =
        Exchange::begin(Domain::Tenant, "corp1", tenant_token_request("a", "s", "corp1"));
    assert_eq!(
        pending.settle(IssuerReply::TransportFailure),
        ExchangeStep::Failed(TokenError::IssuanceTransportFailure)
    );
    let pending =
        Exchange::begin(Domain::Tenant, "corp1", tenant_token_request("a", "s", "corp1"));
    assert_eq!(
        pending.settle(IssuerReply::Response { status: 200, body: None }),
        ExchangeStep::Failed(TokenError::MalformedIssuanceResponse)
    );
}
