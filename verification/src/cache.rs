//! Token acquisition against a [`MemoryStore`].
//!
//! The functions here carry an acquisition through from the read of the store
//! to its end. [`acquired`] and [`settled`] say, over the store's model, what
//! an acquisition returns and what it leaves in the store; the functions are
//! proved against them, and the proof functions at the end state what follows
//! for a caller.

use vstd::prelude::*;
use crate::credential::{effective_ttl_of, StoredValue, StoredValueView};
use crate::error::TokenError;
use crate::issuer::{IssueRequest, IssuedTokenView, IssuerReply, IssuerReplyView};
use crate::manager::{
    Commit, Exchange, ExchangeStep, ExchangeStepView, ExchangeView, Lookup, LookupStep,
    LookupStepView, LookupView, StoreRead, StoreReadView,
};
use crate::keys::{lemma_domains_disjoint, storage_key_text, Domain};
use crate::store::{lemma_last_write_wins, MemoryStore, StoreView};

verus! {

/// The party that makes exchanges with the remote issuer.
pub trait Issuer {
    /// Posts `request` and reports what came back. Nothing is promised of
    /// the reply: an acquisition is proved for every reply.
    fn exchange(&mut self, request: &IssueRequest) -> IssuerReply;
}

/// What a read of `key` in `store` reports to a [`Lookup`].
pub open spec fn read_of(store: StoreView, key: Seq<char>) -> StoreReadView {
    match store.get(key) {
        Some(value) => StoreReadView::Found(value),
        None => StoreReadView::Missing,
    }
}

/// The end of an exchange: the store it leaves and what it returns.
pub struct Settled {
    pub store: StoreView,
    pub value: Result<StoredValueView, TokenError>,
}

/// The end of `exchange` on `store` when the issuer answers `reply`.
///
/// A granted credential is written under the exchange's key and returned. A
/// failure leaves the store as it was.
pub open spec fn settled(store: StoreView, exchange: ExchangeView, reply: IssuerReplyView) -> Settled {
    match exchange.settle(reply) {
        ExchangeStepView::Failed(error) => Settled { store, value: Err(error) },
        ExchangeStepView::Write(commit) => Settled {
            store: store.put(commit.key, commit.value, commit.ttl),
            value: commit.finish(true),
        },
    }
}

/// The end of an acquisition: the store it leaves, the token it returns and
/// how many times the issuer was asked.
pub struct Acquired {
    pub store: StoreView,
    pub token: Result<Seq<char>, TokenError>,
    pub issuer_calls: nat,
}

/// The end of `lookup` on `store` when the issuer, if it is asked, answers `reply`.
pub open spec fn acquired(store: StoreView, lookup: LookupView, reply: IssuerReplyView) -> Acquired {
    match lookup.resolve(read_of(store, lookup.key)) {
        LookupStepView::Granted(token) => Acquired { store, token: Ok(token), issuer_calls: 0 },
        LookupStepView::Failed(error) => Acquired { store, token: Err(error), issuer_calls: 0 },
        LookupStepView::Issue(exchange) => {
            let end = settled(store, exchange, reply);
            Acquired {
                store: end.store,
                token: match end.value {
                    Ok(value) => Ok(value.token()),
                    Err(error) => Err(error),
                },
                issuer_calls: 1,
            }
        },
    }
}

/// A returned value or failure as a mathematical value.
pub open spec fn value_view(end: Result<StoredValue, TokenError>) -> Result<
    StoredValueView,
    TokenError,
> {
    match end {
        Ok(value) => Ok(value@),
        Err(error) => Err(error),
    }
}

/// A returned token or failure as a mathematical value.
pub open spec fn token_view(end: Result<String, TokenError>) -> Result<Seq<char>, TokenError> {
    match end {
        Ok(token) => Ok(token@),
        Err(error) => Err(error),
    }
}

/// Reads `key` for a [`Lookup`].
pub fn read(store: &MemoryStore, key: &str) -> (found: StoreRead)
    ensures
        found@ == read_of(store@, key@),
{
    match store.get(key) {
        Some(value) => StoreRead::Found(value),
        None => StoreRead::Missing,
    }
}

/// Makes the write that `commit` names.
pub fn apply_commit(store: &mut MemoryStore, commit: &Commit)
    ensures
        final(store)@ == old(store)@.put(commit@.key, commit@.value, commit@.ttl),
{
    let value = commit.value().clone();
    match commit.ttl() {
        Some(ttl) => store.set_with_ttl(commit.key().as_str(), value, ttl),
        None => store.set(commit.key().as_str(), value),
    }
}

/// Ends `exchange` with the issuer's `reply`: writes the credential that the
/// reply grants and returns it, or returns the failure and writes nothing.
pub fn settle(store: &mut MemoryStore, exchange: Exchange, reply: IssuerReply) -> (end: Result<
    StoredValue,
    TokenError,
>)
    ensures
        final(store)@ == settled(old(store)@, exchange@, reply@).store,
        value_view(end) == settled(old(store)@, exchange@, reply@).value,
{
    match exchange.settle(reply) {
        ExchangeStep::Failed(error) => Err(error),
        ExchangeStep::Write(commit) => {
            apply_commit(store, &commit);
            commit.finish(true)
        },
    }
}

/// Makes the exchange `pending` whatever the store holds: asks `issuer`
/// once and ends the exchange with its reply.
pub fn exchange<I: Issuer>(store: &mut MemoryStore, issuer: &mut I, pending: Exchange) -> (end:
    Result<StoredValue, TokenError>)
    ensures
        exists|reply: IssuerReplyView|
            {
                &&& final(store)@ == (#[trigger] settled(old(store)@, pending@, reply)).store
                &&& value_view(end) == settled(old(store)@, pending@, reply).value
            },
{
    let reply = issuer.exchange(pending.request());
    let ghost answer = reply@;
    let end = settle(store, pending, reply);
    proof {
        assert(final(store)@ == settled(old(store)@, pending@, answer).store);
    }
    end
}

/// Carries `lookup` through: returns the token that the store holds, and
/// where it holds none asks `issuer` once, stores what it grants and returns
/// the new token.
///
/// Where the store holds a token, or no exchange may be made, the issuer is
/// left untouched.
pub fn acquire<I: Issuer>(store: &mut MemoryStore, issuer: &mut I, lookup: Lookup) -> (end: Result<
    String,
    TokenError,
>)
    ensures
        old(store)@.get(lookup@.key) matches Some(value) ==> {
            &&& token_view(end) == Ok::<Seq<char>, TokenError>(value.token())
            &&& final(store)@ == old(store)@
            &&& *final(issuer) == *old(issuer)
        },
        old(store)@.get(lookup@.key) is None && lookup@.on_miss is None ==> {
            &&& end == Err::<String, TokenError>(TokenError::CredentialAbsent)
            &&& final(store)@ == old(store)@
            &&& *final(issuer) == *old(issuer)
        },
        exists|reply: IssuerReplyView|
            {
                &&& final(store)@ == (#[trigger] acquired(old(store)@, lookup@, reply)).store
                &&& token_view(end) == acquired(old(store)@, lookup@, reply).token
            },
{
    let found = read(store, lookup.key().as_str());
    match lookup.resolve(found) {
        LookupStep::Granted(token) => {
            proof {
                let reply = IssuerReplyView::TransportFailure;
                assert(final(store)@ == acquired(old(store)@, lookup@, reply).store);
            }
            Ok(token)
        },
        LookupStep::Failed(error) => {
            proof {
                let reply = IssuerReplyView::TransportFailure;
                assert(final(store)@ == acquired(old(store)@, lookup@, reply).store);
            }
            Err(error)
        },
        LookupStep::Issue(pending) => {
            let reply = issuer.exchange(pending.request());
            let ghost answer = reply@;
            let end = settle(store, pending, reply);
            proof {
                assert(final(store)@ == acquired(old(store)@, lookup@, answer).store);
            }
            match end {
                Ok(value) => Ok(value.into_token()),
                Err(error) => Err(error),
            }
        },
    }
}

/// Reads the token of `subject` in `domain` without ever asking the issuer:
/// the token that the store holds, or [`TokenError::CredentialAbsent`].
pub fn peek(store: &MemoryStore, domain: Domain, subject: &str) -> (end: Result<String, TokenError>)
    ensures
        token_view(end) == (match store@.get(storage_key_text(domain, subject@)) {
            Some(value) => Ok::<Seq<char>, TokenError>(value.token()),
            None => Err::<Seq<char>, TokenError>(TokenError::CredentialAbsent),
        }),
{
    let lookup = Lookup::read_only(domain, subject);
    let found = read(store, lookup.key().as_str());
    match lookup.resolve(found) {
        LookupStep::Granted(token) => Ok(token),
        LookupStep::Failed(error) => Err(error),
        LookupStep::Issue(_) => {
            assert(false);
            Err(TokenError::CredentialAbsent)
        },
    }
}

/// The tenant id that a finished application exchange granted.
pub open spec fn corp_id_of(end: Result<StoredValueView, TokenError>) -> Result<
    Seq<char>,
    TokenError,
> {
    match end {
        Ok(StoredValueView::AppRecord(record)) => Ok(record.corp_id),
        Ok(StoredValueView::Token(_)) => Err(TokenError::MalformedIssuanceResponse),
        Err(error) => Err(error),
    }
}

/// Takes the tenant id out of what an application exchange ended with.
pub fn granted_corp_id(end: Result<StoredValue, TokenError>) -> (corp_id: Result<
    String,
    TokenError,
>)
    ensures
        token_view(corp_id) == corp_id_of(value_view(end)),
{
    match end {
        Ok(StoredValue::AppRecord(record)) => Ok(record.corp_id),
        Ok(StoredValue::Token(_)) => Err(TokenError::MalformedIssuanceResponse),
        Err(error) => Err(error),
    }
}

/// A cache hit: where the store holds a value under the lookup's key, the
/// acquisition returns that value's token, leaves the store as it was and
/// does not ask the issuer, whatever the issuer would have answered.
pub proof fn lemma_cache_hit(
    store: StoreView,
    lookup: LookupView,
    value: StoredValueView,
    reply: IssuerReplyView,
)
    requires
        store.get(lookup.key) == Some(value),
    ensures
        acquired(store, lookup, reply) == (Acquired {
            store,
            token: Ok(value.token()),
            issuer_calls: 0,
        }),
{
}

/// A cache miss: where the store holds nothing under the lookup's key and
/// the issuer grants a credential, the acquisition asks the issuer, returns
/// the new token, and a read of the key that follows returns what was granted.
pub proof fn lemma_miss_issues_and_stores(
    store: StoreView,
    lookup: LookupView,
    reply: IssuerReplyView,
    issued: IssuedTokenView,
)
    requires
        store.get(lookup.key) is None,
        lookup.on_miss is Some,
        reply.outcome(lookup.domain) == Ok::<IssuedTokenView, TokenError>(issued),
    ensures
        acquired(store, lookup, reply).issuer_calls == 1,
        acquired(store, lookup, reply).token == Ok::<Seq<char>, TokenError>(
            issued.stored_value().token(),
        ),
        acquired(store, lookup, reply).store == store.put(
            lookup.key,
            issued.stored_value(),
            issued.stored_ttl(),
        ),
        acquired(store, lookup, reply).store.get(lookup.key) == Some(issued.stored_value()),
{
}

/// A token that was acquired for a tenant can be read for the lifetime that
/// the issuer declared, raised to the floor, and is absent once that many
/// seconds have passed.
pub proof fn lemma_acquired_token_expires(
    store: StoreView,
    lookup: LookupView,
    reply: IssuerReplyView,
    issued: IssuedTokenView,
    elapsed: nat,
)
    requires
        store.get(lookup.key) is None,
        lookup.on_miss is Some,
        reply.outcome(lookup.domain) == Ok::<IssuedTokenView, TokenError>(issued),
        issued is Tenant,
    ensures
        acquired(store, lookup, reply).store.advance(elapsed).get(lookup.key) == (if elapsed
            < effective_ttl_of(issued->Tenant_0.expire_in) {
            Some(StoredValueView::Token(issued->Tenant_0.access_token))
        } else {
            None
        }),
{
}

/// A failure is not cached: where the issuer grants nothing, the acquisition
/// leaves the store as it was; after a miss it fails, and a read of the key
/// that follows still returns nothing.
pub proof fn lemma_failure_not_cached(store: StoreView, lookup: LookupView, reply: IssuerReplyView)
    requires
        reply.outcome(lookup.domain) is Err,
    ensures
        acquired(store, lookup, reply).store == store,
        store.get(lookup.key) is None ==> acquired(store, lookup, reply).token is Err
            && acquired(store, lookup, reply).store.get(lookup.key) is None,
{
}

/// The domains are isolated: a write under a tenant's key changes nothing
/// that is read under an application's key, and the other way round, also
/// where the tenant and the application have the same id.
pub proof fn lemma_domains_isolated(
    store: StoreView,
    app_subject: Seq<char>,
    tenant_subject: Seq<char>,
    value: StoredValueView,
    ttl: Option<nat>,
)
    ensures
        store.put(storage_key_text(Domain::Tenant, tenant_subject), value, ttl).get(
            storage_key_text(Domain::App, app_subject),
        ) == store.get(storage_key_text(Domain::App, app_subject)),
        store.put(storage_key_text(Domain::App, app_subject), value, ttl).get(
            storage_key_text(Domain::Tenant, tenant_subject),
        ) == store.get(storage_key_text(Domain::Tenant, tenant_subject)),
{
    lemma_domains_disjoint(app_subject, tenant_subject);
}

/// Acquiring again once a token has expired asks the issuer again, and the
/// second write replaces the first altogether: the store is what it would be
/// had the first acquisition never been made.
pub proof fn lemma_reissue_replaces(
    store: StoreView,
    lookup: LookupView,
    first: IssuerReplyView,
    first_issued: IssuedTokenView,
    elapsed: nat,
    second: IssuerReplyView,
    second_issued: IssuedTokenView,
)
    requires
        store.get(lookup.key) is None,
        lookup.on_miss is Some,
        first.outcome(lookup.domain) == Ok::<IssuedTokenView, TokenError>(first_issued),
        acquired(store, lookup, first).store.advance(elapsed).get(lookup.key) is None,
        second.outcome(lookup.domain) == Ok::<IssuedTokenView, TokenError>(second_issued),
    ensures
        acquired(store, lookup, first).issuer_calls + acquired(
            acquired(store, lookup, first).store.advance(elapsed),
            lookup,
            second,
        ).issuer_calls == 2,
        acquired(acquired(store, lookup, first).store.advance(elapsed), lookup, second).token
            == Ok::<Seq<char>, TokenError>(second_issued.stored_value().token()),
        acquired(acquired(store, lookup, first).store.advance(elapsed), lookup, second).store
            == store.advance(elapsed).put(
            lookup.key,
            second_issued.stored_value(),
            second_issued.stored_ttl(),
        ),
        acquired(acquired(store, lookup, first).store.advance(elapsed), lookup, second).store.get(
            lookup.key,
        ) == Some(second_issued.stored_value()),
{
    lemma_last_write_wins(
        store,
        lookup.key,
        first_issued.stored_value(),
        first_issued.stored_ttl(),
        elapsed,
        second_issued.stored_value(),
        second_issued.stored_ttl(),
    );
}

} // verus!
