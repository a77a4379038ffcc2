//! The token cache manager as a sequence of decisions.
//!
//! Acquiring a token alternates store and network operations with decisions
//! about what to do next. The operations belong to the caller; the decisions
//! are made here, one value at a time:
//!
//! 1. a [`Lookup`] names the key to read and, given what the read returned,
//!    either ends the acquisition or hands out an [`Exchange`];
//! 2. an [`Exchange`] names the request to post and, given the issuer's
//!    reply, either fails or hands out a [`Commit`];
//! 3. a [`Commit`] names the write to make and, given whether it was made,
//!    ends the acquisition.
//!
//! Each value is consumed by its decision, so an acquisition reads the store
//! at most once, asks the issuer at most once and writes at most once.

use vstd::prelude::*;
use crate::credential::{StoredValue, StoredValueView, MIN_TTL_SECONDS};
use crate::error::TokenError;
use crate::issuer::{IssueRequest, IssueRequestView, IssuerReply, IssuerReplyView};
use crate::keys::{storage_key, storage_key_text, Domain};

verus! {

/// What a read of the store returned.
#[derive(Debug, PartialEq, Eq)]
pub enum StoreRead {
    /// The key holds this value, and it has not expired.
    Found(StoredValue),
    /// The key holds nothing, or what it held has expired.
    Missing,
    /// The store could not be read.
    Unavailable,
}

/// A [`StoreRead`] as a mathematical value.
pub enum StoreReadView {
    Found(StoredValueView),
    Missing,
    Unavailable,
}

impl View for StoreRead {
    type V = StoreReadView;

    open spec fn view(&self) -> StoreReadView {
        match self {
            StoreRead::Found(value) => StoreReadView::Found(value@),
            StoreRead::Missing => StoreReadView::Missing,
            StoreRead::Unavailable => StoreReadView::Unavailable,
        }
    }
}

/// A write to the store that completes an exchange.
#[derive(Debug, PartialEq, Eq)]
pub struct Commit {
    key: String,
    value: StoredValue,
    ttl: Option<u64>,
}

/// A [`Commit`] as a mathematical value.
pub struct CommitView {
    pub key: Seq<char>,
    pub value: StoredValueView,
    /// The lifetime to write with; `None` for a write that never expires.
    pub ttl: Option<nat>,
}

impl CommitView {
    /// How the acquisition ends once the write was made (`written`) or failed.
    pub open spec fn finish(self, written: bool) -> Result<StoredValueView, TokenError> {
        if written {
            Ok(self.value)
        } else {
            Err(TokenError::StoreUnavailable)
        }
    }
}

impl Commit {
    pub closed spec fn view(&self) -> CommitView {
        CommitView {
            key: self.key@,
            value: self.value@,
            ttl: match self.ttl {
                Some(ttl) => Some(ttl as nat),
                None => None,
            },
        }
    }

    /// The key to write under.
    pub fn key(&self) -> (key: &String)
        ensures
            key@ == self@.key,
    {
        &self.key
    }

    /// The value to write.
    pub fn value(&self) -> (value: &StoredValue)
        ensures
            value@ == self@.value,
    {
        &self.value
    }

    /// The lifetime to write with, in seconds; `None` for a write that never expires.
    pub fn ttl(&self) -> (ttl: Option<u64>)
        ensures
            match ttl {
                Some(seconds) => self@.ttl == Some(seconds as nat),
                None => self@.ttl is None,
            },
    {
        self.ttl
    }

    /// Ends the acquisition: with the value written, or with
    /// [`TokenError::StoreUnavailable`] where the write failed.
    pub fn finish(self, written: bool) -> (end: Result<StoredValue, TokenError>)
        ensures
            match end {
                Ok(value) => self@.finish(written) == Ok::<StoredValueView, TokenError>(value@),
                Err(error) => self@.finish(written) == Err::<StoredValueView, TokenError>(error),
            },
    {
        if written {
            Ok(self.value)
        } else {
            Err(TokenError::StoreUnavailable)
        }
    }
}

/// What follows the issuer's reply.
#[derive(Debug, PartialEq, Eq)]
pub enum ExchangeStep {
    /// The exchange granted nothing; nothing is to be written.
    Failed(TokenError),
    /// The exchange granted a credential, which is to be written.
    Write(Commit),
}

/// An [`ExchangeStep`] as a mathematical value.
pub enum ExchangeStepView {
    Failed(TokenError),
    Write(CommitView),
}

impl ExchangeStep {
    pub open spec fn view(&self) -> ExchangeStepView {
        match self {
            ExchangeStep::Failed(error) => ExchangeStepView::Failed(*error),
            ExchangeStep::Write(commit) => ExchangeStepView::Write(commit@),
        }
    }
}

/// An exchange with the issuer that is to be made.
#[derive(Debug, PartialEq, Eq)]
pub struct Exchange {
    domain: Domain,
    key: String,
    request: IssueRequest,
}

/// An [`Exchange`] as a mathematical value.
pub struct ExchangeView {
    pub domain: Domain,
    pub key: Seq<char>,
    pub request: IssueRequestView,
}

impl ExchangeView {
    /// What follows `reply`: a write of the granted credential under the
    /// exchange's key, or the failure that the reply stands for.
    pub open spec fn settle(self, reply: IssuerReplyView) -> ExchangeStepView {
        match reply.outcome(self.domain) {
            Ok(issued) => ExchangeStepView::Write(
                CommitView {
                    key: self.key,
                    value: issued.stored_value(),
                    ttl: issued.stored_ttl(),
                },
            ),
            Err(error) => ExchangeStepView::Failed(error),
        }
    }
}

impl Exchange {
    pub closed spec fn view(&self) -> ExchangeView {
        ExchangeView { domain: self.domain, key: self.key@, request: self.request@ }
    }

    /// An exchange for `subject` in `domain` that is made whatever the store holds.
    pub fn begin(domain: Domain, subject: &str, request: IssueRequest) -> (exchange: Exchange)
        ensures
            exchange@ == (ExchangeView {
                domain,
                key: storage_key_text(domain, subject@),
                request: request@,
            }),
    {
        Exchange { domain, key: storage_key(domain, subject), request }
    }

    /// The request to post to the issuer.
    pub fn request(&self) -> (request: &IssueRequest)
        ensures
            request@ == self@.request,
    {
        &self.request
    }

    /// Decides what follows the issuer's reply.
    pub fn settle(self, reply: IssuerReply) -> (step: ExchangeStep)
        ensures
            step@ == self@.settle(reply@),
    {
        match reply.into_outcome(self.domain) {
            Ok(issued) => {
                let (value, ttl) = issued.into_stored();
                ExchangeStep::Write(Commit { key: self.key, value, ttl })
            },
            Err(error) => ExchangeStep::Failed(error),
        }
    }
}

/// Whatever the issuer declares, a tenant's token is written with a
/// lifetime, and never with one below the floor: a zero or negative lifetime
/// sent by the issuer does not reach the store, and no tenant token is kept
/// for ever.
pub proof fn lemma_tenant_write_expires(exchange: ExchangeView, reply: IssuerReplyView)
    requires
        exchange.domain == Domain::Tenant,
    ensures
        exchange.settle(reply) matches ExchangeStepView::Write(commit) ==> {
            &&& commit.ttl matches Some(ttl)
            &&& ttl >= MIN_TTL_SECONDS
        },
{
}

/// An application's record is written without a lifetime: it stays until
/// the next exchange overwrites it.
pub proof fn lemma_app_write_never_expires(exchange: ExchangeView, reply: IssuerReplyView)
    requires
        exchange.domain == Domain::App,
    ensures
        exchange.settle(reply) matches ExchangeStepView::Write(commit) ==> commit.ttl is None,
{
}

/// Every write that an exchange asks for goes under the exchange's own key.
pub proof fn lemma_write_under_own_key(exchange: ExchangeView, reply: IssuerReplyView)
    ensures
        exchange.settle(reply) matches ExchangeStepView::Write(commit) ==> commit.key
            == exchange.key,
{
}

/// What follows a read of the store.
#[derive(Debug, PartialEq, Eq)]
pub enum LookupStep {
    /// The store held a token: the acquisition ends with it.
    Granted(String),
    /// The acquisition ends without a token.
    Failed(TokenError),
    /// The store held nothing: this exchange is to be made.
    Issue(Exchange),
}

/// A [`LookupStep`] as a mathematical value.
pub enum LookupStepView {
    Granted(Seq<char>),
    Failed(TokenError),
    Issue(ExchangeView),
}

impl LookupStep {
    pub open spec fn view(&self) -> LookupStepView {
        match self {
            LookupStep::Granted(token) => LookupStepView::Granted(token@),
            LookupStep::Failed(error) => LookupStepView::Failed(*error),
            LookupStep::Issue(exchange) => LookupStepView::Issue(exchange@),
        }
    }
}

/// An acquisition that starts with a read of the store.
#[derive(Debug, PartialEq, Eq)]
pub struct Lookup {
    domain: Domain,
    key: String,
    on_miss: Option<IssueRequest>,
}

/// A [`Lookup`] as a mathematical value.
pub struct LookupView {
    pub domain: Domain,
    pub key: Seq<char>,
    /// The exchange to make where the store holds nothing; `None` where none
    /// may be made.
    pub on_miss: Option<IssueRequestView>,
}

impl LookupView {
    /// What follows `read`.
    ///
    /// A value that was found is trusted and ends the acquisition with its
    /// token. A miss leads to the exchange, or to
    /// [`TokenError::CredentialAbsent`] where none may be made. A store that
    /// could not be read ends the acquisition with
    /// [`TokenError::StoreUnavailable`].
    pub open spec fn resolve(self, read: StoreReadView) -> LookupStepView {
        match read {
            StoreReadView::Found(value) => LookupStepView::Granted(value.token()),
            StoreReadView::Unavailable => LookupStepView::Failed(TokenError::StoreUnavailable),
            StoreReadView::Missing => match self.on_miss {
                Some(request) => LookupStepView::Issue(
                    ExchangeView { domain: self.domain, key: self.key, request },
                ),
                None => LookupStepView::Failed(TokenError::CredentialAbsent),
            },
        }
    }
}

impl Lookup {
    pub closed spec fn view(&self) -> LookupView {
        LookupView {
            domain: self.domain,
            key: self.key@,
            on_miss: match self.on_miss {
                Some(request) => Some(request@),
                None => None,
            },
        }
    }

    /// An acquisition for `subject` in `domain` that makes the exchange
    /// `request` where the store holds nothing.
    pub fn acquire(domain: Domain, subject: &str, request: IssueRequest) -> (lookup: Lookup)
        ensures
            lookup@ == (LookupView {
                domain,
                key: storage_key_text(domain, subject@),
                on_miss: Some(request@),
            }),
    {
        Lookup { domain, key: storage_key(domain, subject), on_miss: Some(request) }
    }

    /// An acquisition for `subject` in `domain` that only reads the store.
    pub fn read_only(domain: Domain, subject: &str) -> (lookup: Lookup)
        ensures
            lookup@ == (LookupView {
                domain,
                key: storage_key_text(domain, subject@),
                on_miss: None,
            }),
    {
        Lookup { domain, key: storage_key(domain, subject), on_miss: None }
    }

    /// The key to read.
    pub fn key(&self) -> (key: &String)
        ensures
            key@ == self@.key,
    {
        &self.key
    }

    /// Decides what follows the read of the store.
    pub fn resolve(self, read: StoreRead) -> (step: LookupStep)
        ensures
            step@ == self@.resolve(read@),
    {
        match read {
            StoreRead::Found(value) => LookupStep::Granted(value.into_token()),
            StoreRead::Unavailable => LookupStep::Failed(TokenError::StoreUnavailable),
            StoreRead::Missing => match self.on_miss {
                Some(request) => LookupStep::Issue(
                    Exchange { domain: self.domain, key: self.key, request },
                ),
                None => LookupStep::Failed(TokenError::CredentialAbsent),
            },
        }
    }
}

} // verus!
