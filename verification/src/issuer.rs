//! The token issuer: which exchange to ask for, and how to read its answer.
//!
//! The exchange itself is a network call and is made by the caller. This
//! module builds the request and turns the answer, handed back as plain
//! values, into a credential or a failure.

use vstd::prelude::*;
use crate::credential::{
    effective_ttl, effective_ttl_of, AppCredential, AppCredentialView, StoredValue,
    StoredValueView, TenantCredential, TenantCredentialView,
};
use crate::error::TokenError;
use crate::keys::Domain;

verus! {

/// Whether an HTTP status code lies in the success range, 200 to 299.
pub open spec fn status_is_success(status: u16) -> bool {
    200 <= status < 300
}

/// Tells whether an HTTP status code lies in the success range, 200 to 299.
pub fn is_success(status: u16) -> (ok: bool)
    ensures
        ok == status_is_success(status),
{
    200 <= status && status < 300
}

/// A token exchange to be posted to the issuer: the endpoint and the named
/// parameters of the JSON body.
#[derive(Debug, PartialEq, Eq)]
pub struct IssueRequest {
    pub url: String,
    pub params: Vec<(String, String)>,
}

/// An [`IssueRequest`] as a mathematical value.
pub struct IssueRequestView {
    pub url: Seq<char>,
    pub params: Seq<(Seq<char>, Seq<char>)>,
}

impl View for IssueRequest {
    type V = IssueRequestView;

    open spec fn view(&self) -> IssueRequestView {
        IssueRequestView { url: self.url@, params: self.params.deep_view() }
    }
}

/// The authorization-code exchange of application `appid` for `code`.
pub open spec fn app_token_request_of(
    appid: Seq<char>,
    app_secret: Seq<char>,
    code: Seq<char>,
) -> IssueRequestView {
    IssueRequestView {
        url: "https://api.dingtalk.com/v1.0/oauth2/userAccessToken"@,
        params: seq![
            ("clientId"@, appid),
            ("clientSecret"@, app_secret),
            ("code"@, code),
            ("refreshToken"@, ""@),
            ("grantType"@, "authorization_code"@),
        ],
    }
}

/// The client-credentials exchange of application `appid` for tenant `corp_id`.
pub open spec fn tenant_token_request_of(
    appid: Seq<char>,
    app_secret: Seq<char>,
    corp_id: Seq<char>,
) -> IssueRequestView {
    IssueRequestView {
        url: "https://api.dingtalk.com/v1.0/oauth2/"@ + corp_id + "/token"@,
        params: seq![
            ("client_id"@, appid),
            ("client_secret"@, app_secret),
            ("grant_type"@, "client_credentials"@),
        ],
    }
}

fn param(name: &str, value: &str) -> (pair: (String, String))
    ensures
        pair.0@ == name@,
        pair.1@ == value@,
{
    (String::from_str(name), String::from_str(value))
}

/// Builds the authorization-code exchange of application `appid` for `code`.
pub fn app_token_request(appid: &str, app_secret: &str, code: &str) -> (request: IssueRequest)
    ensures
        request@ == app_token_request_of(appid@, app_secret@, code@),
{
    let mut params: Vec<(String, String)> = Vec::new();
    params.push(param("clientId", appid));
    params.push(param("clientSecret", app_secret));
    params.push(param("code", code));
    params.push(param("refreshToken", ""));
    params.push(param("grantType", "authorization_code"));
    let request = IssueRequest {
        url: String::from_str("https://api.dingtalk.com/v1.0/oauth2/userAccessToken"),
        params,
    };
    assert(request@.params =~= app_token_request_of(appid@, app_secret@, code@).params);
    request
}

/// Builds the client-credentials exchange of application `appid` for tenant `corp_id`.
pub fn tenant_token_request(appid: &str, app_secret: &str, corp_id: &str) -> (request:
    IssueRequest)
    ensures
        request@ == tenant_token_request_of(appid@, app_secret@, corp_id@),
{
    let mut url = String::from_str("https://api.dingtalk.com/v1.0/oauth2/");
    url.append(corp_id);
    url.append("/token");
    let mut params: Vec<(String, String)> = Vec::new();
    params.push(param("client_id", appid));
    params.push(param("client_secret", app_secret));
    params.push(param("grant_type", "client_credentials"));
    let request = IssueRequest { url, params };
    assert(request@.params =~= tenant_token_request_of(appid@, app_secret@, corp_id@).params);
    request
}

/// The record that a successful exchange hands out.
#[derive(Debug, PartialEq, Eq)]
pub enum IssuedToken {
    App(AppCredential),
    Tenant(TenantCredential),
}

/// An [`IssuedToken`] as a mathematical value.
pub enum IssuedTokenView {
    App(AppCredentialView),
    Tenant(TenantCredentialView),
}

impl IssuedTokenView {
    /// The domain that the record belongs to.
    pub open spec fn domain(self) -> Domain {
        match self {
            IssuedTokenView::App(_) => Domain::App,
            IssuedTokenView::Tenant(_) => Domain::Tenant,
        }
    }

    /// What the store is to keep of the record.
    ///
    /// An application's record is kept whole. Of a tenant's record the store
    /// keeps the token.
    pub open spec fn stored_value(self) -> StoredValueView {
        match self {
            IssuedTokenView::App(record) => StoredValueView::AppRecord(record),
            IssuedTokenView::Tenant(record) => StoredValueView::Token(record.access_token),
        }
    }

    /// The lifetime that the store is to give the record.
    ///
    /// An application's record does not expire. A tenant's record lives for
    /// the declared lifetime, raised to the floor where it is below it.
    pub open spec fn stored_ttl(self) -> Option<nat> {
        match self {
            IssuedTokenView::App(_) => None,
            IssuedTokenView::Tenant(record) => Some(effective_ttl_of(record.expire_in)),
        }
    }
}

impl View for IssuedToken {
    type V = IssuedTokenView;

    open spec fn view(&self) -> IssuedTokenView {
        match self {
            IssuedToken::App(record) => IssuedTokenView::App(record@),
            IssuedToken::Tenant(record) => IssuedTokenView::Tenant(record@),
        }
    }
}

impl IssuedToken {
    /// The domain that the record belongs to.
    pub fn domain(&self) -> (domain: Domain)
        ensures
            domain == self@.domain(),
    {
        match self {
            IssuedToken::App(_) => Domain::App,
            IssuedToken::Tenant(_) => Domain::Tenant,
        }
    }

    /// Splits the record into what the store is to keep and for how long.
    pub fn into_stored(self) -> (stored: (StoredValue, Option<u64>))
        ensures
            stored.0@ == self@.stored_value(),
            match stored.1 {
                Some(ttl) => self@.stored_ttl() == Some(ttl as nat),
                None => self@.stored_ttl() is None,
            },
    {
        match self {
            IssuedToken::App(record) => (StoredValue::AppRecord(record), None),
            IssuedToken::Tenant(record) => {
                let ttl: u64 = effective_ttl(record.expire_in);
                (StoredValue::Token(record.access_token), Some(ttl))
            },
        }
    }
}

/// What came back from the issuer, as the caller that made the call saw it.
#[derive(Debug, PartialEq, Eq)]
pub enum IssuerReply {
    /// No answer arrived: the connection failed, timed out or broke off.
    TransportFailure,
    /// An answer arrived with this status. `body` holds the record read from
    /// it, or nothing where the body was not such a record.
    Response { status: u16, body: Option<IssuedToken> },
}

/// An [`IssuerReply`] as a mathematical value.
pub enum IssuerReplyView {
    TransportFailure,
    Response { status: u16, body: Option<IssuedTokenView> },
}

impl View for IssuerReply {
    type V = IssuerReplyView;

    open spec fn view(&self) -> IssuerReplyView {
        match self {
            IssuerReply::TransportFailure => IssuerReplyView::TransportFailure,
            IssuerReply::Response { status, body } => IssuerReplyView::Response {
                status: *status,
                body: match body {
                    Some(issued) => Some(issued@),
                    None => None,
                },
            },
        }
    }
}

impl IssuerReplyView {
    /// The credential that the reply grants in `domain`, or why it grants none.
    ///
    /// A reply grants a credential exactly when an answer arrived, its status
    /// is in the success range and its body is a record of `domain`.
    pub open spec fn outcome(self, domain: Domain) -> Result<IssuedTokenView, TokenError> {
        match self {
            IssuerReplyView::TransportFailure => Err(TokenError::IssuanceTransportFailure),
            IssuerReplyView::Response { status, body } => {
                if !status_is_success(status) {
                    Err(TokenError::IssuanceRejected { status })
                } else {
                    match body {
                        Some(issued) if issued.domain() == domain => Ok(issued),
                        _ => Err(TokenError::MalformedIssuanceResponse),
                    }
                }
            },
        }
    }
}

impl IssuerReply {
    /// Reads the reply to an exchange made for `domain`.
    pub fn into_outcome(self, domain: Domain) -> (outcome: Result<IssuedToken, TokenError>)
        ensures
            match outcome {
                Ok(issued) => self@.outcome(domain) == Ok::<IssuedTokenView, TokenError>(issued@),
                Err(error) => self@.outcome(domain) == Err::<IssuedTokenView, TokenError>(error),
            },
    {
        match self {
            IssuerReply::TransportFailure => Err(TokenError::IssuanceTransportFailure),
            IssuerReply::Response { status, body } => {
                if !is_success(status) {
                    Err(TokenError::IssuanceRejected { status })
                } else {
                    match body {
                        Some(issued) => {
                            if issued.domain() == domain {
                                Ok(issued)
                            } else {
                                Err(TokenError::MalformedIssuanceResponse)
                            }
                        },
                        None => Err(TokenError::MalformedIssuanceResponse),
                    }
                }
            },
        }
    }
}

} // verus!
