//! The identities that tokens are acquired for: an application, and an
//! application bound to one tenant.

use vstd::prelude::*;
use crate::cache::{
    acquire, acquired, corp_id_of, exchange, granted_corp_id, peek, settled, token_view, Issuer,
};
use crate::error::TokenError;
use crate::issuer::{
    app_token_request, app_token_request_of, tenant_token_request, tenant_token_request_of,
    IssuerReplyView,
};
use crate::keys::{storage_key_text, Domain};
use crate::manager::{Exchange, ExchangeView, Lookup, LookupView};
use crate::redirect::{redirect_url, redirect_url_text};
use crate::store::MemoryStore;

verus! {

/// An application registered with the open platform.
#[derive(Debug, PartialEq, Eq)]
pub struct DingTalk {
    pub appid: String,
    pub app_secret: String,
}

/// An application bound to one tenant, for which tenant tokens are acquired.
#[derive(Debug, PartialEq, Eq)]
pub struct OrgApp {
    appid: String,
    app_secret: String,
    corp_id: String,
}

/// An [`OrgApp`] as a mathematical value.
pub struct OrgAppView {
    pub appid: Seq<char>,
    pub app_secret: Seq<char>,
    pub corp_id: Seq<char>,
}

/// The address of the credential store that is used where none is configured.
pub open spec fn default_store_url() -> Seq<char> {
    "redis://:@127.0.0.1:6379/1"@
}

/// Picks the address of the credential store: the configured one, and the
/// default where none is configured.
pub fn store_url(configured: Option<String>) -> (url: String)
    ensures
        url@ == (match configured {
            Some(address) => address@,
            None => default_store_url(),
        }),
{
    match configured {
        Some(address) => address,
        None => String::from_str("redis://:@127.0.0.1:6379/1"),
    }
}

impl DingTalk {
    /// The application with the id and the secret that the platform issued.
    pub fn new(appid: String, app_secret: String) -> (app: DingTalk)
        ensures
            app.appid@ == appid@,
            app.app_secret@ == app_secret@,
    {
        DingTalk { appid, app_secret }
    }

    /// The address that a user is sent to in order to authorize the
    /// application, to come back to `redirect_uri`. A missing `state` is sent
    /// as the empty text.
    pub fn get_redirect_url(&self, redirect_uri: String, state: Option<String>) -> (url: String)
        ensures
            url@ == redirect_url_text(
                self.appid@,
                redirect_uri@,
                match state {
                    Some(text) => text@,
                    None => Seq::empty(),
                },
            ),
    {
        match state {
            Some(text) => redirect_url(self.appid.as_str(), redirect_uri.as_str(), text.as_str()),
            None => {
                let empty = String::new();
                redirect_url(self.appid.as_str(), redirect_uri.as_str(), empty.as_str())
            },
        }
    }

    /// Binds the application to the tenant `corp_id`.
    pub fn set_corp_id(&self, corp_id: String) -> (org: OrgApp)
        ensures
            org@ == (OrgAppView {
                appid: self.appid@,
                app_secret: self.app_secret@,
                corp_id: corp_id@,
            }),
    {
        OrgApp::new(self.appid.clone(), self.app_secret.clone(), corp_id)
    }

    /// The exchange of the authorization code `code` for the application's record.
    pub open spec fn app_token_exchange_of(&self, code: Seq<char>) -> ExchangeView {
        ExchangeView {
            domain: Domain::App,
            key: storage_key_text(Domain::App, self.appid@),
            request: app_token_request_of(self.appid@, self.app_secret@, code),
        }
    }

    /// The read-only lookup of the application's token.
    pub open spec fn app_token_lookup_of(&self) -> LookupView {
        LookupView {
            domain: Domain::App,
            key: storage_key_text(Domain::App, self.appid@),
            on_miss: None,
        }
    }

    /// Starts the exchange of the authorization code `code` for the
    /// application's record.
    pub fn app_token_exchange(&self, code: &str) -> (pending: Exchange)
        ensures
            pending@ == self.app_token_exchange_of(code@),
    {
        Exchange::begin(
            Domain::App,
            self.appid.as_str(),
            app_token_request(self.appid.as_str(), self.app_secret.as_str(), code),
        )
    }

    /// Starts a lookup of the application's token that makes no exchange.
    pub fn app_token_lookup(&self) -> (lookup: Lookup)
        ensures
            lookup@ == self.app_token_lookup_of(),
    {
        Lookup::read_only(Domain::App, self.appid.as_str())
    }

    /// Exchanges the authorization code `code` for the application's record,
    /// stores the record without expiration under the application's key,
    /// replacing what was there, and returns the tenant id that came with it.
    ///
    /// Where the exchange grants nothing the store is left as it was.
    pub fn set_app_access_token<I: Issuer>(
        &self,
        store: &mut MemoryStore,
        issuer: &mut I,
        code: String,
    ) -> (corp_id: Result<String, TokenError>)
        ensures
            exists|reply: IssuerReplyView|
                {
                    &&& final(store)@ == (#[trigger] settled(
                        old(store)@,
                        self.app_token_exchange_of(code@),
                        reply,
                    )).store
                    &&& token_view(corp_id) == corp_id_of(
                        settled(old(store)@, self.app_token_exchange_of(code@), reply).value,
                    )
                },
    {
        let pending = self.app_token_exchange(code.as_str());
        let end = exchange(store, issuer, pending);
        granted_corp_id(end)
    }

    /// Returns the application's token as the store holds it, or
    /// [`TokenError::CredentialAbsent`]: no exchange is made, since none can
    /// be made without a fresh authorization code.
    pub fn get_app_access_token(&self, store: &MemoryStore) -> (token: Result<String, TokenError>)
        ensures
            token_view(token) == (match store@.get(storage_key_text(Domain::App, self.appid@)) {
                Some(value) => Ok::<Seq<char>, TokenError>(value.token()),
                None => Err::<Seq<char>, TokenError>(TokenError::CredentialAbsent),
            }),
    {
        peek(store, Domain::App, self.appid.as_str())
    }
}

impl OrgApp {
    pub closed spec fn view(&self) -> OrgAppView {
        OrgAppView { appid: self.appid@, app_secret: self.app_secret@, corp_id: self.corp_id@ }
    }

    /// The application `appid` bound to the tenant `corp_id`.
    pub fn new(appid: String, app_secret: String, corp_id: String) -> (org: OrgApp)
        ensures
            org@ == (OrgAppView { appid: appid@, app_secret: app_secret@, corp_id: corp_id@ }),
    {
        OrgApp { appid, app_secret, corp_id }
    }

    /// The tenant's id.
    pub fn corp_id(&self) -> (corp_id: &String)
        ensures
            corp_id@ == self@.corp_id,
    {
        &self.corp_id
    }

    /// The acquisition of the tenant's token: a read of the tenant's key,
    /// and on a miss a client-credentials exchange.
    pub open spec fn token_lookup_of(&self) -> LookupView {
        LookupView {
            domain: Domain::Tenant,
            key: storage_key_text(Domain::Tenant, self@.corp_id),
            on_miss: Some(
                tenant_token_request_of(self@.appid, self@.app_secret, self@.corp_id),
            ),
        }
    }

    /// Starts the acquisition of the tenant's token.
    pub fn token_lookup(&self) -> (lookup: Lookup)
        ensures
            lookup@ == self.token_lookup_of(),
    {
        Lookup::acquire(
            Domain::Tenant,
            self.corp_id.as_str(),
            tenant_token_request(
                self.appid.as_str(),
                self.app_secret.as_str(),
                self.corp_id.as_str(),
            ),
        )
    }

    /// Returns a token for the tenant: the one that the store holds, and
    /// where it holds none a new one, which is stored with the lifetime that
    /// the issuer declared.
    pub fn get_access_token<I: Issuer>(&self, store: &mut MemoryStore, issuer: &mut I) -> (token:
        Result<String, TokenError>)
        ensures
            old(store)@.get(storage_key_text(Domain::Tenant, self@.corp_id)) matches Some(value)
                ==> {
                &&& token_view(token) == Ok::<Seq<char>, TokenError>(value.token())
                &&& final(store)@ == old(store)@
                &&& *final(issuer) == *old(issuer)
            },
            exists|reply: IssuerReplyView|
                {
                    &&& final(store)@ == (#[trigger] acquired(
                        old(store)@,
                        self.token_lookup_of(),
                        reply,
                    )).store
                    &&& token_view(token) == acquired(
                        old(store)@,
                        self.token_lookup_of(),
                        reply,
                    ).token
                },
    {
        acquire(store, issuer, self.token_lookup())
    }
}

} // verus!
