//! Credential records: what an exchange hands out and what the store keeps.

use vstd::prelude::*;

verus! {

/// The shortest lifetime, in seconds, that a record is ever stored with.
pub const MIN_TTL_SECONDS: u64 = 1;

/// The result of an authorization-code exchange for one application.
#[derive(Debug, PartialEq, Eq)]
pub struct AppCredential {
    pub access_token: String,
    pub refresh_token: String,
    pub corp_id: String,
    pub expire_in: i32,
}

/// An [`AppCredential`] as a mathematical value.
pub struct AppCredentialView {
    pub access_token: Seq<char>,
    pub refresh_token: Seq<char>,
    pub corp_id: Seq<char>,
    pub expire_in: int,
}

impl View for AppCredential {
    type V = AppCredentialView;

    open spec fn view(&self) -> AppCredentialView {
        AppCredentialView {
            access_token: self.access_token@,
            refresh_token: self.refresh_token@,
            corp_id: self.corp_id@,
            expire_in: self.expire_in as int,
        }
    }
}

impl Clone for AppCredential {
    fn clone(&self) -> (copy: Self)
        ensures
            copy@ == self@,
    {
        AppCredential {
            access_token: self.access_token.clone(),
            refresh_token: self.refresh_token.clone(),
            corp_id: self.corp_id.clone(),
            expire_in: self.expire_in,
        }
    }
}

/// The result of a client-credentials exchange for one tenant.
#[derive(Debug, PartialEq, Eq)]
pub struct TenantCredential {
    pub access_token: String,
    pub expire_in: i32,
}

/// A [`TenantCredential`] as a mathematical value.
pub struct TenantCredentialView {
    pub access_token: Seq<char>,
    pub expire_in: int,
}

impl View for TenantCredential {
    type V = TenantCredentialView;

    open spec fn view(&self) -> TenantCredentialView {
        TenantCredentialView {
            access_token: self.access_token@,
            expire_in: self.expire_in as int,
        }
    }
}

impl Clone for TenantCredential {
    fn clone(&self) -> (copy: Self)
        ensures
            copy@ == self@,
    {
        TenantCredential { access_token: self.access_token.clone(), expire_in: self.expire_in }
    }
}

/// The lifetime that a record is stored with when the issuer declared `declared` seconds.
///
/// A declared lifetime below the floor is raised to the floor, so that a zero
/// or negative value sent by the issuer never reaches the store.
pub open spec fn effective_ttl_of(declared: int) -> nat {
    if declared < MIN_TTL_SECONDS as int {
        MIN_TTL_SECONDS as nat
    } else {
        declared as nat
    }
}

/// Clamps a lifetime declared by the issuer to the floor [`MIN_TTL_SECONDS`].
pub fn effective_ttl(declared: i32) -> (ttl: u64)
    ensures
        ttl as nat == effective_ttl_of(declared as int),
        ttl >= MIN_TTL_SECONDS,
{
    if declared < 1 {
        MIN_TTL_SECONDS
    } else {
        declared as u64
    }
}

/// What the store keeps under one key.
#[derive(Debug, PartialEq, Eq)]
pub enum StoredValue {
    /// The whole record of an application: the token and the data issued with it.
    AppRecord(AppCredential),
    /// The bare token of a tenant.
    Token(String),
}

/// A [`StoredValue`] as a mathematical value.
pub enum StoredValueView {
    AppRecord(AppCredentialView),
    Token(Seq<char>),
}

impl StoredValueView {
    /// The bearer token that the value carries.
    pub open spec fn token(self) -> Seq<char> {
        match self {
            StoredValueView::AppRecord(record) => record.access_token,
            StoredValueView::Token(token) => token,
        }
    }
}

impl View for StoredValue {
    type V = StoredValueView;

    open spec fn view(&self) -> StoredValueView {
        match self {
            StoredValue::AppRecord(record) => StoredValueView::AppRecord(record@),
            StoredValue::Token(token) => StoredValueView::Token(token@),
        }
    }
}

impl Clone for StoredValue {
    fn clone(&self) -> (copy: Self)
        ensures
            copy@ == self@,
    {
        match self {
            StoredValue::AppRecord(record) => StoredValue::AppRecord(record.clone()),
            StoredValue::Token(token) => StoredValue::Token(token.clone()),
        }
    }
}

impl StoredValue {
    /// The bearer token that the value carries.
    pub fn token(&self) -> (token: String)
        ensures
            token@ == self@.token(),
    {
        match self {
            StoredValue::AppRecord(record) => record.access_token.clone(),
            StoredValue::Token(token) => token.clone(),
        }
    }

    /// The bearer token, taken out of the value without copying it.
    pub fn into_token(self) -> (token: String)
        ensures
            token@ == self@.token(),
    {
        match self {
            StoredValue::AppRecord(record) => record.access_token,
            StoredValue::Token(token) => token,
        }
    }
}

} // verus!
