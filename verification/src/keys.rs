//! Storage keys of the two credential domains.
//!
//! Application records and tenant records live in one store. Each domain
//! derives its keys with a prefix of its own, so that an application id and a
//! tenant id made of the same characters never name the same entry.

use vstd::prelude::*;

verus! {

/// The credential domain that a record belongs to.
#[derive(Clone, Copy, Debug, PartialEq, Eq, Structural)]
pub enum Domain {
    /// One record per application, written by an authorization-code exchange.
    App,
    /// One record per tenant, written by a client-credentials exchange.
    Tenant,
}

impl Domain {
    /// The characters that every storage key of this domain starts with.
    pub open spec fn prefix(self) -> Seq<char> {
        match self {
            Domain::App => seq!['a', 'p', 'p', ':'],
            Domain::Tenant => seq!['t', 'e', 'n', 'a', 'n', 't', ':'],
        }
    }
}

/// The storage key of `subject` in `domain`: the domain's prefix, then the subject.
pub open spec fn storage_key_text(domain: Domain, subject: Seq<char>) -> Seq<char> {
    domain.prefix() + subject
}

/// Derives the storage key under which the record of `subject` is kept.
pub fn storage_key(domain: Domain, subject: &str) -> (key: String)
    ensures
        key@ == storage_key_text(domain, subject@),
{
    proof {
        reveal_strlit("app:");
        reveal_strlit("tenant:");
    }
    let mut key = match domain {
        Domain::App => {
            assert("app:"@ =~= Domain::App.prefix());
            String::from_str("app:")
        },
        Domain::Tenant => {
            assert("tenant:"@ =~= Domain::Tenant.prefix());
            String::from_str("tenant:")
        },
    };
    key.append(subject);
    key
}

/// Keys of different domains never coincide, whatever the two subjects are.
pub proof fn lemma_domains_disjoint(app_subject: Seq<char>, tenant_subject: Seq<char>)
    ensures
        storage_key_text(Domain::App, app_subject) != storage_key_text(
            Domain::Tenant,
            tenant_subject,
        ),
{
    let a = storage_key_text(Domain::App, app_subject);
    let t = storage_key_text(Domain::Tenant, tenant_subject);
    assert(a[0] == 'a');
    assert(t[0] == 't');
}

/// Within one domain, different subjects have different keys.
pub proof fn lemma_key_injective(domain: Domain, first: Seq<char>, second: Seq<char>)
    requires
        storage_key_text(domain, first) == storage_key_text(domain, second),
    ensures
        first == second,
{
    let n = domain.prefix().len() as int;
    let a = storage_key_text(domain, first);
    let b = storage_key_text(domain, second);
    assert(a.len() == n + first.len());
    assert(b.len() == n + second.len());
    assert forall|i: int| 0 <= i < first.len() implies first[i] == second[i] by {
        assert(a[n + i] == first[i]);
        assert(b[n + i] == second[i]);
    }
    assert(first =~= second);
}

} // verus!
