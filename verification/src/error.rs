//! The failures of token acquisition.

use vstd::prelude::*;
use crate::decimal::{decimal, decimal_of};

verus! {

/// Why no token could be handed out.
#[derive(Clone, Copy, Debug, PartialEq, Eq, Structural)]
pub enum TokenError {
    /// The credential store could not be reached, or an operation on it failed.
    StoreUnavailable,
    /// The call to the issuer failed before an answer arrived.
    IssuanceTransportFailure,
    /// The issuer answered with a status outside the success range.
    IssuanceRejected { status: u16 },
    /// The issuer answered with success, but not with the record that was asked for.
    MalformedIssuanceResponse,
    /// The store holds no record and no exchange was to be made.
    CredentialAbsent,
}

impl TokenError {
    /// The failure in words. A rejection names the status that the issuer
    /// answered with.
    pub open spec fn message_text(self) -> Seq<char> {
        match self {
            TokenError::StoreUnavailable => "The credential store is unavailable"@,
            TokenError::IssuanceTransportFailure => "Failed to reach the token issuer"@,
            TokenError::IssuanceRejected { status } => "Failed to get access token: "@
                + decimal_of(status as int),
            TokenError::MalformedIssuanceResponse => "Failed to read the issued access token"@,
            TokenError::CredentialAbsent => "Failed to get access token"@,
        }
    }

    /// Describes the failure in words.
    pub fn message(&self) -> (text: String)
        ensures
            text@ == self.message_text(),
    {
        match self {
            TokenError::StoreUnavailable => String::from_str("The credential store is unavailable"),
            TokenError::IssuanceTransportFailure => String::from_str(
                "Failed to reach the token issuer",
            ),
            TokenError::IssuanceRejected { status } => {
                let mut text = String::from_str("Failed to get access token: ");
                let code = decimal(*status as i64);
                text.append(code.as_str());
                text
            },
            TokenError::MalformedIssuanceResponse => String::from_str(
                "Failed to read the issued access token",
            ),
            TokenError::CredentialAbsent => String::from_str("Failed to get access token"),
        }
    }
}

} // verus!
