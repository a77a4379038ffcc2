//! The profile of a user, and the request that fetches it.

use vstd::prelude::*;
use crate::client::DingTalk;
use crate::request::{get_with_token_header, token_header_get, ApiRequest, ApiRequestView};

verus! {

/// The profile of a user.
#[derive(Debug, PartialEq, Eq)]
pub struct UserInfo {
    pub email: Option<String>,
    pub mobile: Option<String>,
    pub username: String,
    pub open_id: Option<String>,
    pub union_id: String,
    pub state_code: String,
    pub visitor: Option<bool>,
}

/// The request for the profile of the user `union_id`.
pub open spec fn contact_userinfo_request_of(token: Seq<char>, union_id: Seq<char>) -> ApiRequestView {
    get_with_token_header("https://api.dingtalk.com/v1.0/contact/users/"@ + union_id, token)
}

impl DingTalk {
    /// Builds the request for the profile of the user `union_id`, to be
    /// sent with the application's token.
    pub fn get_contact_userinfo_request(token: &str, union_id: &str) -> (request: ApiRequest)
        ensures
            request@ == contact_userinfo_request_of(token@, union_id@),
    {
        let mut url = String::from_str("https://api.dingtalk.com/v1.0/contact/users/");
        url.append(union_id);
        token_header_get(url, token)
    }
}

} // verus!
