//! Requests to the open platform as plain values, and the check of what came
//! back. Sending a request and reading the answer's body belong to the caller.

use vstd::prelude::*;
use crate::decimal::{decimal, decimal_of};
use crate::issuer::{is_success, status_is_success};

verus! {

/// The name of the header that carries the token.
pub open spec fn token_header_name() -> Seq<char> {
    "x-acs-dingtalk-access-token"@
}

/// The HTTP method of a request.
#[derive(Clone, Copy, Debug, PartialEq, Eq, Structural)]
pub enum Method {
    Get,
    Post,
}

/// The value of one parameter of a JSON body.
#[derive(Debug, PartialEq, Eq)]
pub enum Param {
    Text(String),
    Flag(bool),
}

/// A [`Param`] as a mathematical value.
pub enum ParamView {
    Text(Seq<char>),
    Flag(bool),
}

impl DeepView for Param {
    type V = ParamView;

    open spec fn deep_view(&self) -> ParamView {
        match self {
            Param::Text(text) => ParamView::Text(text@),
            Param::Flag(flag) => ParamView::Flag(*flag),
        }
    }
}

/// A request to the open platform.
#[derive(Debug, PartialEq, Eq)]
pub struct ApiRequest {
    pub method: Method,
    pub url: String,
    /// Header names and values.
    pub headers: Vec<(String, String)>,
    /// The named parameters of the JSON body; empty for a request without one.
    pub params: Vec<(String, Param)>,
}

/// An [`ApiRequest`] as a mathematical value.
pub struct ApiRequestView {
    pub method: Method,
    pub url: Seq<char>,
    pub headers: Seq<(Seq<char>, Seq<char>)>,
    pub params: Seq<(Seq<char>, ParamView)>,
}

impl View for ApiRequest {
    type V = ApiRequestView;

    open spec fn view(&self) -> ApiRequestView {
        ApiRequestView {
            method: self.method,
            url: self.url@,
            headers: self.headers.deep_view(),
            params: self.params.deep_view(),
        }
    }
}

/// A `GET` of `url` with the token in its header.
pub open spec fn get_with_token_header(url: Seq<char>, token: Seq<char>) -> ApiRequestView {
    ApiRequestView {
        method: Method::Get,
        url,
        headers: seq![(token_header_name(), token)],
        params: Seq::empty(),
    }
}

/// A `POST` of `params` to `url`, with the token as the query parameter
/// `access_token`, written as it stands.
pub open spec fn post_with_token_query(
    url: Seq<char>,
    token: Seq<char>,
    params: Seq<(Seq<char>, ParamView)>,
) -> ApiRequestView {
    ApiRequestView {
        method: Method::Post,
        url: url + "?access_token="@ + token,
        headers: Seq::empty(),
        params,
    }
}

/// Builds a `GET` of `url` with the token in its header.
pub fn token_header_get(url: String, token: &str) -> (request: ApiRequest)
    ensures
        request@ == get_with_token_header(url@, token@),
{
    let mut headers: Vec<(String, String)> = Vec::new();
    headers.push((String::from_str("x-acs-dingtalk-access-token"), String::from_str(token)));
    let params: Vec<(String, Param)> = Vec::new();
    let request = ApiRequest { method: Method::Get, url, headers, params };
    assert(request@.headers =~= get_with_token_header(url@, token@).headers);
    assert(request@.params =~= get_with_token_header(url@, token@).params);
    request
}

/// Builds a `POST` of `params` to `url` with the token as a query parameter.
pub fn token_query_post(url: &str, token: &str, params: Vec<(String, Param)>) -> (request:
    ApiRequest)
    ensures
        request@ == post_with_token_query(url@, token@, params.deep_view()),
{
    let mut address = String::from_str(url);
    address.append("?access_token=");
    address.append(token);
    let headers: Vec<(String, String)> = Vec::new();
    let request = ApiRequest { method: Method::Post, url: address, headers, params };
    assert(request@.headers =~= Seq::<(Seq<char>, Seq<char>)>::empty());
    request
}

/// A text parameter.
pub fn text_param(name: &str, value: &str) -> (pair: (String, Param))
    ensures
        pair.deep_view() == (name@, ParamView::Text(value@)),
{
    (String::from_str(name), Param::Text(String::from_str(value)))
}

/// A true-or-false parameter.
pub fn flag_param(name: &str, value: bool) -> (pair: (String, Param))
    ensures
        pair.deep_view() == (name@, ParamView::Flag(value)),
{
    (String::from_str(name), Param::Flag(value))
}

/// The calls that the open platform is asked for.
#[derive(Clone, Copy, Debug, PartialEq, Eq, Structural)]
pub enum ApiCall {
    ContactUserInfo,
    Organization,
    UserId,
    UserInfo,
    EmployeeCount,
    OnJobEmployees,
    OffJobEmployees,
    EmployeeUserInfo,
}

impl ApiCall {
    /// What is reported where the call is answered with a status outside
    /// the success range.
    pub open spec fn failure_text(self) -> Seq<char> {
        match self {
            ApiCall::ContactUserInfo => "Failed to get user info"@,
            ApiCall::Organization => "Failed to get organization"@,
            ApiCall::UserId => "Failed to response user info"@,
            ApiCall::UserInfo => "Failed to response get org user info"@,
            ApiCall::EmployeeCount => "Failed to response get employee count"@,
            ApiCall::OnJobEmployees => "Failed to response get employee count"@,
            ApiCall::OffJobEmployees => "Failed to get user info"@,
            ApiCall::EmployeeUserInfo => "Failed to response get employee count"@,
        }
    }

    /// The text reported where the call is answered with a status outside
    /// the success range.
    pub fn failure_message(self) -> (message: &'static str)
        ensures
            message@ == self.failure_text(),
    {
        match self {
            ApiCall::ContactUserInfo => "Failed to get user info",
            ApiCall::Organization => "Failed to get organization",
            ApiCall::UserId => "Failed to response user info",
            ApiCall::UserInfo => "Failed to response get org user info",
            ApiCall::EmployeeCount => "Failed to response get employee count",
            ApiCall::OnJobEmployees => "Failed to response get employee count",
            ApiCall::OffJobEmployees => "Failed to get user info",
            ApiCall::EmployeeUserInfo => "Failed to response get employee count",
        }
    }
}

/// A call that was answered with a status outside the success range.
#[derive(Clone, Copy, Debug, PartialEq, Eq, Structural)]
pub struct ApiFailure {
    pub call: ApiCall,
    pub status: u16,
}

impl ApiFailure {
    /// The failure in words: what is reported for the call, a colon and the status.
    pub open spec fn message_text(self) -> Seq<char> {
        self.call.failure_text() + ": "@ + decimal_of(self.status as int)
    }

    /// Describes the failure in words.
    pub fn message(&self) -> (text: String)
        ensures
            text@ == self.message_text(),
    {
        let mut text = String::from_str(self.call.failure_message());
        text.append(": ");
        let code = decimal(self.status as i64);
        text.append(code.as_str());
        text
    }
}

/// Accepts an answer whose status lies in the success range, 200 to 299,
/// and rejects any other with the call and the status.
pub fn check_status(call: ApiCall, status: u16) -> (checked: Result<(), ApiFailure>)
    ensures
        status_is_success(status) ==> checked is Ok,
        !status_is_success(status) ==> checked == Err::<(), ApiFailure>(
            ApiFailure { call, status },
        ),
{
    if is_success(status) {
        Ok(())
    } else {
        Err(ApiFailure { call, status })
    }
}

} // verus!
