//! Organizations and their employees: the records that the open platform
//! hands out, and the requests that fetch them.

use vstd::prelude::*;
use std::collections::HashMap;
use crate::client::OrgApp;
use crate::contact::UserInfo;
use crate::decimal::{decimal, decimal_of};
use crate::request::{
    flag_param, get_with_token_header, post_with_token_query, text_param, token_header_get,
    token_query_post, ApiRequest, ApiRequestView, Param, ParamView,
};

verus! {

/// The authentication record of an organization.
#[derive(Debug, PartialEq, Eq)]
pub struct Organization {
    pub license_url: String,
    pub name: String,
    pub registration_no: String,
    pub unified_social_credit: String,
    pub organization_code: String,
    pub legal_person: String,
    pub license_org_name: String,
    pub auth_level: i32,
}

/// The user that an authorization code stands for.
#[derive(Debug, PartialEq, Eq)]
pub struct UserGetByCodeResponse {
    pub(crate) device_id: String,
    pub username: String,
    pub(crate) is_admin: bool,
    /// 1 for the main administrator, 2 for an administrator, 100 for the
    /// owner, 0 for anyone else.
    pub(crate) level: i32,
    pub union_id: String,
    pub user_id: String,
}

/// A department and the user's place in its order.
#[derive(Debug, PartialEq, Eq)]
pub struct Department {
    pub id: i32,
    pub sort_id: i64,
}

/// A department and whether the user leads it.
#[derive(Debug, PartialEq, Eq)]
pub struct LeaderInDepartment {
    pub id: i32,
    pub leader: bool,
}

/// A role of a user.
#[derive(Debug, PartialEq, Eq)]
pub struct Role {
    pub id: i32,
    pub name: String,
    pub group_name: String,
}

/// The profile of a user within an organization.
#[derive(Debug, PartialEq, Eq)]
pub struct UserGetProfileResponse {
    pub active: bool,
    pub admin: bool,
    pub avatar: String,
    pub boss: bool,
    pub create_time: String,
    pub dept_id_list: Vec<i32>,
    pub dept_order_list: Vec<Department>,
    pub email: Option<String>,
    pub exclusive_account: bool,
    pub hide_mobile: bool,
    pub job_number: String,
    pub leader_in_dept: Vec<LeaderInDepartment>,
    pub mobile: String,
    pub username: String,
    pub org_email: Option<String>,
    pub real_authed: bool,
    pub remark: String,
    pub role_list: Vec<Role>,
    pub senior: bool,
    pub state_code: String,
    pub telephone: String,
    pub title: String,
    pub union_emp_ext: HashMap<String, String>,
    pub union_id: String,
    pub user_id: String,
    pub work_place: String,
}

/// One page of user ids, and where the next page starts.
#[derive(Debug, PartialEq, Eq)]
pub struct PageResult {
    pub data: Vec<String>,
    pub next_cursor: Option<i64>,
}

/// The record of an employee.
#[derive(Debug, PartialEq, Eq)]
pub struct EmployeeUser {
    pub union_id: String,
    pub user_id: String,
    pub username: String,
    pub profile_url: String,
    pub state_code: String,
    pub manager_userid: Option<String>,
    pub mobile: String,
    pub hide_mobile: bool,
    pub telephone: String,
    pub job_number: String,
    pub title: String,
    pub email: Option<String>,
    pub work_place: String,
    pub remark: String,
    pub exclusive_account: bool,
    pub org_email: Option<String>,
    pub dept_id_list: Vec<i32>,
    pub dept_order_list: Vec<Department>,
    pub extension: Option<String>,
    pub hired_date: Option<u64>,
    pub active: bool,
    pub real_authed: bool,
    pub senior: bool,
    pub admin: bool,
    pub boss: bool,
    pub leader_in_dept: Option<Vec<LeaderInDepartment>>,
    pub role_list: Option<Vec<Role>>,
    pub union_emp_ext: HashMap<String, String>,
}

/// A [`UserGetByCodeResponse`] as a mathematical value.
pub struct UserGetByCodeResponseView {
    pub device_id: Seq<char>,
    pub username: Seq<char>,
    pub is_admin: bool,
    pub level: int,
    pub union_id: Seq<char>,
    pub user_id: Seq<char>,
}

impl UserGetByCodeResponse {
    pub closed spec fn view(&self) -> UserGetByCodeResponseView {
        UserGetByCodeResponseView {
            device_id: self.device_id@,
            username: self.username@,
            is_admin: self.is_admin,
            level: self.level as int,
            union_id: self.union_id@,
            user_id: self.user_id@,
        }
    }

    /// The record of the user `user_id`, known to the platform as `union_id`.
    pub fn new(
        device_id: String,
        username: String,
        is_admin: bool,
        level: i32,
        union_id: String,
        user_id: String,
    ) -> (user: UserGetByCodeResponse)
        ensures
            user@ == (UserGetByCodeResponseView {
                device_id: device_id@,
                username: username@,
                is_admin,
                level: level as int,
                union_id: union_id@,
                user_id: user_id@,
            }),
    {
        UserGetByCodeResponse { device_id, username, is_admin, level, union_id, user_id }
    }

    /// The device that the user signed in from.
    pub fn device_id(&self) -> (device_id: &String)
        ensures
            device_id@ == self@.device_id,
    {
        &self.device_id
    }

    /// Whether the user administers the organization.
    pub fn is_admin(&self) -> (is_admin: bool)
        ensures
            is_admin == self@.is_admin,
    {
        self.is_admin
    }

    /// The user's level: 1 for the main administrator, 2 for an
    /// administrator, 100 for the owner, 0 for anyone else.
    pub fn level(&self) -> (level: i32)
        ensures
            level as int == self@.level,
    {
        self.level
    }

    /// The user's id within the organization.
    pub fn into_user_id(self) -> (user_id: String)
        ensures
            user_id@ == self@.user_id,
    {
        self.user_id
    }
}

/// The request for the authentication record of the organization `corp_id`.
pub open spec fn organization_request_of(token: Seq<char>, corp_id: Seq<char>) -> ApiRequestView {
    get_with_token_header(
        "https://api.dingtalk.com/v1.0/contact/organizations/authInfos?targetCorpId="@ + corp_id,
        token,
    )
}

/// The request for the user that the authorization code `code` stands for.
pub open spec fn user_id_request_of(token: Seq<char>, code: Seq<char>) -> ApiRequestView {
    post_with_token_query(
        "https://oapi.dingtalk.com/topapi/v2/user/getuserinfo"@,
        token,
        seq![("code"@, ParamView::Text(code))],
    )
}

/// The request for the profile of the user `user_id`.
pub open spec fn userinfo_request_of(token: Seq<char>, user_id: Seq<char>) -> ApiRequestView {
    post_with_token_query(
        "https://oapi.dingtalk.com/topapi/v2/user/get"@,
        token,
        seq![("userid"@, ParamView::Text(user_id))],
    )
}

/// The request for the number of employees; of the active ones only where
/// `only_active` is true.
pub open spec fn employee_count_request_of(token: Seq<char>, only_active: bool) -> ApiRequestView {
    post_with_token_query(
        "https://oapi.dingtalk.com/topapi/user/count"@,
        token,
        seq![("only_active"@, ParamView::Flag(only_active))],
    )
}

/// The request for one page of fifty employees in one of the states
/// `status`, starting at `offset`.
pub open spec fn on_job_employees_request_of(
    token: Seq<char>,
    status: Seq<char>,
    offset: int,
) -> ApiRequestView {
    post_with_token_query(
        "https://oapi.dingtalk.com/topapi/smartwork/hrm/employee/queryonjob"@,
        token,
        seq![
            ("status_list"@, ParamView::Text(status)),
            ("offset"@, ParamView::Text(decimal_of(offset))),
            ("size"@, ParamView::Text("50"@)),
        ],
    )
}

/// The request for one page of fifty employees who have left, starting at `offset`.
pub open spec fn off_job_employees_request_of(token: Seq<char>, offset: int) -> ApiRequestView {
    get_with_token_header(
        "https://api.dingtalk.com/v1.0/hrm/employees/dismissions?nextToken="@ + decimal_of(offset)
            + "&maxResults=50"@,
        token,
    )
}

/// The request for the record of the employee `user_id`.
pub open spec fn employee_userinfo_request_of(token: Seq<char>, user_id: Seq<char>) -> ApiRequestView {
    post_with_token_query(
        "https://oapi.dingtalk.com/topapi/v2/user/get"@,
        token,
        seq![("language"@, ParamView::Text("zh_CN"@)), ("userid"@, ParamView::Text(user_id))],
    )
}

impl OrgApp {
    /// Builds the request for the organization's authentication record.
    pub fn get_organization_request(&self, token: &str) -> (request: ApiRequest)
        ensures
            request@ == organization_request_of(token@, self@.corp_id),
    {
        let mut url = String::from_str(
            "https://api.dingtalk.com/v1.0/contact/organizations/authInfos?targetCorpId=",
        );
        url.append(self.corp_id().as_str());
        token_header_get(url, token)
    }

    /// Builds the request for the user that the authorization code `code`
    /// stands for.
    pub fn get_user_id_request(token: &str, code: &str) -> (request: ApiRequest)
        ensures
            request@ == user_id_request_of(token@, code@),
    {
        let mut params: Vec<(String, Param)> = Vec::new();
        params.push(text_param("code", code));
        assert(params.deep_view() =~= user_id_request_of(token@, code@).params);
        token_query_post("https://oapi.dingtalk.com/topapi/v2/user/getuserinfo", token, params)
    }

    /// Builds the request for the profile of the user `user_id`.
    pub fn get_userinfo_request(token: &str, user_id: &str) -> (request: ApiRequest)
        ensures
            request@ == userinfo_request_of(token@, user_id@),
    {
        let mut params: Vec<(String, Param)> = Vec::new();
        params.push(text_param("userid", user_id));
        assert(params.deep_view() =~= userinfo_request_of(token@, user_id@).params);
        token_query_post("https://oapi.dingtalk.com/topapi/v2/user/get", token, params)
    }

    /// Builds the request for the number of employees. Without `only_active`
    /// all employees are counted.
    pub fn get_employee_count_request(token: &str, only_active: Option<bool>) -> (request:
        ApiRequest)
        ensures
            request@ == employee_count_request_of(
                token@,
                match only_active {
                    Some(flag) => flag,
                    None => false,
                },
            ),
    {
        let flag = match only_active {
            Some(flag) => flag,
            None => false,
        };
        let mut params: Vec<(String, Param)> = Vec::new();
        params.push(flag_param("only_active", flag));
        assert(params.deep_view() =~= employee_count_request_of(token@, flag).params);
        token_query_post("https://oapi.dingtalk.com/topapi/user/count", token, params)
    }

    /// Builds the request for one page of fifty employees in one of the
    /// states `status`, starting at `offset`.
    pub fn query_on_job_employees_request(token: &str, status: &str, offset: i32) -> (request:
        ApiRequest)
        ensures
            request@ == on_job_employees_request_of(token@, status@, offset as int),
    {
        let start = decimal(offset as i64);
        let mut params: Vec<(String, Param)> = Vec::new();
        params.push(text_param("status_list", status));
        params.push(text_param("offset", start.as_str()));
        params.push(text_param("size", "50"));
        assert(params.deep_view() =~= on_job_employees_request_of(
            token@,
            status@,
            offset as int,
        ).params);
        token_query_post(
            "https://oapi.dingtalk.com/topapi/smartwork/hrm/employee/queryonjob",
            token,
            params,
        )
    }

    /// Builds the request for one page of fifty employees who have left,
    /// starting at `offset`.
    pub fn query_off_job_employees_request(token: &str, offset: i64) -> (request: ApiRequest)
        ensures
            request@ == off_job_employees_request_of(token@, offset as int),
    {
        let start = decimal(offset);
        let mut url = String::from_str(
            "https://api.dingtalk.com/v1.0/hrm/employees/dismissions?nextToken=",
        );
        url.append(start.as_str());
        url.append("&maxResults=50");
        token_header_get(url, token)
    }

    /// Builds the request for the record of the employee `user_id`.
    pub fn get_employee_userinfo_request(token: &str, user_id: &str) -> (request: ApiRequest)
        ensures
            request@ == employee_userinfo_request_of(token@, user_id@),
    {
        let mut params: Vec<(String, Param)> = Vec::new();
        params.push(text_param("language", "zh_CN"));
        params.push(text_param("userid", user_id));
        assert(params.deep_view() =~= employee_userinfo_request_of(token@, user_id@).params);
        token_query_post("https://oapi.dingtalk.com/topapi/v2/user/get", token, params)
    }
}

/// Reads a user's profile within an organization as a [`UserInfo`]: the
/// organization's e-mail address, the mobile number and the names are kept,
/// everything else is left empty.
pub fn userinfo_from_profile(profile: UserGetProfileResponse) -> (info: UserInfo)
    ensures
        info.email == profile.org_email,
        info.mobile == Some(profile.mobile),
        info.username == profile.username,
        info.open_id is None,
        info.union_id == profile.union_id,
        info.state_code@ == Seq::<char>::empty(),
        info.visitor is None,
{
    UserInfo {
        email: profile.org_email,
        mobile: Some(profile.mobile),
        username: profile.username,
        open_id: None,
        union_id: profile.union_id,
        state_code: String::new(),
        visitor: None,
    }
}

/// Makes a page of the ids of employees who have left and the place where
/// the next page starts.
pub fn page_from_dismissions(data: Vec<String>, next_cursor: i64) -> (page: PageResult)
    ensures
        page.data == data,
        page.next_cursor == Some(next_cursor),
{
    PageResult { data, next_cursor: Some(next_cursor) }
}

} // verus!
