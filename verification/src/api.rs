//! What is sent to the usage endpoint and how its answers are read, as far
//! as that is a matter of rules. Sending and receiving is not done here.

use vstd::prelude::*;
use vstd::string::*;
use crate::error::AppError;
use crate::text::{decimal, u32_to_decimal};
use crate::validation::{
    org_id_problem, org_id_valid, session_token_valid, validate_org_id, validate_session_token,
};

verus! {

/// A request for a usage reading, ready to be sent.
#[derive(Debug, Clone, PartialEq, Eq)]
pub struct UsageRequest {
    /// Where to send it.
    pub url: String,
    /// The value of the `Cookie` header.
    pub cookie: String,
}

/// The address of an organization's usage reading below the address
/// `api_base` of the service's API.
pub open spec fn usage_url(api_base: Seq<char>, org_id: Seq<char>) -> Seq<char> {
    api_base + "/organizations/"@ + org_id + "/usage"@
}

/// The cookie that carries the session token.
pub open spec fn session_cookie(session_token: Seq<char>) -> Seq<char> {
    "sessionKey="@ + session_token
}

/// Makes the request for a usage reading from the credentials, once both
/// have passed their checks. The organization ID is checked first.
///
/// `api_base` is the address of the service's API, without a slash at its
/// end; it is taken as it is.
pub fn prepare_usage_request(api_base: &str, org_id: &str, session_token: &str) -> (prepared:
    Result<UsageRequest, AppError>)
    ensures
        prepared is Ok <==> org_id_valid(org_id@) && session_token_valid(session_token@),
        prepared matches Ok(request) ==> request.url@ == usage_url(api_base@, org_id@) && request.cookie@
            == session_cookie(session_token@),
        prepared matches Err(error) ==> (if org_id_valid(org_id@) {
            error == AppError::InvalidToken
        } else {
            error matches AppError::MissingConfig(detail) && org_id_problem(org_id@) == Some(
                detail@,
            )
        }),
{
    match validate_org_id(org_id) {
        Ok(()) => {},
        Err(error) => {
            return Err(error);
        },
    }
    match validate_session_token(session_token) {
        Ok(()) => {},
        Err(error) => {
            return Err(error);
        },
    }
    let mut url = String::from_str(api_base);
    url.append("/organizations/");
    url.append(org_id);
    url.append("/usage");
    let mut cookie = String::from_str("sessionKey=");
    cookie.append(session_token);
    Ok(UsageRequest { url, cookie })
}

/// Reads the status of an answer: 200 carries a reading, 401 means that the
/// session token was refused, 429 that the service asks to slow down, and
/// any other is reported as `"HTTP <status>"`.
pub fn check_status(status: u16) -> (checked: Result<(), AppError>)
    ensures
        checked is Ok <==> status == 200,
        status == 401 ==> checked == Err::<(), AppError>(AppError::InvalidToken),
        status == 429 ==> checked == Err::<(), AppError>(AppError::RateLimited),
        status != 200 && status != 401 && status != 429 ==> (checked matches Err(
            AppError::Server(detail),
        ) && detail@ == "HTTP "@ + decimal(status as nat)),
{
    if status == 200 {
        Ok(())
    } else if status == 401 {
        Err(AppError::InvalidToken)
    } else if status == 429 {
        Err(AppError::RateLimited)
    } else {
        let mut detail = String::from_str("HTTP ");
        detail.append(u32_to_decimal(status as u32).as_str());
        Err(AppError::Server(detail))
    }
}

/// The error for an answer with status 200 whose body is no usage reading;
/// `reason` is what the parser said.
pub fn parse_failure(reason: &str) -> (error: AppError)
    ensures
        error matches AppError::Server(detail) && detail@ == "Failed to parse response: "@
            + reason@,
{
    let mut detail = String::from_str("Failed to parse response: ");
    detail.append(reason);
    AppError::Server(detail)
}

} // verus!
