//! The values that the handlers hand back and take in.
use vstd::prelude::*;
use crate::auth::UserToken;

verus! {

/// The envelope of every answer: the payload, a message, and whether it succeeded.
#[derive(Debug, Clone, PartialEq, Eq)]
pub struct RtData<T> {
    pub data: T,
    pub msg: String,
    pub success: bool,
    pub status: RtStatus,
}

impl<T> RtData<T> {
    /// `success` agrees with `status`: true exactly for `RtStatus::Success`.
    pub open spec fn is_consistent(&self) -> bool {
        self.success <==> self.status == RtStatus::Success
    }

    /// This answer carries `data` and `msg`, with the given flag and status.
    pub open spec fn is_answer(&self, data: T, msg: Seq<char>, success: bool, status: RtStatus) -> bool {
        &&& self.data == data
        &&& self.msg@ == msg
        &&& self.success == success
        &&& self.status == status
    }

    /// A successful answer carrying `data` and `msg`.
    pub open spec fn is_success(&self, data: T, msg: Seq<char>) -> bool {
        self.is_answer(data, msg, true, RtStatus::Success)
    }

    /// A successful answer.
    pub fn success(data: T, msg: String) -> (r: Self)
        ensures
            r.is_success(data, msg@),
    {
        RtData { data, msg, success: true, status: RtStatus::Success }
    }

    /// A failed answer.
    pub fn failure(data: T, msg: String) -> (r: Self)
        ensures
            r.is_answer(data, msg@, false, RtStatus::Fail),
    {
        RtData { data, msg, success: false, status: RtStatus::Fail }
    }
}

#[derive(Debug, Clone, Copy, PartialEq, Eq, Structural)]
pub enum RtStatus {
    AuthFail,
    AuthSuccess,
    Success,
    Fail,
    Error,
}

#[derive(Debug, Clone, Copy, PartialEq, Eq)]
pub enum DefaultData {
    Success(()),
    Failure(()),
}

/// What a registration hands back on success.
#[derive(Debug, Clone, PartialEq, Eq)]
pub struct SignData {
    pub name: String,
    pub id: String,
    pub org_id: String,
    pub org_name: String,
}

/// The user that a request is made for.
#[derive(Debug, Clone, PartialEq, Eq)]
pub struct UserMsg {
    pub id: String,
}

/// What the request guard of `UserMsg` does: decode the token that came with
/// the request, or turn the request away.
#[derive(Debug, Clone, PartialEq, Eq)]
pub enum UserGuard {
    Decode(String),
    Reject(HttpStatus, String),
}

pub open spec fn not_logged_in_message() -> Seq<char> {
    "user no login or token expired"@
}

impl UserMsg {
    /// The guard's decision, from whether the request's token was found good
    /// and the token header of the request.
    pub fn guard(is_valid_token: bool, token: Option<String>) -> (g: UserGuard)
        ensures
            is_valid_token && token is Some ==> g == UserGuard::Decode(token->0),
            !(is_valid_token && token is Some) ==> (g matches UserGuard::Reject(s, m)
                && s == HttpStatus::BadRequest && m@ == not_logged_in_message()),
    {
        if is_valid_token {
            match token {
                Some(t) => UserGuard::Decode(t),
                None => UserGuard::Reject(HttpStatus::BadRequest, String::from_str("user no login or token expired")),
            }
        } else {
            UserGuard::Reject(HttpStatus::BadRequest, String::from_str("user no login or token expired"))
        }
    }

    /// The user named by the claims of a decoded token.
    pub fn from_claims(claims: UserToken) -> (u: UserMsg)
        ensures
            u.id == claims.id,
    {
        UserMsg { id: claims.id }
    }
}

#[derive(Debug, Clone, PartialEq, Eq)]
pub enum SingleEditResult {
    Exist(String),
    Success(String),
    Fail(String),
}

#[derive(Debug, Clone, PartialEq, Eq)]
pub enum DeleteResult {
    NoExist(String),
    Success(String),
}

#[derive(Debug, Clone, PartialEq, Eq)]
pub struct AddPartners {
    pub partners: Vec<String>,
    pub project_id: String,
}

#[derive(Debug, Clone, PartialEq, Eq)]
pub struct WorkMate {
    pub name: String,
    pub position: Option<String>,
    pub role: String,
}

#[derive(Debug, Clone, PartialEq, Eq)]
pub struct WorkMateCollector {
    pub collector: Vec<WorkMate>,
}

/// The form that creates or updates a project, a wiki space, a test hub or a topic.
#[derive(Debug, Clone, PartialEq, Eq)]
pub struct ProjectSetter {
    pub user_id: String,
    pub id: Option<String>,
    pub name: String,
    pub logo: String,
    pub organization: String,
    pub description: Option<String>,
    pub last_update: Option<String>,
    pub private: Option<bool>,
}

#[derive(Debug, Clone, PartialEq, Eq)]
pub struct ProjectStar {
    pub user_id: String,
    pub pro_id: String,
    pub star: bool,
}

/// The kinds of object that own a numbering sequence.
#[derive(Debug, Clone, Copy, PartialEq, Eq, Structural)]
pub enum ObjectTypes {
    PROJECT,
    TEST,
    WIKI,
    TOPIC,
}

/// The HTTP error statuses that the handlers answer with.
#[derive(Debug, Clone, Copy, PartialEq, Eq, Structural)]
pub enum HttpStatus {
    BadRequest,
    InternalServerError,
}

impl HttpStatus {
    pub open spec fn spec_code(self) -> u16 {
        match self {
            HttpStatus::BadRequest => 400,
            HttpStatus::InternalServerError => 500,
        }
    }

    /// The numeric status code.
    pub fn code(&self) -> (c: u16)
        ensures
            c == self.spec_code(),
    {
        match self {
            HttpStatus::BadRequest => 400,
            HttpStatus::InternalServerError => 500,
        }
    }
}

} // verus!
