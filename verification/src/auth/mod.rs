//! Accounts: registration, login, profile edits and the login token.
use vstd::prelude::*;
use crate::types::SignData;

pub mod db_service;
pub mod route;
pub mod token;

verus! {

/// The claims of a login token: the user and when the token expires.
#[derive(Debug, Clone, PartialEq, Eq)]
pub struct UserToken {
    pub id: String,
    pub exp: u64,
}

/// Whether the token of the current request has been checked and found good.
#[derive(Debug, Clone, Copy, PartialEq, Eq, Structural)]
pub struct AuthCheck {
    pub is_valid_token: bool,
}

/// A member added to an existing organisation.
#[derive(Debug, Clone, PartialEq, Eq)]
pub struct AddUser {
    pub name: String,
    pub pwd: String,
    pub organization: String,
    pub phone: Option<String>,
    pub email: Option<String>,
    pub work_id: Option<String>,
    pub gender: Option<String>,
}

/// The text of an optional field, empty where it is absent.
pub open spec fn text_or_empty(s: Option<String>) -> Seq<char> {
    match s {
        Some(t) => t@,
        None => Seq::empty(),
    }
}

fn unwrap_or_empty(s: Option<String>) -> (r: String)
    ensures
        r@ == text_or_empty(s),
{
    match s {
        Some(t) => t,
        None => String::new(),
    }
}

impl AddUser {
    /// Name, password, email and phone, the last two empty where absent: what
    /// the registration checks look at.
    pub fn credentials(self) -> (r: (String, String, String, String))
        ensures
            r.0@ == self.name@,
            r.1@ == self.pwd@,
            r.2@ == text_or_empty(self.email),
            r.3@ == text_or_empty(self.phone),
    {
        (self.name, self.pwd, unwrap_or_empty(self.email), unwrap_or_empty(self.phone))
    }

    /// All fields: name, password, organisation, phone, email, gender, work id.
    pub fn into_fields(self) -> (r: (String, String, String, Option<String>, Option<String>, Option<String>, Option<String>))
        ensures
            r == (self.name, self.pwd, self.organization, self.phone, self.email, self.gender, self.work_id),
    {
        (self.name, self.pwd, self.organization, self.phone, self.email, self.gender, self.work_id)
    }
}

/// A new organisation together with its first member.
#[derive(Debug, Clone, PartialEq, Eq)]
pub struct RegisterUser {
    pub phone: String,
    pub name: String,
    pub pwd: String,
    pub organization: String,
}

impl RegisterUser {
    /// Name, password, phone and organisation name.
    pub fn into_fields(self) -> (r: (String, String, String, String))
        ensures
            r == (self.name, self.pwd, self.phone, self.organization),
    {
        (self.name, self.pwd, self.phone, self.organization)
    }
}

#[derive(Debug, Clone, PartialEq, Eq)]
pub enum MoreUser {
    Add(AddUser),
    Create(RegisterUser),
}

#[derive(Debug, Clone, PartialEq, Eq)]
pub enum RegisterResult {
    Exist(String),
    Success(SignData),
}

impl RegisterResult {
    /// The account that a login token is issued to with the answer: the new
    /// account; none where the account existed already.
    pub fn token_subject(&self) -> (r: Option<&String>)
        ensures
            match self {
                RegisterResult::Success(d) => r == Some(&d.id),
                RegisterResult::Exist(_) => r is None,
            },
    {
        match self {
            RegisterResult::Success(sign_data) => Some(&sign_data.id),
            RegisterResult::Exist(_) => None,
        }
    }
}

#[derive(Debug, Clone, PartialEq, Eq)]
pub struct LoginData {
    pub login_key: String,
    pub pwd: String,
}

/// A profile edit: the user and the fields to change.
#[derive(Debug, Clone, PartialEq, Eq)]
pub struct User {
    pub id: String,
    pub name: Option<String>,
    pub pwd: Option<String>,
    pub phone: Option<String>,
    pub gender: Option<String>,
    pub email: Option<String>,
    pub avatar: Option<String>,
    pub background: Option<String>,
    pub work_id: Option<String>,
}

impl User {
    /// The editable fields: name, password, phone, gender, email, avatar,
    /// background, work id.
    pub fn into_fields(self) -> (r: (Option<String>, Option<String>, Option<String>, Option<String>,
        Option<String>, Option<String>, Option<String>, Option<String>))
        ensures
            r == (self.name, self.pwd, self.phone, self.gender, self.email, self.avatar, self.background, self.work_id),
    {
        (self.name, self.pwd, self.phone, self.gender, self.email, self.avatar, self.background, self.work_id)
    }
}

/// A member of an organisation as listed to other members.
#[derive(Debug, Clone, PartialEq, Eq)]
pub struct UserGetter {
    pub id: String,
    pub name: String,
    pub phone: Option<String>,
    pub gender: Option<String>,
    pub email: Option<String>,
    pub work_id: Option<String>,
    pub avatar: Option<String>,
    pub background: Option<String>,
    pub create_time: Option<String>,
    pub role: Option<i16>,
}

#[derive(Debug, Clone, PartialEq, Eq)]
pub struct UserCollector {
    pub collector: Vec<UserGetter>,
}

} // verus!
