//! What the account handlers answer.
use vstd::prelude::*;
use crate::auth::RegisterResult;
use crate::db::{DbError, DbQueryResult};
use crate::types::{HttpStatus, RtData, RtStatus, SingleEditResult};

verus! {

/// The answer to a registration: a failure that names the conflict where the
/// account exists, success where it was created, an internal server error
/// where the database failed.
pub open spec fn register_answer_ok(res: DbQueryResult<RegisterResult>, out: Result<RtData<RegisterResult>, HttpStatus>) -> bool {
    match res {
        Ok(RegisterResult::Exist(m)) => out matches Ok(d) && d.msg@ == m@ && !d.success && d.status == RtStatus::Fail
            && (d.data matches RegisterResult::Exist(dm) && dm@ == "user already exist"@),
        Ok(RegisterResult::Success(sign)) => out matches Ok(d) && d.is_success(RegisterResult::Success(sign), "register success"@),
        Err(_) => out == Err::<RtData<RegisterResult>, HttpStatus>(HttpStatus::InternalServerError),
    }
}

/// Turns the result of a registration into the handler's answer.
pub fn handle_register_res(res: DbQueryResult<RegisterResult>) -> (out: Result<RtData<RegisterResult>, HttpStatus>)
    ensures
        register_answer_ok(res, out),
        out matches Ok(d) ==> d.is_consistent(),
{
    match res {
        Ok(register_res) => {
            let mut success = true;
            let mut status = RtStatus::Success;
            let mut msg = String::from_str("register success");
            let data = match register_res {
                RegisterResult::Exist(r_msg) => {
                    success = false;
                    status = RtStatus::Fail;
                    msg = r_msg;
                    RegisterResult::Exist(String::from_str("user already exist"))
                },
                RegisterResult::Success(user_data) => RegisterResult::Success(user_data),
            };
            Ok(RtData { success, msg, status, data })
        },
        Err(_) => Err(HttpStatus::InternalServerError),
    }
}

/// The answer to a login, from the account lookup: `Some` account data where
/// the row came back and could be read, `None` where it could not be read.
/// A missing row is a bad request; any other failure of the lookup is an
/// internal server error. This function does not panic on any error: whether
/// a failure other than a missing row came from the database itself is for
/// the caller that ran the query to check.
pub fn login_answer<T>(res: DbQueryResult<Option<T>>) -> (out: Result<RtData<T>, HttpStatus>)
    ensures
        match res {
            Ok(Some(d)) => out matches Ok(a) && a.is_success(d, "login success"@),
            Ok(None) => out == Err::<RtData<T>, HttpStatus>(HttpStatus::InternalServerError),
            Err(DbError::RowNotFound) => out == Err::<RtData<T>, HttpStatus>(HttpStatus::BadRequest),
            Err(DbError::Other(_)) => out == Err::<RtData<T>, HttpStatus>(HttpStatus::InternalServerError),
        },
        out matches Ok(d) ==> d.is_consistent(),
{
    match res {
        Ok(Some(data)) => Ok(RtData::success(data, String::from_str("login success"))),
        Ok(None) => Err(HttpStatus::InternalServerError),
        Err(DbError::RowNotFound) => Err(HttpStatus::BadRequest),
        Err(DbError::Other(_)) => Err(HttpStatus::InternalServerError),
    }
}

/// The answer to a profile edit.
pub fn edit_answer(res: DbQueryResult<SingleEditResult>) -> (out: Result<RtData<SingleEditResult>, HttpStatus>)
    ensures
        match res {
            Ok(d) => out matches Ok(a) && a.is_success(d, Seq::empty()),
            Err(_) => out == Err::<RtData<SingleEditResult>, HttpStatus>(HttpStatus::InternalServerError),
        },
        out matches Ok(d) ==> d.is_consistent(),
{
    match res {
        Ok(data) => Ok(RtData::success(data, String::new())),
        Err(_) => Err(HttpStatus::InternalServerError),
    }
}

} // verus!
