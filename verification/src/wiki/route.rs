//! What the wiki handlers answer.
use vstd::prelude::*;
use crate::db::DbQueryResult;
use crate::project::route::query_answer;
use crate::types::{HttpStatus, RtData};

verus! {

/// The answer to the listing of a user's wiki spaces.
pub fn spaces_answer<T>(res: DbQueryResult<T>) -> (out: Result<RtData<T>, HttpStatus>)
    ensures
        match res {
            Ok(d) => out matches Ok(a) && a.is_success(d, "get all space success"@),
            Err(_) => out == Err::<RtData<T>, HttpStatus>(HttpStatus::InternalServerError),
        },
{
    query_answer(res, String::from_str("get all space success"))
}

} // verus!
