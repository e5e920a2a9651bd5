//! Projects: creating, listing, deleting, members, stars, and work items.
use vstd::prelude::*;
use crate::db::DbQueryResult;
use crate::types::{HttpStatus, RtData, SingleEditResult};
use crate::utils::insert_answer_ok;

pub mod db_service;
pub mod route;
pub mod types;
pub mod work_item;

verus! {

/// Turns the result of an insert or update into the handler's answer (the
/// same rule as `utils::match_insert_res`).
pub fn match_insert_res(res: DbQueryResult<SingleEditResult>, msg: String) -> (out: Result<RtData<SingleEditResult>, HttpStatus>)
    ensures
        insert_answer_ok(res, msg@, out),
        out matches Ok(d) ==> d.is_consistent(),
{
    crate::utils::match_insert_res(res, msg)
}

} // verus!
