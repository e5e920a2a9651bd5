//! Answers to requests that no handler could take.
use vstd::prelude::*;
use crate::types::{DefaultData, RtData, RtStatus};

verus! {

/// The answer to a request whose parameters could not be read.
pub fn bad_request_catcher() -> (r: Option<RtData<DefaultData>>)
    ensures
        r matches Some(d) && d.is_answer(DefaultData::Failure(()), "get wrong params"@, false, RtStatus::Fail),
{
    Some(RtData {
        data: DefaultData::Failure(()),
        msg: String::from_str("get wrong params"),
        success: false,
        status: RtStatus::Fail,
    })
}

} // verus!
