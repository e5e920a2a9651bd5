//! Test hub forms.
use vstd::prelude::*;

verus! {

#[derive(Debug, Clone, PartialEq, Eq)]
pub struct TestHubStar {
    pub user_id: String,
    pub pro_id: String,
    pub star: bool,
}

} // verus!
