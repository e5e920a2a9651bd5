//! Work items of a project.
use vstd::prelude::*;

verus! {

#[derive(Debug, Clone, PartialEq, Eq)]
pub struct WorkItem {
    pub id: Option<i32>,
    pub project_id: String,
    pub name: String,
    pub item_type: Option<i32>,
    pub status: Option<i32>,
    pub principal: Option<String>,
    pub create_time: Option<String>,
    pub father_item: Option<i32>,
    pub priority: Option<i32>,
}

#[derive(Debug, Clone, PartialEq, Eq)]
pub struct WorkItemCollector {
    pub collector: Vec<WorkItem>,
}

} // verus!
