//! The forms and lists of the project handlers.
use vstd::prelude::*;

verus! {

/// The form that creates or updates a project.
#[derive(Debug, Clone, PartialEq, Eq)]
pub struct ProjectSetter {
    pub user_id: String,
    pub id: Option<String>,
    pub name: String,
    pub logo: String,
    pub organization: String,
    pub description: Option<String>,
    pub last_update: Option<String>,
}

#[derive(Debug, Clone, PartialEq, Eq)]
pub struct ProjectStar {
    pub user_id: String,
    pub pro_id: String,
    pub star: bool,
}

#[derive(Debug, Clone, PartialEq, Eq)]
pub struct WorkMate {
    pub name: String,
    pub position: Option<String>,
    pub role: String,
}

#[derive(Debug, Clone, PartialEq, Eq)]
pub struct WorkMateCollector {
    pub collector: Vec<WorkMate>,
}

#[derive(Debug, Clone, PartialEq, Eq)]
pub struct AddPartners {
    pub partners: Vec<String>,
    pub project_id: String,
}

} // verus!
