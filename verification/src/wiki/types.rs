//! Wiki forms.
use vstd::prelude::*;

verus! {

#[derive(Debug, Clone, PartialEq, Eq)]
pub struct WikiStar {
    pub user_id: String,
    pub wiki_id: String,
    pub star: bool,
}

/// The form that creates an article (no id) or updates one.
#[derive(Debug, Clone, PartialEq, Eq)]
pub struct ArticleSetter {
    pub id: Option<i32>,
    pub wiki_id: String,
    pub title: String,
    pub content: String,
    pub update_id: String,
    pub father_id: Option<i32>,
    pub last_update: Option<String>,
}

/// One article as read back: its editor's name and avatar come from the user
/// table, and its last-update time is held as the text of the stored time.
#[derive(Debug, Clone, PartialEq, Eq)]
pub struct ArticleGetter {
    pub id: i32,
    pub title: String,
    pub content: String,
    pub update_name: String,
    pub update_avatar: String,
    pub last_update: String,
    pub father_id: Option<i32>,
}

/// The articles of a wiki space, in the order the rows came back.
#[derive(Debug, Clone, PartialEq, Eq)]
pub struct ArticleCollector {
    pub collector: Vec<ArticleGetter>,
}

} // verus!
