//! One entry of the list that an extension answers a search with.

use vstd::prelude::*;
use crate::actions::{ResultAction, ResultActionView};

verus! {

#[derive(Debug, PartialEq, Eq)]
pub struct SearchResult {
    pub icon_path: Option<String>,
    pub icon_color: Option<String>,
    pub title: String,
    pub description: Option<String>,
    pub action: Option<ResultAction>,
}

pub ghost struct SearchResultView {
    pub icon_path: Option<Seq<char>>,
    pub icon_color: Option<Seq<char>>,
    pub title: Seq<char>,
    pub description: Option<Seq<char>>,
    pub action: Option<ResultActionView>,
}

pub open spec fn text_view(t: Option<String>) -> Option<Seq<char>> {
    match t {
        Some(s) => Some(s@),
        None => None,
    }
}

impl View for SearchResult {
    type V = SearchResultView;

    open spec fn view(&self) -> SearchResultView {
        SearchResultView {
            icon_path: text_view(self.icon_path),
            icon_color: text_view(self.icon_color),
            title: self.title@,
            description: text_view(self.description),
            action: match self.action {
                Some(a) => Some(a@),
                None => None,
            },
        }
    }
}

impl Clone for SearchResult {
    fn clone(&self) -> (r: Self)
        ensures
            r@ == self@,
    {
        SearchResult {
            icon_path: self.icon_path.clone(),
            icon_color: self.icon_color.clone(),
            title: self.title.clone(),
            description: self.description.clone(),
            action: match &self.action {
                Some(a) => Some(a.clone()),
                None => None,
            },
        }
    }
}

impl SearchResult {
    /// A result with a title and nothing else.
    pub fn new(title: &str) -> (r: Self)
        ensures
            r@ == (SearchResultView {
                icon_path: None,
                icon_color: None,
                title: title@,
                description: None,
                action: None,
            }),
    {
        SearchResult {
            icon_path: None,
            icon_color: None,
            title: title.to_owned(),
            description: None,
            action: None,
        }
    }

    pub fn set_icon_path(self, path: &str) -> (r: Self)
        ensures
            r@ == (SearchResultView { icon_path: Some(path@), ..self@ }),
    {
        SearchResult { icon_path: Some(path.to_owned()), ..self }
    }

    pub fn set_icon_color(self, color: &str) -> (r: Self)
        ensures
            r@ == (SearchResultView { icon_color: Some(color@), ..self@ }),
    {
        SearchResult { icon_color: Some(color.to_owned()), ..self }
    }

    pub fn set_description(self, description: &str) -> (r: Self)
        ensures
            r@ == (SearchResultView { description: Some(description@), ..self@ }),
    {
        SearchResult { description: Some(description.to_owned()), ..self }
    }

    pub fn set_action(self, action: &ResultAction) -> (r: Self)
        ensures
            r@ == (SearchResultView { action: Some(action@), ..self@ }),
    {
        SearchResult { action: Some(action.clone()), ..self }
    }
}

} // verus!
