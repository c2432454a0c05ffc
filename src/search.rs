//! Splitting what the user typed into an optional keyword and the text to
//! search for.

use vstd::prelude::*;
use crate::text::{trim_text, trimmed};

verus! {

/// A query: the word before the first space, when there is a space, selects
/// an extension or a search engine; the rest is the text to search for.
#[derive(Debug, Clone, PartialEq, Eq)]
pub struct SearchQuery {
    pub keyword: Option<String>,
    pub search_text: String,
}

pub ghost struct SearchQueryView {
    pub keyword: Option<Seq<char>>,
    pub search_text: Seq<char>,
}

impl View for SearchQuery {
    type V = SearchQueryView;

    open spec fn view(&self) -> SearchQueryView {
        SearchQueryView {
            keyword: match self.keyword {
                Some(k) => Some(k@),
                None => None,
            },
            search_text: self.search_text@,
        }
    }
}

/// `i` is the position of the first space of `s`.
pub open spec fn is_first_space(s: Seq<char>, i: int) -> bool {
    &&& 0 <= i < s.len()
    &&& s[i] == ' '
    &&& forall|j: int| 0 <= j < i ==> s[j] != ' '
}

pub open spec fn first_space(s: Seq<char>) -> int {
    choose|i: int| is_first_space(s, i)
}

/// The word before the first space, when `s` has a space.
pub open spec fn keyword_of(s: Seq<char>) -> Option<Seq<char>> {
    if exists|i: int| is_first_space(s, i) {
        Some(s.subrange(0, first_space(s)))
    } else {
        None
    }
}

/// What follows the first space, or all of `s` when it has none.
pub open spec fn rest_of(s: Seq<char>) -> Seq<char> {
    if exists|i: int| is_first_space(s, i) {
        s.subrange(first_space(s) + 1, s.len() as int)
    } else {
        s
    }
}

impl SearchQuery {
    /// Splits a query at its first space, without trimming anything.
    pub fn split_keyword(query: &str) -> (r: (Option<String>, String))
        ensures
            match r.0 {
                Some(k) => keyword_of(query@) == Some(k@),
                None => keyword_of(query@) is None,
            },
            r.1@ == rest_of(query@),
    {
        let n = query.unicode_len();
        let mut i: usize = 0;
        while i < n
            invariant
                i <= n,
                n == query@.len(),
                forall|j: int| 0 <= j < i ==> query@[j] != ' ',
            decreases n - i,
        {
            if query.get_char(i) == ' ' {
                assert(is_first_space(query@, i as int));
                assert forall|k: int| is_first_space(query@, k) implies k == i by {
                    if k < i {
                        assert(query@[k] != ' ');
                    } else if k > i {
                        assert(query@[i as int] == ' ');
                    }
                }
                let keyword = query.substring_char(0, i).to_owned();
                let rest = query.substring_char(i + 1, n).to_owned();
                return (Some(keyword), rest);
            }
            i = i + 1;
        }
        (None, query.to_owned())
    }

    /// The keyword before the first space, if any, and the rest with its
    /// surrounding whitespace trimmed.
    pub fn from(query: &str) -> (r: Self)
        ensures
            r@.keyword == keyword_of(query@),
            r@.search_text == trimmed(rest_of(query@)),
    {
        let (keyword, rest) = SearchQuery::split_keyword(query);
        let search_text = trim_text(rest.as_str());
        SearchQuery { keyword, search_text }
    }
}

} // verus!
