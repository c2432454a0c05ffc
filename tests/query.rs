use tigris_core::search::SearchQuery;

#[test]
fn query_with_keyword() {
    let q = SearchQuery::from("gs rust lang");
    assert_eq!(q.keyword, Some("gs".to_string()));
    assert_eq!(q.search_text, "rust lang");
}

#[test]
fn query_without_keyword() {
    let q = SearchQuery::from("justtext");
    assert_eq!(q.keyword, None);
    assert_eq!(q.search_text, "justtext");
}

#[test]
fn query_text_is_trimmed() {
    let q = SearchQuery::from("gs   rust lang  ");
    assert_eq!(q.keyword, Some("gs".to_string()));
    assert_eq!(q.search_text, "rust lang");
}

#[test]
fn query_leading_space_gives_empty_keyword() {
    let q = SearchQuery::from(" hello");
    assert_eq!(q.keyword, Some(String::new()));
    assert_eq!(q.search_text, "hello");
}

#[test]
fn query_empty() {
    let q = SearchQuery::from("");
    assert_eq!(q.keyword, None);
    assert_eq!(q.search_text, "");
}

#[test]
fn split_keeps_spaces() {
    let (k, rest) = SearchQuery::split_keyword("gs  a b ");
    assert_eq!(k, Some("gs".to_string()));
    assert_eq!(rest, " a b ");
}

#[test]
fn query_with_unicode() {
    let q = SearchQuery::from("dé ça va");
    assert_eq!(q.keyword, Some("dé".to_string()));
    assert_eq!(q.search_text, "ça va");
}
