use tigris_core::api::{ExtensionRequest, FormResult, FormResultsRequest, RequestType};

fn result(id: &str, value: &str) -> FormResult {
    FormResult { id: id.to_string(), value: value.to_string(), args: vec![] }
}

fn request(results: Vec<FormResult>) -> FormResultsRequest {
    FormResultsRequest { form_id: "form".to_string(), results, args: vec![] }
}

#[test]
fn bool_value_only_exact_true() {
    let r = request(vec![
        result("a", "true"),
        result("b", "True"),
        result("c", "1"),
        result("d", "yes"),
        result("e", "false"),
    ]);
    assert_eq!(r.get_bool_value("a"), Ok(true));
    assert_eq!(r.get_bool_value("b"), Ok(false));
    assert_eq!(r.get_bool_value("c"), Ok(false));
    assert_eq!(r.get_bool_value("d"), Ok(false));
    assert_eq!(r.get_bool_value("e"), Ok(false));
}

#[test]
fn usize_value_parses() {
    let r = request(vec![result("n", "42"), result("neg", "-1"), result("word", "abc")]);
    assert_eq!(r.get_usize_value("n"), Ok(42));
    assert_eq!(r.get_usize_value("neg"), Err("Could not parse result to a number".to_string()));
    assert_eq!(r.get_usize_value("word"), Err("Could not parse result to a number".to_string()));
}

#[test]
fn usize_value_edges() {
    let r = request(vec![
        result("plus", "+7"),
        result("empty", ""),
        result("space", " 3"),
        result("max", &usize::MAX.to_string()),
        result("over", "99999999999999999999999999"),
    ]);
    assert_eq!(r.get_usize_value("plus"), Ok(7));
    assert!(r.get_usize_value("empty").is_err());
    assert!(r.get_usize_value("space").is_err());
    assert_eq!(r.get_usize_value("max"), Ok(usize::MAX));
    assert!(r.get_usize_value("over").is_err());
}

#[test]
fn missing_result_names_id() {
    let r = request(vec![result("a", "x")]);
    assert_eq!(r.get_result("zz"), Err("Could not find result with id: zz".to_string()));
    assert_eq!(r.get_usize_value("zz"), Err("Could not find result with id: zz".to_string()));
    assert_eq!(r.get_bool_value("zz"), Err("Could not find result with id: zz".to_string()));
}

#[test]
fn first_match_wins() {
    let r = request(vec![result("a", "first"), result("a", "second")]);
    assert_eq!(r.get_string_value("a"), Ok("first".to_string()));
    assert_eq!(r.get_result("a"), Ok(result("a", "first")));
}

#[test]
fn path_value_any_text() {
    let r = request(vec![result("p", "/home/user/file.txt"), result("q", "")]);
    assert_eq!(r.get_path_value("p"), Ok("/home/user/file.txt".to_string()));
    assert_eq!(r.get_path_value("q"), Ok(String::new()));
}

#[test]
fn request_envelopes() {
    let g = ExtensionRequest::new_get_results_request("hello");
    match g.request_type {
        RequestType::GetResults(x) => assert_eq!(x.search_text, "hello"),
        _ => panic!("wrong kind"),
    }
    let args = vec!["x".to_string(), "y".to_string()];
    let a = ExtensionRequest::new_run_extension_action_request("act", &args);
    match a.request_type {
        RequestType::RunAction(x) => {
            assert_eq!(x.action, "act");
            assert_eq!(x.args, args);
        },
        _ => panic!("wrong kind"),
    }
    let results = vec![result("a", "1")];
    let f = ExtensionRequest::new_form_results_request("f", &results, &args);
    match f.request_type {
        RequestType::FormResults(x) => {
            assert_eq!(x.form_id, "f");
            assert_eq!(x.results, results);
            assert_eq!(x.args, args);
        },
        _ => panic!("wrong kind"),
    }
}
