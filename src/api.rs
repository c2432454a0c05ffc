//! The envelopes that the host sends to an extension, and typed lookups in
//! the answers to a form.

use vstd::prelude::*;
use vstd::string::StringExecFns;
use crate::actions::{copy_strings, strings_view};
use crate::text::{is_true_text, parse_usize, usize_of_text};

verus! {

/// One answered field of a form; the value always travels as text.
#[derive(Debug, PartialEq, Eq)]
pub struct FormResult {
    pub id: String,
    pub value: String,
    pub args: Vec<String>,
}

/// The answers to a form, in the order of its fields.
#[derive(Debug, PartialEq, Eq)]
pub struct FormResultsRequest {
    pub form_id: String,
    pub results: Vec<FormResult>,
    pub args: Vec<String>,
}

#[derive(Debug, PartialEq, Eq)]
pub struct GetResultsRequest {
    pub search_text: String,
}

#[derive(Debug, PartialEq, Eq)]
pub struct RunActionRequest {
    pub action: String,
    pub args: Vec<String>,
}

/// The kind of a request, with the payload of that kind.
#[derive(Debug, PartialEq, Eq)]
pub enum RequestType {
    GetResults(GetResultsRequest),
    RunAction(RunActionRequest),
    FormResults(FormResultsRequest),
}

/// What the host asks of an extension.
#[derive(Debug, PartialEq, Eq)]
pub struct ExtensionRequest {
    pub request_type: RequestType,
}

pub ghost struct FormResultView {
    pub id: Seq<char>,
    pub value: Seq<char>,
    pub args: Seq<Seq<char>>,
}

pub ghost struct FormResultsRequestView {
    pub form_id: Seq<char>,
    pub results: Seq<FormResultView>,
    pub args: Seq<Seq<char>>,
}

pub ghost struct RunActionRequestView {
    pub action: Seq<char>,
    pub args: Seq<Seq<char>>,
}

pub ghost enum RequestTypeView {
    GetResults(Seq<char>),
    RunAction(RunActionRequestView),
    FormResults(FormResultsRequestView),
}

impl View for FormResult {
    type V = FormResultView;

    open spec fn view(&self) -> FormResultView {
        FormResultView { id: self.id@, value: self.value@, args: strings_view(self.args@) }
    }
}

/// The models of a list of form results, in order.
pub open spec fn results_view(rs: Seq<FormResult>) -> Seq<FormResultView> {
    rs.map_values(|r: FormResult| r@)
}

impl View for FormResultsRequest {
    type V = FormResultsRequestView;

    open spec fn view(&self) -> FormResultsRequestView {
        FormResultsRequestView {
            form_id: self.form_id@,
            results: results_view(self.results@),
            args: strings_view(self.args@),
        }
    }
}

impl View for RunActionRequest {
    type V = RunActionRequestView;

    open spec fn view(&self) -> RunActionRequestView {
        RunActionRequestView { action: self.action@, args: strings_view(self.args@) }
    }
}

impl View for ExtensionRequest {
    type V = RequestTypeView;

    open spec fn view(&self) -> RequestTypeView {
        match self.request_type {
            RequestType::GetResults(g) => RequestTypeView::GetResults(g.search_text@),
            RequestType::RunAction(a) => RequestTypeView::RunAction(a@),
            RequestType::FormResults(f) => RequestTypeView::FormResults(f@),
        }
    }
}

impl Clone for FormResult {
    fn clone(&self) -> (r: Self)
        ensures
            r@ == self@,
    {
        FormResult { id: self.id.clone(), value: self.value.clone(), args: copy_strings(&self.args) }
    }
}

impl Clone for GetResultsRequest {
    fn clone(&self) -> (r: Self)
        ensures
            r == *self,
    {
        GetResultsRequest { search_text: self.search_text.clone() }
    }
}

impl Clone for FormResultsRequest {
    fn clone(&self) -> (r: Self)
        ensures
            r@ == self@,
    {
        FormResultsRequest {
            form_id: self.form_id.clone(),
            results: copy_results(&self.results),
            args: copy_strings(&self.args),
        }
    }
}

impl Clone for RunActionRequest {
    fn clone(&self) -> (r: Self)
        ensures
            r@ == self@,
    {
        RunActionRequest { action: self.action.clone(), args: copy_strings(&self.args) }
    }
}

impl Clone for ExtensionRequest {
    fn clone(&self) -> (r: Self)
        ensures
            r@ == self@,
    {
        let request_type = match &self.request_type {
            RequestType::GetResults(g) => RequestType::GetResults(g.clone()),
            RequestType::RunAction(a) => RequestType::RunAction(a.clone()),
            RequestType::FormResults(f) => RequestType::FormResults(f.clone()),
        };
        ExtensionRequest { request_type }
    }
}

/// A copy of a list of form results, each with the same model.
pub fn copy_results(rs: &Vec<FormResult>) -> (r: Vec<FormResult>)
    ensures
        results_view(r@) == results_view(rs@),
{
    let r = rs.clone();
    assert(results_view(r@) =~= results_view(rs@));
    r
}

// ---------------------------------------------------------------------
// Lookups in form results
// ---------------------------------------------------------------------

/// `i` is the first position whose result answers the field `id`.
pub open spec fn is_first_with_id(rs: Seq<FormResultView>, id: Seq<char>, i: int) -> bool {
    &&& 0 <= i < rs.len()
    &&& rs[i].id == id
    &&& forall|j: int| 0 <= j < i ==> rs[j].id != id
}

/// The first result that answers the field `id`, if any does.
pub open spec fn lookup_result(rs: Seq<FormResultView>, id: Seq<char>) -> Option<FormResultView> {
    if exists|i: int| is_first_with_id(rs, id, i) {
        Some(rs[choose|i: int| is_first_with_id(rs, id, i)])
    } else {
        None
    }
}

pub open spec fn not_found_message(id: Seq<char>) -> Seq<char> {
    "Could not find result with id: "@ + id
}

pub open spec fn not_a_number_message() -> Seq<char> {
    "Could not parse result to a number"@
}

impl GetResultsRequest {
    pub fn new(search_text: &str) -> (r: Self)
        ensures
            r.search_text@ == search_text@,
    {
        GetResultsRequest { search_text: search_text.to_owned() }
    }
}

impl RunActionRequest {
    pub fn new(action: &str, args: &Vec<String>) -> (r: Self)
        ensures
            r@ == (RunActionRequestView { action: action@, args: strings_view(args@) }),
    {
        RunActionRequest { action: action.to_owned(), args: copy_strings(args) }
    }
}

impl ExtensionRequest {
    /// Asks for the search results of a text.
    pub fn new_get_results_request(search_text: &str) -> (r: Self)
        ensures
            r@ == RequestTypeView::GetResults(search_text@),
    {
        ExtensionRequest { request_type: RequestType::GetResults(GetResultsRequest::new(search_text)) }
    }

    /// Asks to run one of the extension's actions.
    pub fn new_run_extension_action_request(action: &str, args: &Vec<String>) -> (r: Self)
        ensures
            r@ == RequestTypeView::RunAction(
                RunActionRequestView { action: action@, args: strings_view(args@) },
            ),
    {
        ExtensionRequest { request_type: RequestType::RunAction(RunActionRequest::new(action, args)) }
    }

    /// Hands the answers to a form back to the extension that asked for it.
    pub fn new_form_results_request(form_id: &str, results: &Vec<FormResult>, args: &Vec<String>) -> (r: Self)
        ensures
            r@ == RequestTypeView::FormResults(
                FormResultsRequestView {
                    form_id: form_id@,
                    results: results_view(results@),
                    args: strings_view(args@),
                },
            ),
    {
        ExtensionRequest {
            request_type: RequestType::FormResults(
                FormResultsRequest {
                    form_id: form_id.to_owned(),
                    results: copy_results(results),
                    args: copy_strings(args),
                },
            ),
        }
    }
}

impl FormResultsRequest {
    /// The first result that answers the field `id`; an error naming `id`
    /// when none does.
    pub fn get_result(&self, id: &str) -> (r: Result<FormResult, String>)
        ensures
            match r {
                Ok(found) => lookup_result(self@.results, id@) == Some(found@),
                Err(e) => lookup_result(self@.results, id@) is None && e@ == not_found_message(id@),
            },
    {
        let key = id.to_owned();
        let ghost rs = self@.results;
        let mut i: usize = 0;
        while i < self.results.len()
            invariant
                i <= self.results.len(),
                rs == results_view(self.results@),
                key@ == id@,
                forall|j: int| 0 <= j < i ==> rs[j].id != id@,
            decreases self.results.len() - i,
        {
            if self.results[i].id == key {
                assert(is_first_with_id(rs, id@, i as int));
                assert forall|k: int| is_first_with_id(rs, id@, k) implies k == i by {
                    if k < i {
                        assert(rs[k].id != id@);
                    } else if k > i {
                        assert(rs[i as int].id == id@);
                    }
                }
                return Ok(self.results[i].clone());
            }
            i = i + 1;
        }
        let mut message = "Could not find result with id: ".to_owned();
        message.append(id);
        Err(message)
    }

    /// The text answered to the field `id`.
    pub fn get_string_value(&self, id: &str) -> (r: Result<String, String>)
        ensures
            match r {
                Ok(v) => exists|f: FormResultView|
                    lookup_result(self@.results, id@) == Some(f) && v@ == f.value,
                Err(e) => lookup_result(self@.results, id@) is None && e@ == not_found_message(id@),
            },
    {
        match self.get_result(id) {
            Ok(found) => Ok(found.value),
            Err(e) => Err(e),
        }
    }

    /// Whether the field `id` was answered with exactly `true`.
    pub fn get_bool_value(&self, id: &str) -> (r: Result<bool, String>)
        ensures
            match r {
                Ok(b) => exists|f: FormResultView|
                    lookup_result(self@.results, id@) == Some(f) && b == (f.value == "true"@),
                Err(e) => lookup_result(self@.results, id@) is None && e@ == not_found_message(id@),
            },
    {
        match self.get_result(id) {
            Ok(found) => Ok(is_true_text(&found.value)),
            Err(e) => Err(e),
        }
    }

    /// The non-negative integer that the field `id` was answered with.
    pub fn get_usize_value(&self, id: &str) -> (r: Result<usize, String>)
        ensures
            match lookup_result(self@.results, id@) {
                Some(f) => match usize_of_text(f.value) {
                    Some(n) => r == Ok::<usize, String>(n),
                    None => r is Err && r->Err_0@ == not_a_number_message(),
                },
                None => r is Err && r->Err_0@ == not_found_message(id@),
            },
    {
        match self.get_result(id) {
            Ok(found) => match parse_usize(found.value.as_str()) {
                Some(n) => Ok(n),
                None => Err("Could not parse result to a number".to_owned()),
            },
            Err(e) => Err(e),
        }
    }

    /// The path that the field `id` was answered with; any text is a path.
    pub fn get_path_value(&self, id: &str) -> (r: Result<String, String>)
        ensures
            match r {
                Ok(v) => exists|f: FormResultView|
                    lookup_result(self@.results, id@) == Some(f) && v@ == f.value,
                Err(e) => lookup_result(self@.results, id@) is None && e@ == not_found_message(id@),
            },
    {
        self.get_string_value(id)
    }
}

} // verus!
