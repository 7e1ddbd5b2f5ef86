//! The errors that a call can end in.
use vstd::prelude::*;
use crate::json::{get_field, get_text, items_of, field, text_field, Json};

verus! {

/// One problem that the API reports.
#[derive(Debug)]
pub struct ApiErrorEntry {
    pub id: String,
    pub message: String,
}

/// The body that the API sends instead of an envelope when it reports
/// problems: one or more entries.
#[derive(Debug)]
pub struct ApiErrors {
    pub errors: Vec<ApiErrorEntry>,
}

/// Why a body could not be read as the expected value.
#[derive(Debug)]
pub enum DecodeFault {
    /// The body is not JSON, as serde_json reports it.
    Syntax(serde_json::Error),
    /// The body nests deeper than the library copies documents.
    TooDeep,
    /// The body is JSON, but its `data` member is not the expected value.
    Shape,
}

/// How a call failed.
#[derive(Debug)]
pub enum CBError {
    /// The request could not be sent or no response came back.
    Http(hyper::Error),
    /// The body is neither the expected envelope nor a reported error; `data`
    /// is the body as text.
    Serde { error: DecodeFault, data: String },
    /// The API reported problems.
    Coinbase(ApiErrors),
    /// `target` is not a URI that a request can be made for.
    InvalidRequest { target: String },
}

/// Whether a document is one reported problem.
pub open spec fn entry_fits(j: Json) -> bool {
    &&& text_field(j, "id"@) is Some
    &&& text_field(j, "message"@) is Some
}

/// The entries of the `errors` member.
pub open spec fn error_items(j: Json) -> Option<Seq<Json>> {
    match field(j, "errors"@) {
        Some(v) => items_of(v),
        None => None,
    }
}

/// Whether a document has the shape of reported problems.
pub open spec fn api_errors_fit(j: Json) -> bool {
    match error_items(j) {
        Some(items) => items.len() > 0 && forall|i: int| 0 <= i < items.len() ==> #[trigger] entry_fits(items[i]),
        None => false,
    }
}

/// `e` holds, entry for entry and in order, the problems that `j` reports.
pub open spec fn api_errors_read_from(e: ApiErrors, j: Json) -> bool {
    match error_items(j) {
        Some(items) => {
            &&& e.errors@.len() == items.len()
            &&& forall|i: int| 0 <= i < items.len() ==> {
                &&& text_field(items[i], "id"@) == Some((#[trigger] e.errors@[i]).id@)
                &&& text_field(items[i], "message"@) == Some(e.errors@[i].message@)
            }
        },
        None => false,
    }
}

/// Reads reported problems from their document.
pub fn api_errors_from_json(j: &Json) -> (r: Option<ApiErrors>)
    ensures
        r is Some <==> api_errors_fit(*j),
        r is Some ==> api_errors_read_from(r->0, *j),
{
    let items = match get_field(j, "errors") {
        Some(Json::Array(items)) => items,
        _ => return None,
    };
    if items.len() == 0 {
        return None;
    }
    let mut out: Vec<ApiErrorEntry> = Vec::new();
    let mut i: usize = 0;
    while i < items.len()
        invariant
            0 <= i <= items@.len(),
            error_items(*j) == Some(items@),
            out@.len() == i,
            forall|k: int| 0 <= k < i ==> #[trigger] entry_fits(items@[k]),
            forall|k: int| 0 <= k < i ==> {
                &&& text_field(items@[k], "id"@) == Some((#[trigger] out@[k]).id@)
                &&& text_field(items@[k], "message"@) == Some(out@[k].message@)
            },
        decreases items@.len() - i,
    {
        let id = get_text(&items[i], "id");
        let message = get_text(&items[i], "message");
        match (id, message) {
            (Some(id), Some(message)) => out.push(ApiErrorEntry { id, message }),
            _ => {
                assert(!api_errors_fit(*j)) by {
                    if api_errors_fit(*j) {
                        let s = error_items(*j)->0;
                        assert(forall|k: int| 0 <= k < s.len() ==> #[trigger] entry_fits(s[k]));
                        assert(entry_fits(s[i as int]));
                    }
                }
                return None;
            },
        }
        i = i + 1;
    }
    Some(ApiErrors { errors: out })
}

} // verus!
