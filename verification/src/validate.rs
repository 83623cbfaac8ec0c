//! Pre-persistence validation: each write shape has one rule, that its
//! designated string field (`name` for accounts, `title` for todos) is
//! non-empty. A check returns the list of field/message failures, which is
//! empty exactly when the shape is acceptable.

use vstd::prelude::*;
use vstd::string::StringExecFns;
use crate::model::{Auth, CreateUpdateTodo};

verus! {

/// One failed validation rule: the offending field and a message for it.
#[derive(Debug, PartialEq, Eq)]
pub struct FieldError {
    pub field: String,
    pub message: String,
}

/// Checks an inbound account body: `name` must have length at least 1.
pub fn validate_auth(body: &Auth) -> (r: Vec<FieldError>)
    ensures
        body.name@.len() > 0 ==> r@.len() == 0,
        body.name@.len() == 0 ==> r@.len() == 1 && r@[0].field@ == "name"@ && r@[0].message@
            == "auth name required"@,
{
    let mut r: Vec<FieldError> = Vec::new();
    if body.name.as_str().is_empty() {
        r.push(
            FieldError {
                field: String::from_str("name"),
                message: String::from_str("auth name required"),
            },
        );
    }
    r
}

/// Checks an inbound todo write body: `title` must have length at least 1.
pub fn validate_todo(body: &CreateUpdateTodo) -> (r: Vec<FieldError>)
    ensures
        body.title@.len() > 0 ==> r@.len() == 0,
        body.title@.len() == 0 ==> r@.len() == 1 && r@[0].field@ == "title"@ && r@[0].message@
            == "todo title required"@,
{
    let mut r: Vec<FieldError> = Vec::new();
    if body.title.as_str().is_empty() {
        r.push(
            FieldError {
                field: String::from_str("title"),
                message: String::from_str("todo title required"),
            },
        );
    }
    r
}

} // verus!
