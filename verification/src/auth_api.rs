//! The account endpoints: list, fetch by id, login, create, update, delete.
//! Each handler is one store operation and one response mapping; the mapping
//! functions also stand alone, so a caller that performs the store operation
//! elsewhere can hand its outcome in and get the same response.

use vstd::prelude::*;
use vstd::string::StringExecFns;
use crate::model::{Auth, Login};
use crate::response::{Body, ContentType, Response};
use crate::store::{
    auth_index_of, auth_with_id, created_auth, first_auth_with_email, has_auth, Store, StoreV,
};
use crate::validate::validate_auth;

verus! {

/// The response to a failed login: unauthorized, with no body.
pub open spec fn spec_unauthorized() -> Response {
    Response { status: 401, content_type: ContentType::NoBody, body: Body::Empty }
}

/// A store-failure response for one resource: a fixed message rendered as JSON.
pub open spec fn spec_error(r: Response, msg: Seq<char>) -> bool {
    &&& r.status == 500
    &&& r.content_type == ContentType::Json
    &&& r.body matches Body::Message(m) && m@ == msg
}

/// The response to a write whose body failed validation: the quirk of this
/// service is that it answers 200 with a fixed plain-text message.
pub open spec fn spec_invalid(r: Response, msg: Seq<char>) -> bool {
    &&& r.status == 200
    &&& r.content_type == ContentType::Text
    &&& r.body matches Body::Message(m) && m@ == msg
}

/// The fixed validation-failure response of the account write endpoints.
pub fn auth_invalid() -> (r: Response)
    ensures
        spec_invalid(r, "Auth name is requied!"@),
{
    Response {
        status: 200,
        content_type: ContentType::Text,
        body: Body::Message(String::from_str("Auth name is requied!")),
    }
}

/// Maps the outcome of the login row fetch: the account is returned only if
/// one was found and its stored `password1` equals the submitted password;
/// an unknown email and a wrong password get the same bare 401.
pub fn login_outcome(user: Option<Auth>, password: &String) -> (r: Response)
    ensures
        match user {
            Some(u) => if u@.password1 == password@ {
                r == (Response { status: 200, content_type: ContentType::Json, body: Body::OneAuth(u) })
            } else {
                r == spec_unauthorized()
            },
            None => r == spec_unauthorized(),
        },
{
    match user {
        Some(u) => {
            if u.password1 == *password {
                Response { status: 200, content_type: ContentType::Json, body: Body::OneAuth(u) }
            } else {
                Response { status: 401, content_type: ContentType::NoBody, body: Body::Empty }
            }
        },
        None => Response { status: 401, content_type: ContentType::NoBody, body: Body::Empty },
    }
}

/// Maps the outcome of the select behind `GET /auths`.
pub fn auths_listed(rows: Option<Vec<Auth>>) -> (r: Response)
    ensures
        rows matches Some(v) ==> r == (Response {
            status: 200,
            content_type: ContentType::Json,
            body: Body::Auths(v),
        }),
        rows is None ==> spec_error(r, "Failed to get auths"@),
{
    match rows {
        Some(v) => Response { status: 200, content_type: ContentType::Json, body: Body::Auths(v) },
        None => Response {
            status: 500,
            content_type: ContentType::Json,
            body: Body::Message(String::from_str("Failed to get auths")),
        },
    }
}

/// Maps the outcome of the select behind `GET /auths/{id}`.
pub fn auth_fetched(row: Option<Auth>) -> (r: Response)
    ensures
        row matches Some(a) ==> r == (Response {
            status: 200,
            content_type: ContentType::Json,
            body: Body::OneAuth(a),
        }),
        row is None ==> spec_error(r, "Failed to get auth"@),
{
    match row {
        Some(a) => Response { status: 200, content_type: ContentType::Json, body: Body::OneAuth(a) },
        None => Response {
            status: 500,
            content_type: ContentType::Json,
            body: Body::Message(String::from_str("Failed to get auth")),
        },
    }
}

/// Maps the outcome of the insert behind `POST /auths`.
pub fn auth_created(row: Option<Auth>) -> (r: Response)
    ensures
        row matches Some(a) ==> r == (Response {
            status: 200,
            content_type: ContentType::Json,
            body: Body::OneAuth(a),
        }),
        row is None ==> spec_error(r, "Failed to create auth"@),
{
    match row {
        Some(a) => Response { status: 200, content_type: ContentType::Json, body: Body::OneAuth(a) },
        None => Response {
            status: 500,
            content_type: ContentType::Json,
            body: Body::Message(String::from_str("Failed to create auth")),
        },
    }
}

/// Maps the outcome of the update behind `PATCH /updateauth/{id}`, whose
/// statement returns the new `name` and `email` of the updated row.
pub fn auth_updated(row: Option<(String, String)>) -> (r: Response)
    ensures
        row matches Some(ne) ==> r == (Response {
            status: 200,
            content_type: ContentType::Json,
            body: Body::NameEmail(ne.0, ne.1),
        }),
        row is None ==> spec_error(r, "Failed to update auth"@),
{
    match row {
        Some(ne) => Response {
            status: 200,
            content_type: ContentType::Json,
            body: Body::NameEmail(ne.0, ne.1),
        },
        None => Response {
            status: 500,
            content_type: ContentType::Json,
            body: Body::Message(String::from_str("Failed to update auth")),
        },
    }
}

/// Maps the outcome of the delete behind `DELETE /delete/{id}`, whose
/// statement returns the `name` and `email` of the deleted row.
pub fn auth_deleted(row: Option<(String, String)>) -> (r: Response)
    ensures
        row matches Some(ne) ==> r == (Response {
            status: 200,
            content_type: ContentType::Json,
            body: Body::NameEmail(ne.0, ne.1),
        }),
        row is None ==> spec_error(r, "Failed to delete auth"@),
{
    match row {
        Some(ne) => Response {
            status: 200,
            content_type: ContentType::Json,
            body: Body::NameEmail(ne.0, ne.1),
        },
        None => Response {
            status: 500,
            content_type: ContentType::Json,
            body: Body::Message(String::from_str("Failed to delete auth")),
        },
    }
}

/// `POST /auth/login`: the account whose email comes first in store order
/// decides; its plaintext `password1` must equal the submitted password.
pub fn login(store: &Store, login_data: &Login) -> (r: Response)
    ensures
        match first_auth_with_email(store@.auths, login_data.email@) {
            Some(u) => if u.password1 == login_data.password@ {
                r.status == 200 && r.content_type == ContentType::Json && (r.body matches Body::OneAuth(a)
                    && a@ == u)
            } else {
                r == spec_unauthorized()
            },
            None => r == spec_unauthorized(),
        },
{
    let user = store.select_auth_by_email(&login_data.email);
    login_outcome(user, &login_data.password)
}

/// `GET /auths`: every account row, in store order.
pub fn get_auths(store: &Store) -> (r: Response)
    ensures
        r.status == 200 && r.content_type == ContentType::Json,
        r.body matches Body::Auths(v) && v@.map_values(|a: Auth| a@) == store@.auths,
{
    auths_listed(Some(store.select_auths()))
}

/// `GET /auths/{id}`: the account row with that id; an absent row is not
/// told apart from a store failure.
pub fn get_auth(store: &Store, id: i32) -> (r: Response)
    requires
        store@.wf(),
    ensures
        match auth_with_id(store@, id as int) {
            Some(av) => r.status == 200 && r.content_type == ContentType::Json && (r.body matches Body::OneAuth(a)
                && a@ == av),
            None => spec_error(r, "Failed to get auth"@),
        },
{
    auth_fetched(store.select_auth_by_id(id))
}

/// `POST /auths`: validates `name`, then inserts the submitted columns under
/// a store-assigned id and echoes the persisted row. On validation failure
/// nothing is written and the fixed text answer goes out with status 200.
pub fn add_auth(store: &mut Store, body: &Auth) -> (r: Response)
    requires
        old(store)@.wf(),
    ensures
        final(store)@.wf(),
        body.name@.len() == 0 ==> *final(store) == *old(store) && spec_invalid(
            r,
            "Auth name is requied!"@,
        ),
        body.name@.len() > 0 && old(store)@.next_auth_id < i32::MAX as int ==> {
            &&& final(store)@ == (StoreV {
                auths: old(store)@.auths.push(created_auth(old(store)@, body@)),
                next_auth_id: old(store)@.next_auth_id + 1,
                ..old(store)@
            })
            &&& r.status == 200 && r.content_type == ContentType::Json
            &&& r.body matches Body::OneAuth(a) && a@ == created_auth(old(store)@, body@)
        },
        body.name@.len() > 0 && old(store)@.next_auth_id == i32::MAX as int ==> *final(store)
            == *old(store) && spec_error(r, "Failed to create auth"@),
{
    let errors = validate_auth(body);
    if errors.len() == 0 {
        let row = store.insert_auth(&body.name, &body.email, &body.password1, &body.password2);
        auth_created(row)
    } else {
        auth_invalid()
    }
}

/// `PATCH /updateauth/{id}`: validates `name`, then overwrites every mutable
/// column of the row with that id and answers with the new `name` and
/// `email`. On validation failure nothing is written.
pub fn update_auth(store: &mut Store, id: i32, body: &Auth) -> (r: Response)
    requires
        old(store)@.wf(),
    ensures
        final(store)@.wf(),
        body.name@.len() == 0 ==> *final(store) == *old(store) && spec_invalid(
            r,
            "Auth name is requied!"@,
        ),
        body.name@.len() > 0 && has_auth(old(store)@.auths, id as int) ==> {
            &&& final(store)@ == (StoreV {
                auths: old(store)@.auths.update(
                    auth_index_of(old(store)@.auths, id as int),
                    (crate::model::AuthV {
                        name: body.name@,
                        email: body.email@,
                        password1: body.password1@,
                        password2: body.password2@,
                        id: id as int,
                    }),
                ),
                ..old(store)@
            })
            &&& r.status == 200 && r.content_type == ContentType::Json
            &&& r.body matches Body::NameEmail(n, e) && n@ == body.name@ && e@ == body.email@
        },
        body.name@.len() > 0 && !has_auth(old(store)@.auths, id as int) ==> *final(store) == *old(
            store,
        ) && spec_error(r, "Failed to update auth"@),
{
    let errors = validate_auth(body);
    if errors.len() == 0 {
        let row = store.update_auth_row(id, &body.name, &body.email, &body.password1, &body.password2);
        auth_updated(row)
    } else {
        auth_invalid()
    }
}

/// `DELETE /delete/{id}`: deletes the row with that id and answers with its
/// `name` and `email`; an absent row is a plain store failure.
pub fn delete_auth(store: &mut Store, id: i32) -> (r: Response)
    requires
        old(store)@.wf(),
    ensures
        final(store)@.wf(),
        has_auth(old(store)@.auths, id as int) ==> {
            &&& final(store)@ == (StoreV {
                auths: old(store)@.auths.remove(auth_index_of(old(store)@.auths, id as int)),
                ..old(store)@
            })
            &&& r.status == 200 && r.content_type == ContentType::Json
            &&& r.body matches Body::NameEmail(n, e) && n@ == old(store)@.auths[auth_index_of(
                old(store)@.auths,
                id as int,
            )].name && e@ == old(store)@.auths[auth_index_of(old(store)@.auths, id as int)].email
        },
        !has_auth(old(store)@.auths, id as int) ==> *final(store) == *old(store) && spec_error(
            r,
            "Failed to delete auth"@,
        ),
{
    let row = store.delete_auth_row(id);
    auth_deleted(row)
}

} // verus!
