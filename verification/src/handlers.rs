//! One handler per operation, verified end to end against the table model:
//! each turns its input into the table operation the SQL performs and
//! returns the HTTP status and JSON envelope the service answers with.
//! The small response builders at the bottom are shared with the unverified
//! server shell, which feeds them the database's actual results.

use vstd::prelude::*;
use crate::json::{
    created_envelope, error_envelope, list_envelope, spec_created_envelope, spec_error_envelope,
    spec_list_envelope, spec_success_envelope, spec_user_envelope, success_envelope, user_envelope,
};
use crate::table::{spec_delete_rows, spec_find, spec_update_rows, UsersTable};
use crate::user::{opt_int_view, CreateUserReq, UpdateUserReq, User, UserView};

verus! {

/// The error text a single-row fetch yields when no row matches.
pub open spec fn spec_no_rows_message() -> Seq<char> {
    "no rows returned by a query that expected to return at least one row"@
}

/// The error text a single-row fetch yields when no row matches. The
/// service surfaces it through the generic failure path, so a get on a
/// missing id answers 500 rather than 404 — a recorded quirk, kept as is.
pub fn no_rows_message() -> (r: &'static str)
    ensures
        r@ == spec_no_rows_message(),
{
    "no rows returned by a query that expected to return at least one row"
}

/// Lists every user: 200 with the rows, in ascending id order, in a
/// success envelope.
pub fn handle_list_users(t: &UsersTable) -> (r: (u16, String))
    ensures
        r.0 == 200,
        r.1@ == spec_list_envelope(t@),
{
    let rows = t.list();
    (200, list_envelope(rows))
}

/// Gets one user by id: 200 with the row when it exists; when it does not,
/// the no-rows condition takes the generic failure path, so 500.
pub fn handle_get_user(t: &UsersTable, user_id: i32) -> (r: (u16, String))
    ensures
        match spec_find(t@, user_id as int) {
            Option::Some(u) => r.0 == 200 && r.1@ == spec_user_envelope(u),
            Option::None => r.0 == 500 && r.1@ == spec_error_envelope(spec_no_rows_message()),
        },
{
    match t.get(user_id) {
        Option::Some(u) => (200, user_envelope(u)),
        Option::None => (500, error_envelope(no_rows_message())),
    }
}

/// Creates a user: the table assigns the id, and the answer is 201 with
/// the assigned id in a success envelope.
pub fn handle_create_user(t: &mut UsersTable, req: CreateUserReq) -> (r: (u16, String))
    requires
        old(t).wf(),
        old(t).spec_next_id() < i32::MAX as int,
    ensures
        final(t).wf(),
        final(t)@ == old(t)@.push(
            UserView {
                user_id: old(t).spec_next_id(),
                name: req.name@,
                age: opt_int_view(req.age),
            },
        ),
        final(t).spec_next_id() == old(t).spec_next_id() + 1,
        r.0 == 201,
        r.1@ == spec_created_envelope(old(t).spec_next_id()),
{
    let id = t.create(req);
    (201, created_envelope(id))
}

/// Partially updates a user: only the fields present in the request change,
/// an empty request changes nothing, and the answer is 200 whether or not
/// any row matched.
pub fn handle_update_user(t: &mut UsersTable, user_id: i32, req: &UpdateUserReq) -> (r: (
    u16,
    String,
))
    requires
        old(t).wf(),
    ensures
        final(t).wf(),
        final(t)@ == spec_update_rows(
            old(t)@,
            user_id as int,
            req.name_view(),
            opt_int_view(req.age),
        ),
        final(t).spec_next_id() == old(t).spec_next_id(),
        r.0 == 200,
        r.1@ == spec_success_envelope(),
{
    t.update(user_id, req);
    (200, success_envelope())
}

/// Deletes a user: the matching row goes away, a missing id is a no-op,
/// and the answer is 200 either way.
pub fn handle_delete_user(t: &mut UsersTable, user_id: i32) -> (r: (u16, String))
    requires
        old(t).wf(),
    ensures
        final(t).wf(),
        final(t)@ == spec_delete_rows(old(t)@, user_id as int),
        final(t).spec_next_id() == old(t).spec_next_id(),
        r.0 == 200,
        r.1@ == spec_success_envelope(),
{
    t.delete(user_id);
    (200, success_envelope())
}

/// The failure answer for a database error: 500 with the error text in a
/// failure envelope.
pub fn db_error_response(msg: &str) -> (r: (u16, String))
    ensures
        r.0 == 500,
        r.1@ == spec_error_envelope(msg@),
{
    (500, error_envelope(msg))
}

/// The success answer for a list of fetched rows: 200 with the rows in a
/// success envelope.
pub fn list_response(rows: &Vec<User>) -> (r: (u16, String))
    ensures
        r.0 == 200,
        r.1@ == spec_list_envelope(crate::user::users_view(rows@)),
{
    (200, list_envelope(rows))
}

/// The success answer for one fetched row: 200 with the row in a success
/// envelope.
pub fn user_response(u: &User) -> (r: (u16, String))
    ensures
        r.0 == 200,
        r.1@ == spec_user_envelope(u@),
{
    (200, user_envelope(u))
}

/// The success answer for an insertion: 201 with the assigned id in a
/// success envelope.
pub fn created_response(user_id: i32) -> (r: (u16, String))
    ensures
        r.0 == 201,
        r.1@ == spec_created_envelope(user_id as int),
{
    (201, created_envelope(user_id))
}

/// The success answer for an update or a delete: 200 with the bare success
/// envelope, whether or not any row matched.
pub fn success_response() -> (r: (u16, String))
    ensures
        r.0 == 200,
        r.1@ == spec_success_envelope(),
{
    (200, success_envelope())
}

} // verus!
