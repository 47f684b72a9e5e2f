//! The SQL statements the service issues, one per operation.
//!
//! The four fixed statements are returned verbatim; the partial-update
//! statement is assembled from the fields present in the request, with
//! positional placeholders numbered in a fixed order (id first, then name
//! if present, then age if present).

use vstd::prelude::*;
use crate::user::UpdateUserReq;

verus! {

/// One value bound to a positional placeholder.
pub enum SqlValue {
    IntVal(i32),
    TextVal(String),
}

/// The values the partial-update statement binds, in placeholder order:
/// the id first, then the name if present, then the age if present.
pub open spec fn spec_update_bind_values(
    user_id: i32,
    name: Option<String>,
    age: Option<i32>,
) -> Seq<SqlValue> {
    seq![SqlValue::IntVal(user_id)] + (match name {
        Option::Some(n) => seq![SqlValue::TextVal(n)],
        Option::None => Seq::<SqlValue>::empty(),
    }) + (match age {
        Option::Some(a) => seq![SqlValue::IntVal(a)],
        Option::None => Seq::<SqlValue>::empty(),
    })
}

/// Builds the bind list for the partial-update statement, one value per
/// placeholder, in the fixed order the statement numbers them.
pub fn update_bind_values(user_id: i32, req: UpdateUserReq) -> (r: Vec<SqlValue>)
    ensures
        r@ == spec_update_bind_values(user_id, req.name, req.age),
{
    let mut out: Vec<SqlValue> = Vec::new();
    out.push(SqlValue::IntVal(user_id));
    match req.name {
        Option::Some(n) => out.push(SqlValue::TextVal(n)),
        Option::None => {},
    }
    match req.age {
        Option::Some(a) => out.push(SqlValue::IntVal(a)),
        Option::None => {},
    }
    proof {
        assert(out@ =~= spec_update_bind_values(user_id, req.name, req.age));
    }
    out
}

/// Selects every user row, ordered by ascending `user_id`.
pub fn select_all_users_query() -> (r: &'static str)
    ensures
        r@ == "SELECT * FROM users ORDER BY user_id"@,
{
    "SELECT * FROM users ORDER BY user_id"
}

/// Selects the single row whose `user_id` is bound to the first placeholder.
pub fn select_user_query() -> (r: &'static str)
    ensures
        r@ == "SELECT * FROM users WHERE user_id = $1"@,
{
    "SELECT * FROM users WHERE user_id = $1"
}

/// Inserts a row with the bound name and age; the database assigns and
/// returns the fresh `user_id`.
pub fn insert_user_query() -> (r: &'static str)
    ensures
        r@ == "INSERT INTO users (name, age) VALUES ($1, $2) RETURNING user_id"@,
{
    "INSERT INTO users (name, age) VALUES ($1, $2) RETURNING user_id"
}

/// Deletes the single row whose `user_id` is bound to the first placeholder.
pub fn delete_user_query() -> (r: &'static str)
    ensures
        r@ == "DELETE FROM public.users WHERE user_id = $1"@,
{
    "DELETE FROM public.users WHERE user_id = $1"
}

/// The text of the partial-update statement for a given combination of
/// present fields. The statement always self-assigns `user_id` (so an empty
/// request degenerates to a no-op update that still executes), and numbers
/// the placeholders in a fixed order: `$1` the id, then `$2` the name if
/// present, then the next free slot the age if present.
pub open spec fn spec_update_user_query(has_name: bool, has_age: bool) -> Seq<char> {
    "UPDATE public.users SET user_id = $1"@ + (if has_name {
        ", name = $2"@
    } else {
        Seq::<char>::empty()
    }) + (if has_age {
        (if has_name {
            ", age = $3"@
        } else {
            ", age = $2"@
        })
    } else {
        Seq::<char>::empty()
    }) + " WHERE user_id = $1"@
}

/// Builds the partial-update statement for the fields present in a request.
pub fn update_user_query(has_name: bool, has_age: bool) -> (r: String)
    ensures
        r@ == spec_update_user_query(has_name, has_age),
{
    let mut q: String = "UPDATE public.users SET user_id = $1".to_owned();
    if has_name {
        q.append(", name = $2");
    }
    if has_age {
        if has_name {
            q.append(", age = $3");
        } else {
            q.append(", age = $2");
        }
    }
    q.append(" WHERE user_id = $1");
    proof {
        assert(q@ =~= spec_update_user_query(has_name, has_age));
    }
    q
}

} // verus!
