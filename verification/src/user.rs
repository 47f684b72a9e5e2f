//! The data model: a stored user row and the two request payloads, with
//! their mathematical views.

use vstd::prelude::*;

verus! {

/// A stored user row: the id is assigned by the database and immutable,
/// the name is required, the age is optional (nullable).
pub struct User {
    pub user_id: i32,
    pub name: String,
    pub age: Option<i32>,
}

/// The mathematical value of a stored row.
#[verifier::ext_equal]
pub ghost struct UserView {
    pub user_id: int,
    pub name: Seq<char>,
    pub age: Option<int>,
}

/// The mathematical value of an optional integer field.
pub open spec fn opt_int_view(a: Option<i32>) -> Option<int> {
    match a {
        Option::Some(v) => Option::Some(v as int),
        Option::None => Option::None,
    }
}

impl View for User {
    type V = UserView;

    open spec fn view(&self) -> UserView {
        UserView { user_id: self.user_id as int, name: self.name@, age: opt_int_view(self.age) }
    }
}

/// The mathematical value of a sequence of stored rows.
pub open spec fn users_view(rows: Seq<User>) -> Seq<UserView> {
    rows.map_values(|u: User| u@)
}

/// A creation request: required name, optional age.
pub struct CreateUserReq {
    pub name: String,
    pub age: Option<i32>,
}

/// A partial-update request: each absent field means "do not change".
pub struct UpdateUserReq {
    pub name: Option<String>,
    pub age: Option<i32>,
}

impl UpdateUserReq {
    /// The mathematical value of the optional replacement name.
    pub open spec fn name_view(&self) -> Option<Seq<char>> {
        match self.name {
            Option::Some(ref n) => Option::Some(n@),
            Option::None => Option::None,
        }
    }
}

} // verus!
