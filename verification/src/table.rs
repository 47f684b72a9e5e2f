//! A verified model of the `users` table and of what each SQL statement
//! does to it: rows kept in ascending id order, ids unique and assigned
//! only on insertion, partial update, and delete as an idempotent no-op
//! when no row matches.

use vstd::prelude::*;
use crate::user::{CreateUserReq, UpdateUserReq, User, UserView, opt_int_view, users_view};

verus! {

/// Rows are strictly ascending by id; in particular ids are unique.
pub open spec fn spec_sorted(rows: Seq<UserView>) -> bool {
    forall|i: int, j: int|
        0 <= i < j < rows.len() ==> #[trigger] rows[i].user_id < #[trigger] rows[j].user_id
}

/// The first row with the given id, scanning from the front.
pub open spec fn spec_find(rows: Seq<UserView>, id: int) -> Option<UserView>
    decreases rows.len(),
{
    if rows.len() == 0 {
        Option::None
    } else if rows[0].user_id == id {
        Option::Some(rows[0])
    } else {
        spec_find(rows.drop_first(), id)
    }
}

/// A row after a partial update: each absent field keeps its old value.
pub open spec fn spec_apply_update(u: UserView, name: Option<Seq<char>>, age: Option<int>) -> UserView {
    UserView {
        user_id: u.user_id,
        name: match name {
            Option::Some(n) => n,
            Option::None => u.name,
        },
        age: match age {
            Option::Some(a) => Option::Some(a),
            Option::None => u.age,
        },
    }
}

/// The table after a partial update of the rows with the given id.
pub open spec fn spec_update_rows(
    rows: Seq<UserView>,
    id: int,
    name: Option<Seq<char>>,
    age: Option<int>,
) -> Seq<UserView> {
    rows.map_values(
        |u: UserView|
            if u.user_id == id {
                spec_apply_update(u, name, age)
            } else {
                u
            },
    )
}

/// The table after deleting every row with the given id.
pub open spec fn spec_delete_rows(rows: Seq<UserView>, id: int) -> Seq<UserView>
    decreases rows.len(),
{
    if rows.len() == 0 {
        rows
    } else {
        let rest = spec_delete_rows(rows.drop_last(), id);
        if rows.last().user_id == id {
            rest
        } else {
            rest.push(rows.last())
        }
    }
}

/// The in-memory model of the `users` table. `next_id` stands for the
/// database's id sequence: the id the next insertion will receive.
pub struct UsersTable {
    rows: Vec<User>,
    next_id: i32,
}

impl View for UsersTable {
    type V = Seq<UserView>;

    closed spec fn view(&self) -> Seq<UserView> {
        users_view(self.rows@)
    }
}

impl UsersTable {
    /// The id the next insertion will receive.
    pub closed spec fn spec_next_id(&self) -> int {
        self.next_id as int
    }

    /// Well-formedness: rows strictly ascending by id, every id below the
    /// next one to be assigned, and ids starting from one.
    pub closed spec fn wf(&self) -> bool {
        &&& spec_sorted(self@)
        &&& forall|i: int| 0 <= i < self@.len() ==> #[trigger] self@[i].user_id < self.next_id as int
        &&& 1 <= self.next_id
    }

    /// An empty table, whose first insertion will receive id one.
    pub fn new() -> (t: Self)
        ensures
            t.wf(),
            t@ == Seq::<UserView>::empty(),
            t.spec_next_id() == 1,
    {
        let t = UsersTable { rows: Vec::new(), next_id: 1 };
        proof {
            assert(t@ =~= Seq::<UserView>::empty());
        }
        t
    }

    /// Inserts a row: the table assigns the next id and appends the row,
    /// so the order by ascending id is kept.
    pub fn create(&mut self, req: CreateUserReq) -> (id: i32)
        requires
            old(self).wf(),
            old(self).spec_next_id() < i32::MAX as int,
        ensures
            final(self).wf(),
            id as int == old(self).spec_next_id(),
            final(self)@ == old(self)@.push(
                UserView { user_id: id as int, name: req.name@, age: opt_int_view(req.age) },
            ),
            final(self).spec_next_id() == old(self).spec_next_id() + 1,
    {
        let id = self.next_id;
        self.next_id = self.next_id + 1;
        let ghost before = users_view(self.rows@);
        let row = User { user_id: id, name: req.name, age: req.age };
        let ghost rowv = row@;
        self.rows.push(row);
        proof {
            assert(users_view(self.rows@) =~= before.push(rowv));
        }
        id
    }

    /// Returns every row, in ascending id order.
    pub fn list(&self) -> (r: &Vec<User>)
        ensures
            users_view(r@) == self@,
    {
        &self.rows
    }

    /// Returns the row with the given id, or nothing when no row has it.
    pub fn get(&self, user_id: i32) -> (r: Option<&User>)
        ensures
            match r {
                Option::Some(u) => spec_find(self@, user_id as int) == Option::Some(u@),
                Option::None => spec_find(self@, user_id as int) is None,
            },
    {
        let mut i: usize = 0;
        while i < self.rows.len()
            invariant
                i <= self@.len(),
                forall|j: int| 0 <= j < i ==> #[trigger] self@[j].user_id != user_id as int,
            decreases self@.len() - i,
        {
            if self.rows[i].user_id == user_id {
                proof {
                    lemma_find_present(self@, user_id as int, i as int);
                }
                return Option::Some(&self.rows[i]);
            }
            i = i + 1;
        }
        proof {
            lemma_find_absent(self@, user_id as int);
        }
        Option::None
    }

    /// Updates in place the fields present in the request, on every row with
    /// the given id; an empty request leaves the table unchanged, and a
    /// missing id is a no-op.
    pub fn update(&mut self, user_id: i32, req: &UpdateUserReq)
        requires
            old(self).wf(),
        ensures
            final(self).wf(),
            final(self)@ == spec_update_rows(
                old(self)@,
                user_id as int,
                req.name_view(),
                opt_int_view(req.age),
            ),
            final(self).spec_next_id() == old(self).spec_next_id(),
    {
        let ghost before = self@;
        let ghost target = spec_update_rows(
            before,
            user_id as int,
            req.name_view(),
            opt_int_view(req.age),
        );
        let mut out: Vec<User> = Vec::new();
        let mut i: usize = 0;
        while i < self.rows.len()
            invariant
                i <= self.rows@.len(),
                before == users_view(self.rows@),
                target == spec_update_rows(
                    before,
                    user_id as int,
                    req.name_view(),
                    opt_int_view(req.age),
                ),
                users_view(out@) =~= target.take(i as int),
            decreases self.rows@.len() - i,
        {
            let u = &self.rows[i];
            let row = if u.user_id == user_id {
                let name = match &req.name {
                    Option::Some(n) => n.clone(),
                    Option::None => u.name.clone(),
                };
                let age = match req.age {
                    Option::Some(a) => Option::Some(a),
                    Option::None => u.age,
                };
                User { user_id: u.user_id, name, age }
            } else {
                User { user_id: u.user_id, name: u.name.clone(), age: u.age }
            };
            proof {
                assert(row@ == target[i as int]);
            }
            let ghost old_out = out@;
            let ghost rowu = row;
            let ghost rowv = row@;
            out.push(row);
            proof {
                assert(target.len() == before.len());
                assert(users_view(old_out).len() == old_out.len());
                assert(old_out.len() == i as int);
                assert(out@ == old_out.push(rowu));
                assert forall|k: int| 0 <= k < out@.len() implies users_view(out@)[k]
                    == target.take(i + 1 as int)[k] by {
                    if k < i as int {
                        assert(users_view(old_out)[k] == target.take(i as int)[k]);
                        assert(out@[k] == old_out[k]);
                    } else {
                        assert(out@[k] == rowu && rowu@ == rowv);
                    }
                }
                assert(users_view(out@) =~= target.take(i + 1 as int));
            }
            i = i + 1;
        }
        self.rows = out;
        proof {
            assert(target.take(before.len() as int) =~= target);
            assert(self@ =~= target);
            assert forall|a: int, b: int|
                0 <= a < b < self@.len() implies #[trigger] self@[a].user_id
                < #[trigger] self@[b].user_id by {
                assert(before[a].user_id < before[b].user_id);
            }
            assert forall|a: int| 0 <= a < self@.len() implies #[trigger] self@[a].user_id
                < self.next_id as int by {
                assert(before[a].user_id < self.next_id as int);
            }
        }
    }

    /// Deletes every row with the given id; when no row has it the table is
    /// unchanged, so deletion is an idempotent no-op on a missing id.
    pub fn delete(&mut self, user_id: i32)
        requires
            old(self).wf(),
        ensures
            final(self).wf(),
            final(self)@ == spec_delete_rows(old(self)@, user_id as int),
            final(self).spec_next_id() == old(self).spec_next_id(),
    {
        let ghost before = self@;
        let mut out: Vec<User> = Vec::new();
        let mut i: usize = 0;
        while i < self.rows.len()
            invariant
                i <= self.rows@.len(),
                before == users_view(self.rows@),
                users_view(out@) =~= spec_delete_rows(before.take(i as int), user_id as int),
            decreases self.rows@.len() - i,
        {
            let u = &self.rows[i];
            proof {
                assert(before.take(i + 1 as int).drop_last() =~= before.take(i as int));
                assert(before.take(i + 1 as int).last() == before[i as int]);
            }
            if u.user_id != user_id {
                out.push(User { user_id: u.user_id, name: u.name.clone(), age: u.age });
            }
            proof {
                assert(users_view(out@) =~= spec_delete_rows(
                    before.take(i + 1 as int),
                    user_id as int,
                ));
            }
            i = i + 1;
        }
        self.rows = out;
        proof {
            assert(before.take(before.len() as int) =~= before);
            lemma_delete_keeps_order(before, user_id as int, self.next_id as int);
        }
    }
}

/// Scanning finds the row at the first index that carries the id.
pub proof fn lemma_find_present(rows: Seq<UserView>, id: int, k: int)
    requires
        0 <= k < rows.len(),
        rows[k].user_id == id,
        forall|j: int| 0 <= j < k ==> #[trigger] rows[j].user_id != id,
    ensures
        spec_find(rows, id) == Option::Some(rows[k]),
    decreases k,
{
    if k > 0 {
        lemma_find_present(rows.drop_first(), id, k - 1);
    }
}

/// Scanning finds nothing when no row carries the id.
pub proof fn lemma_find_absent(rows: Seq<UserView>, id: int)
    requires
        forall|j: int| 0 <= j < rows.len() ==> #[trigger] rows[j].user_id != id,
    ensures
        spec_find(rows, id) is None,
    decreases rows.len(),
{
    if rows.len() > 0 {
        lemma_find_absent(rows.drop_first(), id);
    }
}

/// Deletion keeps the remaining rows, their relative order, and every id
/// bound, so a well-formed table stays well-formed.
pub proof fn lemma_delete_keeps_order(rows: Seq<UserView>, id: int, bound: int)
    requires
        spec_sorted(rows),
        forall|i: int| 0 <= i < rows.len() ==> #[trigger] rows[i].user_id < bound,
    ensures
        spec_sorted(spec_delete_rows(rows, id)),
        forall|i: int|
            0 <= i < spec_delete_rows(rows, id).len()
                ==> (#[trigger] spec_delete_rows(rows, id)[i]).user_id < bound,
        forall|i: int|
            0 <= i < spec_delete_rows(rows, id).len() ==> rows.contains(
                #[trigger] spec_delete_rows(rows, id)[i],
            ),
    decreases rows.len(),
{
    if rows.len() > 0 {
        let prefix = rows.drop_last();
        assert(forall|i: int| 0 <= i < prefix.len() ==> #[trigger] prefix[i] == rows[i]);
        lemma_delete_keeps_order(prefix, id, bound);
        let rest = spec_delete_rows(prefix, id);
        let whole = spec_delete_rows(rows, id);
        assert forall|i: int| 0 <= i < rest.len() implies #[trigger] rest[i].user_id
            < rows.last().user_id by {
            let u = rest[i];
            assert(prefix.contains(u));
            let j = choose|j: int| 0 <= j < prefix.len() && prefix[j] == u;
            assert(rows[j].user_id < rows[rows.len() - 1].user_id);
        }
        assert forall|i: int| 0 <= i < whole.len() implies rows.contains(
            #[trigger] whole[i],
        ) by {
            if rows.last().user_id == id || i < rest.len() {
                assert(prefix.contains(whole[i]));
                let j = choose|j: int| 0 <= j < prefix.len() && prefix[j] == whole[i];
                assert(rows[j] == whole[i]);
            } else {
                assert(whole[i] == rows[rows.len() - 1]);
            }
        }
    }
}

} // verus!
