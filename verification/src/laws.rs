//! The laws the table model obeys, each stated over the spec functions the
//! operations' contracts use and proved for every input the law admits.

use vstd::prelude::*;
use crate::table::{
    lemma_find_absent, lemma_find_present, spec_apply_update, spec_delete_rows, spec_find,
    spec_sorted, spec_update_rows,
};
use crate::user::UserView;

verus! {

/// Creating a row with a fresh id and then getting that id returns exactly
/// the created row.
pub proof fn lemma_create_then_get(rows: Seq<UserView>, u: UserView)
    requires
        forall|i: int| 0 <= i < rows.len() ==> (#[trigger] rows[i]).user_id != u.user_id,
    ensures
        spec_find(rows.push(u), u.user_id) == Option::Some(u),
{
    let created = rows.push(u);
    assert forall|j: int| 0 <= j < rows.len() as int implies (#[trigger] created[j]).user_id
        != u.user_id by {
        assert(created[j] == rows[j]);
    }
    lemma_find_present(created, u.user_id, rows.len() as int);
}

/// Creating two rows in turn, each with an id above every id already
/// stored, keeps the listing ordered by ascending id and appends both rows,
/// the first before the second.
pub proof fn lemma_list_after_two_creates(rows: Seq<UserView>, u1: UserView, u2: UserView)
    requires
        spec_sorted(rows),
        forall|i: int| 0 <= i < rows.len() ==> (#[trigger] rows[i]).user_id < u1.user_id,
        u1.user_id < u2.user_id,
    ensures
        spec_sorted(rows.push(u1).push(u2)),
        rows.push(u1).push(u2).len() == rows.len() + 2,
        rows.push(u1).push(u2)[rows.len() as int] == u1,
        rows.push(u1).push(u2)[rows.len() as int + 1] == u2,
{
    let after = rows.push(u1).push(u2);
    assert forall|i: int, j: int| 0 <= i < j < after.len() implies (#[trigger] after[i]).user_id
        < (#[trigger] after[j]).user_id by {
        if j < rows.len() as int {
            assert(after[i] == rows[i] && after[j] == rows[j]);
        } else if i < rows.len() as int {
            assert(after[i] == rows[i]);
            assert(rows[i].user_id < u1.user_id);
        }
    }
}

/// A partial update touches exactly the row with the given id: getting that
/// id afterwards returns the row with the present fields replaced and the
/// absent fields kept, and a missing id is still missing.
pub proof fn lemma_find_after_update(
    rows: Seq<UserView>,
    id: int,
    name: Option<Seq<char>>,
    age: Option<int>,
)
    ensures
        spec_find(spec_update_rows(rows, id, name, age), id) == match spec_find(rows, id) {
            Option::Some(u) => Option::Some(spec_apply_update(u, name, age)),
            Option::None => Option::<UserView>::None,
        },
    decreases rows.len(),
{
    let mapped = spec_update_rows(rows, id, name, age);
    if rows.len() == 0 {
    } else if rows[0].user_id == id {
        assert(mapped[0] == spec_apply_update(rows[0], name, age));
    } else {
        assert(mapped[0] == rows[0]);
        lemma_find_after_update(rows.drop_first(), id, name, age);
        assert(mapped.drop_first() =~= spec_update_rows(rows.drop_first(), id, name, age));
    }
}

/// Updating only the age changes the age and leaves the name (and the id)
/// of the row unchanged.
pub proof fn lemma_update_age_keeps_name(rows: Seq<UserView>, id: int, new_age: int)
    ensures
        match spec_find(rows, id) {
            Option::Some(u) => spec_find(
                spec_update_rows(rows, id, Option::None, Option::Some(new_age)),
                id,
            ) == Option::Some(
                UserView { user_id: u.user_id, name: u.name, age: Option::Some(new_age) },
            ),
            Option::None => spec_find(
                spec_update_rows(rows, id, Option::None, Option::Some(new_age)),
                id,
            ) is None,
        },
{
    lemma_find_after_update(rows, id, Option::None, Option::Some(new_age));
}

/// An update with both fields absent leaves the table unchanged.
pub proof fn lemma_empty_update_noop(rows: Seq<UserView>, id: int)
    ensures
        spec_update_rows(rows, id, Option::None, Option::None) == rows,
{
    let mapped = spec_update_rows(rows, id, Option::None, Option::None);
    assert forall|k: int| 0 <= k < rows.len() implies mapped[k] == rows[k] by {
        assert(spec_apply_update(rows[k], Option::None, Option::None) =~= rows[k]);
    }
    assert(mapped =~= rows);
}

/// No row has the scanned id when the scan finds nothing.
pub proof fn lemma_find_none_absent(rows: Seq<UserView>, id: int)
    requires
        spec_find(rows, id) is None,
    ensures
        forall|i: int| 0 <= i < rows.len() ==> (#[trigger] rows[i]).user_id != id,
    decreases rows.len(),
{
    if rows.len() > 0 {
        lemma_find_none_absent(rows.drop_first(), id);
        assert forall|i: int| 0 <= i < rows.len() implies (#[trigger] rows[i]).user_id != id by {
            if i > 0 {
                assert(rows.drop_first()[i - 1] == rows[i]);
            }
        }
    }
}

/// Deleting an id that no row carries leaves the table unchanged: deletion
/// of a missing id is an idempotent no-op.
pub proof fn lemma_delete_missing_noop(rows: Seq<UserView>, id: int)
    requires
        spec_find(rows, id) is None,
    ensures
        spec_delete_rows(rows, id) == rows,
{
    lemma_find_none_absent(rows, id);
    lemma_delete_absent_aux(rows, id);
}

proof fn lemma_delete_absent_aux(rows: Seq<UserView>, id: int)
    requires
        forall|i: int| 0 <= i < rows.len() ==> (#[trigger] rows[i]).user_id != id,
    ensures
        spec_delete_rows(rows, id) == rows,
    decreases rows.len(),
{
    if rows.len() > 0 {
        let prefix = rows.drop_last();
        assert(forall|i: int| 0 <= i < prefix.len() ==> #[trigger] prefix[i] == rows[i]);
        lemma_delete_absent_aux(prefix, id);
        assert(rows[rows.len() - 1].user_id != id);
        assert(prefix.push(rows.last()) =~= rows);
    }
}

/// After a deletion, no row carries the deleted id.
pub proof fn lemma_delete_removes_id(rows: Seq<UserView>, id: int)
    ensures
        forall|i: int|
            0 <= i < spec_delete_rows(rows, id).len()
                ==> (#[trigger] spec_delete_rows(rows, id)[i]).user_id != id,
    decreases rows.len(),
{
    if rows.len() > 0 {
        lemma_delete_removes_id(rows.drop_last(), id);
    }
}

/// The round trip: creating a row with a fresh id, getting it, updating its
/// age, getting it again, and deleting it behaves as each step promises,
/// and the final get finds nothing.
pub proof fn lemma_round_trip(rows: Seq<UserView>, u: UserView, new_age: int)
    requires
        forall|i: int| 0 <= i < rows.len() ==> (#[trigger] rows[i]).user_id != u.user_id,
    ensures
        ({
            let created = rows.push(u);
            let updated = spec_update_rows(created, u.user_id, Option::None, Option::Some(new_age));
            let deleted = spec_delete_rows(updated, u.user_id);
            &&& spec_find(created, u.user_id) == Option::Some(u)
            &&& spec_find(updated, u.user_id) == Option::Some(
                UserView { user_id: u.user_id, name: u.name, age: Option::Some(new_age) },
            )
            &&& spec_find(deleted, u.user_id) is None
        }),
{
    let created = rows.push(u);
    let updated = spec_update_rows(created, u.user_id, Option::None, Option::Some(new_age));
    let deleted = spec_delete_rows(updated, u.user_id);
    lemma_create_then_get(rows, u);
    lemma_update_age_keeps_name(created, u.user_id, new_age);
    lemma_delete_removes_id(updated, u.user_id);
    lemma_find_absent(deleted, u.user_id);
}

} // verus!
