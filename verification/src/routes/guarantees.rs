//! What holds of the service across its operations, on every table that
//! keeps its constraints.

use vstd::prelude::*;
use crate::routes::service::{create_result, created, get_result, projections, updated};
use crate::routes::user::{
    CreateUserView, GetUserView, ServiceError, UpdateUserView, UserView,
};
use crate::store::{
    has_email, has_id, index_of_id, lemma_index_of_id, removed, row_with_id, well_formed,
};

verus! {

/// A creation succeeds, and returns the id it was given, exactly when the
/// request is complete and neither its email nor the id is taken.
pub proof fn create_succeeds_exactly_when(t: Seq<UserView>, input: CreateUserView, id: u128)
    ensures
        create_result(t, input, id) is Ok <==> input.is_complete() && !has_email(t, input.email)
            && !has_id(t, id),
        create_result(t, input, id) is Ok ==> create_result(t, input, id) == Ok::<
            u128,
            ServiceError,
        >(id),
{
}

/// A user that was created can be fetched under the id that was returned:
/// the projection has the name and the email of the request, and both
/// timestamps are the time of the creation. The table keeps its
/// constraints, and holds one row more.
pub proof fn create_then_get(t: Seq<UserView>, input: CreateUserView, id: u128, now: i64)
    requires
        well_formed(t),
        create_result(t, input, id) is Ok,
    ensures
        create_result(t, input, id) == Ok::<u128, ServiceError>(id),
        input.is_complete(),
        well_formed(created(t, input, id, now)),
        created(t, input, id, now).len() == t.len() + 1,
        row_with_id(created(t, input, id, now), id) == Some(input.record(id, now)),
        get_result(created(t, input, id, now), id) matches Ok(shown) && shown.id == id
            && shown.name == input.name && shown.email == input.email && shown.created_at == now
            && shown.updated_at == now,
{
    let after = created(t, input, id, now);
    let row = input.record(id, now);
    assert(after == t.push(row));
    assert forall|i: int, j: int| 0 <= i < j < after.len() implies
        (#[trigger] after[i]).id != (#[trigger] after[j]).id
    by {
        if j == t.len() {
            assert(after[i] == t[i]);
        }
    }
    assert forall|i: int, j: int| 0 <= i < j < after.len() implies
        (#[trigger] after[i]).email != (#[trigger] after[j]).email
    by {
        if j == t.len() {
            assert(after[i] == t[i]);
        }
    }
    lemma_index_of_id(after, id, t.len() as int);
}

/// A creation with an email that the table holds is a conflict, whatever
/// the name and the password of the request, and leaves the table as it is.
pub proof fn create_with_taken_email_conflicts(
    t: Seq<UserView>,
    input: CreateUserView,
    id: u128,
    now: i64,
)
    requires
        has_email(t, input.email),
    ensures
        create_result(t, input, id) == Err::<u128, ServiceError>(ServiceError::Conflict),
        created(t, input, id, now) == t,
{
}

/// A creation changes no row but its own: every other id names the row it
/// named before.
pub proof fn create_keeps_others(
    t: Seq<UserView>,
    input: CreateUserView,
    id: u128,
    now: i64,
    other: u128,
)
    requires
        well_formed(t),
        other != id,
    ensures
        row_with_id(created(t, input, id, now), other) == row_with_id(t, other),
{
    let after = created(t, input, id, now);
    if create_result(t, input, id) is Ok {
        create_then_get(t, input, id, now);
        if has_id(t, other) {
            let i = index_of_id(t, other);
            assert(after[i] == t[i]);
            lemma_index_of_id(after, other, i);
        } else {
            if has_id(after, other) {
                let j = index_of_id(after, other);
                assert(j < t.len());
                assert(t[j].id == other);
            }
        }
    }
}

/// A change merges: a field that the request supplies replaces the stored
/// one and a field that it leaves out stays, so a change of the password
/// alone keeps the name and a change of the name alone keeps the password.
/// The id, the email and the time of creation never change, and the time of
/// the change is written.
pub proof fn merge_keeps_what_is_left_out(row: UserView, patch: UpdateUserView, now: i64)
    ensures
        patch.name is None ==> row.merged(patch, now).name == row.name,
        patch.password is None ==> row.merged(patch, now).password == row.password,
        patch.name matches Some(name) ==> row.merged(patch, now).name == name,
        patch.password matches Some(password) ==> row.merged(patch, now).password == password,
        row.merged(patch, now).id == row.id,
        row.merged(patch, now).email == row.email,
        row.merged(patch, now).created_at == row.created_at,
        row.merged(patch, now).updated_at == now,
{
}

/// After a change of a stored user, its id names the merged record, and a
/// fetch returns the projection of that record. The table keeps its
/// constraints and its length.
pub proof fn update_then_get(t: Seq<UserView>, id: u128, patch: UpdateUserView, now: i64)
    requires
        well_formed(t),
        has_id(t, id),
    ensures
        well_formed(updated(t, id, patch, now)),
        updated(t, id, patch, now).len() == t.len(),
        row_with_id(updated(t, id, patch, now), id) == Some(
            row_with_id(t, id)->0.merged(patch, now),
        ),
        get_result(updated(t, id, patch, now), id) == Ok::<GetUserView, ServiceError>(
            row_with_id(t, id)->0.merged(patch, now).projection(),
        ),
{
    let i = index_of_id(t, id);
    let after = updated(t, id, patch, now);
    assert(after == t.update(i, t[i].merged(patch, now)));
    assert forall|a: int, b: int| 0 <= a < b < after.len() implies
        (#[trigger] after[a]).id != (#[trigger] after[b]).id
    by {
        assert(after[a].id == t[a].id);
        assert(after[b].id == t[b].id);
    }
    assert forall|a: int, b: int| 0 <= a < b < after.len() implies
        (#[trigger] after[a]).email != (#[trigger] after[b]).email
    by {
        assert(after[a].email == t[a].email);
        assert(after[b].email == t[b].email);
    }
    lemma_index_of_id(after, id, i);
}

/// A change touches no row but its own.
pub proof fn update_keeps_others(
    t: Seq<UserView>,
    id: u128,
    patch: UpdateUserView,
    now: i64,
    other: u128,
)
    requires
        well_formed(t),
        other != id,
    ensures
        row_with_id(updated(t, id, patch, now), other) == row_with_id(t, other),
{
    let after = updated(t, id, patch, now);
    if has_id(t, id) {
        update_then_get(t, id, patch, now);
        let i = index_of_id(t, id);
        if has_id(t, other) {
            let k = index_of_id(t, other);
            assert(after[k] == t[k]);
            lemma_index_of_id(after, other, k);
        } else {
            if has_id(after, other) {
                let j = index_of_id(after, other);
                assert(after[j].id == t[j].id);
            }
        }
    }
}

/// A deletion can be repeated: whether the table held the user or not, it
/// holds none under that id afterwards, a fetch of the id finds nothing,
/// and a second deletion changes nothing more.
pub proof fn delete_is_idempotent(t: Seq<UserView>, id: u128)
    requires
        well_formed(t),
    ensures
        well_formed(removed(t, id)),
        !has_id(removed(t, id), id),
        get_result(removed(t, id), id) == Err::<GetUserView, ServiceError>(ServiceError::NotFound),
        removed(removed(t, id), id) == removed(t, id),
        !has_id(t, id) ==> removed(t, id) == t,
{
    let after = removed(t, id);
    if has_id(t, id) {
        let k = index_of_id(t, id);
        assert(after == t.remove(k));
        assert forall|a: int, b: int| 0 <= a < b < after.len() implies
            (#[trigger] after[a]).id != (#[trigger] after[b]).id
            && after[a].email != after[b].email
        by {
            let a0 = if a < k { a } else { a + 1 };
            let b0 = if b < k { b } else { b + 1 };
            assert(after[a] == t[a0]);
            assert(after[b] == t[b0]);
        }
        if has_id(after, id) {
            let j = index_of_id(after, id);
            let j0 = if j < k { j } else { j + 1 };
            assert(after[j] == t[j0]);
            lemma_index_of_id(t, id, j0);
        }
    }
}

/// A deletion removes no row but its own.
pub proof fn delete_keeps_others(t: Seq<UserView>, id: u128, other: u128)
    requires
        well_formed(t),
        other != id,
    ensures
        row_with_id(removed(t, id), other) == row_with_id(t, other),
{
    let after = removed(t, id);
    if has_id(t, id) {
        delete_is_idempotent(t, id);
        let k = index_of_id(t, id);
        assert(after == t.remove(k));
        if has_id(t, other) {
            let i = index_of_id(t, other);
            let j = if i < k { i } else { i - 1 };
            assert(after[j] == t[i]);
            lemma_index_of_id(after, other, j);
        } else {
            if has_id(after, other) {
                let j = index_of_id(after, other);
                let j0 = if j < k { j } else { j + 1 };
                assert(after[j] == t[j0]);
            }
        }
    }
}

/// A listing holds every stored user exactly once: the projection of the
/// row that an id names stands at one place of the listing, and no other
/// place holds that id.
pub proof fn list_holds_each_user_once(t: Seq<UserView>, id: u128)
    requires
        well_formed(t),
        has_id(t, id),
    ensures
        projections(t).len() == t.len(),
        0 <= index_of_id(t, id) < projections(t).len(),
        projections(t)[index_of_id(t, id)] == row_with_id(t, id)->0.projection(),
        forall|j: int|
            0 <= j < projections(t).len() && (#[trigger] projections(t)[j]).id == id ==> j
                == index_of_id(t, id),
{
    let i = index_of_id(t, id);
    assert forall|j: int|
        0 <= j < projections(t).len() && (#[trigger] projections(t)[j]).id == id implies j
        == i by {
        assert(t[j].id == id);
        lemma_index_of_id(t, id, j);
    }
}

/// A listing holds no user that is not stored.
pub proof fn list_holds_stored_users_only(t: Seq<UserView>, j: int)
    requires
        0 <= j < projections(t).len(),
    ensures
        has_id(t, projections(t)[j].id),
{
    assert(t[j].id == projections(t)[j].id);
}

/// No row of `t` was changed before it was created.
pub open spec fn ordered_times(t: Seq<UserView>) -> bool {
    forall|i: int| 0 <= i < t.len() ==> (#[trigger] t[i]).created_at <= t[i].updated_at
}

/// No operation puts the time of a change before the time of creation: a
/// creation writes the same time twice, a deletion writes none, and a
/// change keeps the order where its time is not before the creation of the
/// row it changes.
pub proof fn times_stay_ordered(
    t: Seq<UserView>,
    input: CreateUserView,
    id: u128,
    patch: UpdateUserView,
    now: i64,
)
    requires
        ordered_times(t),
    ensures
        ordered_times(created(t, input, id, now)),
        ordered_times(removed(t, id)),
        (row_with_id(t, id) matches Some(row) ==> row.created_at <= now) ==> ordered_times(
            updated(t, id, patch, now),
        ),
{
    let made = created(t, input, id, now);
    assert forall|i: int| 0 <= i < made.len() implies (#[trigger] made[i]).created_at
        <= made[i].updated_at by {
        if i < t.len() {
            assert(made[i] == t[i]);
        }
    }
    let rest = removed(t, id);
    assert forall|i: int| 0 <= i < rest.len() implies (#[trigger] rest[i]).created_at
        <= rest[i].updated_at by {
        if has_id(t, id) {
            let k = index_of_id(t, id);
            let i0 = if i < k { i } else { i + 1 };
            assert(rest[i] == t[i0]);
        }
    }
    if row_with_id(t, id) matches Some(row) ==> row.created_at <= now {
        let changed = updated(t, id, patch, now);
        assert forall|i: int| 0 <= i < changed.len() implies (#[trigger] changed[i]).created_at
            <= changed[i].updated_at by {
            if has_id(t, id) {
                let k = index_of_id(t, id);
                if i != k {
                    assert(changed[i] == t[i]);
                }
            }
        }
    }
}

} // verus!
