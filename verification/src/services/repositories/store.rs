//! What a store of records is, mathematically: a sequence of records in the
//! order in which they came, no two with the same identity; and what each
//! repository operation makes of it.

use vstd::prelude::*;
use crate::services::repositories::{Record, RepositoryError};

verus! {

/// Whether some record of `rows` has the identity `id`.
pub open spec fn holds<T>(rows: Seq<Record<T>>, id: i32) -> bool {
    exists|i: int| 0 <= i < rows.len() && (#[trigger] rows[i]).id == id
}

/// Where in `rows` the record with the identity `id` stands; meaningful
/// where `holds(rows, id)`.
pub open spec fn index_of<T>(rows: Seq<Record<T>>, id: i32) -> int {
    choose|i: int| 0 <= i < rows.len() && (#[trigger] rows[i]).id == id
}

/// A store is valid when no two of its records share an identity and none
/// has the identity zero.
pub open spec fn valid_store<T>(rows: Seq<Record<T>>) -> bool {
    &&& forall|i: int, j: int|
        0 <= i < j < rows.len() ==> (#[trigger] rows[i]).id != (#[trigger] rows[j]).id
    &&& forall|i: int| 0 <= i < rows.len() ==> (#[trigger] rows[i]).id != 0
}

/// The highest identity in `rows`, and zero where there is none above zero.
pub open spec fn highest_identity<T>(rows: Seq<Record<T>>) -> int
    decreases rows.len(),
{
    if rows.len() == 0 {
        0
    } else {
        let before = highest_identity(rows.drop_last());
        if rows.last().id > before {
            rows.last().id as int
        } else {
            before
        }
    }
}

/// The identity under which a record given with the identity `given` is
/// stored: its own, or, where it has none yet, the one after the highest in
/// the store.
pub open spec fn identity_for<T>(rows: Seq<Record<T>>, given: i32) -> int {
    if given == 0 {
        highest_identity(rows) + 1
    } else {
        given as int
    }
}

/// The record with the identity `id`, if the store has one.
pub open spec fn find_in<T>(rows: Seq<Record<T>>, id: i32) -> Option<Record<T>> {
    if holds(rows, id) {
        Some(rows[index_of(rows, id)])
    } else {
        None
    }
}

/// The store after `given` has been created in it: `given` comes last, under
/// the identity that `identity_for` gives it. Creation is refused as a
/// conflict where that identity is taken, or where no identity is left.
pub open spec fn create_in<T>(rows: Seq<Record<T>>, given: Record<T>) -> Result<
    Seq<Record<T>>,
    RepositoryError,
> {
    let id = identity_for(rows, given.id);
    if id > i32::MAX || holds(rows, id as i32) {
        Err(RepositoryError::Conflict)
    } else {
        Ok(rows.push(Record { id: id as i32, value: given.value }))
    }
}

/// The store after the record with the identity of `given` has been replaced
/// by `given`, in its place; there must be one.
pub open spec fn update_in<T>(rows: Seq<Record<T>>, given: Record<T>) -> Result<
    Seq<Record<T>>,
    RepositoryError,
> {
    if holds(rows, given.id) {
        Ok(rows.update(index_of(rows, given.id), given))
    } else {
        Err(RepositoryError::NotFound)
    }
}

/// The store after the record with the identity `id` has been taken out, the
/// others keeping their order; there must be one.
pub open spec fn delete_in<T>(rows: Seq<Record<T>>, id: i32) -> Result<
    Seq<Record<T>>,
    RepositoryError,
> {
    if holds(rows, id) {
        Ok(rows.remove(index_of(rows, id)))
    } else {
        Err(RepositoryError::NotFound)
    }
}

/// In a valid store an identity stands at one place only: whoever knows a
/// place where it stands knows `index_of`.
pub proof fn lemma_index_of_is_the_place<T>(rows: Seq<Record<T>>, i: int)
    requires
        valid_store(rows),
        0 <= i < rows.len(),
    ensures
        holds(rows, rows[i].id),
        index_of(rows, rows[i].id) == i,
        find_in(rows, rows[i].id) == Some(rows[i]),
{
    let id = rows[i].id;
    let j = index_of(rows, id);
    assert(0 <= j < rows.len() && rows[j].id == id);
    if j < i {
        assert(rows[j].id != rows[i].id);
    } else if i < j {
        assert(rows[i].id != rows[j].id);
    }
}

/// No identity in a store is above the highest.
pub proof fn lemma_highest_bounds_all<T>(rows: Seq<Record<T>>, i: int)
    requires
        0 <= i < rows.len(),
    ensures
        rows[i].id <= highest_identity(rows),
        0 <= highest_identity(rows) <= i32::MAX,
    decreases rows.len(),
{
    if i < rows.len() - 1 {
        lemma_highest_bounds_all(rows.drop_last(), i);
    } else if rows.len() > 1 {
        lemma_highest_bounds_all(rows.drop_last(), 0);
    }
}

/// Creating leaves a valid store valid.
pub proof fn lemma_create_keeps_validity<T>(rows: Seq<Record<T>>, given: Record<T>)
    requires
        valid_store(rows),
    ensures
        create_in(rows, given) matches Ok(after) ==> valid_store(after),
{
    if let Ok(after) = create_in(rows, given) {
        let new_id = identity_for(rows, given.id) as i32;
        assert(new_id != 0) by {
            if rows.len() > 0 {
                lemma_highest_bounds_all(rows, 0);
            }
        }
        assert forall|i: int, j: int| 0 <= i < j < after.len() implies (#[trigger] after[i]).id
            != (#[trigger] after[j]).id by {
            if j == rows.len() {
                assert(rows[i].id != new_id);
            } else {
                assert(rows[i].id != rows[j].id);
            }
        }
    }
}

/// Updating leaves a valid store valid.
pub proof fn lemma_update_keeps_validity<T>(rows: Seq<Record<T>>, given: Record<T>)
    requires
        valid_store(rows),
    ensures
        update_in(rows, given) matches Ok(after) ==> valid_store(after),
{
    if let Ok(after) = update_in(rows, given) {
        assert forall|i: int, j: int| 0 <= i < j < after.len() implies (#[trigger] after[i]).id
            != (#[trigger] after[j]).id by {
            assert(rows[i].id != rows[j].id);
        }
        assert forall|i: int| 0 <= i < after.len() implies (#[trigger] after[i]).id != 0 by {
            assert(rows[i].id != 0);
        }
    }
}

/// Deleting leaves a valid store valid.
pub proof fn lemma_delete_keeps_validity<T>(rows: Seq<Record<T>>, id: i32)
    requires
        valid_store(rows),
    ensures
        delete_in(rows, id) matches Ok(after) ==> valid_store(after),
{
    if let Ok(after) = delete_in(rows, id) {
        let at = index_of(rows, id);
        assert forall|i: int, j: int| 0 <= i < j < after.len() implies (#[trigger] after[i]).id
            != (#[trigger] after[j]).id by {
            let i0 = if i < at { i } else { i + 1 };
            let j0 = if j < at { j } else { j + 1 };
            assert(rows[i0].id != rows[j0].id);
        }
        assert forall|i: int| 0 <= i < after.len() implies (#[trigger] after[i]).id != 0 by {
            let i0 = if i < at { i } else { i + 1 };
            assert(rows[i0].id != 0);
        }
    }
}

/// What has been created is found: looking up the identity under which a
/// record was stored yields that record, which carries the value that was
/// given and, where the given record had an identity, that identity.
pub proof fn lemma_created_is_found<T>(rows: Seq<Record<T>>, given: Record<T>)
    requires
        valid_store(rows),
        create_in(rows, given) is Ok,
    ensures
        ({
            let after = create_in(rows, given)->Ok_0;
            let stored = after.last();
            &&& find_in(after, stored.id) == Some(stored)
            &&& stored.value == given.value
            &&& given.id != 0 ==> stored.id == given.id
            &&& !holds(rows, stored.id)
        }),
{
    let after = create_in(rows, given)->Ok_0;
    lemma_create_keeps_validity(rows, given);
    lemma_index_of_is_the_place(after, after.len() - 1);
}

/// Updating an identity that the store does not have fails as not found; and
/// an update, whether it fails or not, never brings an identity into the
/// store or takes one out.
pub proof fn lemma_update_never_inserts<T>(rows: Seq<Record<T>>, given: Record<T>, id: i32)
    requires
        valid_store(rows),
    ensures
        !holds(rows, given.id) ==> update_in(rows, given) == Err::<Seq<Record<T>>, _>(
            RepositoryError::NotFound,
        ),
        update_in(rows, given) matches Ok(after) ==> after.len() == rows.len() && (holds(
            after,
            id,
        ) <==> holds(rows, id)) && find_in(after, given.id) == Some(given),
{
    if let Ok(after) = update_in(rows, given) {
        let at = index_of(rows, given.id);
        lemma_update_keeps_validity(rows, given);
        lemma_index_of_is_the_place(after, at);
        if holds(after, id) {
            let i = index_of(after, id);
            assert(rows[i].id == id);
        }
        if holds(rows, id) {
            let i = index_of(rows, id);
            assert(after[i].id == id);
        }
    }
}

/// What has been deleted is gone: after a delete the identity is not found,
/// and deleting it a second time fails as not found.
pub proof fn lemma_deleted_is_gone<T>(rows: Seq<Record<T>>, id: i32)
    requires
        valid_store(rows),
        delete_in(rows, id) is Ok,
    ensures
        ({
            let after = delete_in(rows, id)->Ok_0;
            &&& find_in(after, id) == None::<Record<T>>
            &&& delete_in(after, id) == Err::<Seq<Record<T>>, _>(RepositoryError::NotFound)
        }),
{
    let after = delete_in(rows, id)->Ok_0;
    let at = index_of(rows, id);
    if holds(after, id) {
        let i = index_of(after, id);
        let i0 = if i < at { i } else { i + 1 };
        assert(rows[i0].id == id);
        if i0 < at {
            assert(rows[i0].id != rows[at].id);
        } else {
            assert(rows[at].id != rows[i0].id);
        }
    }
}

/// Deleting a missing identity is an error, not a silent success.
pub proof fn lemma_delete_absent_not_found<T>(rows: Seq<Record<T>>, id: i32)
    requires
        !holds(rows, id),
    ensures
        delete_in(rows, id) == Err::<Seq<Record<T>>, _>(RepositoryError::NotFound),
{
}

/// Two records created one after the other under different identities, both
/// free, are both stored, and each is found under its own identity.
pub proof fn lemma_distinct_creates_both_found<T>(
    rows: Seq<Record<T>>,
    first: Record<T>,
    second: Record<T>,
)
    requires
        valid_store(rows),
        first.id != 0,
        second.id != 0,
        first.id != second.id,
        !holds(rows, first.id),
        !holds(rows, second.id),
    ensures
        create_in(rows, first) is Ok,
        create_in(create_in(rows, first)->Ok_0, second) is Ok,
        ({
            let after = create_in(create_in(rows, first)->Ok_0, second)->Ok_0;
            find_in(after, first.id) == Some(first) && find_in(after, second.id) == Some(second)
        }),
{
    let middle = create_in(rows, first)->Ok_0;
    lemma_create_keeps_validity(rows, first);
    if holds(middle, second.id) {
        let i = index_of(middle, second.id);
        if i < rows.len() {
            assert(rows[i].id == second.id);
        }
    }
    let after = create_in(middle, second)->Ok_0;
    lemma_create_keeps_validity(middle, second);
    lemma_index_of_is_the_place(after, rows.len() as int);
    lemma_index_of_is_the_place(after, rows.len() as int + 1);
}

/// Any two creations that succeed one after the other store their records
/// under different identities, and afterwards each is found under its own
/// identity with the value it was given: neither overwrites or hides the
/// other.
pub proof fn lemma_successive_creates_both_found<T>(
    rows: Seq<Record<T>>,
    first: Record<T>,
    second: Record<T>,
)
    requires
        valid_store(rows),
        create_in(rows, first) is Ok,
        create_in(create_in(rows, first)->Ok_0, second) is Ok,
    ensures
        ({
            let middle = create_in(rows, first)->Ok_0;
            let after = create_in(middle, second)->Ok_0;
            let one = middle.last();
            let other = after.last();
            &&& one.id != other.id
            &&& one.value == first.value
            &&& other.value == second.value
            &&& find_in(after, one.id) == Some(one)
            &&& find_in(after, other.id) == Some(other)
        }),
{
    let middle = create_in(rows, first)->Ok_0;
    let after = create_in(middle, second)->Ok_0;
    lemma_create_keeps_validity(rows, first);
    lemma_create_keeps_validity(middle, second);
    lemma_index_of_is_the_place(after, rows.len() as int);
    lemma_index_of_is_the_place(after, rows.len() as int + 1);
    assert(after[rows.len() as int] == middle.last());
}

/// Two creations under different identities, both free, do not depend on
/// their order: in either order both succeed, and the store then holds the
/// same records under the same identities.
pub proof fn lemma_distinct_creates_commute<T>(
    rows: Seq<Record<T>>,
    first: Record<T>,
    second: Record<T>,
)
    requires
        valid_store(rows),
        first.id != 0,
        second.id != 0,
        first.id != second.id,
        !holds(rows, first.id),
        !holds(rows, second.id),
    ensures
        create_in(rows, first) is Ok,
        create_in(rows, second) is Ok,
        create_in(create_in(rows, first)->Ok_0, second) is Ok,
        create_in(create_in(rows, second)->Ok_0, first) is Ok,
        records_of(create_in(create_in(rows, first)->Ok_0, second)->Ok_0) == records_of(
            create_in(create_in(rows, second)->Ok_0, first)->Ok_0,
        ),
        records_of(create_in(create_in(rows, first)->Ok_0, second)->Ok_0) == records_of(
            rows,
        ).insert(first.id, first).insert(second.id, second),
{
    lemma_distinct_creates_both_found(rows, first, second);
    lemma_distinct_creates_both_found(rows, second, first);
    let one_way = create_in(rows, first)->Ok_0;
    let other_way = create_in(rows, second)->Ok_0;
    lemma_create_keeps_validity(rows, first);
    lemma_create_keeps_validity(rows, second);
    lemma_create_inserts(rows, first);
    lemma_create_inserts(rows, second);
    lemma_create_inserts(one_way, second);
    lemma_create_inserts(other_way, first);
    assert(records_of(rows).insert(first.id, first).insert(second.id, second) =~= records_of(
        rows,
    ).insert(second.id, second).insert(first.id, first));
}

/// An empty store is valid and holds nothing.
pub proof fn lemma_empty_store<T>(id: i32)
    ensures
        valid_store(Seq::<Record<T>>::empty()),
        !holds(Seq::<Record<T>>::empty(), id),
        find_in(Seq::<Record<T>>::empty(), id) == None::<Record<T>>,
{
}

/// The store as a map: each record under its identity.
pub open spec fn records_of<T>(rows: Seq<Record<T>>) -> Map<i32, Record<T>> {
    Map::new(|id: i32| holds(rows, id), |id: i32| rows[index_of(rows, id)])
}

/// Looking an identity up in the map is finding it in the store.
pub proof fn lemma_records_get<T>(rows: Seq<Record<T>>, id: i32)
    ensures
        records_of(rows).get(id) == find_in(rows, id),
{
}

/// The records of a valid store, listed in its order, are each of its map's
/// values once.
pub proof fn lemma_records_listed_once<T>(rows: Seq<Record<T>>)
    requires
        valid_store(rows),
    ensures
        rows.no_duplicates(),
        rows.to_set() == records_of(rows).values(),
{
    assert forall|i: int, j: int| 0 <= i < rows.len() && 0 <= j < rows.len() && i != j implies
        rows[i] != rows[j] by {
        if i < j {
            assert(rows[i].id != rows[j].id);
        } else {
            assert(rows[j].id != rows[i].id);
        }
    }
    assert forall|r: Record<T>| rows.to_set().contains(r) <==> records_of(rows).values().contains(
        r,
    ) by {
        if rows.to_set().contains(r) {
            let i = choose|i: int| 0 <= i < rows.len() && rows[i] == r;
            lemma_index_of_is_the_place(rows, i);
            assert(records_of(rows).contains_key(r.id) && records_of(rows)[r.id] == r);
        }
        if records_of(rows).values().contains(r) {
            let id = choose|id: i32|
                records_of(rows).contains_key(id) && #[trigger] records_of(rows)[id] == r;
            let i = index_of(rows, id);
            assert(rows[i] == r);
        }
    }
    assert(rows.to_set() =~= records_of(rows).values());
}

/// Creating inserts into the store's map, under an identity that was free.
pub proof fn lemma_create_inserts<T>(rows: Seq<Record<T>>, given: Record<T>)
    requires
        valid_store(rows),
    ensures
        create_in(rows, given) matches Ok(after) ==> !records_of(rows).contains_key(
            after.last().id,
        ) && records_of(after) == records_of(rows).insert(after.last().id, after.last()),
{
    lemma_create_keeps_validity(rows, given);
    if let Ok(after) = create_in(rows, given) {
        let stored = after.last();
        let expected = records_of(rows).insert(stored.id, stored);
        assert forall|k: i32| records_of(after).contains_key(k) <==> expected.contains_key(k) by {
            if holds(after, k) {
                let i = index_of(after, k);
                if i < rows.len() {
                    assert(rows[i].id == k);
                }
            }
            if holds(rows, k) {
                let i = index_of(rows, k);
                assert(after[i].id == k);
            }
            if k == stored.id {
                assert(after[after.len() - 1].id == k);
            }
        }
        assert forall|k: i32| records_of(after).contains_key(k) implies records_of(after)[k]
            == expected[k] by {
            let i = index_of(after, k);
            if i < rows.len() {
                lemma_index_of_is_the_place(rows, i);
                assert(after[i] == rows[i]);
            }
        }
        assert(records_of(after) =~= expected);
    }
}

/// Updating overwrites the entry of the identity in the store's map.
pub proof fn lemma_update_overwrites<T>(rows: Seq<Record<T>>, given: Record<T>)
    requires
        valid_store(rows),
    ensures
        update_in(rows, given) matches Ok(after) ==> records_of(after) == records_of(
            rows,
        ).insert(given.id, given),
{
    lemma_update_keeps_validity(rows, given);
    if let Ok(after) = update_in(rows, given) {
        let at = index_of(rows, given.id);
        let expected = records_of(rows).insert(given.id, given);
        assert forall|k: i32| records_of(after).contains_key(k) <==> expected.contains_key(k) by {
            lemma_update_never_inserts(rows, given, k);
        }
        assert forall|k: i32| records_of(after).contains_key(k) implies records_of(after)[k]
            == expected[k] by {
            let i = index_of(after, k);
            lemma_index_of_is_the_place(after, i);
            if i != at {
                lemma_index_of_is_the_place(rows, i);
            }
        }
        assert(records_of(after) =~= expected);
    }
}

/// Deleting removes the entry of the identity from the store's map.
pub proof fn lemma_delete_removes<T>(rows: Seq<Record<T>>, id: i32)
    requires
        valid_store(rows),
    ensures
        delete_in(rows, id) matches Ok(after) ==> records_of(after) == records_of(rows).remove(
            id,
        ),
{
    lemma_delete_keeps_validity(rows, id);
    if let Ok(after) = delete_in(rows, id) {
        let at = index_of(rows, id);
        let expected = records_of(rows).remove(id);
        lemma_deleted_is_gone(rows, id);
        assert forall|k: i32| records_of(after).contains_key(k) <==> expected.contains_key(k) by {
            if holds(after, k) {
                let i = index_of(after, k);
                let i0 = if i < at { i } else { i + 1 };
                assert(rows[i0].id == k);
            }
            if holds(rows, k) && k != id {
                let i = index_of(rows, k);
                let i1 = if i < at { i } else { i - 1 };
                assert(after[i1].id == k);
            }
        }
        assert forall|k: i32| records_of(after).contains_key(k) implies records_of(after)[k]
            == expected[k] by {
            let i = index_of(after, k);
            let i0 = if i < at { i } else { i + 1 };
            lemma_index_of_is_the_place(rows, i0);
        }
        assert(records_of(after) =~= expected);
    }
}

/// The identity after the highest is free.
pub proof fn lemma_next_identity_is_free<T>(rows: Seq<Record<T>>)
    ensures
        highest_identity(rows) < i32::MAX ==> !holds(rows, (highest_identity(rows) + 1) as i32),
        0 <= highest_identity(rows) <= i32::MAX,
    decreases rows.len(),
{
    if rows.len() > 0 {
        lemma_highest_bounds_all(rows, 0);
        if highest_identity(rows) < i32::MAX {
            let next = (highest_identity(rows) + 1) as i32;
            if holds(rows, next) {
                let i = index_of(rows, next);
                lemma_highest_bounds_all(rows, i);
            }
        }
    }
}

} // verus!
