//! What holds of the store's operations taken together, proved over the spec
//! functions that the contracts of [`crate::table::SafeTable`] are stated in.

use vstd::prelude::*;
use crate::models::{Safe, SafeError, SafeMetadata, SafeView};
use crate::table::{
    after_create, after_delete, after_edit, can_create, create_result, delete_result,
    edit_result, get_result, lists_all, valid_records,
};

verus! {

/// Every operation leaves a valid store valid.
pub proof fn law_operations_keep_records_valid(
    records: Map<u128, SafeView>,
    safe: SafeView,
    id: u128,
    patch: SafeView,
    now: u128,
)
    requires
        valid_records(records),
        patch.encrypted_blob.len() <= usize::MAX,
    ensures
        valid_records(after_create(records, safe)),
        valid_records(after_edit(records, id, patch, now)),
        valid_records(after_delete(records, id)),
{
}

/// A record that was created is what `get` then returns under its id: the blob is
/// the one given, and the recorded size is the blob's length.
pub proof fn law_create_then_get(records: Map<u128, SafeView>, safe: SafeView)
    requires
        safe.is_valid(),
        !records.contains_key(safe.id),
    ensures
        create_result(records, safe) == Ok::<SafeView, SafeError>(safe),
        get_result(after_create(records, safe), safe.id) == Ok::<SafeView, SafeError>(safe),
        safe.metadata.size == safe.encrypted_blob.len(),
{
}

/// Creating under an id that is taken fails with `InvalidData` and changes nothing.
pub proof fn law_create_taken_id(records: Map<u128, SafeView>, safe: SafeView)
    requires
        records.contains_key(safe.id),
    ensures
        create_result(records, safe) == Err::<SafeView, SafeError>(SafeError::InvalidData),
        after_create(records, safe) == records,
{
}

/// For a valid record, creation fails exactly when the id is taken, and then with
/// `InvalidData`; in every other case it succeeds and stores the record.
pub proof fn law_create_fails_only_on_taken_id(records: Map<u128, SafeView>, safe: SafeView)
    requires
        safe.is_valid(),
    ensures
        create_result(records, safe) == Err::<SafeView, SafeError>(SafeError::InvalidData)
            <==> records.contains_key(safe.id),
        create_result(records, safe) == Ok::<SafeView, SafeError>(safe) <==> !records.contains_key(
            safe.id,
        ),
        !records.contains_key(safe.id) ==> after_create(records, safe) == records.insert(
            safe.id,
            safe,
        ),
{
}

/// Creating a record with an empty blob fails with `InvalidData` and changes nothing.
pub proof fn law_create_empty_blob(records: Map<u128, SafeView>, safe: SafeView)
    requires
        safe.encrypted_blob.len() == 0,
    ensures
        create_result(records, safe) == Err::<SafeView, SafeError>(SafeError::InvalidData),
        after_create(records, safe) == records,
{
}

/// Under an id that names no record, `get`, `edit` and `delete` fail with `NotFound`,
/// and the store stays as it was.
pub proof fn law_absent_id_not_found(
    records: Map<u128, SafeView>,
    id: u128,
    patch: SafeView,
    now: u128,
)
    requires
        !records.contains_key(id),
    ensures
        get_result(records, id) == Err::<SafeView, SafeError>(SafeError::NotFound),
        edit_result(records, id, patch, now) == Err::<SafeView, SafeError>(SafeError::NotFound),
        delete_result(records, id) == Err::<(), SafeError>(SafeError::NotFound),
        after_edit(records, id, patch, now) == records,
        after_delete(records, id) == records,
{
    assert(records.remove(id) =~= records);
}

/// An update replaces exactly what it is given: a blob or a version that is omitted
/// stays, identifier and creation time always stay, the size follows the blob, and
/// the update time becomes `now`, so it does not decrease when the clock does not.
pub proof fn law_update_replaces_what_is_given(
    safe: SafeView,
    blob: Option<Seq<u8>>,
    metadata: Option<SafeMetadata>,
    now: u128,
)
    requires
        safe.size_matches(),
        blob matches Some(b) ==> b.len() <= usize::MAX,
    ensures
        ({
            let after = safe.updated(blob, metadata, now);
            &&& after.id == safe.id
            &&& after.created_at == safe.created_at
            &&& after.updated_at == now
            &&& blob matches Some(b) ==> after.encrypted_blob == b
            &&& blob is None ==> after.encrypted_blob == safe.encrypted_blob
            &&& metadata matches Some(m) ==> after.metadata.version == m.version
            &&& metadata is None ==> after.metadata.version == safe.metadata.version
            &&& after.size_matches()
            &&& safe.updated_at <= now ==> safe.updated_at <= after.updated_at
            &&& safe.chronological() && safe.updated_at <= now ==> after.chronological()
        }),
{
}

/// A successful edit stores and returns the old record with the patch's blob and
/// version; its identifier and creation time are the old ones, its update time is
/// `now`, and no other record changes.
pub proof fn law_edit_changes_one_record(
    records: Map<u128, SafeView>,
    id: u128,
    patch: SafeView,
    now: u128,
)
    requires
        valid_records(records),
        records.contains_key(id),
        0 < patch.encrypted_blob.len() <= usize::MAX,
    ensures
        edit_result(records, id, patch, now) matches Ok(edited) && {
            &&& edited.id == id
            &&& edited.created_at == records[id].created_at
            &&& edited.updated_at == now
            &&& edited.encrypted_blob == patch.encrypted_blob
            &&& edited.metadata.version == patch.metadata.version
            &&& edited.metadata.size == patch.encrypted_blob.len()
            &&& get_result(after_edit(records, id, patch, now), id) == Ok::<SafeView, SafeError>(
                edited,
            )
        },
        forall|other: u128|
            other != id ==> get_result(after_edit(records, id, patch, now), other) == get_result(
                records,
                other,
            ),
{
}

/// A successful edit stamps the record with the time of the edit, whatever time the
/// patch carries. So when that time is not earlier than the record's last update,
/// the update time does not decrease; and if the record was not updated before it
/// was created, neither is the edited one.
pub proof fn law_edit_stamps_the_time_of_the_edit(
    records: Map<u128, SafeView>,
    id: u128,
    patch: SafeView,
    now: u128,
)
    requires
        records.contains_key(id),
        patch.encrypted_blob.len() > 0,
    ensures
        edit_result(records, id, patch, now) matches Ok(edited) && {
            &&& edited.updated_at == now
            &&& edited.created_at == records[id].created_at
            &&& records[id].updated_at <= now ==> records[id].updated_at <= edited.updated_at
            &&& records[id].chronological() && records[id].updated_at <= now
                ==> edited.chronological()
        },
        forall|other: SafeView|
            other.encrypted_blob == patch.encrypted_blob && other.metadata == patch.metadata
                ==> #[trigger] edit_result(records, id, other, now) == edit_result(
                records,
                id,
                patch,
                now,
            ),
{
}

/// No record of `records` was updated before it was created.
pub open spec fn chronological_records(records: Map<u128, SafeView>) -> bool {
    forall|id: u128| #[trigger] records.contains_key(id) ==> records[id].chronological()
}

/// With a clock that does not run backwards, update times never decrease and no
/// record is ever updated before it was created: an edit at a time `now` that is not
/// earlier than the record's last update leaves it no earlier, and creating, editing
/// and deleting keep the records chronological.
pub proof fn law_forward_clock_keeps_chronology(
    records: Map<u128, SafeView>,
    safe: SafeView,
    id: u128,
    patch: SafeView,
    now: u128,
)
    requires
        chronological_records(records),
        safe.chronological(),
        records.contains_key(id) ==> records[id].updated_at <= now,
    ensures
        edit_result(records, id, patch, now) matches Ok(edited) ==> records[id].updated_at
            <= edited.updated_at && edited.chronological(),
        chronological_records(after_create(records, safe)),
        chronological_records(after_edit(records, id, patch, now)),
        chronological_records(after_delete(records, id)),
{
}

/// An edit that would leave an empty blob fails with `InvalidData`, and the stored
/// record stays as it was.
pub proof fn law_edit_empty_blob(
    records: Map<u128, SafeView>,
    id: u128,
    patch: SafeView,
    now: u128,
)
    requires
        records.contains_key(id),
        patch.encrypted_blob.len() == 0,
    ensures
        edit_result(records, id, patch, now) == Err::<SafeView, SafeError>(
            SafeError::InvalidData,
        ),
        after_edit(records, id, patch, now) == records,
        get_result(after_edit(records, id, patch, now), id) == Ok::<SafeView, SafeError>(
            records[id],
        ),
{
}

/// After `delete`, `get` under the same id is `NotFound`, whether or not the id named
/// a record before.
pub proof fn law_delete_then_get(records: Map<u128, SafeView>, id: u128)
    ensures
        get_result(after_delete(records, id), id) == Err::<SafeView, SafeError>(
            SafeError::NotFound,
        ),
        records.contains_key(id) ==> delete_result(records, id) == Ok::<(), SafeError>(()),
{
}

/// Listing an empty store gives an empty sequence.
pub proof fn law_empty_store_lists_nothing(listed: Seq<Safe>)
    requires
        lists_all(listed, Map::<u128, SafeView>::empty()),
    ensures
        listed == Seq::<Safe>::empty(),
{
    assert(listed.len() == 0);
    assert(listed =~= Seq::<Safe>::empty());
}

/// The ids of `listed`, in the order of the list.
pub open spec fn listed_ids(listed: Seq<Safe>) -> Seq<u128> {
    Seq::new(listed.len(), |i: int| listed[i]@.id)
}

/// A listing leaves no record out: every stored record is an entry of the list, and
/// the only one with its id.
pub proof fn law_listing_holds_every_record(listed: Seq<Safe>, records: Map<u128, SafeView>)
    requires
        records.dom().finite(),
        lists_all(listed, records),
    ensures
        forall|id: u128| #[trigger]
            records.contains_key(id) ==> exists|i: int|
                0 <= i < listed.len() && (#[trigger] listed[i])@ == records[id],
        forall|i: int, j: int|
            0 <= i < listed.len() && 0 <= j < listed.len() && (#[trigger] listed[i])@.id == (
            #[trigger] listed[j])@.id ==> i == j,
{
    let ids = listed_ids(listed);
    assert(ids.no_duplicates()) by {
        assert forall|i: int, j: int| 0 <= i < ids.len() && 0 <= j < ids.len() && i
            != j implies ids[i] != ids[j] by {
            if i < j {
                assert(listed[i]@.id != listed[j]@.id);
            } else {
                assert(listed[j]@.id != listed[i]@.id);
            }
        }
    }
    ids.unique_seq_to_set();
    vstd::seq_lib::seq_to_set_is_finite(ids);
    assert(ids.to_set().subset_of(records.dom())) by {
        assert forall|id: u128| ids.to_set().contains(id) implies records.dom().contains(id) by {
            let i = choose|i: int| 0 <= i < ids.len() && ids[i] == id;
            assert(records.contains_key(listed[i]@.id));
        }
    }
    vstd::set_lib::lemma_subset_equality(ids.to_set(), records.dom());
    assert forall|id: u128| #[trigger] records.contains_key(id) implies exists|i: int|
        0 <= i < listed.len() && (#[trigger] listed[i])@ == records[id] by {
        assert(ids.to_set().contains(id));
        let i = choose|i: int| 0 <= i < ids.len() && ids[i] == id;
        assert(records.contains_key(listed[i]@.id));
        assert(listed[i]@ == records[id]);
    }
    assert forall|i: int, j: int|
        0 <= i < listed.len() && 0 <= j < listed.len() && (#[trigger] listed[i])@.id == (
        #[trigger] listed[j])@.id implies i == j by {
        if i < j {
            assert(listed[i]@.id != listed[j]@.id);
        } else if j < i {
            assert(listed[j]@.id != listed[i]@.id);
        }
    }
}

/// The records after creating each of `safes` in turn.
pub open spec fn after_creates(records: Map<u128, SafeView>, safes: Seq<SafeView>) -> Map<
    u128,
    SafeView,
>
    decreases safes.len(),
{
    if safes.len() == 0 {
        records
    } else {
        after_create(after_creates(records, safes.drop_last()), safes.last())
    }
}

/// Creating valid records whose ids differ from each other and from those stored
/// succeeds for every one of them, in whatever order they arrive, and afterwards the
/// store holds all of them beside what it held before.
pub proof fn law_creates_with_distinct_ids(records: Map<u128, SafeView>, safes: Seq<SafeView>)
    requires
        valid_records(records),
        forall|i: int| 0 <= i < safes.len() ==> (#[trigger] safes[i]).is_valid(),
        forall|i: int| 0 <= i < safes.len() ==> !records.contains_key((#[trigger] safes[i]).id),
        forall|i: int, j: int|
            0 <= i < j < safes.len() ==> (#[trigger] safes[i]).id != (#[trigger] safes[j]).id,
    ensures
        forall|i: int|
            0 <= i < safes.len() ==> can_create(
                after_creates(records, safes.take(i)),
                #[trigger] safes[i],
            ),
        forall|i: int|
            0 <= i < safes.len() ==> get_result(
                after_creates(records, safes),
                (#[trigger] safes[i]).id,
            ) == Ok::<SafeView, SafeError>(safes[i]),
        forall|id: u128|
            records.contains_key(id) ==> #[trigger] get_result(after_creates(records, safes), id)
                == get_result(records, id),
        after_creates(records, safes).len() == records.len() + safes.len(),
        valid_records(after_creates(records, safes)),
{
    lemma_creates_hold_all(records, safes);
    assert forall|i: int| 0 <= i < safes.len() implies can_create(
        after_creates(records, safes.take(i)),
        #[trigger] safes[i],
    ) by {
        lemma_creates_add_only_their_ids(records, safes.take(i), safes[i].id);
    }
}

/// After such creations no record is lost: a listing of the store has one entry for
/// each record held before and one for each record created, and every created record
/// is an entry of the list, with the blob it was created with.
pub proof fn law_creates_are_all_listed(
    records: Map<u128, SafeView>,
    safes: Seq<SafeView>,
    listed: Seq<Safe>,
)
    requires
        valid_records(records),
        forall|i: int| 0 <= i < safes.len() ==> (#[trigger] safes[i]).is_valid(),
        forall|i: int| 0 <= i < safes.len() ==> !records.contains_key((#[trigger] safes[i]).id),
        forall|i: int, j: int|
            0 <= i < j < safes.len() ==> (#[trigger] safes[i]).id != (#[trigger] safes[j]).id,
        lists_all(listed, after_creates(records, safes)),
    ensures
        listed.len() == records.len() + safes.len(),
        forall|i: int|
            0 <= i < safes.len() ==> exists|j: int|
                0 <= j < listed.len() && (#[trigger] listed[j])@ == #[trigger] safes[i],
        forall|j: int, k: int|
            0 <= j < listed.len() && 0 <= k < listed.len() && (#[trigger] listed[j])@.id == (
            #[trigger] listed[k])@.id ==> j == k,
{
    let stored = after_creates(records, safes);
    law_creates_with_distinct_ids(records, safes);
    law_listing_holds_every_record(listed, stored);
    assert forall|i: int| 0 <= i < safes.len() implies exists|j: int|
        0 <= j < listed.len() && (#[trigger] listed[j])@ == #[trigger] safes[i] by {
        assert(get_result(stored, safes[i].id) == Ok::<SafeView, SafeError>(safes[i]));
        assert(stored.contains_key(safes[i].id));
    }
}

/// Creating records adds no id but theirs.
proof fn lemma_creates_add_only_their_ids(
    records: Map<u128, SafeView>,
    safes: Seq<SafeView>,
    id: u128,
)
    requires
        !records.contains_key(id),
        forall|i: int| 0 <= i < safes.len() ==> (#[trigger] safes[i]).id != id,
    ensures
        !after_creates(records, safes).contains_key(id),
    decreases safes.len(),
{
    if safes.len() > 0 {
        lemma_creates_add_only_their_ids(records, safes.drop_last(), id);
    }
}

/// After creating valid records with fresh, distinct ids the store holds each of them
/// and what it held before, and nothing else.
proof fn lemma_creates_hold_all(records: Map<u128, SafeView>, safes: Seq<SafeView>)
    requires
        valid_records(records),
        forall|i: int| 0 <= i < safes.len() ==> (#[trigger] safes[i]).is_valid(),
        forall|i: int| 0 <= i < safes.len() ==> !records.contains_key((#[trigger] safes[i]).id),
        forall|i: int, j: int|
            0 <= i < j < safes.len() ==> (#[trigger] safes[i]).id != (#[trigger] safes[j]).id,
    ensures
        forall|i: int|
            0 <= i < safes.len() ==> get_result(
                after_creates(records, safes),
                (#[trigger] safes[i]).id,
            ) == Ok::<SafeView, SafeError>(safes[i]),
        forall|id: u128|
            records.contains_key(id) ==> #[trigger] get_result(after_creates(records, safes), id)
                == get_result(records, id),
        after_creates(records, safes).len() == records.len() + safes.len(),
        valid_records(after_creates(records, safes)),
    decreases safes.len(),
{
    if safes.len() > 0 {
        let front = safes.drop_last();
        let last = safes.last();
        let before = after_creates(records, front);
        lemma_creates_hold_all(records, front);
        lemma_creates_add_only_their_ids(records, front, last.id);
        assert(can_create(before, last));
        assert(after_creates(records, safes) == before.insert(last.id, last));
        assert forall|i: int| 0 <= i < safes.len() implies get_result(
            after_creates(records, safes),
            (#[trigger] safes[i]).id,
        ) == Ok::<SafeView, SafeError>(safes[i]) by {
            if i < front.len() {
                assert(safes[i] == front[i]);
                assert(get_result(before, front[i].id) == Ok::<SafeView, SafeError>(front[i]));
            }
        }
        assert forall|id: u128| records.contains_key(id) implies #[trigger] get_result(
            after_creates(records, safes),
            id,
        ) == get_result(records, id) by {
            assert(get_result(before, id) == get_result(records, id));
        }
    }
}

} // verus!
