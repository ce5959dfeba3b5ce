//! Properties of the timetable engine that relate several operations.
use vstd::prelude::*;
use crate::engine::{
    RejectReason, after_candidate, batch_store, committed_item, lemma_owned_position_unique,
    owned_position, store_after_update, update_outcome, verdict,
};
use crate::schedule::UpdateScheduleItemInput;
use crate::schedule::ItemView;
use crate::slot::lemma_conflict_symmetric;
use crate::store::{RecordView, StoreView, excluded, lemma_rows_of, rows_of, selects, store_clash};

verus! {

/// Updating a slot never collides with its own earlier version: checking the
/// user's slots while excluding the slot's id is checking every other slot.
pub proof fn lemma_update_ignores_own_version(
    s: StoreView,
    owner: Seq<char>,
    id: i64,
    i: int,
    sem: int,
    day: int,
    start: int,
    end: int,
    weeks: Seq<i32>,
)
    requires
        s.wf(),
        s.owns(owner, id as int, i),
    ensures
        store_clash(s.records, owner, sem, day, start, end, weeks, Some(id)) == store_clash(
            s.records.remove(i),
            owner,
            sem,
            day,
            start,
            end,
            weeks,
            None,
        ),
{
    let rest = s.records.remove(i);
    if store_clash(s.records, owner, sem, day, start, end, weeks, Some(id)) {
        let j = choose|j: int|
            0 <= j < s.records.len() && selects(s.records[j], owner, sem, None, None) && !excluded(
                Some(id),
                #[trigger] s.records[j].item.id,
            ) && crate::slot::slots_clash(
                day,
                start,
                end,
                weeks,
                s.records[j].item.day_of_week,
                s.records[j].item.start_section,
                s.records[j].item.end_section,
                s.records[j].item.weeks,
            );
        let j2 = if j < i { j } else { j - 1 };
        assert(rest[j2] == s.records[j]);
        assert(!excluded(None, rest[j2].item.id));
    }
    if store_clash(rest, owner, sem, day, start, end, weeks, None) {
        let j2 = choose|j2: int|
            0 <= j2 < rest.len() && selects(rest[j2], owner, sem, None, None) && !excluded(
                None,
                #[trigger] rest[j2].item.id,
            ) && crate::slot::slots_clash(
                day,
                start,
                end,
                weeks,
                rest[j2].item.day_of_week,
                rest[j2].item.start_section,
                rest[j2].item.end_section,
                rest[j2].item.weeks,
            );
        let j = if j2 < i { j2 } else { j2 + 1 };
        assert(rest[j2] == s.records[j]);
        if j < i {
            assert(s.records[j].item.id != s.records[i].item.id);
        } else {
            assert(s.records[i].item.id != s.records[j].item.id);
        }
        assert(!excluded(Some(id), s.records[j].item.id));
    }
}

/// A candidate that breaks a shape rule is rejected for that rule, before
/// any conflict check or storage attempt, and leaves the repository as it was.
pub proof fn lemma_shape_rejected_first(s: StoreView, owner: Seq<char>, sem: int, c: ItemView)
    requires
        c.shape_error() is Some,
    ensures
        verdict(s, owner, sem, c) == Some(RejectReason::Shape(c.shape_error().unwrap())),
        after_candidate(s, owner, sem, c) == s,
{
}

/// A batch only ever appends to the repository: what stands after the first
/// `m1` candidates still stands, in place, after the first `m2`.
proof fn lemma_batch_store_grows(
    s: StoreView,
    owner: Seq<char>,
    sem: int,
    cs: Seq<ItemView>,
    m1: int,
    m2: int,
)
    requires
        0 <= m1 <= m2 <= cs.len(),
    ensures
        batch_store(s, owner, sem, cs.take(m1)).records.len() <= batch_store(
            s,
            owner,
            sem,
            cs.take(m2),
        ).records.len(),
        forall|q: int|
            0 <= q < batch_store(s, owner, sem, cs.take(m1)).records.len() ==> batch_store(
                s,
                owner,
                sem,
                cs.take(m2),
            ).records[q] == #[trigger] batch_store(s, owner, sem, cs.take(m1)).records[q],
    decreases m2 - m1,
{
    if m1 < m2 {
        lemma_batch_store_grows(s, owner, sem, cs, m1, m2 - 1);
        assert(cs.take(m2).drop_last() =~= cs.take(m2 - 1));
    }
}

/// Within one batch, every committed candidate is seen by all later ones: a
/// later well-shaped candidate that collides with it is rejected as a time
/// conflict.
pub proof fn lemma_batch_rejects_later_clash(
    s: StoreView,
    owner: Seq<char>,
    sem: int,
    cs: Seq<ItemView>,
    j: int,
    k: int,
)
    requires
        0 <= j < k < cs.len(),
        verdict(batch_store(s, owner, sem, cs.take(j)), owner, sem, cs[j]) is None,
        cs[k].shape_error() is None,
        cs[j].clashes(cs[k]),
    ensures
        verdict(batch_store(s, owner, sem, cs.take(k)), owner, sem, cs[k]) == Some(
            RejectReason::TimeConflict,
        ),
{
    let before = batch_store(s, owner, sem, cs.take(j));
    let after = batch_store(s, owner, sem, cs.take(j + 1));
    assert(cs.take(j + 1).drop_last() =~= cs.take(j));
    assert(cs.take(j + 1).last() == cs[j]);
    assert(after == after_candidate(before, owner, sem, cs[j]));
    let n = before.records.len() as int;
    assert(after.records[n] == RecordView { owner, semester: sem, item: committed_item(before, cs[j]) });
    lemma_batch_store_grows(s, owner, sem, cs, j + 1, k);
    let at_k = batch_store(s, owner, sem, cs.take(k));
    assert(at_k.records[n] == after.records[n]);
    lemma_conflict_symmetric(
        cs[j].day_of_week,
        cs[j].start_section,
        cs[j].end_section,
        cs[j].weeks,
        cs[k].day_of_week,
        cs[k].start_section,
        cs[k].end_section,
        cs[k].weeks,
    );
    assert(!excluded(None, at_k.records[n].item.id));
}

/// Once the slot at position `i` is gone, no row of the user's timetable has its id.
#[verifier::rlimit(40)]
#[verifier::spinoff_prover]
proof fn lemma_rows_lack_removed_id(
    s: StoreView,
    owner: Seq<char>,
    id: i64,
    i: int,
    sem: int,
    week: Option<i32>,
)
    requires
        s.wf(),
        s.owns(owner, id as int, i),
    ensures
        forall|q: int|
            0 <= q < rows_of(s.records.remove(i), owner, sem, None, week).len() ==> (#[trigger] rows_of(
                s.records.remove(i),
                owner,
                sem,
                None,
                week,
            )[q]).id != id as int,
{
    let rest = s.records.remove(i);
    lemma_rows_of(rest, owner, sem, None, week);
    assert forall|q: int|
        0 <= q < rows_of(rest, owner, sem, None, week).len() implies (#[trigger] rows_of(
        rest,
        owner,
        sem,
        None,
        week,
    )[q]).id != id as int by {
        let j2 = choose|j2: int|
            0 <= j2 < rest.len() && selects(rest[j2], owner, sem, None, week) && #[trigger] rows_of(
                rest,
                owner,
                sem,
                None,
                week,
            )[q] == rest[j2].item;
        let j = if j2 < i { j2 } else { j2 + 1 };
        assert(rest[j2] == s.records[j]);
        if j < i {
            assert(s.records[j].item.id != s.records[i].item.id);
        } else {
            assert(s.records[i].item.id != s.records[j].item.id);
        }
    }
}

/// After a slot is deleted, no listing of the user's timetable holds its id.
pub proof fn lemma_deleted_slot_not_listed(
    s: StoreView,
    owner: Seq<char>,
    id: i64,
    i: int,
    sem: int,
    week: Option<i32>,
    listing: Seq<ItemView>,
)
    requires
        s.wf(),
        s.owns(owner, id as int, i),
        listing.to_multiset() == rows_of(s.records.remove(i), owner, sem, None, week).to_multiset(),
    ensures
        forall|k: int| 0 <= k < listing.len() ==> (#[trigger] listing[k]).id != id as int,
{
    let rows = rows_of(s.records.remove(i), owner, sem, None, week);
    lemma_rows_lack_removed_id(s, owner, id, i, sem, week);
    assert forall|k: int| 0 <= k < listing.len() implies (#[trigger] listing[k]).id != id as int by {
        let x = listing[k];
        listing.to_multiset_ensures();
        assert(listing.contains(x));
        assert(listing.to_multiset().count(x) > 0);
        rows.to_multiset_ensures();
        assert(rows.to_multiset().count(x) > 0);
        assert(rows.contains(x));
        let q = choose|q: int| 0 <= q < rows.len() && rows[q] == x;
        assert(rows[q].id != id as int);
    }
}

/// A user can never delete another user's slot: for a slot of `other`, no
/// position holds a slot with that id owned by `owner`, so the delete answers
/// `NotFound`.
pub proof fn lemma_other_owner_slot_not_found(
    s: StoreView,
    owner: Seq<char>,
    other: Seq<char>,
    id: int,
    i: int,
)
    requires
        s.wf(),
        s.owns(other, id, i),
        owner != other,
    ensures
        !exists|j: int| s.owns(owner, id, j),
{
    assert forall|j: int| !s.owns(owner, id, j) by {
        if s.owns(owner, id, j) {
            if j < i {
                assert(s.records[j].item.id != s.records[i].item.id);
            } else if i < j {
                assert(s.records[i].item.id != s.records[j].item.id);
            }
        }
    }
}

/// An update that only sets the colour of a slot that collides with no
/// other slot of its user succeeds, keeps every other field, and is what the
/// repository then holds.
pub proof fn lemma_color_only_update(
    s: StoreView,
    owner: Seq<char>,
    id: i64,
    i: int,
    p: UpdateScheduleItemInput,
)
    requires
        s.wf(),
        s.owns(owner, id as int, i),
        p.course_name is None,
        p.teacher_name is None,
        p.location is None,
        p.day_of_week is None,
        p.start_section is None,
        p.end_section is None,
        p.weeks is None,
        p.course_type is None,
        p.credits is None,
        p.description is None,
        p.color_hex is Some,
        !store_clash(
            s.records,
            owner,
            s.records[i].semester,
            s.records[i].item.day_of_week,
            s.records[i].item.start_section,
            s.records[i].item.end_section,
            s.records[i].item.weeks,
            Some(id),
        ),
    ensures
        update_outcome(s, owner, id, p) == Ok::<ItemView, crate::engine::ScheduleError>(
            ItemView { color_hex: p.color_hex.unwrap()@, ..s.records[i].item },
        ),
        store_after_update(s, owner, id, p).records[i] == (RecordView {
            item: ItemView { color_hex: p.color_hex.unwrap()@, ..s.records[i].item },
            ..s.records[i]
        }),
        store_after_update(s, owner, id, p).records.len() == s.records.len(),
{
    lemma_owned_position_unique(s, owner, id as int, i);
    assert(owned_position(s, owner, id as int) == i);
}

} // verus!
