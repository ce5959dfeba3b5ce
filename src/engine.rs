//! The timetable engine: conflict detection, batch addition with per-item
//! outcomes, update and delete of a user's slots.
use vstd::prelude::*;
use vstd::string::*;
use crate::schedule::{ItemView, ScheduleItem, ScheduleItemInput, UpdateScheduleItemInput, merge_update, merged};
use vstd::seq_lib::{lemma_multiset_commutative};
use crate::slot::{ShapeError, conflicts, slots_clash, validate_shape};
use crate::text::{decimal, decimal_text};
use crate::store::{
    RecordView, ScheduleStore, StorageError, StoreView, excluded, lemma_rows_of, rows_of, selects,
    store_clash,
};

verus! {

/// Why a candidate of a batch was not committed.
#[derive(Debug, Clone, Copy, PartialEq, Eq, Structural)]
pub enum RejectReason {
    /// The candidate breaks a shape rule.
    Shape(ShapeError),
    /// The candidate collides with a committed slot.
    TimeConflict,
    /// The committed slots could not be read for the conflict check.
    ConflictCheckFailed,
    /// The repository could not store the candidate.
    Storage(StorageError),
}

/// The message of a rejection; `detail` is the failing operation's own
/// description, used by the two failures of the repository.
pub open spec fn failure_message(r: RejectReason, detail: Seq<char>) -> Seq<char> {
    match r {
        RejectReason::Shape(ShapeError::CustomWithSource) => "自定义课程不能有 source_id"@,
        RejectReason::Shape(ShapeError::MissingSource) => "非自定义课程必须有 source_id"@,
        RejectReason::Shape(ShapeError::InvalidPeriodRange) => "开始节次不能大于结束节次"@,
        RejectReason::Shape(ShapeError::InvalidDay) => "星期几必须在 1-7 之间"@,
        RejectReason::TimeConflict => "time conflict"@,
        RejectReason::ConflictCheckFailed => "检查冲突失败: "@ + detail,
        RejectReason::Storage(_) => "数据库插入失败: "@ + detail,
    }
}

/// The description that the in-memory repository gives of its failure.
pub open spec fn store_detail(r: RejectReason) -> Seq<char> {
    match r {
        RejectReason::Storage(StorageError::IdsExhausted) => "编号已用尽"@,
        _ => ""@,
    }
}

impl RejectReason {
    /// The message of this rejection; `detail` describes a failure of the
    /// repository.
    pub fn message(&self, detail: &str) -> (r: String)
        ensures
            r@ == failure_message(*self, detail@),
    {
        match self {
            RejectReason::Shape(ShapeError::CustomWithSource) => String::from_str(
                "自定义课程不能有 source_id",
            ),
            RejectReason::Shape(ShapeError::MissingSource) => String::from_str(
                "非自定义课程必须有 source_id",
            ),
            RejectReason::Shape(ShapeError::InvalidPeriodRange) => String::from_str(
                "开始节次不能大于结束节次",
            ),
            RejectReason::Shape(ShapeError::InvalidDay) => String::from_str("星期几必须在 1-7 之间"),
            RejectReason::TimeConflict => String::from_str("time conflict"),
            RejectReason::ConflictCheckFailed => String::from_str("检查冲突失败: ").concat(detail),
            RejectReason::Storage(_) => String::from_str("数据库插入失败: ").concat(detail),
        }
    }
}

/// A candidate of a batch that was not committed, with the reason.
#[derive(Debug)]
pub struct FailedItem {
    pub course_name: String,
    pub error_message: String,
    pub reason: RejectReason,
}

impl View for FailedItem {
    type V = (Seq<char>, RejectReason);

    open spec fn view(&self) -> (Seq<char>, RejectReason) {
        (self.course_name@, self.reason)
    }
}

/// The outcome of a batch: the committed items and the rejected candidates,
/// each in submission order.
#[derive(Debug)]
pub struct BatchAddResult {
    pub successful_items: Vec<ScheduleItem>,
    pub failed_items: Vec<FailedItem>,
}

/// The one-line summary of a batch with `ok` committed and `failed`
/// rejected candidates.
pub open spec fn summary_text(ok: nat, failed: nat) -> Seq<char> {
    if failed == 0 {
        "成功添加 "@ + decimal(ok) + " 项课程"@
    } else {
        "处理完成：成功 "@ + decimal(ok) + " 项，失败 "@ + decimal(failed) + " 项"@
    }
}

impl BatchAddResult {
    /// The one-line summary of this outcome: how many were added, and how
    /// many failed when any did.
    pub fn summary(&self) -> (r: String)
        ensures
            r@ == summary_text(self.successful_items@.len(), self.failed_items@.len()),
    {
        let ok = decimal_text(self.successful_items.len() as u64);
        if self.failed_items.len() == 0 {
            String::from_str("成功添加 ").concat(ok.as_str()).concat(" 项课程")
        } else {
            let failed = decimal_text(self.failed_items.len() as u64);
            String::from_str("处理完成：成功 ").concat(ok.as_str()).concat(" 项，失败 ").concat(
                failed.as_str(),
            ).concat(" 项")
        }
    }
}

/// Why an update or a delete failed.
#[derive(Debug, Clone, Copy, PartialEq, Eq, Structural)]
pub enum ScheduleError {
    /// No slot with that id belongs to the user.
    NotFound,
    /// The updated slot would break a shape rule.
    InvalidShape(ShapeError),
    /// The updated slot would collide with another slot of the user.
    TimeConflict,
}

/// Whether some row other than the excluded one collides with the slot
/// `(day, start, end, weeks)`.
pub open spec fn rows_clash(
    rows: Seq<ItemView>,
    day: int,
    start: int,
    end: int,
    weeks: Seq<i32>,
    exclude: Option<i64>,
) -> bool {
    exists|k: int|
        0 <= k < rows.len() && !excluded(exclude, #[trigger] rows[k].id) && slots_clash(
            day,
            start,
            end,
            weeks,
            rows[k].day_of_week,
            rows[k].start_section,
            rows[k].end_section,
            rows[k].weeks,
        )
}

/// The committed-slot check of a candidate: whether one of `rows` (the
/// user's slots in the semester), other than `exclude_item_id`, collides with
/// the slot `(day_of_week, start_section, end_section, weeks)`.
pub fn check_time_conflict(
    rows: &Vec<ScheduleItem>,
    day_of_week: i32,
    start_section: i32,
    end_section: i32,
    weeks: &[i32],
    exclude_item_id: Option<i64>,
) -> (r: bool)
    ensures
        r == rows_clash(
            rows@.map_values(|x: ScheduleItem| x@),
            day_of_week as int,
            start_section as int,
            end_section as int,
            weeks@,
            exclude_item_id,
        ),
{
    let ghost views = rows@.map_values(|x: ScheduleItem| x@);
    let mut k: usize = 0;
    while k < rows.len()
        invariant
            k <= rows@.len(),
            views == rows@.map_values(|x: ScheduleItem| x@),
            forall|j: int|
                0 <= j < k ==> !(!excluded(exclude_item_id, #[trigger] views[j].id) && slots_clash(
                    day_of_week as int,
                    start_section as int,
                    end_section as int,
                    weeks@,
                    views[j].day_of_week,
                    views[j].start_section,
                    views[j].end_section,
                    views[j].weeks,
                )),
        decreases rows@.len() - k,
    {
        let row = &rows[k];
        let skip = match exclude_item_id {
            Some(x) => x == row.id,
            None => false,
        };
        if !skip && conflicts(
            day_of_week,
            start_section,
            end_section,
            weeks,
            row.day_of_week,
            row.start_section,
            row.end_section,
            row.weeks_range.as_slice(),
        ) {
            assert(views[k as int] == row@);
            assert(!excluded(exclude_item_id, views[k as int].id));
            return true;
        }
        assert(views[k as int] == row@);
        k += 1;
    }
    false
}

/// Checking the user's slots of the candidate's day, as the repository lists
/// them, is checking all of the user's slots in the semester.
proof fn lemma_rows_clash_is_store_clash(
    recs: Seq<RecordView>,
    owner: Seq<char>,
    sem: int,
    day: Option<i32>,
    day_of_week: int,
    start: int,
    end: int,
    weeks: Seq<i32>,
    exclude: Option<i64>,
)
    requires
        day matches Some(d) ==> d as int == day_of_week,
    ensures
        rows_clash(rows_of(recs, owner, sem, day, None), day_of_week, start, end, weeks, exclude)
            == store_clash(recs, owner, sem, day_of_week, start, end, weeks, exclude),
{
    let rows = rows_of(recs, owner, sem, day, None);
    lemma_rows_of(recs, owner, sem, day, None);
    if rows_clash(rows, day_of_week, start, end, weeks, exclude) {
        let k = choose|k: int|
            0 <= k < rows.len() && !excluded(exclude, #[trigger] rows[k].id) && slots_clash(
                day_of_week,
                start,
                end,
                weeks,
                rows[k].day_of_week,
                rows[k].start_section,
                rows[k].end_section,
                rows[k].weeks,
            );
        let i = choose|i: int|
            0 <= i < recs.len() && selects(recs[i], owner, sem, day, None) && #[trigger] rows_of(
                recs,
                owner,
                sem,
                day,
                None,
            )[k] == recs[i].item;
        assert(!excluded(exclude, recs[i].item.id));
    }
    if store_clash(recs, owner, sem, day_of_week, start, end, weeks, exclude) {
        let i = choose|i: int|
            0 <= i < recs.len() && selects(recs[i], owner, sem, None, None) && !excluded(
                exclude,
                #[trigger] recs[i].item.id,
            ) && slots_clash(
                day_of_week,
                start,
                end,
                weeks,
                recs[i].item.day_of_week,
                recs[i].item.start_section,
                recs[i].item.end_section,
                recs[i].item.weeks,
            );
        assert(selects(recs[i], owner, sem, day, None));
        let k = choose|k: int| 0 <= k < rows.len() && rows[k] == recs[i].item;
        assert(!excluded(exclude, rows[k].id));
    }
}

/// The conflict detector: whether a slot of `user_id` in `semester_id`,
/// other than `exclude_item_id`, collides with the slot
/// `(day_of_week, start_section, end_section, weeks)`.
pub fn has_conflict(
    store: &ScheduleStore,
    user_id: &str,
    semester_id: i64,
    day_of_week: i32,
    start_section: i32,
    end_section: i32,
    weeks: &Vec<i32>,
    exclude_item_id: Option<i64>,
) -> (r: bool)
    ensures
        r == store_clash(
            store@.records,
            user_id@,
            semester_id as int,
            day_of_week as int,
            start_section as int,
            end_section as int,
            weeks@,
            exclude_item_id,
        ),
{
    let rows = store.find_by_owner_semester(user_id, semester_id, Some(day_of_week), None);
    let r = check_time_conflict(
        &rows,
        day_of_week,
        start_section,
        end_section,
        weeks.as_slice(),
        exclude_item_id,
    );
    proof {
        lemma_rows_clash_is_store_clash(
            store@.records,
            user_id@,
            semester_id as int,
            Some(day_of_week),
            day_of_week as int,
            start_section as int,
            end_section as int,
            weeks@,
            exclude_item_id,
        );
    }
    r
}

/// The verdict on a candidate against the repository's current contents:
/// a shape error first, then a collision with a committed slot of the same
/// user and semester, then a failure of the repository; `None` when it is
/// committed.
pub open spec fn verdict(s: StoreView, owner: Seq<char>, sem: int, c: ItemView) -> Option<
    RejectReason,
> {
    match c.shape_error() {
        Some(e) => Some(RejectReason::Shape(e)),
        None => if store_clash(
            s.records,
            owner,
            sem,
            c.day_of_week,
            c.start_section,
            c.end_section,
            c.weeks,
            None,
        ) {
            Some(RejectReason::TimeConflict)
        } else if s.next_id == i64::MAX {
            Some(RejectReason::Storage(StorageError::IdsExhausted))
        } else {
            None
        },
    }
}

/// The item that a committed candidate becomes.
pub open spec fn committed_item(s: StoreView, c: ItemView) -> ItemView {
    ItemView { id: s.next_id, ..c }
}

/// The repository after one candidate has been handled.
pub open spec fn after_candidate(s: StoreView, owner: Seq<char>, sem: int, c: ItemView) -> StoreView {
    if verdict(s, owner, sem, c) is None {
        StoreView {
            records: s.records.push(
                RecordView { owner, semester: sem, item: committed_item(s, c) },
            ),
            next_id: s.next_id + 1,
        }
    } else {
        s
    }
}

/// The repository after a batch of candidates, handled in order.
pub open spec fn batch_store(s: StoreView, owner: Seq<char>, sem: int, cs: Seq<ItemView>) -> StoreView
    decreases cs.len(),
{
    if cs.len() == 0 {
        s
    } else {
        after_candidate(batch_store(s, owner, sem, cs.drop_last()), owner, sem, cs.last())
    }
}

/// The items that a batch commits, in submission order.
pub open spec fn batch_committed(s: StoreView, owner: Seq<char>, sem: int, cs: Seq<ItemView>) -> Seq<
    ItemView,
>
    decreases cs.len(),
{
    if cs.len() == 0 {
        Seq::empty()
    } else {
        let before = batch_store(s, owner, sem, cs.drop_last());
        let prev = batch_committed(s, owner, sem, cs.drop_last());
        if verdict(before, owner, sem, cs.last()) is None {
            prev.push(committed_item(before, cs.last()))
        } else {
            prev
        }
    }
}

/// The candidates that a batch rejects, by name and reason, in submission order.
pub open spec fn batch_failed(s: StoreView, owner: Seq<char>, sem: int, cs: Seq<ItemView>) -> Seq<
    (Seq<char>, RejectReason),
>
    decreases cs.len(),
{
    if cs.len() == 0 {
        Seq::empty()
    } else {
        let before = batch_store(s, owner, sem, cs.drop_last());
        let prev = batch_failed(s, owner, sem, cs.drop_last());
        match verdict(before, owner, sem, cs.last()) {
            Some(e) => prev.push((cs.last().course_name, e)),
            None => prev,
        }
    }
}

/// The decision on a candidate, given the committed slots of its user and
/// semester (at least those on its day; `None` when they could not be read):
/// a shape error first, then a failed read, then a collision with one of
/// them; `Ok` when it may be stored.
pub open spec fn candidate_decision(c: ItemView, rows: Option<Seq<ItemView>>) -> Result<
    (),
    RejectReason,
> {
    match c.shape_error() {
        Some(e) => Err(RejectReason::Shape(e)),
        None => match rows {
            None => Err(RejectReason::ConflictCheckFailed),
            Some(rows) => if rows_clash(
                rows,
                c.day_of_week,
                c.start_section,
                c.end_section,
                c.weeks,
                None,
            ) {
                Err(RejectReason::TimeConflict)
            } else {
                Ok(())
            },
        },
    }
}

/// The view of optionally read rows.
pub open spec fn rows_view(rows: Option<&Vec<ScheduleItem>>) -> Option<Seq<ItemView>> {
    match rows {
        Some(v) => Some(v@.map_values(|x: ScheduleItem| x@)),
        None => None,
    }
}

/// Decides whether a candidate may be stored: its shape is checked first,
/// then it is checked against `same_day_rows`, the committed slots of its
/// user and semester on its day (`None` when they could not be read).
pub fn decide_candidate(input: &ScheduleItemInput, same_day_rows: Option<&Vec<ScheduleItem>>) -> (r:
    Result<(), RejectReason>)
    ensures
        r == candidate_decision(input@, rows_view(same_day_rows)),
{
    match validate_shape(
        input.is_custom,
        input.source_id.is_some(),
        input.day_of_week,
        input.start_section,
        input.end_section,
    ) {
        Err(e) => {
            return Err(RejectReason::Shape(e));
        },
        Ok(()) => {},
    }
    let rows = match same_day_rows {
        None => {
            return Err(RejectReason::ConflictCheckFailed);
        },
        Some(rows) => rows,
    };
    if check_time_conflict(
        rows,
        input.day_of_week,
        input.start_section,
        input.end_section,
        input.weeks.as_slice(),
        None,
    ) {
        Err(RejectReason::TimeConflict)
    } else {
        Ok(())
    }
}

/// Records what became of a candidate: under its stored id among the
/// committed items, or by name, reason and message among the rejected ones;
/// `detail` describes a failure of the repository.
pub fn record_outcome(
    out: &mut BatchAddResult,
    input: &ScheduleItemInput,
    stored: Result<i64, RejectReason>,
    detail: &str,
)
    ensures
        stored matches Ok(id) ==> {
            &&& final(out).failed_items@ == old(out).failed_items@
            &&& final(out).successful_items@.len() == old(out).successful_items@.len() + 1
            &&& final(out).successful_items@.drop_last() == old(out).successful_items@
            &&& final(out).successful_items@.last()@ == (ItemView { id: id as int, ..input@ })
        },
        stored matches Err(e) ==> {
            &&& final(out).successful_items@ == old(out).successful_items@
            &&& final(out).failed_items@.len() == old(out).failed_items@.len() + 1
            &&& final(out).failed_items@.drop_last() == old(out).failed_items@
            &&& final(out).failed_items@.last().course_name@ == input.course_name@
            &&& final(out).failed_items@.last().reason == e
            &&& final(out).failed_items@.last().error_message@ == failure_message(e, detail@)
        },
{
    match stored {
        Ok(id) => {
            out.successful_items.push(input.to_item(id));
            assert(out.successful_items@.drop_last() =~= old(out).successful_items@);
        },
        Err(e) => {
            out.failed_items.push(
                FailedItem {
                    course_name: input.course_name.clone(),
                    error_message: e.message(detail),
                    reason: e,
                },
            );
            assert(out.failed_items@.drop_last() =~= old(out).failed_items@);
        },
    }
}

/// Handles one candidate: checks its shape, then checks it against the
/// committed slots of `user_id` in `semester_id`, then stores it.
pub fn add_schedule_item(
    store: &mut ScheduleStore,
    user_id: &str,
    semester_id: i64,
    input: &ScheduleItemInput,
) -> (r: Result<ScheduleItem, RejectReason>)
    requires
        old(store)@.wf(),
    ensures
        final(store)@.wf(),
        final(store)@ == after_candidate(old(store)@, user_id@, semester_id as int, input@),
        r is Ok <==> verdict(old(store)@, user_id@, semester_id as int, input@) is None,
        r matches Ok(item) ==> item@ == committed_item(old(store)@, input@),
        r matches Err(e) ==> verdict(old(store)@, user_id@, semester_id as int, input@) == Some(e),
{
    let rows = store.find_by_owner_semester(user_id, semester_id, Some(input.day_of_week), None);
    proof {
        lemma_rows_clash_is_store_clash(
            store@.records,
            user_id@,
            semester_id as int,
            Some(input.day_of_week),
            input.day_of_week as int,
            input.start_section as int,
            input.end_section as int,
            input.weeks@,
            None,
        );
    }
    match decide_candidate(input, Some(&rows)) {
        Err(e) => {
            return Err(e);
        },
        Ok(()) => {},
    }
    match store.insert(user_id, semester_id, input) {
        Ok(item) => Ok(item),
        Err(e) => Err(RejectReason::Storage(e)),
    }
}

/// Adds a batch of candidates for `user_id` in `semester_id`. Each candidate
/// is handled to completion, in submission order, before the next: a
/// committed candidate is stored at once, so later candidates of the same
/// batch are checked against it too. There is no all-or-nothing: the result
/// lists what was committed and what was rejected, and why.
pub fn add_schedule_items(
    store: &mut ScheduleStore,
    user_id: &str,
    semester_id: i64,
    items: Vec<ScheduleItemInput>,
) -> (r: BatchAddResult)
    requires
        old(store)@.wf(),
    ensures
        final(store)@.wf(),
        final(store)@ == batch_store(
            old(store)@,
            user_id@,
            semester_id as int,
            items@.map_values(|x: ScheduleItemInput| x@),
        ),
        r.successful_items@.map_values(|x: ScheduleItem| x@) == batch_committed(
            old(store)@,
            user_id@,
            semester_id as int,
            items@.map_values(|x: ScheduleItemInput| x@),
        ),
        r.failed_items@.map_values(|x: FailedItem| x@) == batch_failed(
            old(store)@,
            user_id@,
            semester_id as int,
            items@.map_values(|x: ScheduleItemInput| x@),
        ),
        forall|k: int|
            0 <= k < r.failed_items@.len() ==> (#[trigger] r.failed_items@[k]).error_message@
                == failure_message(r.failed_items@[k].reason, store_detail(r.failed_items@[k].reason)),
{
    let ghost s0 = store@;
    let ghost owner = user_id@;
    let ghost sem = semester_id as int;
    let ghost cs = items@.map_values(|x: ScheduleItemInput| x@);
    let mut out = BatchAddResult { successful_items: Vec::new(), failed_items: Vec::new() };
    let mut k: usize = 0;
    assert(out.successful_items@.map_values(|x: ScheduleItem| x@) =~= Seq::<ItemView>::empty());
    assert(out.failed_items@.map_values(|x: FailedItem| x@) =~= Seq::<(Seq<char>, RejectReason)>::empty());
    while k < items.len()
        invariant
            k <= items@.len(),
            cs == items@.map_values(|x: ScheduleItemInput| x@),
            store@.wf(),
            store@ == batch_store(s0, owner, sem, cs.take(k as int)),
            out.successful_items@.map_values(|x: ScheduleItem| x@) == batch_committed(
                s0,
                owner,
                sem,
                cs.take(k as int),
            ),
            out.failed_items@.map_values(|x: FailedItem| x@) == batch_failed(
                s0,
                owner,
                sem,
                cs.take(k as int),
            ),
            forall|j: int|
                0 <= j < out.failed_items@.len() ==> (#[trigger] out.failed_items@[j]).error_message@
                    == failure_message(out.failed_items@[j].reason, store_detail(out.failed_items@[j].reason)),
            owner == user_id@,
            sem == semester_id as int,
        decreases items@.len() - k,
    {
        let input = &items[k];
        assert(cs.take(k + 1).drop_last() =~= cs.take(k as int));
        assert(cs.take(k + 1).last() == input@);
        let ghost ok_before = out.successful_items@;
        let ghost failed_before = out.failed_items@;
        let ghost store_before = store@;
        let (stored, detail) = match add_schedule_item(store, user_id, semester_id, input) {
            Ok(item) => (Ok(item.id), ""),
            Err(RejectReason::Storage(StorageError::IdsExhausted)) => (
                Err(RejectReason::Storage(StorageError::IdsExhausted)),
                "编号已用尽",
            ),
            Err(e) => (Err(e), ""),
        };
        record_outcome(&mut out, input, stored, detail);
        proof {
            match stored {
                Ok(id) => {
                    assert(out.successful_items@ =~= ok_before.push(out.successful_items@.last()));
                    assert(out.successful_items@.map_values(|x: ScheduleItem| x@) =~= ok_before.map_values(
                        |x: ScheduleItem| x@,
                    ).push(committed_item(store_before, input@)));
                },
                Err(e) => {
                    assert(out.failed_items@ =~= failed_before.push(out.failed_items@.last()));
                    assert(out.failed_items@.map_values(|x: FailedItem| x@) =~= failed_before.map_values(
                        |x: FailedItem| x@,
                    ).push((input@.course_name, e)));
                    let n = failed_before.len() as int;
                    assert forall|j: int| 0 <= j < out.failed_items@.len() implies (#[trigger] out.failed_items@[j]).error_message@
                        == failure_message(out.failed_items@[j].reason, store_detail(out.failed_items@[j].reason)) by {
                        if j < n {
                            assert(out.failed_items@[j] == failed_before[j]);
                        }
                    }
                },
            }
        }
        k += 1;
    }
    assert(cs.take(items@.len() as int) =~= cs);
    out
}

/// With unique ids, at most one position holds the slot `id` of `owner`.
pub proof fn lemma_owned_position_unique(s: StoreView, owner: Seq<char>, id: int, i: int)
    requires
        s.wf(),
        s.owns(owner, id, i),
    ensures
        forall|j: int| #[trigger] s.owns(owner, id, j) ==> j == i,
{
    assert forall|j: int| #[trigger] s.owns(owner, id, j) implies j == i by {
        if j < i {
            assert(s.records[j].item.id != s.records[i].item.id);
        } else if i < j {
            assert(s.records[i].item.id != s.records[j].item.id);
        }
    }
}

/// The position of the slot `id` of `owner`, where there is one.
pub open spec fn owned_position(s: StoreView, owner: Seq<char>, id: int) -> int {
    choose|i: int| s.owns(owner, id, i)
}

/// What an update returns: `NotFound` when the user has no slot with that
/// id; else the merged slot, unless it breaks a shape rule or collides with
/// another slot of the user in its semester.
pub open spec fn update_outcome(
    s: StoreView,
    owner: Seq<char>,
    id: i64,
    p: UpdateScheduleItemInput,
) -> Result<ItemView, ScheduleError> {
    if exists|i: int| s.owns(owner, id as int, i) {
        let rec = s.records[owned_position(s, owner, id as int)];
        let m = merged(rec.item, p);
        match m.shape_error() {
            Some(e) => Err(ScheduleError::InvalidShape(e)),
            None => if store_clash(
                s.records,
                owner,
                rec.semester,
                m.day_of_week,
                m.start_section,
                m.end_section,
                m.weeks,
                Some(id),
            ) {
                Err(ScheduleError::TimeConflict)
            } else {
                Ok(m)
            },
        }
    } else {
        Err(ScheduleError::NotFound)
    }
}

/// The repository after an update: the merged slot in place of the old one
/// on success, unchanged otherwise.
pub open spec fn store_after_update(
    s: StoreView,
    owner: Seq<char>,
    id: i64,
    p: UpdateScheduleItemInput,
) -> StoreView {
    match update_outcome(s, owner, id, p) {
        Ok(m) => {
            let i = owned_position(s, owner, id as int);
            StoreView {
                records: s.records.update(i, RecordView { item: m, ..s.records[i] }),
                next_id: s.next_id,
            }
        },
        Err(_) => s,
    }
}

/// The decision on an update of `existing` (id `item_id`) by `patch`, given
/// the committed slots of its user and semester: the merged slot, unless it
/// breaks a shape rule or collides with one of them other than itself.
pub open spec fn update_decision(
    existing: ItemView,
    patch: UpdateScheduleItemInput,
    rows: Seq<ItemView>,
    item_id: i64,
) -> Result<ItemView, ScheduleError> {
    let m = merged(existing, patch);
    match m.shape_error() {
        Some(e) => Err(ScheduleError::InvalidShape(e)),
        None => if rows_clash(rows, m.day_of_week, m.start_section, m.end_section, m.weeks, Some(item_id)) {
            Err(ScheduleError::TimeConflict)
        } else {
            Ok(m)
        },
    }
}

/// Decides an update: merges `patch` over `existing`, checks the shape of
/// the result, then checks it against `rows` (the committed slots of the
/// user and semester), never against the slot's own earlier version.
pub fn decide_update(
    existing: &ScheduleItem,
    patch: &UpdateScheduleItemInput,
    rows: &Vec<ScheduleItem>,
    item_id: i64,
) -> (r: Result<ScheduleItem, ScheduleError>)
    ensures
        r is Ok <==> update_decision(existing@, *patch, rows@.map_values(|x: ScheduleItem| x@), item_id) is Ok,
        r matches Ok(m) ==> update_decision(existing@, *patch, rows@.map_values(|x: ScheduleItem| x@), item_id)
            == Ok::<ItemView, ScheduleError>(m@),
        r matches Err(e) ==> update_decision(existing@, *patch, rows@.map_values(|x: ScheduleItem| x@), item_id)
            == Err::<ItemView, ScheduleError>(e),
{
    let m = merge_update(existing, patch);
    match validate_shape(m.is_custom, m.source_id.is_some(), m.day_of_week, m.start_section, m.end_section) {
        Err(e) => {
            return Err(ScheduleError::InvalidShape(e));
        },
        Ok(()) => {},
    }
    if check_time_conflict(
        rows,
        m.day_of_week,
        m.start_section,
        m.end_section,
        m.weeks_range.as_slice(),
        Some(item_id),
    ) {
        return Err(ScheduleError::TimeConflict);
    }
    Ok(m)
}

/// Updates the slot `item_id` of `user_id`: merges the patch over it,
/// checks the shape of the result and checks it against the user's other
/// slots of the semester (never against its own earlier version), then
/// stores it.
pub fn update_schedule_item(
    store: &mut ScheduleStore,
    user_id: &str,
    item_id: i64,
    input: UpdateScheduleItemInput,
) -> (r: Result<ScheduleItem, ScheduleError>)
    requires
        old(store)@.wf(),
    ensures
        final(store)@.wf(),
        final(store)@ == store_after_update(old(store)@, user_id@, item_id, input),
        r is Ok <==> update_outcome(old(store)@, user_id@, item_id, input) is Ok,
        r matches Ok(item) ==> update_outcome(old(store)@, user_id@, item_id, input) == Ok::<
            ItemView,
            ScheduleError,
        >(item@),
        r matches Err(e) ==> update_outcome(old(store)@, user_id@, item_id, input) == Err::<
            ItemView,
            ScheduleError,
        >(e),
{
    let i = match store.find_owned(user_id, item_id) {
        None => {
            return Err(ScheduleError::NotFound);
        },
        Some(i) => i,
    };
    proof {
        lemma_owned_position_unique(store@, user_id@, item_id as int, i as int);
    }
    let semester_id = store.semester_at(i);
    let rows = store.find_by_owner_semester(user_id, semester_id, None, None);
    let ghost m = merged(store@.records[i as int].item, input);
    proof {
        lemma_rows_clash_is_store_clash(
            store@.records,
            user_id@,
            semester_id as int,
            None,
            m.day_of_week,
            m.start_section,
            m.end_section,
            m.weeks,
            Some(item_id),
        );
    }
    let merged_item = match decide_update(store.item_at(i), &input, &rows, item_id) {
        Err(e) => {
            return Err(e);
        },
        Ok(m) => m,
    };
    let result = merged_item.duplicate();
    store.set_item(i, merged_item);
    Ok(result)
}

/// The answer to a delete that removed `affected` slots: `NotFound` when it
/// removed none.
pub fn delete_outcome(affected: u64) -> (r: Result<(), ScheduleError>)
    ensures
        r is Ok <==> affected > 0,
        r is Err ==> r == Err::<(), ScheduleError>(ScheduleError::NotFound),
{
    if affected == 0 {
        Err(ScheduleError::NotFound)
    } else {
        Ok(())
    }
}

/// Deletes the slot `item_id` of `user_id`. A slot that does not exist and
/// a slot of another user give the same `NotFound`.
pub fn delete_schedule_item(store: &mut ScheduleStore, user_id: &str, item_id: i64) -> (r: Result<
    (),
    ScheduleError,
>)
    requires
        old(store)@.wf(),
    ensures
        final(store)@.wf(),
        r is Ok <==> exists|i: int| old(store)@.owns(user_id@, item_id as int, i),
        r is Err ==> r == Err::<(), ScheduleError>(ScheduleError::NotFound) && final(store)@ == old(
            store,
        )@,
        r is Ok ==> exists|i: int|
            old(store)@.owns(user_id@, item_id as int, i) && final(store)@ == (StoreView {
                records: old(store)@.records.remove(i),
                next_id: old(store)@.next_id,
            }),
{
    let removed = store.remove_owned(user_id, item_id);
    delete_outcome(removed as u64)
}

/// `a` comes no later than `b` in a week: an earlier day, or the same day
/// and a start period no later.
pub open spec fn time_le(a: ItemView, b: ItemView) -> bool {
    a.day_of_week < b.day_of_week || (a.day_of_week == b.day_of_week && a.start_section
        <= b.start_section)
}

/// Items ordered by day of week, then by start period.
pub open spec fn sorted_by_time(s: Seq<ItemView>) -> bool {
    forall|i: int, j: int| 0 <= i < j < s.len() ==> time_le(#[trigger] s[i], #[trigger] s[j])
}

/// Inserting into a sequence adds one occurrence to its multiset.
proof fn lemma_insert_multiset<A>(s: Seq<A>, p: int, x: A)
    requires
        0 <= p <= s.len(),
    ensures
        s.insert(p, x).to_multiset() =~= s.to_multiset().insert(x),
{
    let a = s.subrange(0, p);
    let b = s.subrange(p, s.len() as int);
    assert(s =~= a + b);
    lemma_multiset_commutative(a, b);
    lemma_multiset_commutative(a.push(x), b);
    a.to_multiset_ensures();
}

/// `rows` ordered by day of week, then by start period.
pub fn sort_by_time(rows: &Vec<ScheduleItem>) -> (r: Vec<ScheduleItem>)
    ensures
        sorted_by_time(r@.map_values(|x: ScheduleItem| x@)),
        r@.map_values(|x: ScheduleItem| x@).to_multiset() == rows@.map_values(
            |x: ScheduleItem| x@,
        ).to_multiset(),
{
    let ghost rv = rows@.map_values(|x: ScheduleItem| x@);
    let mut out: Vec<ScheduleItem> = Vec::new();
    let mut k: usize = 0;
    assert(out@.map_values(|x: ScheduleItem| x@) =~= rv.take(0));
    while k < rows.len()
        invariant
            k <= rows@.len(),
            rv == rows@.map_values(|x: ScheduleItem| x@),
            sorted_by_time(out@.map_values(|x: ScheduleItem| x@)),
            out@.map_values(|x: ScheduleItem| x@).to_multiset() == rv.take(k as int).to_multiset(),
        decreases rows@.len() - k,
    {
        let row = &rows[k];
        let ghost ov = out@.map_values(|x: ScheduleItem| x@);
        let mut p: usize = 0;
        while p < out.len() && (out[p].day_of_week < row.day_of_week || (out[p].day_of_week
            == row.day_of_week && out[p].start_section <= row.start_section))
            invariant
                p <= out@.len(),
                ov == out@.map_values(|x: ScheduleItem| x@),
                forall|q: int| 0 <= q < p ==> time_le(#[trigger] ov[q], row@),
            decreases out@.len() - p,
        {
            assert(ov[p as int] == out@[p as int]@);
            p += 1;
        }
        let ghost x = row@;
        out.insert(p, row.duplicate());
        proof {
            let nv = out@.map_values(|y: ScheduleItem| y@);
            assert(nv =~= ov.insert(p as int, x));
            lemma_insert_multiset(ov, p as int, x);
            if p < ov.len() {
                assert(!time_le(ov[p as int], x));
            }
            assert forall|i: int, j: int| 0 <= i < j < nv.len() implies time_le(
                #[trigger] nv[i],
                #[trigger] nv[j],
            ) by {
                if j < p {
                    assert(nv[i] == ov[i] && nv[j] == ov[j]);
                } else if j == p {
                    assert(nv[i] == ov[i]);
                } else if i == p {
                    assert(nv[j] == ov[j - 1]);
                    if j - 1 > p {
                        assert(time_le(ov[p as int], ov[j - 1]));
                    }
                } else if i < p {
                    assert(nv[i] == ov[i] && nv[j] == ov[j - 1]);
                } else {
                    assert(nv[i] == ov[i - 1] && nv[j] == ov[j - 1]);
                }
            }
            assert(rv.take(k + 1) =~= rv.take(k as int).push(x));
            rv.take(k as int).to_multiset_ensures();
        }
        k += 1;
    }
    assert(rv.take(rows@.len() as int) =~= rv);
    out
}

/// The timetable of `user_id` in `semester_id` (only the slots recurring in
/// week `week` when it is given), ordered by day of week, then by start
/// period.
pub fn get_user_schedule(store: &ScheduleStore, user_id: &str, semester_id: i64, week: Option<i32>) -> (r:
    Vec<ScheduleItem>)
    ensures
        sorted_by_time(r@.map_values(|x: ScheduleItem| x@)),
        r@.map_values(|x: ScheduleItem| x@).to_multiset() == rows_of(
            store@.records,
            user_id@,
            semester_id as int,
            None,
            week,
        ).to_multiset(),
{
    let rows = store.find_by_owner_semester(user_id, semester_id, None, week);
    sort_by_time(&rows)
}

} // verus!
