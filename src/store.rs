//! The schedule repository: the committed slots of every user and semester,
//! with fresh ids for new slots.
use vstd::prelude::*;
use vstd::string::*;
use crate::schedule::{ItemView, ScheduleItem, ScheduleItemInput};
use crate::slot::slots_clash;

verus! {

/// A committed slot together with the user and semester it belongs to.
pub ghost struct RecordView {
    pub owner: Seq<char>,
    pub semester: int,
    pub item: ItemView,
}

/// The repository's contents and the next id it hands out.
pub ghost struct StoreView {
    pub records: Seq<RecordView>,
    pub next_id: int,
}

/// Whether `id` is the excluded one.
pub open spec fn excluded(exclude: Option<i64>, id: int) -> bool {
    exclude matches Some(x) && x as int == id
}

/// Whether a record belongs to `owner` in semester `sem` and passes the
/// optional day and week filters.
pub open spec fn selects(
    r: RecordView,
    owner: Seq<char>,
    sem: int,
    day: Option<i32>,
    week: Option<i32>,
) -> bool {
    &&& r.owner == owner
    &&& r.semester == sem
    &&& (day matches Some(d) ==> r.item.day_of_week == d as int)
    &&& (week matches Some(w) ==> r.item.weeks.contains(w))
}

/// The items of the selected records, in storage order.
pub open spec fn rows_of(
    records: Seq<RecordView>,
    owner: Seq<char>,
    sem: int,
    day: Option<i32>,
    week: Option<i32>,
) -> Seq<ItemView>
    decreases records.len(),
{
    if records.len() == 0 {
        Seq::empty()
    } else {
        let p = rows_of(records.drop_last(), owner, sem, day, week);
        if selects(records.last(), owner, sem, day, week) {
            p.push(records.last().item)
        } else {
            p
        }
    }
}

/// Whether some slot of `owner` in `sem`, other than the excluded one,
/// collides with the slot `(day, start, end, weeks)`.
pub open spec fn store_clash(
    records: Seq<RecordView>,
    owner: Seq<char>,
    sem: int,
    day: int,
    start: int,
    end: int,
    weeks: Seq<i32>,
    exclude: Option<i64>,
) -> bool {
    exists|i: int|
        0 <= i < records.len() && selects(records[i], owner, sem, None, None) && !excluded(
            exclude,
            #[trigger] records[i].item.id,
        ) && slots_clash(
            day,
            start,
            end,
            weeks,
            records[i].item.day_of_week,
            records[i].item.start_section,
            records[i].item.end_section,
            records[i].item.weeks,
        )
}

impl StoreView {
    /// Ids are positive, below `next_id` and unique; every slot is well shaped.
    pub open spec fn wf(self) -> bool {
        &&& 1 <= self.next_id <= i64::MAX
        &&& forall|i: int|
            0 <= i < self.records.len() ==> 1 <= #[trigger] self.records[i].item.id < self.next_id
                && self.records[i].item.shape_error() is None
        &&& forall|i: int, j: int|
            0 <= i < j < self.records.len() ==> #[trigger] self.records[i].item.id
                != #[trigger] self.records[j].item.id
    }

    /// The index of the record with id `id` owned by `owner`.
    pub open spec fn owns(self, owner: Seq<char>, id: int, i: int) -> bool {
        0 <= i < self.records.len() && self.records[i].owner == owner && self.records[i].item.id
            == id
    }
}

/// Why the repository could not store a slot.
#[derive(Debug, Clone, Copy, PartialEq, Eq, Structural)]
pub enum StorageError {
    /// Every id has been handed out.
    IdsExhausted,
    /// The storage backend failed.
    Backend,
}

/// A committed slot and the user and semester it belongs to.
#[derive(Debug)]
pub struct StoredItem {
    pub user_id: String,
    pub semester_id: i64,
    pub item: ScheduleItem,
}

impl View for StoredItem {
    type V = RecordView;

    open spec fn view(&self) -> RecordView {
        RecordView { owner: self.user_id@, semester: self.semester_id as int, item: self.item@ }
    }
}

/// The committed slots of all users, kept in insertion order.
pub struct ScheduleStore {
    records: Vec<StoredItem>,
    next_id: i64,
}

impl View for ScheduleStore {
    type V = StoreView;

    closed spec fn view(&self) -> StoreView {
        StoreView {
            records: self.records@.map_values(|r: StoredItem| r@),
            next_id: self.next_id as int,
        }
    }
}

/// Every row is a selected record's item, and every selected record's item is a row.
pub proof fn lemma_rows_of(
    records: Seq<RecordView>,
    owner: Seq<char>,
    sem: int,
    day: Option<i32>,
    week: Option<i32>,
)
    ensures
        forall|k: int|
            0 <= k < rows_of(records, owner, sem, day, week).len() ==> exists|i: int|
                0 <= i < records.len() && selects(records[i], owner, sem, day, week)
                    && #[trigger] rows_of(records, owner, sem, day, week)[k] == records[i].item,
        forall|i: int|
            0 <= i < records.len() && selects(#[trigger] records[i], owner, sem, day, week)
                ==> exists|k: int|
                0 <= k < rows_of(records, owner, sem, day, week).len() && rows_of(
                    records,
                    owner,
                    sem,
                    day,
                    week,
                )[k] == records[i].item,
    decreases records.len(),
{
    if records.len() > 0 {
        let pre = records.drop_last();
        lemma_rows_of(pre, owner, sem, day, week);
        let p = rows_of(pre, owner, sem, day, week);
        let rows = rows_of(records, owner, sem, day, week);
        assert forall|k: int| 0 <= k < rows.len() implies exists|i: int|
            0 <= i < records.len() && selects(records[i], owner, sem, day, week) && #[trigger] rows[k]
                == records[i].item by {
            if k < p.len() {
                let i = choose|i: int|
                    0 <= i < pre.len() && selects(pre[i], owner, sem, day, week) && #[trigger] p[k]
                        == pre[i].item;
                assert(records[i] == pre[i]);
            } else {
                assert(records[records.len() - 1] == records.last());
            }
        }
        assert forall|i: int|
            0 <= i < records.len() && selects(#[trigger] records[i], owner, sem, day, week)
                implies exists|k: int| 0 <= k < rows.len() && rows[k] == records[i].item by {
            if i < pre.len() {
                assert(pre[i] == records[i]);
                let k = choose|k: int| 0 <= k < p.len() && p[k] == pre[i].item;
                assert(rows[k] == p[k]);
            } else {
                assert(rows[p.len() as int] == records.last().item);
            }
        }
    }
}

impl ScheduleStore {
    /// An empty repository.
    pub fn new() -> (r: ScheduleStore)
        ensures
            r@.wf(),
            r@.records.len() == 0,
            r@.next_id == 1,
    {
        let r = ScheduleStore { records: Vec::new(), next_id: 1 };
        assert(r@.records =~= Seq::<RecordView>::empty());
        r
    }

    /// The slots of `user_id` in `semester_id`, optionally only those on day
    /// `day` or recurring in week `week`, in storage order.
    pub fn find_by_owner_semester(
        &self,
        user_id: &str,
        semester_id: i64,
        day: Option<i32>,
        week: Option<i32>,
    ) -> (r: Vec<ScheduleItem>)
        ensures
            r@.map_values(|x: ScheduleItem| x@) == rows_of(
                self@.records,
                user_id@,
                semester_id as int,
                day,
                week,
            ),
    {
        let owner = String::from_str(user_id);
        let mut r: Vec<ScheduleItem> = Vec::new();
        let mut i: usize = 0;
        while i < self.records.len()
            invariant
                i <= self.records@.len(),
                owner@ == user_id@,
                self@.records == self.records@.map_values(|x: StoredItem| x@),
                r@.map_values(|x: ScheduleItem| x@) == rows_of(
                    self@.records.take(i as int),
                    user_id@,
                    semester_id as int,
                    day,
                    week,
                ),
            decreases self.records@.len() - i,
        {
            let rec = &self.records[i];
            let ghost recs = self@.records;
            assert(recs.take(i + 1).drop_last() =~= recs.take(i as int));
            assert(recs.take(i + 1).last() == rec@);
            let mut chosen = rec.user_id == owner && rec.semester_id == semester_id;
            match day {
                Some(d) => {
                    chosen = chosen && rec.item.day_of_week == d;
                },
                None => {},
            }
            match week {
                Some(w) => {
                    if chosen {
                        chosen = contains_week(&rec.item.weeks_range, w);
                    }
                },
                None => {},
            }
            let ghost before = r@;
            if chosen {
                r.push(rec.item.duplicate());
                assert(r@.map_values(|x: ScheduleItem| x@) =~= before.map_values(
                    |x: ScheduleItem| x@,
                ).push(rec.item@));
            }
            i += 1;
        }
        assert(self@.records.take(self.records@.len() as int) =~= self@.records);
        r
    }

    /// Stores `input` for `user_id` in `semester_id` under a fresh id; fails
    /// only when every id has been handed out.
    pub fn insert(&mut self, user_id: &str, semester_id: i64, input: &ScheduleItemInput) -> (r:
        Result<ScheduleItem, StorageError>)
        requires
            old(self)@.wf(),
            input@.shape_error() is None,
        ensures
            final(self)@.wf(),
            r is Err <==> old(self)@.next_id == i64::MAX,
            r is Err ==> final(self)@ == old(self)@ && r == Err::<ScheduleItem, StorageError>(
                StorageError::IdsExhausted,
            ),
            r matches Ok(item) ==> {
                &&& item@ == (ItemView { id: old(self)@.next_id, ..input@ })
                &&& final(self)@ == (StoreView {
                    records: old(self)@.records.push(
                        RecordView { owner: user_id@, semester: semester_id as int, item: item@ },
                    ),
                    next_id: old(self)@.next_id + 1,
                })
            },
    {
        if self.next_id == i64::MAX {
            return Err(StorageError::IdsExhausted);
        }
        let id = self.next_id;
        let item = input.to_item(id);
        let stored = StoredItem {
            user_id: String::from_str(user_id),
            semester_id,
            item: item.duplicate(),
        };
        let ghost before = self.records@;
        self.records.push(stored);
        self.next_id = id + 1;
        assert(self.records@.map_values(|x: StoredItem| x@) =~= before.map_values(
            |x: StoredItem| x@,
        ).push(stored@));
        Ok(item)
    }

    /// The position of the slot `item_id` of `user_id`, if there is one.
    pub fn find_owned(&self, user_id: &str, item_id: i64) -> (r: Option<usize>)
        requires
            self@.wf(),
        ensures
            r is None <==> !exists|i: int| self@.owns(user_id@, item_id as int, i),
            r matches Some(i) ==> self@.owns(user_id@, item_id as int, i as int),
    {
        let owner = String::from_str(user_id);
        let mut i: usize = 0;
        while i < self.records.len()
            invariant
                i <= self.records@.len(),
                owner@ == user_id@,
                self@.records == self.records@.map_values(|x: StoredItem| x@),
                forall|k: int| 0 <= k < i ==> !self@.owns(user_id@, item_id as int, k),
            decreases self.records@.len() - i,
        {
            let rec = &self.records[i];
            if rec.item.id == item_id && rec.user_id == owner {
                assert(self@.owns(user_id@, item_id as int, i as int));
                return Some(i);
            }
            i += 1;
        }
        None
    }

    /// The slot at position `i`.
    pub fn item_at(&self, i: usize) -> (r: &ScheduleItem)
        requires
            i < self@.records.len(),
        ensures
            r@ == self@.records[i as int].item,
    {
        &self.records[i].item
    }

    /// The semester of the slot at position `i`.
    pub fn semester_at(&self, i: usize) -> (r: i64)
        requires
            i < self@.records.len(),
        ensures
            r as int == self@.records[i as int].semester,
    {
        self.records[i].semester_id
    }

    /// Replaces the slot at position `i` by `item`, which keeps its id.
    pub fn set_item(&mut self, i: usize, item: ScheduleItem)
        requires
            old(self)@.wf(),
            i < old(self)@.records.len(),
            item@.id == old(self)@.records[i as int].item.id,
            item@.shape_error() is None,
        ensures
            final(self)@.wf(),
            final(self)@ == (StoreView {
                records: old(self)@.records.update(
                    i as int,
                    RecordView { item: item@, ..old(self)@.records[i as int] },
                ),
                next_id: old(self)@.next_id,
            }),
    {
        let ghost before = self.records@;
        let ghost new_item = item@;
        let old_rec = self.records.remove(i);
        let stored = StoredItem { user_id: old_rec.user_id, semester_id: old_rec.semester_id, item };
        self.records.insert(i, stored);
        assert(self.records@ =~= before.update(i as int, stored));
        assert(self.records@.map_values(|x: StoredItem| x@) =~= before.map_values(
            |x: StoredItem| x@,
        ).update(i as int, stored@));
    }

    /// Removes the slot `item_id` of `user_id`; the result is the number of
    /// slots removed, 0 or 1.
    pub fn remove_owned(&mut self, user_id: &str, item_id: i64) -> (r: usize)
        requires
            old(self)@.wf(),
        ensures
            final(self)@.wf(),
            r == 1 || r == 0,
            r == 1 <==> exists|i: int| old(self)@.owns(user_id@, item_id as int, i),
            r == 0 ==> final(self)@ == old(self)@,
            r == 1 ==> exists|i: int|
                old(self)@.owns(user_id@, item_id as int, i) && final(self)@ == (StoreView {
                    records: old(self)@.records.remove(i),
                    next_id: old(self)@.next_id,
                }),
    {
        match self.find_owned(user_id, item_id) {
            None => 0,
            Some(i) => {
                let ghost before = self.records@;
                let ghost old_view = self@;
                self.records.remove(i);
                assert(self.records@.map_values(|x: StoredItem| x@) =~= before.map_values(
                    |x: StoredItem| x@,
                ).remove(i as int));
                assert forall|a: int, b: int|
                    0 <= a < b < self@.records.len() implies #[trigger] self@.records[a].item.id
                    != #[trigger] self@.records[b].item.id by {
                    let a2 = if a < i { a } else { a + 1 };
                    let b2 = if b < i { b } else { b + 1 };
                    assert(self@.records[a] == old_view.records[a2]);
                    assert(self@.records[b] == old_view.records[b2]);
                }
                assert forall|a: int| 0 <= a < self@.records.len() implies 1
                    <= #[trigger] self@.records[a].item.id < self@.next_id
                    && self@.records[a].item.shape_error() is None by {
                    let a2 = if a < i { a } else { a + 1 };
                    assert(self@.records[a] == old_view.records[a2]);
                }
                1
            },
        }
    }
}

/// Whether week `w` is in `weeks`.
pub fn contains_week(weeks: &Vec<i32>, w: i32) -> (r: bool)
    ensures
        r == weeks@.contains(w),
{
    let mut i: usize = 0;
    while i < weeks.len()
        invariant
            i <= weeks@.len(),
            forall|k: int| 0 <= k < i ==> weeks@[k] != w,
        decreases weeks@.len() - i,
    {
        if weeks[i] == w {
            assert(weeks@[i as int] == w);
            return true;
        }
        i += 1;
    }
    false
}

} // verus!
