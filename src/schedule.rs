//! Timetable entities: committed schedule items, candidates, patches and the
//! outcome of a batch, each with a mathematical view.
use vstd::prelude::*;
use vstd::string::*;
use crate::slot::{ShapeError, shape_error_of, slots_clash};

verus! {

/// The view of an optional string.
pub open spec fn opt_str(o: Option<String>) -> Option<Seq<char>> {
    match o {
        Some(s) => Some(s@),
        None => None,
    }
}

/// Copies an optional string.
pub fn copy_opt_str(o: &Option<String>) -> (r: Option<String>)
    ensures
        opt_str(r) == opt_str(*o),
{
    match o {
        Some(s) => Some(s.clone()),
        None => None,
    }
}

/// Copies a list of week numbers.
pub fn copy_weeks(w: &Vec<i32>) -> (r: Vec<i32>)
    ensures
        r@ == w@,
{
    let mut r: Vec<i32> = Vec::new();
    let mut i: usize = 0;
    while i < w.len()
        invariant
            i <= w@.len(),
            r@ == w@.subrange(0, i as int),
        decreases w@.len() - i,
    {
        r.push(w[i]);
        i += 1;
    }
    assert(r@ =~= w@);
    r
}

/// What a schedule item is: every field as a mathematical value.
pub ghost struct ItemView {
    pub id: int,
    pub source_id: Option<i64>,
    pub course_name: Seq<char>,
    pub teacher_name: Option<Seq<char>>,
    pub location: Option<Seq<char>>,
    pub day_of_week: int,
    pub start_section: int,
    pub end_section: int,
    pub weeks: Seq<i32>,
    pub course_type: Option<Seq<char>>,
    pub credits: Option<i32>,
    pub description: Option<Seq<char>>,
    pub color_hex: Seq<char>,
    pub is_custom: bool,
}

impl ItemView {
    /// The shape rule that this item breaks, if any.
    pub open spec fn shape_error(self) -> Option<ShapeError> {
        shape_error_of(
            self.is_custom,
            self.source_id is Some,
            self.day_of_week,
            self.start_section,
            self.end_section,
        )
    }

    /// This item collides with `other` (same day, overlapping periods, a common week).
    pub open spec fn clashes(self, other: ItemView) -> bool {
        slots_clash(
            self.day_of_week,
            self.start_section,
            self.end_section,
            self.weeks,
            other.day_of_week,
            other.start_section,
            other.end_section,
            other.weeks,
        )
    }
}

/// A committed slot of a user's timetable.
#[derive(Debug)]
pub struct ScheduleItem {
    pub id: i64,
    pub source_id: Option<i64>,
    pub course_name: String,
    pub teacher_name: Option<String>,
    pub location: Option<String>,
    pub day_of_week: i32,
    pub start_section: i32,
    pub end_section: i32,
    pub weeks_range: Vec<i32>,
    pub course_type: Option<String>,
    pub credits: Option<i32>,
    pub description: Option<String>,
    pub color_hex: String,
    pub is_custom: bool,
}

impl View for ScheduleItem {
    type V = ItemView;

    open spec fn view(&self) -> ItemView {
        ItemView {
            id: self.id as int,
            source_id: self.source_id,
            course_name: self.course_name@,
            teacher_name: opt_str(self.teacher_name),
            location: opt_str(self.location),
            day_of_week: self.day_of_week as int,
            start_section: self.start_section as int,
            end_section: self.end_section as int,
            weeks: self.weeks_range@,
            course_type: opt_str(self.course_type),
            credits: self.credits,
            description: opt_str(self.description),
            color_hex: self.color_hex@,
            is_custom: self.is_custom,
        }
    }
}

impl ScheduleItem {
    /// A field-by-field copy.
    pub fn duplicate(&self) -> (r: ScheduleItem)
        ensures
            r@ == self@,
    {
        ScheduleItem {
            id: self.id,
            source_id: self.source_id,
            course_name: self.course_name.clone(),
            teacher_name: copy_opt_str(&self.teacher_name),
            location: copy_opt_str(&self.location),
            day_of_week: self.day_of_week,
            start_section: self.start_section,
            end_section: self.end_section,
            weeks_range: copy_weeks(&self.weeks_range),
            course_type: copy_opt_str(&self.course_type),
            credits: self.credits,
            description: copy_opt_str(&self.description),
            color_hex: self.color_hex.clone(),
            is_custom: self.is_custom,
        }
    }
}

/// A candidate slot submitted for addition: a schedule item without its id.
#[derive(Debug)]
pub struct ScheduleItemInput {
    pub source_id: Option<i64>,
    pub course_name: String,
    pub teacher_name: Option<String>,
    pub location: Option<String>,
    pub day_of_week: i32,
    pub start_section: i32,
    pub end_section: i32,
    pub weeks: Vec<i32>,
    pub course_type: Option<String>,
    pub credits: Option<i32>,
    pub description: Option<String>,
    pub color_hex: String,
    pub is_custom: bool,
}

impl View for ScheduleItemInput {
    type V = ItemView;

    /// The candidate as an item whose id is still 0.
    open spec fn view(&self) -> ItemView {
        ItemView {
            id: 0,
            source_id: self.source_id,
            course_name: self.course_name@,
            teacher_name: opt_str(self.teacher_name),
            location: opt_str(self.location),
            day_of_week: self.day_of_week as int,
            start_section: self.start_section as int,
            end_section: self.end_section as int,
            weeks: self.weeks@,
            course_type: opt_str(self.course_type),
            credits: self.credits,
            description: opt_str(self.description),
            color_hex: self.color_hex@,
            is_custom: self.is_custom,
        }
    }
}

impl ScheduleItemInput {
    /// The committed item that this candidate becomes under the id `id`.
    pub fn to_item(&self, id: i64) -> (r: ScheduleItem)
        ensures
            r@ == (ItemView { id: id as int, ..self@ }),
    {
        ScheduleItem {
            id,
            source_id: self.source_id,
            course_name: self.course_name.clone(),
            teacher_name: copy_opt_str(&self.teacher_name),
            location: copy_opt_str(&self.location),
            day_of_week: self.day_of_week,
            start_section: self.start_section,
            end_section: self.end_section,
            weeks_range: copy_weeks(&self.weeks),
            course_type: copy_opt_str(&self.course_type),
            credits: self.credits,
            description: copy_opt_str(&self.description),
            color_hex: self.color_hex.clone(),
            is_custom: self.is_custom,
        }
    }
}

/// A partial change to a schedule item: each field that is set replaces the
/// old value, each unset field keeps it.
#[derive(Debug)]
pub struct UpdateScheduleItemInput {
    pub course_name: Option<String>,
    pub teacher_name: Option<String>,
    pub location: Option<String>,
    pub day_of_week: Option<i32>,
    pub start_section: Option<i32>,
    pub end_section: Option<i32>,
    pub weeks: Option<Vec<i32>>,
    pub course_type: Option<String>,
    pub credits: Option<i32>,
    pub description: Option<String>,
    pub color_hex: Option<String>,
}

/// The new value if there is one, else the old one.
pub open spec fn or_keep<T>(new: Option<T>, old: T) -> T {
    match new {
        Some(v) => v,
        None => old,
    }
}

/// The optional new value if it is set, else the old optional value.
pub open spec fn or_keep_opt<T>(new: Option<T>, old: Option<T>) -> Option<T> {
    match new {
        Some(v) => Some(v),
        None => old,
    }
}

/// `old` with the fields that `p` sets replaced; id, catalog link and the
/// custom flag are never changed.
pub open spec fn merged(old: ItemView, p: UpdateScheduleItemInput) -> ItemView {
    ItemView {
        id: old.id,
        source_id: old.source_id,
        course_name: or_keep(opt_str(p.course_name), old.course_name),
        teacher_name: or_keep_opt(opt_str(p.teacher_name), old.teacher_name),
        location: or_keep_opt(opt_str(p.location), old.location),
        day_of_week: match p.day_of_week {
            Some(d) => d as int,
            None => old.day_of_week,
        },
        start_section: match p.start_section {
            Some(v) => v as int,
            None => old.start_section,
        },
        end_section: match p.end_section {
            Some(v) => v as int,
            None => old.end_section,
        },
        weeks: match p.weeks {
            Some(w) => w@,
            None => old.weeks,
        },
        course_type: or_keep_opt(opt_str(p.course_type), old.course_type),
        credits: or_keep_opt(p.credits, old.credits),
        description: or_keep_opt(opt_str(p.description), old.description),
        color_hex: or_keep(opt_str(p.color_hex), old.color_hex),
        is_custom: old.is_custom,
    }
}

/// The new text if there is one, else a copy of the old one.
fn pick_str(new: &Option<String>, old: &String) -> (r: String)
    ensures
        r@ == or_keep(opt_str(*new), old@),
{
    match new {
        Some(s) => s.clone(),
        None => old.clone(),
    }
}

/// The new optional text if it is set, else a copy of the old one.
fn pick_opt_str(new: &Option<String>, old: &Option<String>) -> (r: Option<String>)
    ensures
        opt_str(r) == or_keep_opt(opt_str(*new), opt_str(*old)),
{
    match new {
        Some(s) => Some(s.clone()),
        None => copy_opt_str(old),
    }
}

/// Applies a partial change to a schedule item, giving a new item.
pub fn merge_update(existing: &ScheduleItem, patch: &UpdateScheduleItemInput) -> (r: ScheduleItem)
    ensures
        r@ == merged(existing@, *patch),
{
    let weeks_range = match &patch.weeks {
        Some(w) => copy_weeks(w),
        None => copy_weeks(&existing.weeks_range),
    };
    ScheduleItem {
        id: existing.id,
        source_id: existing.source_id,
        course_name: pick_str(&patch.course_name, &existing.course_name),
        teacher_name: pick_opt_str(&patch.teacher_name, &existing.teacher_name),
        location: pick_opt_str(&patch.location, &existing.location),
        day_of_week: match patch.day_of_week {
            Some(d) => d,
            None => existing.day_of_week,
        },
        start_section: match patch.start_section {
            Some(v) => v,
            None => existing.start_section,
        },
        end_section: match patch.end_section {
            Some(v) => v,
            None => existing.end_section,
        },
        weeks_range,
        course_type: pick_opt_str(&patch.course_type, &existing.course_type),
        credits: match patch.credits {
            Some(c) => Some(c),
            None => existing.credits,
        },
        description: pick_opt_str(&patch.description, &existing.description),
        color_hex: pick_str(&patch.color_hex, &existing.color_hex),
        is_custom: existing.is_custom,
    }
}

/// The weeks of an update request: an empty list leaves the weeks unchanged.
pub fn weeks_from_request(weeks: Vec<i32>) -> (r: Option<Vec<i32>>)
    ensures
        weeks@.len() == 0 ==> r is None,
        weeks@.len() > 0 ==> (r matches Some(w) && w@ == weeks@),
{
    if weeks.len() == 0 {
        None
    } else {
        Some(weeks)
    }
}

} // verus!
