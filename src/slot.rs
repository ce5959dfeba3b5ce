//! Recurring weekly slots: the geometry of a slot (day of week, period range,
//! week set) and its shape rules.
use vstd::prelude::*;

verus! {

/// Why a slot's shape is not acceptable.
#[derive(Debug, Clone, Copy, PartialEq, Eq, Structural)]
pub enum ShapeError {
    /// A custom slot carries a link to a catalog course.
    CustomWithSource,
    /// A catalog slot carries no link to its catalog course.
    MissingSource,
    /// The first period comes after the last one.
    InvalidPeriodRange,
    /// The day of week lies outside 1..=7.
    InvalidDay,
}

/// Two period ranges share at least one period.
pub open spec fn periods_overlap(a_start: int, a_end: int, b_start: int, b_end: int) -> bool {
    a_start <= b_end && b_start <= a_end
}

/// Two week lists share at least one week number.
pub open spec fn weeks_intersect(a: Seq<i32>, b: Seq<i32>) -> bool {
    exists|i: int, j: int| 0 <= i < a.len() && 0 <= j < b.len() && #[trigger] a[i] == #[trigger] b[j]
}

/// Two slots (of one owner in one semester) collide: same day, overlapping
/// periods and a common week.
pub open spec fn slots_clash(
    a_day: int,
    a_start: int,
    a_end: int,
    a_weeks: Seq<i32>,
    b_day: int,
    b_start: int,
    b_end: int,
    b_weeks: Seq<i32>,
) -> bool {
    &&& a_day == b_day
    &&& periods_overlap(a_start, a_end, b_start, b_end)
    &&& weeks_intersect(a_weeks, b_weeks)
}

/// The first shape rule that a slot breaks, if any, checked in the order:
/// link to the catalog, period order, day of week.
pub open spec fn shape_error_of(
    is_custom: bool,
    has_source: bool,
    day: int,
    start: int,
    end: int,
) -> Option<ShapeError> {
    if is_custom && has_source {
        Some(ShapeError::CustomWithSource)
    } else if !is_custom && !has_source {
        Some(ShapeError::MissingSource)
    } else if start > end {
        Some(ShapeError::InvalidPeriodRange)
    } else if day < 1 || day > 7 {
        Some(ShapeError::InvalidDay)
    } else {
        None
    }
}

/// Whether the period ranges `[a_start, a_end]` and `[b_start, b_end]` overlap.
pub fn overlaps_period(a_start: i32, a_end: i32, b_start: i32, b_end: i32) -> (r: bool)
    ensures
        r == periods_overlap(a_start as int, a_end as int, b_start as int, b_end as int),
{
    a_start <= b_end && b_start <= a_end
}

/// Whether the two week lists share a week number.
pub fn intersects_weeks(a: &[i32], b: &[i32]) -> (r: bool)
    ensures
        r == weeks_intersect(a@, b@),
{
    let mut i: usize = 0;
    while i < a.len()
        invariant
            i <= a@.len(),
            forall|x: int, y: int| 0 <= x < i && 0 <= y < b@.len() ==> a@[x] != b@[y],
        decreases a@.len() - i,
    {
        let mut j: usize = 0;
        while j < b.len()
            invariant
                i < a@.len(),
                j <= b@.len(),
                forall|y: int| 0 <= y < j ==> a@[i as int] != b@[y],
            decreases b@.len() - j,
        {
            if a[i] == b[j] {
                assert(a@[i as int] == b@[j as int]);
                return true;
            }
            j += 1;
        }
        i += 1;
    }
    proof {
        if weeks_intersect(a@, b@) {
            let (x, y) = choose|x: int, y: int|
                0 <= x < a@.len() && 0 <= y < b@.len() && #[trigger] a@[x] == #[trigger] b@[y];
            assert(a@[x] != b@[y]);
        }
    }
    false
}

/// Whether two slots collide: same day, overlapping periods, a common week.
pub fn conflicts(
    a_day: i32,
    a_start: i32,
    a_end: i32,
    a_weeks: &[i32],
    b_day: i32,
    b_start: i32,
    b_end: i32,
    b_weeks: &[i32],
) -> (r: bool)
    ensures
        r == slots_clash(
            a_day as int,
            a_start as int,
            a_end as int,
            a_weeks@,
            b_day as int,
            b_start as int,
            b_end as int,
            b_weeks@,
        ),
{
    a_day == b_day && overlaps_period(a_start, a_end, b_start, b_end) && intersects_weeks(
        a_weeks,
        b_weeks,
    )
}

/// Checks the shape rules of a slot: a custom slot has no catalog link and a
/// catalog slot has one, the first period does not come after the last, and
/// the day of week lies in 1..=7.
pub fn validate_shape(is_custom: bool, has_source: bool, day: i32, start: i32, end: i32) -> (r:
    Result<(), ShapeError>)
    ensures
        r is Err <==> shape_error_of(is_custom, has_source, day as int, start as int, end as int) is Some,
        r matches Err(e) ==> shape_error_of(
            is_custom,
            has_source,
            day as int,
            start as int,
            end as int,
        ) == Some(e),
{
    if is_custom && has_source {
        Err(ShapeError::CustomWithSource)
    } else if !is_custom && !has_source {
        Err(ShapeError::MissingSource)
    } else if start > end {
        Err(ShapeError::InvalidPeriodRange)
    } else if day < 1 || day > 7 {
        Err(ShapeError::InvalidDay)
    } else {
        Ok(())
    }
}

/// Collision between two slots does not depend on which one is named first.
pub proof fn lemma_conflict_symmetric(
    a_day: int,
    a_start: int,
    a_end: int,
    a_weeks: Seq<i32>,
    b_day: int,
    b_start: int,
    b_end: int,
    b_weeks: Seq<i32>,
)
    ensures
        slots_clash(a_day, a_start, a_end, a_weeks, b_day, b_start, b_end, b_weeks)
            == slots_clash(b_day, b_start, b_end, b_weeks, a_day, a_start, a_end, a_weeks),
{
    if weeks_intersect(a_weeks, b_weeks) {
        let (i, j) = choose|i: int, j: int|
            0 <= i < a_weeks.len() && 0 <= j < b_weeks.len() && #[trigger] a_weeks[i]
                == #[trigger] b_weeks[j];
        assert(b_weeks[j] == a_weeks[i]);
    }
    if weeks_intersect(b_weeks, a_weeks) {
        let (j, i) = choose|j: int, i: int|
            0 <= j < b_weeks.len() && 0 <= i < a_weeks.len() && #[trigger] b_weeks[j]
                == #[trigger] a_weeks[i];
        assert(a_weeks[i] == b_weeks[j]);
    }
}

} // verus!
