use campus_backend::engine::{
    add_schedule_item, add_schedule_items, check_time_conflict, decide_candidate, decide_update,
    delete_outcome, delete_schedule_item, get_user_schedule, has_conflict, record_outcome, sort_by_time,
    update_schedule_item, BatchAddResult, RejectReason, ScheduleError,
};
use campus_backend::schedule::{merge_update, weeks_from_request, ScheduleItemInput, UpdateScheduleItemInput};
use campus_backend::slot::{conflicts, intersects_weeks, overlaps_period, validate_shape, ShapeError};
use campus_backend::store::{ScheduleStore, StorageError};

fn candidate(name: &str, day: i32, start: i32, end: i32, weeks: Vec<i32>) -> ScheduleItemInput {
    ScheduleItemInput {
        source_id: None,
        course_name: name.to_string(),
        teacher_name: Some("测试老师".to_string()),
        location: Some("B202".to_string()),
        day_of_week: day,
        start_section: start,
        end_section: end,
        weeks,
        course_type: Some("选修".to_string()),
        credits: Some(2),
        description: None,
        color_hex: "#FF5733".to_string(),
        is_custom: true,
    }
}

fn all_weeks() -> Vec<i32> {
    (1..=16).collect()
}

fn empty_patch() -> UpdateScheduleItemInput {
    UpdateScheduleItemInput {
        course_name: None,
        teacher_name: None,
        location: None,
        day_of_week: None,
        start_section: None,
        end_section: None,
        weeks: None,
        course_type: None,
        credits: None,
        description: None,
        color_hex: None,
    }
}

fn create_test_schedule_item(store: &mut ScheduleStore, user_id: &str, semester_id: i64) -> i64 {
    let item = add_schedule_item(store, user_id, semester_id, &candidate("测试课表项", 2, 3, 4, all_weeks()))
        .expect("the fixture slot is valid");
    item.id
}

#[test]
fn mock_test_explanation() {
    assert!(true);
}

#[test]
fn test_get_user_schedule() {
    let mut store = ScheduleStore::new();
    let user_id = "1";
    let semester_id = 1;
    let item_id = create_test_schedule_item(&mut store, user_id, semester_id);
    let items = get_user_schedule(&store, user_id, semester_id, None);
    assert_eq!(items.len(), 1);
    assert_eq!(items[0].id, item_id);
    assert_eq!(items[0].course_name, "测试课表项");
}

#[test]
fn test_add_schedule_items() {
    let mut store = ScheduleStore::new();
    let mut a = candidate("新课程A", 1, 1, 2, all_weeks());
    a.source_id = Some(1);
    a.is_custom = false;
    a.teacher_name = Some("张老师".to_string());
    a.location = Some("A101".to_string());
    a.course_type = Some("必修".to_string());
    a.credits = Some(3);
    let mut b = candidate("新课程B", 2, 3, 4, vec![1, 2, 3, 4, 5, 6, 7, 8]);
    b.teacher_name = Some("李老师".to_string());
    b.color_hex = "".to_string();
    let batch_result = add_schedule_items(&mut store, "1", 1, vec![a, b]);
    assert_eq!(batch_result.successful_items.len(), 2);
    assert_eq!(batch_result.failed_items.len(), 0);
    assert_eq!(batch_result.successful_items[0].course_name, "新课程A");
    assert_eq!(batch_result.successful_items[1].course_name, "新课程B");
}

#[test]
fn test_update_schedule_item() {
    let mut store = ScheduleStore::new();
    let item_id = create_test_schedule_item(&mut store, "1", 1);
    let input = UpdateScheduleItemInput {
        course_name: Some("更新后的课程".to_string()),
        teacher_name: Some("新老师".to_string()),
        location: Some("C303".to_string()),
        day_of_week: Some(3),
        start_section: Some(5),
        end_section: Some(6),
        weeks: Some(vec![1, 2, 3, 4, 5, 6, 7, 8, 9, 10, 11, 12]),
        course_type: Some("选修".to_string()),
        credits: Some(4),
        description: Some("已更新".to_string()),
        color_hex: Some("#00FF00".to_string()),
    };
    let updated_item = update_schedule_item(&mut store, "1", item_id, input).unwrap();
    assert_eq!(updated_item.id, item_id);
    assert_eq!(updated_item.course_name, "更新后的课程");
    assert_eq!(updated_item.teacher_name.unwrap(), "新老师");
    assert_eq!(updated_item.location.unwrap(), "C303");
    assert_eq!(updated_item.day_of_week, 3);
}

#[test]
fn test_delete_schedule_item() {
    let mut store = ScheduleStore::new();
    let item_id = create_test_schedule_item(&mut store, "1", 1);
    assert!(delete_schedule_item(&mut store, "1", item_id).is_ok());
    let remaining = get_user_schedule(&store, "1", 1, None);
    assert_eq!(remaining.iter().filter(|i| i.id == item_id).count(), 0);
}

#[test]
fn test_delete_nonexistent_schedule_item() {
    let mut store = ScheduleStore::new();
    let result = delete_schedule_item(&mut store, "1", 99999);
    assert!(result.is_err());
}

#[test]
fn overlapping_periods_in_shared_weeks_conflict() {
    let mut store = ScheduleStore::new();
    let result = add_schedule_items(
        &mut store,
        "U1",
        1,
        vec![candidate("first", 1, 1, 2, all_weeks()), candidate("second", 1, 2, 3, all_weeks())],
    );
    assert_eq!(result.successful_items.len(), 1);
    assert_eq!(result.successful_items[0].course_name, "first");
    assert_eq!(result.failed_items.len(), 1);
    assert_eq!(result.failed_items[0].course_name, "second");
    assert_eq!(result.failed_items[0].reason, RejectReason::TimeConflict);
    assert_eq!(result.failed_items[0].error_message, "time conflict");
}

#[test]
fn disjoint_weeks_do_not_conflict() {
    let mut store = ScheduleStore::new();
    let result = add_schedule_items(
        &mut store,
        "U1",
        1,
        vec![
            candidate("first", 1, 1, 2, (1..=8).collect()),
            candidate("second", 1, 2, 3, (9..=16).collect()),
        ],
    );
    assert_eq!(result.successful_items.len(), 2);
    assert_eq!(result.failed_items.len(), 0);
}

#[test]
fn color_only_update_keeps_other_fields() {
    let mut store = ScheduleStore::new();
    let first = add_schedule_item(&mut store, "U1", 1, &candidate("x", 4, 5, 6, all_weeks())).unwrap();
    add_schedule_item(&mut store, "U1", 1, &candidate("other", 4, 7, 8, all_weeks())).unwrap();
    let mut patch = empty_patch();
    patch.color_hex = Some("#00FF00".to_string());
    let updated = update_schedule_item(&mut store, "U1", first.id, patch).unwrap();
    assert_eq!(updated.color_hex, "#00FF00");
    assert_eq!(updated.id, first.id);
    assert_eq!(updated.course_name, "x");
    assert_eq!(updated.teacher_name, first.teacher_name);
    assert_eq!(updated.location, first.location);
    assert_eq!(updated.day_of_week, 4);
    assert_eq!(updated.start_section, 5);
    assert_eq!(updated.end_section, 6);
    assert_eq!(updated.weeks_range, first.weeks_range);
    assert_eq!(updated.course_type, first.course_type);
    assert_eq!(updated.credits, first.credits);
    assert_eq!(updated.description, first.description);
    assert_eq!(updated.is_custom, first.is_custom);
    let listed = get_user_schedule(&store, "U1", 1, None);
    let stored = listed.iter().find(|i| i.id == first.id).unwrap();
    assert_eq!(stored.color_hex, "#00FF00");
    assert_eq!(stored.course_name, "x");
}

#[test]
fn batch_candidate_colliding_with_earlier_candidate_is_rejected() {
    let mut store = ScheduleStore::new();
    let result = add_schedule_items(
        &mut store,
        "U1",
        1,
        vec![
            candidate("c1", 1, 1, 2, all_weeks()),
            candidate("c2", 2, 1, 2, all_weeks()),
            candidate("c3", 1, 1, 2, all_weeks()),
            candidate("c4", 3, 1, 2, all_weeks()),
            candidate("c5", 4, 1, 2, all_weeks()),
        ],
    );
    let names: Vec<&str> = result.successful_items.iter().map(|i| i.course_name.as_str()).collect();
    assert_eq!(names, vec!["c1", "c2", "c4", "c5"]);
    assert_eq!(result.failed_items.len(), 1);
    assert_eq!(result.failed_items[0].course_name, "c3");
    assert_eq!(result.failed_items[0].reason, RejectReason::TimeConflict);
    assert_eq!(get_user_schedule(&store, "U1", 1, None).len(), 4);
}

#[test]
fn shape_errors_are_reported_per_item() {
    let mut store = ScheduleStore::new();
    let mut linked_custom = candidate("linked custom", 1, 1, 2, all_weeks());
    linked_custom.source_id = Some(7);
    let mut unlinked = candidate("unlinked", 1, 1, 2, all_weeks());
    unlinked.is_custom = false;
    let result = add_schedule_items(
        &mut store,
        "U1",
        1,
        vec![
            linked_custom,
            unlinked,
            candidate("reversed", 1, 3, 2, all_weeks()),
            candidate("day zero", 0, 1, 2, all_weeks()),
            candidate("day eight", 8, 1, 2, all_weeks()),
            candidate("fine", 7, 1, 2, all_weeks()),
        ],
    );
    let reasons: Vec<RejectReason> = result.failed_items.iter().map(|f| f.reason).collect();
    assert_eq!(
        reasons,
        vec![
            RejectReason::Shape(ShapeError::CustomWithSource),
            RejectReason::Shape(ShapeError::MissingSource),
            RejectReason::Shape(ShapeError::InvalidPeriodRange),
            RejectReason::Shape(ShapeError::InvalidDay),
            RejectReason::Shape(ShapeError::InvalidDay),
        ]
    );
    assert_eq!(result.failed_items[0].error_message, "自定义课程不能有 source_id");
    assert_eq!(result.failed_items[1].error_message, "非自定义课程必须有 source_id");
    assert_eq!(result.failed_items[2].error_message, "开始节次不能大于结束节次");
    assert_eq!(result.failed_items[3].error_message, "星期几必须在 1-7 之间");
    assert_eq!(result.successful_items.len(), 1);
    assert_eq!(result.successful_items[0].course_name, "fine");
}

#[test]
fn shape_error_wins_over_conflict() {
    let mut store = ScheduleStore::new();
    add_schedule_item(&mut store, "U1", 1, &candidate("a", 1, 1, 4, all_weeks())).unwrap();
    let mut bad = candidate("bad", 1, 1, 2, all_weeks());
    bad.source_id = Some(3);
    let r = add_schedule_item(&mut store, "U1", 1, &bad);
    assert_eq!(r.unwrap_err(), RejectReason::Shape(ShapeError::CustomWithSource));
    assert_eq!(get_user_schedule(&store, "U1", 1, None).len(), 1);
}

#[test]
fn conflicts_are_scoped_to_owner_and_semester() {
    let mut store = ScheduleStore::new();
    add_schedule_item(&mut store, "U1", 1, &candidate("a", 1, 1, 2, all_weeks())).unwrap();
    assert!(add_schedule_item(&mut store, "U2", 1, &candidate("b", 1, 1, 2, all_weeks())).is_ok());
    assert!(add_schedule_item(&mut store, "U1", 2, &candidate("c", 1, 1, 2, all_weeks())).is_ok());
    assert!(has_conflict(&store, "U1", 1, 1, 2, 2, &vec![5], None));
    assert!(!has_conflict(&store, "U3", 1, 1, 2, 2, &vec![5], None));
}

#[test]
fn update_does_not_conflict_with_own_version() {
    let mut store = ScheduleStore::new();
    let item = add_schedule_item(&mut store, "U1", 1, &candidate("a", 1, 1, 2, all_weeks())).unwrap();
    let mut patch = empty_patch();
    patch.end_section = Some(3);
    let updated = update_schedule_item(&mut store, "U1", item.id, patch).unwrap();
    assert_eq!(updated.end_section, 3);
    assert!(update_schedule_item(&mut store, "U1", item.id, empty_patch()).is_ok());
}

#[test]
fn update_errors() {
    let mut store = ScheduleStore::new();
    let a = add_schedule_item(&mut store, "U1", 1, &candidate("a", 1, 1, 2, all_weeks())).unwrap();
    let b = add_schedule_item(&mut store, "U1", 1, &candidate("b", 1, 5, 6, all_weeks())).unwrap();
    let mut clash = empty_patch();
    clash.start_section = Some(2);
    assert_eq!(update_schedule_item(&mut store, "U1", b.id, clash).unwrap_err(), ScheduleError::TimeConflict);
    let mut reversed = empty_patch();
    reversed.start_section = Some(9);
    assert_eq!(
        update_schedule_item(&mut store, "U1", b.id, reversed).unwrap_err(),
        ScheduleError::InvalidShape(ShapeError::InvalidPeriodRange)
    );
    let mut bad_day = empty_patch();
    bad_day.day_of_week = Some(9);
    assert_eq!(
        update_schedule_item(&mut store, "U1", a.id, bad_day).unwrap_err(),
        ScheduleError::InvalidShape(ShapeError::InvalidDay)
    );
    assert_eq!(update_schedule_item(&mut store, "U2", a.id, empty_patch()).unwrap_err(), ScheduleError::NotFound);
    let listed = get_user_schedule(&store, "U1", 1, None);
    assert_eq!(listed[1].start_section, 5);
}

#[test]
fn delete_of_another_users_slot_is_not_found() {
    let mut store = ScheduleStore::new();
    let theirs = add_schedule_item(&mut store, "B", 1, &candidate("b", 1, 1, 2, all_weeks())).unwrap();
    assert_eq!(delete_schedule_item(&mut store, "A", theirs.id), Err(ScheduleError::NotFound));
    assert_eq!(get_user_schedule(&store, "B", 1, None).len(), 1);
    assert_eq!(delete_schedule_item(&mut store, "B", theirs.id), Ok(()));
    assert_eq!(delete_schedule_item(&mut store, "B", theirs.id), Err(ScheduleError::NotFound));
}

#[test]
fn listing_is_ordered_and_filtered_by_week() {
    let mut store = ScheduleStore::new();
    add_schedule_items(
        &mut store,
        "U1",
        1,
        vec![
            candidate("wed", 3, 1, 2, vec![1, 2]),
            candidate("mon late", 1, 5, 6, vec![2, 3]),
            candidate("mon early", 1, 1, 2, vec![1]),
            candidate("tue", 2, 3, 4, vec![3]),
        ],
    );
    let names: Vec<String> = get_user_schedule(&store, "U1", 1, None).into_iter().map(|i| i.course_name).collect();
    assert_eq!(names, vec!["mon early", "mon late", "tue", "wed"]);
    let week2: Vec<String> = get_user_schedule(&store, "U1", 1, Some(2)).into_iter().map(|i| i.course_name).collect();
    assert_eq!(week2, vec!["mon late", "wed"]);
    assert!(get_user_schedule(&store, "U1", 2, None).is_empty());
}

#[test]
fn ids_are_fresh_and_increasing() {
    let mut store = ScheduleStore::new();
    let a = add_schedule_item(&mut store, "U1", 1, &candidate("a", 1, 1, 1, vec![1])).unwrap();
    let b = add_schedule_item(&mut store, "U1", 1, &candidate("b", 2, 1, 1, vec![1])).unwrap();
    assert_eq!(a.id, 1);
    assert_eq!(b.id, 2);
    delete_schedule_item(&mut store, "U1", b.id).unwrap();
    let c = add_schedule_item(&mut store, "U1", 1, &candidate("c", 2, 1, 1, vec![1])).unwrap();
    assert_eq!(c.id, 3);
    let _ = StorageError::IdsExhausted;
}

#[test]
fn slot_predicates() {
    assert!(overlaps_period(1, 2, 2, 3));
    assert!(!overlaps_period(1, 2, 3, 4));
    assert!(intersects_weeks(&[1, 2, 3], &[3, 4]));
    assert!(!intersects_weeks(&[1, 2], &[3, 4]));
    assert!(!intersects_weeks(&[], &[1]));
    assert!(conflicts(1, 1, 2, &[1, 2], 1, 2, 3, &[2]));
    assert_eq!(conflicts(1, 1, 2, &[1, 2], 1, 2, 3, &[2]), conflicts(1, 2, 3, &[2], 1, 1, 2, &[1, 2]));
    assert!(!conflicts(1, 1, 2, &[1], 2, 1, 2, &[1]));
    assert_eq!(validate_shape(true, false, 1, 1, 1), Ok(()));
    assert_eq!(validate_shape(false, false, 1, 1, 1), Err(ShapeError::MissingSource));
    assert_eq!(validate_shape(true, false, 7, 2, 1), Err(ShapeError::InvalidPeriodRange));
}

#[test]
fn conflict_check_over_rows_honours_exclusion() {
    let mut store = ScheduleStore::new();
    let a = add_schedule_item(&mut store, "U1", 1, &candidate("a", 1, 1, 2, vec![1])).unwrap();
    let rows = store.find_by_owner_semester("U1", 1, None, None);
    assert!(check_time_conflict(&rows, 1, 2, 2, &[1], None));
    assert!(!check_time_conflict(&rows, 1, 2, 2, &[1], Some(a.id)));
    assert!(!check_time_conflict(&rows, 1, 3, 4, &[1], None));
}

#[test]
fn merge_keeps_unset_fields() {
    let mut store = ScheduleStore::new();
    let a = add_schedule_item(&mut store, "U1", 1, &candidate("a", 1, 1, 2, vec![1])).unwrap();
    let mut patch = empty_patch();
    patch.weeks = Some(vec![4, 5]);
    patch.description = Some("note".to_string());
    let m = merge_update(&a, &patch);
    assert_eq!(m.weeks_range, vec![4, 5]);
    assert_eq!(m.description, Some("note".to_string()));
    assert_eq!(m.course_name, "a");
    assert_eq!(m.teacher_name, a.teacher_name);
}

#[test]
fn batch_summaries() {
    let mut store = ScheduleStore::new();
    let all_ok = add_schedule_items(
        &mut store,
        "U1",
        1,
        vec![candidate("a", 1, 1, 2, vec![1]), candidate("b", 2, 1, 2, vec![1])],
    );
    assert_eq!(all_ok.summary(), "成功添加 2 项课程");
    let mixed = add_schedule_items(
        &mut store,
        "U1",
        1,
        vec![candidate("c", 1, 2, 3, vec![1]), candidate("d", 3, 1, 2, vec![1])],
    );
    assert_eq!(mixed.summary(), "处理完成：成功 1 项，失败 1 项");
}

#[test]
fn candidate_decisions() {
    let mut store = ScheduleStore::new();
    let a = add_schedule_item(&mut store, "U1", 1, &candidate("a", 1, 1, 2, vec![1, 2])).unwrap();
    let rows = vec![a];
    assert_eq!(decide_candidate(&candidate("b", 1, 2, 3, vec![2]), Some(&rows)), Err(RejectReason::TimeConflict));
    assert_eq!(decide_candidate(&candidate("c", 1, 3, 4, vec![2]), Some(&rows)), Ok(()));
    assert_eq!(decide_candidate(&candidate("d", 1, 3, 4, vec![2]), None), Err(RejectReason::ConflictCheckFailed));
    assert_eq!(
        decide_candidate(&candidate("e", 1, 4, 3, vec![2]), None),
        Err(RejectReason::Shape(ShapeError::InvalidPeriodRange))
    );
}

#[test]
fn outcomes_are_recorded_once() {
    let mut out = BatchAddResult { successful_items: Vec::new(), failed_items: Vec::new() };
    let c = candidate("课", 1, 1, 2, vec![1]);
    record_outcome(&mut out, &c, Ok(42), "");
    assert_eq!(out.successful_items.len(), 1);
    assert_eq!(out.successful_items[0].id, 42);
    assert_eq!(out.successful_items[0].course_name, "课");
    record_outcome(&mut out, &c, Err(RejectReason::Storage(StorageError::Backend)), "pool timed out");
    record_outcome(&mut out, &c, Err(RejectReason::ConflictCheckFailed), "connection reset");
    record_outcome(&mut out, &c, Err(RejectReason::TimeConflict), "");
    assert_eq!(out.successful_items.len(), 1);
    assert_eq!(out.failed_items.len(), 3);
    assert_eq!(out.failed_items[0].error_message, "数据库插入失败: pool timed out");
    assert_eq!(out.failed_items[1].error_message, "检查冲突失败: connection reset");
    assert_eq!(out.failed_items[2].error_message, "time conflict");
    assert_eq!(out.failed_items[2].course_name, "课");
}

#[test]
fn update_decisions() {
    let mut store = ScheduleStore::new();
    let a = add_schedule_item(&mut store, "U1", 1, &candidate("a", 1, 1, 2, vec![1])).unwrap();
    let b = add_schedule_item(&mut store, "U1", 1, &candidate("b", 1, 3, 4, vec![1])).unwrap();
    let rows = store.find_by_owner_semester("U1", 1, None, None);
    let mut p = empty_patch();
    p.end_section = Some(3);
    assert_eq!(decide_update(&a, &p, &rows, a.id).unwrap_err(), ScheduleError::TimeConflict);
    let mut q = empty_patch();
    q.color_hex = Some("#123456".to_string());
    let m = decide_update(&b, &q, &rows, b.id).unwrap();
    assert_eq!((m.id, m.start_section, m.end_section, m.color_hex.as_str()), (b.id, 3, 4, "#123456"));
    let mut r = empty_patch();
    r.day_of_week = Some(0);
    assert_eq!(decide_update(&b, &r, &rows, b.id).unwrap_err(), ScheduleError::InvalidShape(ShapeError::InvalidDay));
}

#[test]
fn delete_outcomes_and_sorting() {
    assert_eq!(delete_outcome(0), Err(ScheduleError::NotFound));
    assert_eq!(delete_outcome(1), Ok(()));
    let mut store = ScheduleStore::new();
    add_schedule_item(&mut store, "U1", 1, &candidate("late", 2, 5, 6, vec![1])).unwrap();
    add_schedule_item(&mut store, "U1", 1, &candidate("early", 2, 1, 2, vec![1])).unwrap();
    add_schedule_item(&mut store, "U1", 1, &candidate("monday", 1, 7, 8, vec![1])).unwrap();
    let rows = store.find_by_owner_semester("U1", 1, None, None);
    let names: Vec<String> = sort_by_time(&rows).into_iter().map(|i| i.course_name).collect();
    assert_eq!(names, vec!["monday", "early", "late"]);
}

#[test]
fn empty_week_list_keeps_weeks() {
    assert_eq!(weeks_from_request(vec![]), None);
    assert_eq!(weeks_from_request(vec![3, 4]), Some(vec![3, 4]));
}
