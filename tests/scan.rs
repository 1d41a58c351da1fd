use hyperv_vms::{CursorStep, FieldValue, HyperVError, NameScan};

fn text(s: &str) -> CursorStep {
    CursorStep::Row(Ok(FieldValue::Text(s.to_string())))
}

/// Feeds steps while the scan asks for rows, as a cursor walk does.
fn walk(query: Result<(), i32>, steps: Vec<CursorStep>) -> Result<Vec<String>, HyperVError> {
    let mut scan = NameScan::start(query);
    let mut steps = steps.into_iter();
    while scan.wants_rows() {
        let step = steps.next().unwrap_or(CursorStep::Exhausted);
        scan.accept(step);
    }
    scan.finish()
}

fn names(v: &[&str]) -> Vec<String> {
    v.iter().map(|s| s.to_string()).collect()
}

#[test]
fn zero_rows_give_no_names() {
    assert_eq!(walk(Ok(()), vec![CursorStep::Exhausted]), Ok(Vec::new()));
    assert_eq!(NameScan::start(Ok(())).finish(), Ok(Vec::new()));
}

#[test]
fn rows_without_the_field_give_no_names() {
    let absent = || CursorStep::Row(Ok(FieldValue::Absent));
    assert_eq!(walk(Ok(()), vec![absent(), absent(), absent()]), Ok(Vec::new()));
}

#[test]
fn running_and_all_machines_in_cursor_order() {
    // B is stopped: the running query's cursor yields A and C only.
    let running = walk(Ok(()), vec![text("A"), text("C"), CursorStep::Exhausted]);
    assert_eq!(running, Ok(names(&["A", "C"])));
    let all = walk(Ok(()), vec![text("A"), text("B"), text("C"), CursorStep::Exhausted]);
    assert_eq!(all, Ok(names(&["A", "B", "C"])));
}

#[test]
fn type_mismatch_stops_with_names_so_far() {
    let steps = vec![
        text("A"),
        CursorStep::Row(Ok(FieldValue::Unrepresentable)),
        text("C"),
        CursorStep::Exhausted,
    ];
    assert_eq!(walk(Ok(()), steps), Ok(names(&["A"])));
}

#[test]
fn absent_name_stops_with_names_so_far() {
    let steps = vec![text("A"), text("B"), CursorStep::Row(Ok(FieldValue::Absent)), text("C")];
    assert_eq!(walk(Ok(()), steps), Ok(names(&["A", "B"])));
}

#[test]
fn rejected_query_fails_without_names() {
    let code = 0x8004_1017u32 as i32;
    let mut scan = NameScan::start(Err(code));
    assert!(!scan.wants_rows());
    assert!(!scan.accept(text("A")));
    assert_eq!(scan.finish(), Err(HyperVError::Query(code)));
}

#[test]
fn hard_extraction_failure_discards_names() {
    let code = 0x8007_000Eu32 as i32;
    let steps = vec![text("A"), CursorStep::Row(Err(HyperVError::Extraction(code))), text("C")];
    assert_eq!(walk(Ok(()), steps), Err(HyperVError::Extraction(code)));
}

#[test]
fn steps_after_the_end_change_nothing() {
    let mut scan = NameScan::start(Ok(()));
    assert!(scan.accept(text("A")));
    assert!(!scan.accept(CursorStep::Exhausted));
    assert!(!scan.wants_rows());
    assert!(!scan.accept(text("B")));
    assert_eq!(scan.finish(), Ok(names(&["A"])));
}

#[test]
fn empty_names_are_kept() {
    assert_eq!(walk(Ok(()), vec![text(""), text("X")]), Ok(names(&["", "X"])));
}
