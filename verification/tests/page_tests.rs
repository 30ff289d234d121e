use ut1_timetable::page::{blocks_request, find_week_control, label_of_week};

fn captions(texts: &[&str]) -> Vec<String> {
    texts.iter().map(|t| t.to_string()).collect()
}

#[test]
fn label_is_the_week_number_in_brackets() {
    assert_eq!(label_of_week(3), "(3)");
    assert_eq!(label_of_week(12), "(12)");
    assert_eq!(label_of_week(53), "(53)");
    assert_eq!(label_of_week(0), "(0)");
    assert_eq!(label_of_week(100), "(100)");
    assert_eq!(label_of_week(u32::MAX), "(4294967295)");
}

#[test]
fn control_is_the_first_caption_with_the_label() {
    let all = captions(&["S1 (1)", "S2 (2)", "S12 (12)", "again (2)"]);
    assert_eq!(find_week_control(&all, "(2)"), Some(1));
    assert_eq!(find_week_control(&all, "(12)"), Some(2));
    assert_eq!(find_week_control(&all, "(1)"), Some(0));
    assert_eq!(find_week_control(&all, &label_of_week(12)), Some(2));
}

#[test]
fn control_is_missing_where_no_caption_has_the_label() {
    let all = captions(&["S1 (1)", "S2 (2)", "12", "(1 2)"]);
    assert_eq!(find_week_control(&all, "(12)"), None);
    assert_eq!(find_week_control(&all, "(3)"), None);
    assert_eq!(find_week_control(&captions(&[]), "(3)"), None);
}

#[test]
fn style_sheets_are_blocked_and_nothing_else() {
    assert!(blocks_request(Some("text/css,*/*;q=0.1")));
    assert!(blocks_request(Some("text/css")));
    assert!(blocks_request(Some("image/png, text/css")));
    assert!(!blocks_request(Some("text/html,application/xhtml+xml")));
    assert!(!blocks_request(Some("text/CSS")));
    assert!(!blocks_request(Some("")));
    assert!(!blocks_request(None));
}
