use sentinel::finding::{dedup_findings, Finding};

fn finding(line: usize, category: &str) -> Finding {
    Finding::new(line, category, "same description", "same recommendation")
}

#[test]
fn identical_findings_collapse_to_one() {
    let items = vec![finding(4, "A"), finding(4, "A")];
    assert_eq!(dedup_findings(&items), vec![finding(4, "A")]);
}

#[test]
fn findings_that_differ_in_any_field_are_kept() {
    let items = vec![
        finding(4, "A"),
        finding(5, "A"),
        finding(4, "B"),
        Finding::new(4, "A", "other", "same recommendation"),
        Finding::new(4, "A", "same description", "other"),
    ];
    assert_eq!(dedup_findings(&items), items);
}

#[test]
fn dedup_keeps_first_occurrences_in_order() {
    let items = vec![finding(1, "A"), finding(2, "B"), finding(1, "A"), finding(0, "C"), finding(2, "B")];
    assert_eq!(dedup_findings(&items), vec![finding(1, "A"), finding(2, "B"), finding(0, "C")]);
}

#[test]
fn dedup_is_idempotent() {
    let items = vec![finding(3, "A"), finding(3, "A"), finding(0, "A"), finding(0, "A")];
    let once = dedup_findings(&items);
    let twice = dedup_findings(&once);
    assert_eq!(once, twice);
}

#[test]
fn dedup_of_nothing_is_nothing() {
    assert!(dedup_findings(&Vec::new()).is_empty());
}

#[test]
fn line_zero_is_an_ordinary_line_number() {
    let items = vec![finding(0, "A"), finding(1, "A")];
    assert_eq!(dedup_findings(&items).len(), 2);
}
