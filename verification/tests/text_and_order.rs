use drivefiles::catalog::ObjectMetadata;
use drivefiles::order::{reverse_filelist, sort_filelist, SortOptions};
use drivefiles::query::{query, LimitPolicy};
use drivefiles::text::{contains_substring, str_leq};

fn meta(id: &str, name: &str, size: u64, date: &str) -> ObjectMetadata {
    ObjectMetadata {
        id: id.to_string(),
        name: name.to_string(),
        last_modified: date.to_string(),
        size,
    }
}

fn ids(list: &[ObjectMetadata]) -> Vec<String> {
    list.iter().map(|m| m.id.clone()).collect()
}

#[test]
fn containment_finds_substrings() {
    assert!(contains_substring("report-final.txt", "final"));
    assert!(contains_substring("report-final.txt", "report-final.txt"));
    assert!(contains_substring("report-final.txt", ""));
    assert!(contains_substring("", ""));
}

#[test]
fn containment_rejects_non_substrings() {
    assert!(!contains_substring("report.txt", "final"));
    assert!(!contains_substring("abc", "abcd"));
    assert!(!contains_substring("", "a"));
    assert!(!contains_substring("Report.txt", "report"));
}

#[test]
fn lexicographic_comparison() {
    assert!(str_leq("alpha", "bravo"));
    assert!(!str_leq("bravo", "alpha"));
    assert!(str_leq("alpha", "alpha"));
    assert!(str_leq("alp", "alpha"));
    assert!(!str_leq("alpha", "alp"));
    assert!(str_leq("", "a"));
}

#[test]
fn sort_by_name_orders_lexicographically() {
    let list = vec![
        meta("1", "charlie", 1, "d1"),
        meta("2", "alpha", 2, "d2"),
        meta("3", "bravo", 3, "d3"),
    ];
    let sorted = sort_filelist(list, SortOptions::Name);
    assert_eq!(ids(&sorted), vec!["2", "3", "1"]);
}

#[test]
fn sort_by_size_orders_numerically() {
    let list = vec![
        meta("1", "a", 30, "d1"),
        meta("2", "b", 10, "d2"),
        meta("3", "c", 20, "d3"),
    ];
    let sorted = sort_filelist(list, SortOptions::Size);
    assert_eq!(ids(&sorted), vec!["2", "3", "1"]);
}

#[test]
fn sort_by_size_keeps_tied_entries_in_catalog_order() {
    let list = vec![
        meta("1", "b", 10, "d1"),
        meta("2", "a", 10, "d2"),
        meta("3", "c", 5, "d3"),
    ];
    let sorted = sort_filelist(list, SortOptions::Size);
    assert_eq!(ids(&sorted), vec!["3", "1", "2"]);
}

#[test]
fn sort_by_date_leaves_catalog_order_unchanged() {
    // The date comparator ties every pair of entries, so a date sort is a
    // no-op whatever the timestamps say.
    let list = vec![
        meta("1", "a", 1, "2023-09-09"),
        meta("2", "b", 2, "2020-01-01"),
        meta("3", "c", 3, "2021-05-05"),
    ];
    let sorted = sort_filelist(list, SortOptions::Date);
    assert_eq!(ids(&sorted), vec!["1", "2", "3"]);
}

#[test]
fn reverse_inverts_order() {
    let list = vec![
        meta("1", "a", 1, "d1"),
        meta("2", "b", 2, "d2"),
        meta("3", "c", 3, "d3"),
    ];
    let reversed = reverse_filelist(list);
    assert_eq!(ids(&reversed), vec!["3", "2", "1"]);
    assert!(reverse_filelist(Vec::new()).is_empty());
}

#[test]
fn capped_truncation_happens_before_display_sort() {
    // The cap keeps the first entries in catalog order; a later sort only
    // rearranges those survivors. If truncation were applied after the
    // sort instead, the result would be the alphabetically first names.
    let list = vec![
        meta("1", "echo", 1, "d1"),
        meta("2", "delta", 2, "d2"),
        meta("3", "charlie", 3, "d3"),
        meta("4", "bravo", 4, "d4"),
        meta("5", "alpha", 5, "d5"),
    ];
    let capped = query(list, None, LimitPolicy::Capped(3)).unwrap();
    assert_eq!(ids(&capped), vec!["1", "2", "3"]);
    let sorted = sort_filelist(capped, SortOptions::Name);
    assert_eq!(ids(&sorted), vec!["3", "2", "1"]);
}
