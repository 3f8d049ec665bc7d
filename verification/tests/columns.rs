use drivefiles::display::{default_columns, select_columns, ListColumnOptions};

#[test]
fn requested_columns_are_selected() {
    let selection = select_columns(&vec![ListColumnOptions::Id, ListColumnOptions::Name]);
    assert!(selection.id);
    assert!(selection.name);
    assert!(!selection.date);
    assert!(!selection.size);
}

#[test]
fn all_selects_every_column() {
    let selection = select_columns(&vec![ListColumnOptions::All]);
    assert!(selection.date);
    assert!(selection.size);
    assert!(selection.id);
    assert!(selection.name);
}

#[test]
fn empty_request_selects_nothing() {
    let selection = select_columns(&Vec::new());
    assert!(!selection.date);
    assert!(!selection.size);
    assert!(!selection.id);
    assert!(!selection.name);
}

#[test]
fn default_columns_are_date_size_name() {
    let columns = default_columns();
    assert_eq!(
        columns,
        vec![
            ListColumnOptions::Date,
            ListColumnOptions::Size,
            ListColumnOptions::Name,
        ]
    );
    let selection = select_columns(&columns);
    assert!(selection.date);
    assert!(selection.size);
    assert!(selection.name);
    assert!(!selection.id);
}
