//! Which columns a listing shows. The rendering itself (widths, joining)
//! stays with the caller; this module only decides the selection.

use vstd::prelude::*;

verus! {

/// A column request of a listing: one printable column, or `All` for
/// every column at once.
#[derive(Debug, Copy, Clone, PartialEq, Eq, Structural)]
pub enum ListColumnOptions {
    All,
    Id,
    Name,
    Size,
    Date,
}

/// Which of the four printable columns a listing shows.
#[derive(Debug, Copy, Clone, PartialEq, Eq, Structural)]
pub struct ColumnSelection {
    pub date: bool,
    pub size: bool,
    pub id: bool,
    pub name: bool,
}

/// A column is shown when it is requested, or when `All` is.
pub open spec fn spec_selected(display: Seq<ListColumnOptions>) -> ColumnSelection {
    let all = display.contains(ListColumnOptions::All);
    ColumnSelection {
        date: all || display.contains(ListColumnOptions::Date),
        size: all || display.contains(ListColumnOptions::Size),
        id: all || display.contains(ListColumnOptions::Id),
        name: all || display.contains(ListColumnOptions::Name),
    }
}

/// Whether `column` occurs in the requested list.
fn contains_column(display: &Vec<ListColumnOptions>, column: ListColumnOptions) -> (r: bool)
    ensures
        r == display@.contains(column),
{
    let mut i: usize = 0;
    while i < display.len()
        invariant
            i <= display.len(),
            forall|k: int| 0 <= k < i ==> display@[k] != column,
        decreases display.len() - i,
    {
        if display[i] == column {
            return true;
        }
        i += 1;
    }
    false
}

/// Decides the shown columns from the requested list.
pub fn select_columns(display: &Vec<ListColumnOptions>) -> (r: ColumnSelection)
    ensures
        r == spec_selected(display@),
{
    let all = contains_column(display, ListColumnOptions::All);
    ColumnSelection {
        date: all || contains_column(display, ListColumnOptions::Date),
        size: all || contains_column(display, ListColumnOptions::Size),
        id: all || contains_column(display, ListColumnOptions::Id),
        name: all || contains_column(display, ListColumnOptions::Name),
    }
}

/// The columns a listing shows when none are requested: date, size, name.
pub fn default_columns() -> (r: Vec<ListColumnOptions>)
    ensures
        r@ =~= seq![
            ListColumnOptions::Date,
            ListColumnOptions::Size,
            ListColumnOptions::Name,
        ],
{
    let mut columns: Vec<ListColumnOptions> = Vec::new();
    columns.push(ListColumnOptions::Date);
    columns.push(ListColumnOptions::Size);
    columns.push(ListColumnOptions::Name);
    columns
}

} // verus!
