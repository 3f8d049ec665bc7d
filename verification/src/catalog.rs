//! The catalog: descriptors of the remote objects one list call reports,
//! and the name filter over them.

use vstd::prelude::*;
use crate::text::{contains_seq, contains_substring};

verus! {

/// One remote file's descriptor: an opaque stable identifier, a display
/// name (not necessarily unique), a size in bytes, and a modification
/// timestamp rendered as a comparable string.
#[derive(Debug)]
pub struct ObjectMetadata {
    pub id: String,
    pub name: String,
    pub last_modified: String,
    pub size: u64,
}

/// An entry passes the filter when no filter is given, or when its name
/// contains the filter string as a substring.
pub open spec fn matches_filter(m: ObjectMetadata, filter: Option<Seq<char>>) -> bool {
    match filter {
        Option::None => true,
        Option::Some(p) => contains_seq(m.name@, p),
    }
}

/// The filter as a predicate value, so that the same function is shared
/// between `filtered` and the lemmas about it.
pub open spec fn filter_pred(filter: Option<Seq<char>>) -> spec_fn(ObjectMetadata) -> bool {
    |m: ObjectMetadata| matches_filter(m, filter)
}

/// The view of an optional filter argument.
pub open spec fn filter_view(filter: Option<&str>) -> Option<Seq<char>> {
    match filter {
        Option::None => Option::None,
        Option::Some(p) => Option::Some(p@),
    }
}

/// The subsequence of `catalog` whose entries pass the filter, in
/// original catalog order.
pub open spec fn filtered(catalog: Seq<ObjectMetadata>, filter: Option<Seq<char>>) -> Seq<
    ObjectMetadata,
> {
    catalog.filter(filter_pred(filter))
}

/// Appending one entry extends the filtered subsequence exactly when the
/// entry passes the filter.
pub proof fn lemma_filtered_push(s: Seq<ObjectMetadata>, filter: Option<Seq<char>>, m: ObjectMetadata)
    ensures
        filtered(s.push(m), filter) == (if matches_filter(m, filter) {
            filtered(s, filter).push(m)
        } else {
            filtered(s, filter)
        }),
{
    s.lemma_filter_push(m, filter_pred(filter));
}

/// The filtered subsequence holds exactly the matching entries: every
/// element of it passes the filter, every matching catalog entry appears
/// in it, and it is never longer than the catalog.
pub proof fn lemma_filtered_exact(catalog: Seq<ObjectMetadata>, filter: Option<Seq<char>>)
    ensures
        forall|i: int| 0 <= i < filtered(catalog, filter).len() ==> matches_filter(
            #[trigger] filtered(catalog, filter)[i],
            filter,
        ),
        forall|i: int| 0 <= i < catalog.len() && matches_filter(#[trigger] catalog[i], filter)
            ==> filtered(catalog, filter).contains(catalog[i]),
        filtered(catalog, filter).len() <= catalog.len(),
{
    broadcast use vstd::seq_lib::group_filter_ensures;

}

/// An absent filter retains the whole catalog.
pub proof fn lemma_filtered_no_filter(catalog: Seq<ObjectMetadata>)
    ensures
        filtered(catalog, Option::None) == catalog,
    decreases catalog.len(),
{
    if catalog.len() == 0 {
        assert(filtered(catalog, Option::None) =~= catalog);
    } else {
        lemma_filtered_no_filter(catalog.drop_last());
        lemma_filtered_push(catalog.drop_last(), Option::None, catalog.last());
        assert(catalog.drop_last().push(catalog.last()) =~= catalog);
    }
}

/// Executable filter check for one entry.
pub fn entry_matches(m: &ObjectMetadata, filter: Option<&str>) -> (r: bool)
    ensures
        r == matches_filter(*m, filter_view(filter)),
{
    match filter {
        Option::None => true,
        Option::Some(p) => contains_substring(m.name.as_str(), p),
    }
}

} // verus!
