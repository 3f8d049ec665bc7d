//! Display ordering of a file list. This is a consumer-side step, applied
//! after querying: the query engine itself returns catalog order.
//!
//! The date comparator ties every pair of entries, so a date sort leaves
//! the list in catalog order. Keeping that observed behavior is deliberate;
//! the contract and a test pin it down.

use vstd::prelude::*;
use crate::catalog::ObjectMetadata;
use crate::text::{lex_leq, lex_leq_total, lex_leq_trans, str_leq};

verus! {

/// The sort key for a file listing.
#[derive(Debug, Copy, Clone, PartialEq, Eq, Structural)]
pub enum SortOptions {
    Name,
    Date,
    Size,
}

/// The comparator a listing is ordered by: names lexicographically, sizes
/// numerically; under a date sort every pair compares as equal.
pub open spec fn sort_leq(sorting: SortOptions, a: ObjectMetadata, b: ObjectMetadata) -> bool {
    match sorting {
        SortOptions::Name => lex_leq(a.name@, b.name@),
        SortOptions::Date => true,
        SortOptions::Size => a.size <= b.size,
    }
}

/// The sequence is ordered by the comparator for `sorting`.
pub open spec fn sorted_for(sorting: SortOptions, s: Seq<ObjectMetadata>) -> bool {
    forall|i: int, j: int| 0 <= i < j < s.len() ==> sort_leq(sorting, s[i], s[j])
}

/// Any two entries are comparable under every sort key.
pub proof fn sort_leq_total(sorting: SortOptions, a: ObjectMetadata, b: ObjectMetadata)
    ensures
        sort_leq(sorting, a, b) || sort_leq(sorting, b, a),
{
    if sorting == SortOptions::Name {
        lex_leq_total(a.name@, b.name@);
    }
}

/// Every sort key's comparator is transitive.
pub proof fn sort_leq_trans(sorting: SortOptions, a: ObjectMetadata, b: ObjectMetadata, c: ObjectMetadata)
    requires
        sort_leq(sorting, a, b),
        sort_leq(sorting, b, c),
    ensures
        sort_leq(sorting, a, c),
{
    if sorting == SortOptions::Name {
        lex_leq_trans(a.name@, b.name@, c.name@);
    }
}

/// Executable comparator.
fn leq_exec(sorting: SortOptions, a: &ObjectMetadata, b: &ObjectMetadata) -> (r: bool)
    ensures
        r == sort_leq(sorting, *a, *b),
{
    match sorting {
        SortOptions::Name => str_leq(a.name.as_str(), b.name.as_str()),
        SortOptions::Date => true,
        SortOptions::Size => a.size <= b.size,
    }
}

/// Sorts a file list by the chosen key for display.
///
/// The result is ordered by the key's comparator and holds exactly the
/// entries that came in. A date sort returns the list unchanged, since
/// its comparator ties every pair.
pub fn sort_filelist(filelist: Vec<ObjectMetadata>, sorting: SortOptions) -> (r: Vec<
    ObjectMetadata,
>)
    ensures
        sorted_for(sorting, r@),
        r@.to_multiset() == filelist@.to_multiset(),
        sorting == SortOptions::Date ==> r@ == filelist@,
{
    let ghost c0 = filelist@;
    let mut rest = filelist;
    let mut out: Vec<ObjectMetadata> = Vec::new();
    let ghost mut k: int = 0;
    proof {
        assert(out@ =~= c0.take(0));
    }
    while rest.len() > 0
        invariant
            0 <= k <= c0.len(),
            rest@ == c0.skip(k),
            out@.to_multiset() == c0.take(k).to_multiset(),
            sorted_for(sorting, out@),
            sorting == SortOptions::Date ==> out@ == c0.take(k),
        decreases rest.len(),
    {
        let m = rest.remove(0);
        proof {
            assert(c0.skip(k)[0] == c0[k]);
            assert(c0.skip(k).remove(0) =~= c0.skip(k + 1));
            assert(c0.take(k + 1) =~= c0.take(k).push(c0[k]));
        }
        let mut p: usize = 0;
        loop
            invariant_except_break
                p <= out.len(),
                forall|q: int| 0 <= q < p ==> sort_leq(sorting, out@[q], m),
            invariant
                sorted_for(sorting, out@),
            ensures
                p <= out.len(),
                forall|q: int| 0 <= q < p ==> sort_leq(sorting, out@[q], m),
                p < out.len() ==> !sort_leq(sorting, out@[p as int], m),
            decreases out.len() - p,
        {
            if p == out.len() {
                break;
            }
            if !leq_exec(sorting, &out[p], &m) {
                break;
            }
            p += 1;
        }
        proof {
            let s = out@;
            let t = s.insert(p as int, m);
            s.insert_ensures(p as int, m);
            if p < s.len() {
                sort_leq_total(sorting, s[p as int], m);
            }
            assert forall|i: int, j: int| 0 <= i < j < t.len() implies sort_leq(
                sorting,
                t[i],
                t[j],
            ) by {
                if i == p && j > p && j - 1 > p {
                    sort_leq_trans(sorting, m, s[p as int], s[j - 1]);
                }
            }
            vstd::seq_lib::to_multiset_insert(s, p as int, m);
            vstd::seq_lib::to_multiset_build(c0.take(k), c0[k]);
            assert(t.to_multiset() == s.to_multiset().insert(m));
            assert(c0.take(k).push(c0[k]).to_multiset() == c0.take(k).to_multiset().insert(c0[k]));
            if sorting == SortOptions::Date {
                assert(p == out.len());
                assert(t =~= s.push(m));
            }
        }
        out.insert(p, m);
        proof {
            k = k + 1;
        }
    }
    proof {
        assert(c0.take(k) =~= c0);
    }
    out
}

/// Reverses a file list, for the reversed display order.
pub fn reverse_filelist(filelist: Vec<ObjectMetadata>) -> (r: Vec<ObjectMetadata>)
    ensures
        r@ == filelist@.reverse(),
{
    let ghost c0 = filelist@;
    let mut rest = filelist;
    let mut out: Vec<ObjectMetadata> = Vec::new();
    while rest.len() > 0
        invariant
            rest@ == c0.take(rest@.len() as int),
            out@.len() + rest@.len() == c0.len(),
            forall|q: int| 0 <= q < out@.len() ==> out@[q] == c0[c0.len() - 1 - q],
        decreases rest.len(),
    {
        let ghost j = rest@.len() as int;
        let m = rest.pop().unwrap();
        proof {
            assert(m == c0[j - 1]);
            assert(c0.take(j).subrange(0, j - 1) =~= c0.take(j - 1));
        }
        out.push(m);
    }
    proof {
        assert(out@ =~= c0.reverse());
    }
    out
}

} // verus!
