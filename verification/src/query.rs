//! The catalog query engine: name filtering followed by a limit policy,
//! in original catalog order.

use vstd::prelude::*;
use crate::catalog::{
    filter_view, filtered, lemma_filtered_push, entry_matches, ObjectMetadata,
};

verus! {

/// How many matched entries are acceptable.
///
/// `Unbounded` passes everything through; `Capped(n)` keeps the first `n`
/// matches and silently drops the rest; `Exact(n)` returns all matches but
/// fails when there are more than `n` — it never truncates.
#[derive(Debug, Copy, Clone, PartialEq, Eq, Structural)]
pub enum LimitPolicy {
    Unbounded,
    Capped(usize),
    Exact(usize),
}

/// A failure of the query engine or the name resolver.
#[derive(Debug)]
pub enum QueryError {
    /// An `Exact(limit)` policy was violated: more than `limit` entries
    /// matched. Carries every matched entry so the caller can disambiguate.
    ExcessMatches { limit: usize, candidates: Vec<ObjectMetadata> },
    /// Name resolution found no matching entry; carries the requested name.
    NotFound { name: String },
}

/// What `Capped(n)` keeps of the filtered subsequence `fs`: its first
/// `min(n, |fs|)` elements.
pub open spec fn capped_take(fs: Seq<ObjectMetadata>, n: nat) -> Seq<ObjectMetadata> {
    if n <= fs.len() {
        fs.take(n as int)
    } else {
        fs
    }
}

/// A `Capped(n)` result has exactly `min(n, |fs|)` elements, and so never
/// more than `n`.
pub proof fn lemma_capped_len(fs: Seq<ObjectMetadata>, n: nat)
    ensures
        capped_take(fs, n).len() == if n <= fs.len() {
            n
        } else {
            fs.len()
        },
        capped_take(fs, n).len() <= n,
{
}

/// Filters the catalog by name substring, then applies the limit policy.
///
/// The result keeps original catalog order. `Unbounded` returns the whole
/// filtered subsequence; `Capped(n)` its first `min(n, |filtered|)`
/// elements, without error; `Exact(n)` the whole filtered subsequence, or
/// an `ExcessMatches` error carrying it all when it is longer than `n`.
/// The call fails exactly in that last case.
pub fn query(catalog: Vec<ObjectMetadata>, filter: Option<&str>, limit: LimitPolicy) -> (r: Result<
    Vec<ObjectMetadata>,
    QueryError,
>)
    ensures
        ({
            let fs = filtered(catalog@, filter_view(filter));
            match limit {
                LimitPolicy::Unbounded => r matches Ok(out) && out@ == fs,
                LimitPolicy::Capped(n) => r matches Ok(out) && out@ == capped_take(fs, n as nat),
                LimitPolicy::Exact(n) => if fs.len() <= n {
                    r matches Ok(out) && out@ == fs
                } else {
                    r matches Err(e) && (e matches QueryError::ExcessMatches {
                        limit: l,
                        candidates: c,
                    } && l == n && c@ == fs)
                },
            }
        }),
{
    let ghost c0 = catalog@;
    let ghost f = filter_view(filter);
    let mut rest = catalog;
    let mut out: Vec<ObjectMetadata> = Vec::new();
    let ghost mut k: int = 0;
    while rest.len() > 0
        invariant
            0 <= k <= c0.len(),
            rest@ == c0.skip(k),
            out@ == filtered(c0.take(k), f),
            f == filter_view(filter),
        decreases rest.len(),
    {
        let m = rest.remove(0);
        proof {
            assert(c0.skip(k)[0] == c0[k]);
            assert(c0.skip(k).remove(0) =~= c0.skip(k + 1));
            assert(c0.take(k + 1) =~= c0.take(k).push(c0[k]));
            lemma_filtered_push(c0.take(k), f, c0[k]);
        }
        if entry_matches(&m, filter) {
            out.push(m);
        }
        proof {
            k = k + 1;
        }
    }
    proof {
        assert(c0.take(k) =~= c0);
    }
    match limit {
        LimitPolicy::Unbounded => Ok(out),
        LimitPolicy::Capped(n) => {
            out.truncate(n);
            Ok(out)
        },
        LimitPolicy::Exact(n) => {
            if out.len() > n {
                Err(QueryError::ExcessMatches { limit: n, candidates: out })
            } else {
                Ok(out)
            }
        },
    }
}

/// Maps the limit flags of a list request to the policy they mean:
/// `--limit-one` is `Exact(1)`; `--limit n` with `--force-limit` is
/// `Exact(n)` and without it `Capped(n)`; no limit flag is `Unbounded`.
pub fn limit_from_flags(limit_one: bool, limit: Option<usize>, force_limit: bool) -> (r:
    LimitPolicy)
    ensures
        r == (if limit_one {
            LimitPolicy::Exact(1usize)
        } else {
            match limit {
                Option::Some(n) => if force_limit {
                    LimitPolicy::Exact(n)
                } else {
                    LimitPolicy::Capped(n)
                },
                Option::None => LimitPolicy::Unbounded,
            }
        }),
{
    match (limit_one, limit, force_limit) {
        (true, _, _) => LimitPolicy::Exact(1),
        (_, Some(count), true) => LimitPolicy::Exact(count),
        (_, Some(count), false) => LimitPolicy::Capped(count),
        _ => LimitPolicy::Unbounded,
    }
}

} // verus!
