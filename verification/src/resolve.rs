//! The name resolver: turns a user-supplied name into exactly one remote
//! object identifier, by delegating to the query engine with `Exact(1)`.

use vstd::prelude::*;
use crate::catalog::{filtered, ObjectMetadata};
use crate::query::{query, LimitPolicy, QueryError};

verus! {

/// Resolves `target` to one object identifier.
///
/// With `treat_as_id` set, the caller asserts the string already is an
/// identifier: it is returned unchanged and the catalog is not consulted.
/// Otherwise the catalog is queried with the target as name filter under
/// `Exact(1)`: exactly one match returns that entry's id; no match fails
/// with `NotFound` naming the target; several matches fail with
/// `ExcessMatches` enumerating them all.
pub fn resolve(catalog: Vec<ObjectMetadata>, target: &str, treat_as_id: bool) -> (r: Result<
    String,
    QueryError,
>)
    ensures
        treat_as_id ==> (r matches Ok(id) && id@ == target@),
        !treat_as_id ==> ({
            let fs = filtered(catalog@, Option::Some(target@));
            &&& (fs.len() == 1 ==> (r matches Ok(id) && id@ == fs[0].id@))
            &&& (fs.len() == 0 ==> (r matches Err(e) && (e matches QueryError::NotFound {
                name: n,
            } && n@ == target@)))
            &&& (fs.len() > 1 ==> (r matches Err(e) && (e matches QueryError::ExcessMatches {
                limit: l,
                candidates: c,
            } && l == 1 && c@ == fs)))
        }),
{
    if treat_as_id {
        return Ok(target.to_owned());
    }
    match query(catalog, Some(target), LimitPolicy::Exact(1)) {
        Err(e) => Err(e),
        Ok(mut matches_vec) => {
            if matches_vec.len() == 0 {
                Err(QueryError::NotFound { name: target.to_owned() })
            } else {
                let m = matches_vec.remove(0);
                Ok(m.id)
            }
        },
    }
}

} // verus!
