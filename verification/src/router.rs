//! The request router: maps an inbound path segment to a catalog descriptor
//! and rejects unknown names before any upstream activity.

use vstd::prelude::*;

use crate::catalog::{models_contain_name, Catalog, EntityDescriptor};

verus! {

/// Rejection signal for a path segment naming no catalog collection.
#[derive(Clone, Copy, Debug, PartialEq, Eq, Structural)]
pub struct NotFound;

/// Resolves a path segment against the catalog.  Unknown names are rejected
/// here, with no side effect, so they can never reach the upstream fetcher;
/// a known name resolves to its own descriptor.
pub fn route<'a>(catalog: &'a Catalog, path_segment: &String) -> (r: Result<
    &'a EntityDescriptor,
    NotFound,
>)
    requires
        catalog.wf(),
    ensures
        r is Ok <==> models_contain_name(catalog.models(), path_segment@),
        match r {
            Ok(d) => {
                &&& d.model().name == path_segment@
                &&& exists|i: int|
                    0 <= i < catalog.models().len() && #[trigger] catalog.models()[i] == d.model()
                &&& d.model().key_fields.len() > 0
            },
            Err(NotFound) => !models_contain_name(catalog.models(), path_segment@),
        },
{
    match catalog.lookup(path_segment) {
        Some(d) => Ok(d),
        None => Err(NotFound),
    }
}

} // verus!
