use vstd::prelude::*;

verus! {

/// Opaque identity handle for one record in a layout container.
///
/// Ids are dense and insertion-ordered: the k-th successful insertion into a
/// container receives id `k`. Ids are never reused or invalidated; containers
/// are append-only. Validity of an id is decided only by comparing it with
/// the owning container's current length at the time of use.
#[derive(Debug, Copy, Clone, PartialEq, Eq, PartialOrd, Ord, Hash, Structural)]
pub struct RecordId(pub u32);

impl RecordId {
    /// The id with value 0. It is not reserved: it legitimately addresses
    /// the first inserted record once one exists.
    #[must_use]
    pub fn null() -> (r: Self)
        ensures
            r.0 == 0,
    {
        RecordId(0)
    }
}

} // verus!
