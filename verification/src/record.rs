use vstd::prelude::*;

verus! {

use vstd::string::StringExecFns;

/// One record of a two-field schema. The layout containers of this crate
/// are the compiled output for schemas of this shape: the first field is
/// addressed as `field1`, the second as `field2`, matching the positional
/// order of the schema's field list.
#[derive(Debug, Clone, PartialEq, Eq, Hash)]
pub struct Record2<A, B> {
    pub field1: A,
    pub field2: B,
}

/// Borrowed view of one stored record: one shared reference per field,
/// valid only for the borrow it was produced from.
#[derive(Debug)]
pub struct Ref2<'a, A, B> {
    pub field1: &'a A,
    pub field2: &'a B,
}

/// Runtime lookup error of the two-field containers. Each fallible
/// per-field getter fails with the variant of its own field, so a caller
/// can tell the field context apart even though the underlying cause is the
/// same (an id at or beyond the container's length).
///
/// Diffing reports differences instead of failing, so no variant for an
/// invalid diff exists here.
#[derive(Debug, Copy, Clone, PartialEq, Eq, Structural)]
pub enum LayoutError2 {
    NotFoundField1,
    NotFoundField2,
}

impl LayoutError2 {
    /// A human-readable description of the failed lookup.
    pub fn message(&self) -> (r: String)
        ensures
            *self == LayoutError2::NotFoundField1 ==> r@ == "not found: field1"@,
            *self == LayoutError2::NotFoundField2 ==> r@ == "not found: field2"@,
    {
        match self {
            LayoutError2::NotFoundField1 => String::from_str("not found: field1"),
            LayoutError2::NotFoundField2 => String::from_str("not found: field2"),
        }
    }
}

/// One record of a three-field schema, addressed positionally like
/// `Record2`.
#[derive(Debug, Clone, PartialEq, Eq, Hash)]
pub struct Record3<A, B, C> {
    pub field1: A,
    pub field2: B,
    pub field3: C,
}

/// Borrowed view of one stored three-field record.
#[derive(Debug)]
pub struct Ref3<'a, A, B, C> {
    pub field1: &'a A,
    pub field2: &'a B,
    pub field3: &'a C,
}

/// Runtime lookup error of the three-field containers, one variant per
/// field, as for the two-field shape.
#[derive(Debug, Copy, Clone, PartialEq, Eq, Structural)]
pub enum LayoutError3 {
    NotFoundField1,
    NotFoundField2,
    NotFoundField3,
}

impl LayoutError3 {
    /// A human-readable description of the failed lookup.
    pub fn message(&self) -> (r: String)
        ensures
            *self == LayoutError3::NotFoundField1 ==> r@ == "not found: field1"@,
            *self == LayoutError3::NotFoundField2 ==> r@ == "not found: field2"@,
            *self == LayoutError3::NotFoundField3 ==> r@ == "not found: field3"@,
    {
        match self {
            LayoutError3::NotFoundField1 => String::from_str("not found: field1"),
            LayoutError3::NotFoundField2 => String::from_str("not found: field2"),
            LayoutError3::NotFoundField3 => String::from_str("not found: field3"),
        }
    }
}

} // verus!
