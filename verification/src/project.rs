use vstd::prelude::*;

use crate::record::{Record2, Record3};

verus! {

/// The first field's column, read off a record sequence in ascending id
/// order. Both storage strategies project the same column from the same
/// abstract record sequence.
pub open spec fn field1_seq<A, B>(s: Seq<Record2<A, B>>) -> Seq<A> {
    s.map_values(|r: Record2<A, B>| r.field1)
}

/// The second field's column, read off a record sequence in ascending id
/// order.
pub open spec fn field2_seq<A, B>(s: Seq<Record2<A, B>>) -> Seq<B> {
    s.map_values(|r: Record2<A, B>| r.field2)
}

/// The first field's column of a three-field record sequence.
pub open spec fn field1_seq3<A, B, C>(s: Seq<Record3<A, B, C>>) -> Seq<A> {
    s.map_values(|r: Record3<A, B, C>| r.field1)
}

/// The second field's column of a three-field record sequence.
pub open spec fn field2_seq3<A, B, C>(s: Seq<Record3<A, B, C>>) -> Seq<B> {
    s.map_values(|r: Record3<A, B, C>| r.field2)
}

/// The third field's column of a three-field record sequence.
pub open spec fn field3_seq3<A, B, C>(s: Seq<Record3<A, B, C>>) -> Seq<C> {
    s.map_values(|r: Record3<A, B, C>| r.field3)
}

} // verus!
