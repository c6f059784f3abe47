use vstd::prelude::*;

use crate::field::Field;
use crate::ids::RecordId;
use crate::project::{field1_seq3, field2_seq3, field3_seq3};
use crate::record::{LayoutError3, Record3, Ref3};
use crate::report::{append_diff_line, diff_report3, field_report, field_report_upto, zip_len};

verus! {

/// Row-major (array-of-structs) container for records of a three-field
/// schema: the three-field counterpart of `RowMajor2`, with the same
/// contracts over its record-sequence view as `Columnar3`.
#[derive(Debug, Clone, PartialEq, Eq, Hash)]
pub struct RowMajor3<A, B, C> {
    rows: Vec<Record3<A, B, C>>,
}

impl<A, B, C> View for RowMajor3<A, B, C> {
    type V = Seq<Record3<A, B, C>>;

    closed spec fn view(&self) -> Seq<Record3<A, B, C>> {
        self.rows@
    }
}

impl<A, B, C> RowMajor3<A, B, C> {
    /// Well-formed container: every record stays addressable by a 32-bit
    /// id.
    pub closed spec fn wf(&self) -> bool {
        self.rows@.len() <= u32::MAX as nat
    }

    /// Create an empty container.
    pub fn new() -> (r: Self)
        ensures
            r.wf(),
            r@ == Seq::<Record3<A, B, C>>::empty(),
    {
        RowMajor3 { rows: Vec::new() }
    }

    /// Create an empty container, pre-reserving room for `capacity`
    /// records. The capacity is a hint only.
    pub fn with_capacity(capacity: usize) -> (r: Self)
        ensures
            r.wf(),
            r@ == Seq::<Record3<A, B, C>>::empty(),
    {
        RowMajor3 { rows: Vec::with_capacity(capacity) }
    }

    /// Number of stored records.
    pub fn len(&self) -> (r: usize)
        requires
            self.wf(),
        ensures
            r == self@.len(),
    {
        self.rows.len()
    }

    /// Whether no record is stored.
    pub fn is_empty(&self) -> (r: bool)
        requires
            self.wf(),
        ensures
            r == (self@.len() == 0),
    {
        self.rows.len() == 0
    }

    /// Insert one record: its id is the current length and the whole
    /// record is appended. Never fails.
    pub fn add(&mut self, record: Record3<A, B, C>) -> (r: RecordId)
        requires
            old(self).wf(),
            old(self)@.len() < u32::MAX as nat,
        ensures
            final(self).wf(),
            final(self)@ == old(self)@.push(record),
            r.0 == old(self)@.len(),
    {
        let id = RecordId(self.rows.len() as u32);
        self.rows.push(record);
        id
    }

    /// Shared reference to the first field of the record at `id`, or the
    /// field's own not-found error exactly when `id` is out of range.
    pub fn get_field1(&self, id: RecordId) -> (r: Result<&A, LayoutError3>)
        requires
            self.wf(),
        ensures
            (id.0 as int) < self@.len() ==> (r matches Ok(v) && *v == self@[id.0 as int].field1),
            (id.0 as int) >= self@.len() ==> r == Err::<&A, LayoutError3>(
                LayoutError3::NotFoundField1,
            ),
    {
        if (id.0 as usize) < self.rows.len() {
            Ok(&self.rows[id.0 as usize].field1)
        } else {
            Err(LayoutError3::NotFoundField1)
        }
    }

    /// Shared reference to the second field of the record at `id`.
    pub fn get_field2(&self, id: RecordId) -> (r: Result<&B, LayoutError3>)
        requires
            self.wf(),
        ensures
            (id.0 as int) < self@.len() ==> (r matches Ok(v) && *v == self@[id.0 as int].field2),
            (id.0 as int) >= self@.len() ==> r == Err::<&B, LayoutError3>(
                LayoutError3::NotFoundField2,
            ),
    {
        if (id.0 as usize) < self.rows.len() {
            Ok(&self.rows[id.0 as usize].field2)
        } else {
            Err(LayoutError3::NotFoundField2)
        }
    }

    /// Shared reference to the third field of the record at `id`.
    pub fn get_field3(&self, id: RecordId) -> (r: Result<&C, LayoutError3>)
        requires
            self.wf(),
        ensures
            (id.0 as int) < self@.len() ==> (r matches Ok(v) && *v == self@[id.0 as int].field3),
            (id.0 as int) >= self@.len() ==> r == Err::<&C, LayoutError3>(
                LayoutError3::NotFoundField3,
            ),
    {
        if (id.0 as usize) < self.rows.len() {
            Ok(&self.rows[id.0 as usize].field3)
        } else {
            Err(LayoutError3::NotFoundField3)
        }
    }

    /// Exclusive reference to the first field of the record at `id`. No
    /// other record and no other field is touched.
    pub fn get_field1_mut(&mut self, id: RecordId) -> (r: Result<&mut A, LayoutError3>)
        requires
            old(self).wf(),
        ensures
            (id.0 as int) < old(self)@.len() ==> {
                &&& r is Ok
                &&& *r->Ok_0 == old(self)@[id.0 as int].field1
                &&& final(self)@ =~= old(self)@.update(
                    id.0 as int,
                    Record3 {
                        field1: *final(r->Ok_0),
                        field2: old(self)@[id.0 as int].field2,
                        field3: old(self)@[id.0 as int].field3,
                    },
                )
                &&& final(self).wf()
            },
            (id.0 as int) >= old(self)@.len() ==> {
                &&& r == Err::<&mut A, LayoutError3>(LayoutError3::NotFoundField1)
                &&& *final(self) == *old(self)
            },
    {
        if (id.0 as usize) < self.rows.len() {
            let row = &mut self.rows[id.0 as usize];
            Ok(&mut row.field1)
        } else {
            Err(LayoutError3::NotFoundField1)
        }
    }

    /// Exclusive reference to the second field of the record at `id`.
    pub fn get_field2_mut(&mut self, id: RecordId) -> (r: Result<&mut B, LayoutError3>)
        requires
            old(self).wf(),
        ensures
            (id.0 as int) < old(self)@.len() ==> {
                &&& r is Ok
                &&& *r->Ok_0 == old(self)@[id.0 as int].field2
                &&& final(self)@ =~= old(self)@.update(
                    id.0 as int,
                    Record3 {
                        field1: old(self)@[id.0 as int].field1,
                        field2: *final(r->Ok_0),
                        field3: old(self)@[id.0 as int].field3,
                    },
                )
                &&& final(self).wf()
            },
            (id.0 as int) >= old(self)@.len() ==> {
                &&& r == Err::<&mut B, LayoutError3>(LayoutError3::NotFoundField2)
                &&& *final(self) == *old(self)
            },
    {
        if (id.0 as usize) < self.rows.len() {
            let row = &mut self.rows[id.0 as usize];
            Ok(&mut row.field2)
        } else {
            Err(LayoutError3::NotFoundField2)
        }
    }

    /// Exclusive reference to the third field of the record at `id`.
    pub fn get_field3_mut(&mut self, id: RecordId) -> (r: Result<&mut C, LayoutError3>)
        requires
            old(self).wf(),
        ensures
            (id.0 as int) < old(self)@.len() ==> {
                &&& r is Ok
                &&& *r->Ok_0 == old(self)@[id.0 as int].field3
                &&& final(self)@ =~= old(self)@.update(
                    id.0 as int,
                    Record3 {
                        field1: old(self)@[id.0 as int].field1,
                        field2: old(self)@[id.0 as int].field2,
                        field3: *final(r->Ok_0),
                    },
                )
                &&& final(self).wf()
            },
            (id.0 as int) >= old(self)@.len() ==> {
                &&& r == Err::<&mut C, LayoutError3>(LayoutError3::NotFoundField3)
                &&& *final(self) == *old(self)
            },
    {
        if (id.0 as usize) < self.rows.len() {
            let row = &mut self.rows[id.0 as usize];
            Ok(&mut row.field3)
        } else {
            Err(LayoutError3::NotFoundField3)
        }
    }

    /// All values of the first field, projected out of the record rows in
    /// ascending id order.
    pub fn field1(&self) -> (r: Vec<&A>)
        requires
            self.wf(),
        ensures
            r@.len() == self@.len(),
            forall|i: int| 0 <= i < r@.len() ==> *r@[i] == self@[i].field1,
    {
        let mut out: Vec<&A> = Vec::new();
        let n = self.rows.len();
        let mut i: usize = 0;
        while i < n
            invariant
                n == self@.len(),
                i <= n,
                out@.len() == i,
                forall|k: int| 0 <= k < i ==> *out@[k] == self@[k].field1,
            decreases n - i,
        {
            out.push(&self.rows[i].field1);
            i += 1;
        }
        out
    }

    /// All values of the second field, in ascending id order.
    pub fn field2(&self) -> (r: Vec<&B>)
        requires
            self.wf(),
        ensures
            r@.len() == self@.len(),
            forall|i: int| 0 <= i < r@.len() ==> *r@[i] == self@[i].field2,
    {
        let mut out: Vec<&B> = Vec::new();
        let n = self.rows.len();
        let mut i: usize = 0;
        while i < n
            invariant
                n == self@.len(),
                i <= n,
                out@.len() == i,
                forall|k: int| 0 <= k < i ==> *out@[k] == self@[k].field2,
            decreases n - i,
        {
            out.push(&self.rows[i].field2);
            i += 1;
        }
        out
    }

    /// All values of the third field, in ascending id order.
    pub fn field3(&self) -> (r: Vec<&C>)
        requires
            self.wf(),
        ensures
            r@.len() == self@.len(),
            forall|i: int| 0 <= i < r@.len() ==> *r@[i] == self@[i].field3,
    {
        let mut out: Vec<&C> = Vec::new();
        let n = self.rows.len();
        let mut i: usize = 0;
        while i < n
            invariant
                n == self@.len(),
                i <= n,
                out@.len() == i,
                forall|k: int| 0 <= k < i ==> *out@[k] == self@[k].field3,
            decreases n - i,
        {
            out.push(&self.rows[i].field3);
            i += 1;
        }
        out
    }

    /// The first field's values paired with their ids, in ascending id
    /// order starting at 0.
    pub fn get_field1_enumerated(&self) -> (r: Vec<(RecordId, &A)>)
        requires
            self.wf(),
        ensures
            r@.len() == self@.len(),
            forall|i: int|
                0 <= i < r@.len() ==> (r@[i].0.0 as int == i && *r@[i].1 == self@[i].field1),
    {
        let mut out: Vec<(RecordId, &A)> = Vec::new();
        let n = self.rows.len();
        let mut i: usize = 0;
        while i < n
            invariant
                self.wf(),
                n == self@.len(),
                i <= n,
                out@.len() == i,
                forall|k: int|
                    0 <= k < i ==> (out@[k].0.0 as int == k && *out@[k].1 == self@[k].field1),
            decreases n - i,
        {
            out.push((RecordId(i as u32), &self.rows[i].field1));
            i += 1;
        }
        out
    }

    /// The second field's values paired with their ids.
    pub fn get_field2_enumerated(&self) -> (r: Vec<(RecordId, &B)>)
        requires
            self.wf(),
        ensures
            r@.len() == self@.len(),
            forall|i: int|
                0 <= i < r@.len() ==> (r@[i].0.0 as int == i && *r@[i].1 == self@[i].field2),
    {
        let mut out: Vec<(RecordId, &B)> = Vec::new();
        let n = self.rows.len();
        let mut i: usize = 0;
        while i < n
            invariant
                self.wf(),
                n == self@.len(),
                i <= n,
                out@.len() == i,
                forall|k: int|
                    0 <= k < i ==> (out@[k].0.0 as int == k && *out@[k].1 == self@[k].field2),
            decreases n - i,
        {
            out.push((RecordId(i as u32), &self.rows[i].field2));
            i += 1;
        }
        out
    }

    /// The third field's values paired with their ids.
    pub fn get_field3_enumerated(&self) -> (r: Vec<(RecordId, &C)>)
        requires
            self.wf(),
        ensures
            r@.len() == self@.len(),
            forall|i: int|
                0 <= i < r@.len() ==> (r@[i].0.0 as int == i && *r@[i].1 == self@[i].field3),
    {
        let mut out: Vec<(RecordId, &C)> = Vec::new();
        let n = self.rows.len();
        let mut i: usize = 0;
        while i < n
            invariant
                self.wf(),
                n == self@.len(),
                i <= n,
                out@.len() == i,
                forall|k: int|
                    0 <= k < i ==> (out@[k].0.0 as int == k && *out@[k].1 == self@[k].field3),
            decreases n - i,
        {
            out.push((RecordId(i as u32), &self.rows[i].field3));
            i += 1;
        }
        out
    }

    /// Whole-record iterator, starting at id 0.
    pub fn iter(&self) -> (r: RowMajorIter3<'_, A, B, C>)
        requires
            self.wf(),
        ensures
            r.wf(),
            r.src() == self@,
            r.pos() == 0,
    {
        RowMajorIter3 { layout: self, index: 0 }
    }

    /// Every stored record as a borrowed view, paired with its id, in
    /// ascending id order with no gap and no repeat.
    pub fn iter_enumerated(&self) -> (r: Vec<(RecordId, Ref3<'_, A, B, C>)>)
        requires
            self.wf(),
        ensures
            r@.len() == self@.len(),
            forall|i: int| #![trigger r@[i]]
                0 <= i < r@.len() ==> {
                    &&& r@[i].0.0 as int == i
                    &&& *r@[i].1.field1 == self@[i].field1
                    &&& *r@[i].1.field2 == self@[i].field2
                    &&& *r@[i].1.field3 == self@[i].field3
                },
    {
        let mut out: Vec<(RecordId, Ref3<'_, A, B, C>)> = Vec::new();
        let n = self.rows.len();
        let mut i: usize = 0;
        while i < n
            invariant
                self.wf(),
                n == self@.len(),
                i <= n,
                out@.len() == i,
                forall|k: int| #![trigger out@[k]]
                    0 <= k < i ==> {
                        &&& out@[k].0.0 as int == k
                        &&& *out@[k].1.field1 == self@[k].field1
                        &&& *out@[k].1.field2 == self@[k].field2
                        &&& *out@[k].1.field3 == self@[k].field3
                    },
            decreases n - i,
        {
            let row = &self.rows[i];
            let record_ref = Ref3 { field1: &row.field1, field2: &row.field2, field3: &row.field3 };
            out.push((RecordId(i as u32), record_ref));
            i += 1;
        }
        out
    }
}

impl<A: Field, B: Field, C: Field> RowMajor3<A, B, C> {
    /// Structural diff against another container of the same schema: the
    /// same report function of the stored records as for `Columnar3`.
    /// Returns `None` exactly when no compared position disagrees.
    pub fn diff(&self, other: &Self) -> (r: Option<String>)
        requires
            self.wf(),
            other.wf(),
        ensures
            (r is Some) <==> diff_report3(self@, other@).len() > 0,
            r matches Some(s) ==> s@ == diff_report3(self@, other@),
    {
        let ghost xs1 = field1_seq3(self@);
        let ghost ys1 = field1_seq3(other@);
        let ghost xs2 = field2_seq3(self@);
        let ghost ys2 = field2_seq3(other@);
        let ghost xs3 = field3_seq3(self@);
        let ghost ys3 = field3_seq3(other@);
        let mut out = String::new();
        let n = if self.rows.len() <= other.rows.len() {
            self.rows.len()
        } else {
            other.rows.len()
        };
        let mut i: usize = 0;
        while i < n
            invariant
                self.wf(),
                other.wf(),
                xs1 == field1_seq3(self@),
                ys1 == field1_seq3(other@),
                n == zip_len(xs1, ys1),
                i <= n,
                out@ == field_report_upto("field1"@, xs1, ys1, i as nat),
            decreases n - i,
        {
            let a = &self.rows[i].field1;
            let b = &other.rows[i].field1;
            if !a.eq_value(b) {
                append_diff_line(&mut out, "field1", i, a, b);
            }
            i += 1;
            proof {
                assert(out@ =~= field_report_upto("field1"@, xs1, ys1, i as nat));
            }
        }
        let mut i: usize = 0;
        while i < n
            invariant
                self.wf(),
                other.wf(),
                xs1 == field1_seq3(self@),
                ys1 == field1_seq3(other@),
                xs2 == field2_seq3(self@),
                ys2 == field2_seq3(other@),
                n == zip_len(xs1, ys1),
                n == zip_len(xs2, ys2),
                i <= n,
                out@ == field_report("field1"@, xs1, ys1) + field_report_upto(
                    "field2"@,
                    xs2,
                    ys2,
                    i as nat,
                ),
            decreases n - i,
        {
            let a = &self.rows[i].field2;
            let b = &other.rows[i].field2;
            if !a.eq_value(b) {
                append_diff_line(&mut out, "field2", i, a, b);
            }
            i += 1;
            proof {
                assert(out@ =~= field_report("field1"@, xs1, ys1) + field_report_upto(
                    "field2"@,
                    xs2,
                    ys2,
                    i as nat,
                ));
            }
        }
        let mut i: usize = 0;
        while i < n
            invariant
                self.wf(),
                other.wf(),
                xs1 == field1_seq3(self@),
                ys1 == field1_seq3(other@),
                xs2 == field2_seq3(self@),
                ys2 == field2_seq3(other@),
                xs3 == field3_seq3(self@),
                ys3 == field3_seq3(other@),
                n == zip_len(xs1, ys1),
                n == zip_len(xs2, ys2),
                n == zip_len(xs3, ys3),
                i <= n,
                out@ == field_report("field1"@, xs1, ys1) + field_report("field2"@, xs2, ys2)
                    + field_report_upto("field3"@, xs3, ys3, i as nat),
            decreases n - i,
        {
            let a = &self.rows[i].field3;
            let b = &other.rows[i].field3;
            if !a.eq_value(b) {
                append_diff_line(&mut out, "field3", i, a, b);
            }
            i += 1;
            proof {
                assert(out@ =~= field_report("field1"@, xs1, ys1) + field_report(
                    "field2"@,
                    xs2,
                    ys2,
                ) + field_report_upto("field3"@, xs3, ys3, i as nat));
            }
        }
        proof {
            assert(out@ =~= diff_report3(self@, other@));
        }
        if out.as_str().is_empty() {
            None
        } else {
            Some(out)
        }
    }
}

/// Whole-record iterator over a three-field row-major container; the same
/// protocol as the two-field iterator.
pub struct RowMajorIter3<'a, A, B, C> {
    layout: &'a RowMajor3<A, B, C>,
    index: u32,
}

impl<'a, A, B, C> RowMajorIter3<'a, A, B, C> {
    /// The record sequence being walked.
    pub closed spec fn src(&self) -> Seq<Record3<A, B, C>> {
        self.layout@
    }

    /// The id the next call will yield.
    pub closed spec fn pos(&self) -> int {
        self.index as int
    }

    /// The iterator walks a well-formed container.
    pub closed spec fn wf(&self) -> bool {
        self.layout.wf()
    }

    /// Yield the record at the current id and advance, or `None` once the
    /// id has reached the container's length.
    pub fn next(&mut self) -> (r: Option<Ref3<'a, A, B, C>>)
        requires
            old(self).wf(),
        ensures
            final(self).wf(),
            final(self).src() == old(self).src(),
            old(self).pos() < old(self).src().len() ==> {
                &&& r matches Some(x)
                &&& *x.field1 == old(self).src()[old(self).pos()].field1
                &&& *x.field2 == old(self).src()[old(self).pos()].field2
                &&& *x.field3 == old(self).src()[old(self).pos()].field3
                &&& final(self).pos() == old(self).pos() + 1
            },
            old(self).pos() >= old(self).src().len() ==> {
                &&& r is None
                &&& final(self).pos() == old(self).pos()
            },
    {
        let layout = self.layout;
        let id = RecordId(self.index);
        let field1 = match layout.get_field1(id) {
            Ok(v) => v,
            Err(_) => {
                return None;
            },
        };
        let field2 = match layout.get_field2(id) {
            Ok(v) => v,
            Err(_) => {
                return None;
            },
        };
        let field3 = match layout.get_field3(id) {
            Ok(v) => v,
            Err(_) => {
                return None;
            },
        };
        self.index = self.index + 1;
        Some(Ref3 { field1, field2, field3 })
    }
}

} // verus!
