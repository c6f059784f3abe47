use vstd::prelude::*;

use crate::field::Field;
use crate::ids::RecordId;
use crate::project::{field1_seq, field2_seq};
use crate::record::{LayoutError2, Record2, Ref2};
use crate::report::{append_diff_line, diff_report2, field_report, field_report_upto, zip_len};

verus! {

/// Column-major (struct-of-arrays) container for records of a two-field
/// schema: one vector per field, always equal in length. Abstractly it is
/// the sequence of inserted records, in insertion order; its view is that
/// sequence.
#[derive(Debug, Clone, PartialEq, Eq, Hash)]
pub struct Columnar2<A, B> {
    col1: Vec<A>,
    col2: Vec<B>,
}

impl<A, B> View for Columnar2<A, B> {
    type V = Seq<Record2<A, B>>;

    closed spec fn view(&self) -> Seq<Record2<A, B>> {
        Seq::new(
            self.col1@.len(),
            |i: int| Record2 { field1: self.col1@[i], field2: self.col2@[i] },
        )
    }
}

impl<A, B> Columnar2<A, B> {
    /// Well-formed container: the field columns agree in length (the
    /// defining invariant of the columnar layout, re-established by every
    /// mutation), and that length leaves every record addressable by a
    /// 32-bit id.
    pub closed spec fn wf(&self) -> bool {
        &&& self.col1@.len() == self.col2@.len()
        &&& self.col1@.len() <= u32::MAX as nat
    }

    /// Create an empty container.
    pub fn new() -> (r: Self)
        ensures
            r.wf(),
            r@ == Seq::<Record2<A, B>>::empty(),
    {
        let r = Columnar2 { col1: Vec::new(), col2: Vec::new() };
        proof {
            assert(r@ =~= Seq::<Record2<A, B>>::empty());
        }
        r
    }

    /// Create an empty container, pre-reserving room for `capacity`
    /// records in every column. The capacity is a hint only: it has no
    /// behavioral effect.
    pub fn with_capacity(capacity: usize) -> (r: Self)
        ensures
            r.wf(),
            r@ == Seq::<Record2<A, B>>::empty(),
    {
        let r = Columnar2 {
            col1: Vec::with_capacity(capacity),
            col2: Vec::with_capacity(capacity),
        };
        proof {
            assert(r@ =~= Seq::<Record2<A, B>>::empty());
        }
        r
    }

    /// Number of stored records: the length of the first field's column,
    /// which by the layout invariant is the length of every column.
    pub fn len(&self) -> (r: usize)
        requires
            self.wf(),
        ensures
            r == self@.len(),
    {
        self.col1.len()
    }

    /// Whether no record is stored.
    pub fn is_empty(&self) -> (r: bool)
        requires
            self.wf(),
        ensures
            r == (self@.len() == 0),
    {
        self.col1.len() == 0
    }

    /// Insert one record: its id is the current length, each field value is
    /// appended to its own column in field order, and the columns stay
    /// equal in length. Insertion never fails; the bound on the length only
    /// keeps the returned 32-bit id exact.
    pub fn add(&mut self, record: Record2<A, B>) -> (r: RecordId)
        requires
            old(self).wf(),
            old(self)@.len() < u32::MAX as nat,
        ensures
            final(self).wf(),
            final(self)@ == old(self)@.push(record),
            r.0 == old(self)@.len(),
    {
        let id = RecordId(self.col1.len() as u32);
        self.col1.push(record.field1);
        self.col2.push(record.field2);
        proof {
            assert(self@ =~= old(self)@.push(record));
        }
        id
    }

    /// Shared reference to the first field of the record at `id`, or the
    /// field's own not-found error exactly when `id` is at or beyond the
    /// container's length.
    pub fn get_field1(&self, id: RecordId) -> (r: Result<&A, LayoutError2>)
        requires
            self.wf(),
        ensures
            (id.0 as int) < self@.len() ==> (r matches Ok(v) && *v == self@[id.0 as int].field1),
            (id.0 as int) >= self@.len() ==> r == Err::<&A, LayoutError2>(
                LayoutError2::NotFoundField1,
            ),
    {
        if (id.0 as usize) < self.col1.len() {
            Ok(&self.col1[id.0 as usize])
        } else {
            Err(LayoutError2::NotFoundField1)
        }
    }

    /// Shared reference to the second field of the record at `id`, or the
    /// field's own not-found error exactly when `id` is out of range.
    pub fn get_field2(&self, id: RecordId) -> (r: Result<&B, LayoutError2>)
        requires
            self.wf(),
        ensures
            (id.0 as int) < self@.len() ==> (r matches Ok(v) && *v == self@[id.0 as int].field2),
            (id.0 as int) >= self@.len() ==> r == Err::<&B, LayoutError2>(
                LayoutError2::NotFoundField2,
            ),
    {
        if (id.0 as usize) < self.col2.len() {
            Ok(&self.col2[id.0 as usize])
        } else {
            Err(LayoutError2::NotFoundField2)
        }
    }

    /// Exclusive reference to the first field of the record at `id`, under
    /// the same bounds rule as the shared getter. No other record and no
    /// other field is touched.
    pub fn get_field1_mut(&mut self, id: RecordId) -> (r: Result<&mut A, LayoutError2>)
        requires
            old(self).wf(),
        ensures
            (id.0 as int) < old(self)@.len() ==> {
                &&& r is Ok
                &&& *r->Ok_0 == old(self)@[id.0 as int].field1
                &&& final(self)@ =~= old(self)@.update(
                    id.0 as int,
                    Record2 {
                        field1: *final(r->Ok_0),
                        field2: old(self)@[id.0 as int].field2,
                    },
                )
                &&& final(self).wf()
            },
            (id.0 as int) >= old(self)@.len() ==> {
                &&& r == Err::<&mut A, LayoutError2>(LayoutError2::NotFoundField1)
                &&& *final(self) == *old(self)
            },
    {
        if (id.0 as usize) < self.col1.len() {
            let m = &mut self.col1[id.0 as usize];
            Ok(m)
        } else {
            Err(LayoutError2::NotFoundField1)
        }
    }

    /// Exclusive reference to the second field of the record at `id`.
    pub fn get_field2_mut(&mut self, id: RecordId) -> (r: Result<&mut B, LayoutError2>)
        requires
            old(self).wf(),
        ensures
            (id.0 as int) < old(self)@.len() ==> {
                &&& r is Ok
                &&& *r->Ok_0 == old(self)@[id.0 as int].field2
                &&& final(self)@ =~= old(self)@.update(
                    id.0 as int,
                    Record2 {
                        field1: old(self)@[id.0 as int].field1,
                        field2: *final(r->Ok_0),
                    },
                )
                &&& final(self).wf()
            },
            (id.0 as int) >= old(self)@.len() ==> {
                &&& r == Err::<&mut B, LayoutError2>(LayoutError2::NotFoundField2)
                &&& *final(self) == *old(self)
            },
    {
        if (id.0 as usize) < self.col2.len() {
            let m = &mut self.col2[id.0 as usize];
            Ok(m)
        } else {
            Err(LayoutError2::NotFoundField2)
        }
    }

    /// All values of the first field, in ascending id order.
    pub fn field1(&self) -> (r: Vec<&A>)
        requires
            self.wf(),
        ensures
            r@.len() == self@.len(),
            forall|i: int| 0 <= i < r@.len() ==> *r@[i] == self@[i].field1,
    {
        let mut out: Vec<&A> = Vec::new();
        let n = self.col1.len();
        let mut i: usize = 0;
        while i < n
            invariant
                n == self@.len(),
                i <= n,
                out@.len() == i,
                forall|k: int| 0 <= k < i ==> *out@[k] == self@[k].field1,
            decreases n - i,
        {
            out.push(&self.col1[i]);
            i += 1;
        }
        out
    }

    /// All values of the second field, in ascending id order.
    pub fn field2(&self) -> (r: Vec<&B>)
        requires
            self.wf(),
        ensures
            r@.len() == self@.len(),
            forall|i: int| 0 <= i < r@.len() ==> *r@[i] == self@[i].field2,
    {
        let mut out: Vec<&B> = Vec::new();
        let n = self.col2.len();
        let mut i: usize = 0;
        while i < n
            invariant
                self.wf(),
                n == self@.len(),
                i <= n,
                out@.len() == i,
                forall|k: int| 0 <= k < i ==> *out@[k] == self@[k].field2,
            decreases n - i,
        {
            out.push(&self.col2[i]);
            i += 1;
        }
        out
    }

    /// The first field's values paired with their ids, in ascending id
    /// order starting at 0.
    pub fn get_field1_enumerated(&self) -> (r: Vec<(RecordId, &A)>)
        requires
            self.wf(),
        ensures
            r@.len() == self@.len(),
            forall|i: int|
                0 <= i < r@.len() ==> (r@[i].0.0 as int == i && *r@[i].1 == self@[i].field1),
    {
        let mut out: Vec<(RecordId, &A)> = Vec::new();
        let n = self.col1.len();
        let mut i: usize = 0;
        while i < n
            invariant
                self.wf(),
                n == self@.len(),
                i <= n,
                out@.len() == i,
                forall|k: int|
                    0 <= k < i ==> (out@[k].0.0 as int == k && *out@[k].1 == self@[k].field1),
            decreases n - i,
        {
            out.push((RecordId(i as u32), &self.col1[i]));
            i += 1;
        }
        out
    }

    /// The second field's values paired with their ids, in ascending id
    /// order starting at 0.
    pub fn get_field2_enumerated(&self) -> (r: Vec<(RecordId, &B)>)
        requires
            self.wf(),
        ensures
            r@.len() == self@.len(),
            forall|i: int|
                0 <= i < r@.len() ==> (r@[i].0.0 as int == i && *r@[i].1 == self@[i].field2),
    {
        let mut out: Vec<(RecordId, &B)> = Vec::new();
        let n = self.col2.len();
        let mut i: usize = 0;
        while i < n
            invariant
                self.wf(),
                n == self@.len(),
                i <= n,
                out@.len() == i,
                forall|k: int|
                    0 <= k < i ==> (out@[k].0.0 as int == k && *out@[k].1 == self@[k].field2),
            decreases n - i,
        {
            out.push((RecordId(i as u32), &self.col2[i]));
            i += 1;
        }
        out
    }

    /// Whole-record iterator, starting at id 0.
    pub fn iter(&self) -> (r: ColumnarIter2<'_, A, B>)
        requires
            self.wf(),
        ensures
            r.wf(),
            r.src() == self@,
            r.pos() == 0,
    {
        ColumnarIter2 { layout: self, index: 0 }
    }

    /// Every stored record as a borrowed view, paired with its id, in
    /// ascending id order: ids run from 0 up to the container's length,
    /// one per record, with no gap and no repeat.
    pub fn iter_enumerated(&self) -> (r: Vec<(RecordId, Ref2<'_, A, B>)>)
        requires
            self.wf(),
        ensures
            r@.len() == self@.len(),
            forall|i: int| #![trigger r@[i]]
                0 <= i < r@.len() ==> {
                    &&& r@[i].0.0 as int == i
                    &&& *r@[i].1.field1 == self@[i].field1
                    &&& *r@[i].1.field2 == self@[i].field2
                },
    {
        let mut out: Vec<(RecordId, Ref2<'_, A, B>)> = Vec::new();
        let n = self.col1.len();
        let mut i: usize = 0;
        while i < n
            invariant
                self.wf(),
                n == self@.len(),
                i <= n,
                out@.len() == i,
                forall|k: int| #![trigger out@[k]]
                    0 <= k < i ==> {
                        &&& out@[k].0.0 as int == k
                        &&& *out@[k].1.field1 == self@[k].field1
                        &&& *out@[k].1.field2 == self@[k].field2
                    },
            decreases n - i,
        {
            let record_ref = Ref2 { field1: &self.col1[i], field2: &self.col2[i] };
            out.push((RecordId(i as u32), record_ref));
            i += 1;
        }
        out
    }
}

impl<A: Field, B: Field> Columnar2<A, B> {
    /// Structural diff against another container of the same schema. For
    /// each field in schema order, the two value columns are zipped
    /// positionally (not by id) and every disagreement yields one line
    /// naming the field, the zero-based position and both values. The zip
    /// stops at the shorter column; positions beyond it are ignored.
    /// Returns `None` exactly when no compared position disagrees. Diffing
    /// never fails.
    pub fn diff(&self, other: &Self) -> (r: Option<String>)
        requires
            self.wf(),
            other.wf(),
        ensures
            (r is Some) <==> diff_report2(self@, other@).len() > 0,
            r matches Some(s) ==> s@ == diff_report2(self@, other@),
    {
        let ghost xs1 = field1_seq(self@);
        let ghost ys1 = field1_seq(other@);
        let ghost xs2 = field2_seq(self@);
        let ghost ys2 = field2_seq(other@);
        let mut out = String::new();
        let n = if self.col1.len() <= other.col1.len() {
            self.col1.len()
        } else {
            other.col1.len()
        };
        let mut i: usize = 0;
        while i < n
            invariant
                self.wf(),
                other.wf(),
                xs1 == field1_seq(self@),
                ys1 == field1_seq(other@),
                n == zip_len(xs1, ys1),
                i <= n,
                out@ == field_report_upto("field1"@, xs1, ys1, i as nat),
            decreases n - i,
        {
            let a = &self.col1[i];
            let b = &other.col1[i];
            if !a.eq_value(b) {
                append_diff_line(&mut out, "field1", i, a, b);
            }
            i += 1;
            proof {
                assert(out@ =~= field_report_upto("field1"@, xs1, ys1, i as nat));
            }
        }
        let mut i: usize = 0;
        while i < n
            invariant
                self.wf(),
                other.wf(),
                xs1 == field1_seq(self@),
                ys1 == field1_seq(other@),
                xs2 == field2_seq(self@),
                ys2 == field2_seq(other@),
                n == zip_len(xs1, ys1),
                n == zip_len(xs2, ys2),
                i <= n,
                out@ == field_report("field1"@, xs1, ys1) + field_report_upto(
                    "field2"@,
                    xs2,
                    ys2,
                    i as nat,
                ),
            decreases n - i,
        {
            let a = &self.col2[i];
            let b = &other.col2[i];
            if !a.eq_value(b) {
                append_diff_line(&mut out, "field2", i, a, b);
            }
            i += 1;
            proof {
                assert(out@ =~= field_report("field1"@, xs1, ys1) + field_report_upto(
                    "field2"@,
                    xs2,
                    ys2,
                    i as nat,
                ));
            }
        }
        proof {
            assert(out@ =~= diff_report2(self@, other@));
        }
        if out.as_str().is_empty() {
            None
        } else {
            Some(out)
        }
    }
}

/// Whole-record iterator over a columnar container: starting from id 0 it
/// assembles one borrowed record view per call from the per-field getters,
/// and ends exactly when a getter first fails — at the container's length,
/// which the layout invariant makes simultaneous for all fields.
pub struct ColumnarIter2<'a, A, B> {
    layout: &'a Columnar2<A, B>,
    index: u32,
}

impl<'a, A, B> ColumnarIter2<'a, A, B> {
    /// The record sequence being walked.
    pub closed spec fn src(&self) -> Seq<Record2<A, B>> {
        self.layout@
    }

    /// The id the next call will yield.
    pub closed spec fn pos(&self) -> int {
        self.index as int
    }

    /// The iterator walks a well-formed container.
    pub closed spec fn wf(&self) -> bool {
        self.layout.wf()
    }

    /// Yield the record at the current id and advance, or `None` once the
    /// id has reached the container's length.
    pub fn next(&mut self) -> (r: Option<Ref2<'a, A, B>>)
        requires
            old(self).wf(),
        ensures
            final(self).wf(),
            final(self).src() == old(self).src(),
            old(self).pos() < old(self).src().len() ==> {
                &&& r matches Some(x)
                &&& *x.field1 == old(self).src()[old(self).pos()].field1
                &&& *x.field2 == old(self).src()[old(self).pos()].field2
                &&& final(self).pos() == old(self).pos() + 1
            },
            old(self).pos() >= old(self).src().len() ==> {
                &&& r is None
                &&& final(self).pos() == old(self).pos()
            },
    {
        let layout = self.layout;
        let id = RecordId(self.index);
        let field1 = match layout.get_field1(id) {
            Ok(v) => v,
            Err(_) => {
                return None;
            },
        };
        let field2 = match layout.get_field2(id) {
            Ok(v) => v,
            Err(_) => {
                return None;
            },
        };
        self.index = self.index + 1;
        Some(Ref2 { field1, field2 })
    }
}

} // verus!
