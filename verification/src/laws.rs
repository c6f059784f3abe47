//! The container laws that span several operations, stated over the
//! abstract record sequences and proved once for both storage strategies.
//! The per-operation laws live in the operations' own contracts: insertion
//! identity in `add` and the getters, length consistency in `add`, `len`
//! and `is_empty`, and iteration order in `iter_enumerated` and the
//! iterators' `next`.

use vstd::prelude::*;

use crate::columnar::Columnar2;
use crate::columnar3::Columnar3;
use crate::field::Field;
use crate::project::{field1_seq, field1_seq3, field2_seq, field2_seq3, field3_seq3};
use crate::record::{Record2, Record3};
use crate::report::{
    diff_line, diff_report2, diff_report3, lemma_diff_line_nonempty,
    lemma_field_report_upto_empty, lemma_field_report_upto_single, zip_len,
};
use crate::rowmajor::RowMajor2;
use crate::rowmajor3::RowMajor3;

verus! {

/// Cross-strategy equivalence. A columnar and a row-major container built
/// by the same insertion sequence hold the same abstract record sequence:
/// `new` gives both the empty sequence and `add` appends the inserted
/// record to both, by their contracts. This lemma states the rest of the
/// equivalence: with equal record sequences, the lengths agree and the
/// collected column of every field coincides — and since every lookup,
/// enumeration and iteration contract of both containers is the same
/// function of the record sequence, every observation agrees.
pub proof fn lemma_cross_strategy_equivalence<A: Field, B: Field>(
    c: Columnar2<A, B>,
    m: RowMajor2<A, B>,
)
    requires
        c@ == m@,
    ensures
        c@.len() == m@.len(),
        field1_seq(c@) == field1_seq(m@),
        field2_seq(c@) == field2_seq(m@),
{
}

/// Cross-strategy equivalence of diffing: two pairs of containers with
/// equal record sequences produce the identical diff report, whichever
/// strategy each container stores its records under.
pub proof fn lemma_cross_strategy_diff<A: Field, B: Field>(
    c1: Columnar2<A, B>,
    c2: Columnar2<A, B>,
    m1: RowMajor2<A, B>,
    m2: RowMajor2<A, B>,
)
    requires
        c1@ == m1@,
        c2@ == m2@,
    ensures
        diff_report2(c1@, c2@) == diff_report2(m1@, m2@),
{
}

/// Diff reflexivity: a record sequence diffed against itself reports
/// nothing. Together with `diff`'s contract this gives `diff(x, x) ==
/// None` for every well-formed container of either strategy.
pub proof fn lemma_diff_reflexive<A: Field, B: Field>(s: Seq<Record2<A, B>>)
    ensures
        diff_report2(s, s).len() == 0,
{
    let f1 = field1_seq(s);
    let f2 = field2_seq(s);
    assert forall|i: int| 0 <= i < f1.len() implies f1[i].value_eq(&f1[i]) by {
        f1[i].lemma_value_eq_reflexive();
    };
    assert forall|i: int| 0 <= i < f2.len() implies f2[i].value_eq(&f2[i]) by {
        f2[i].lemma_value_eq_reflexive();
    };
    lemma_field_report_upto_empty("field1"@, f1, f1, zip_len(f1, f1));
    lemma_field_report_upto_empty("field2"@, f2, f2, zip_len(f2, f2));
}

/// Diff precision, first field: if two equal-length record sequences
/// agree everywhere except in the first field at exactly one position,
/// the whole report is exactly that position's line for that field — it
/// is non-empty and names that field and no other.
pub proof fn lemma_diff_pinpoints_field1<A: Field, B: Field>(
    x: Seq<Record2<A, B>>,
    y: Seq<Record2<A, B>>,
    j: int,
)
    requires
        x.len() == y.len(),
        0 <= j < x.len(),
        forall|i: int| 0 <= i < x.len() && i != j ==> x[i].field1.value_eq(&y[i].field1),
        !x[j].field1.value_eq(&y[j].field1),
        forall|i: int| 0 <= i < x.len() ==> x[i].field2.value_eq(&y[i].field2),
    ensures
        diff_report2(x, y) == diff_line("field1"@, j as nat, x[j].field1, y[j].field1),
        diff_report2(x, y).len() > 0,
{
    let f1x = field1_seq(x);
    let f1y = field1_seq(y);
    let f2x = field2_seq(x);
    let f2y = field2_seq(y);
    lemma_field_report_upto_single("field1"@, f1x, f1y, j, zip_len(f1x, f1y));
    lemma_field_report_upto_empty("field2"@, f2x, f2y, zip_len(f2x, f2y));
    lemma_diff_line_nonempty("field1"@, j as nat, x[j].field1, y[j].field1);
    assert(diff_report2(x, y) =~= diff_line("field1"@, j as nat, x[j].field1, y[j].field1));
}

/// Cross-strategy equivalence for the three-field containers, as for the
/// two-field ones.
pub proof fn lemma_cross_strategy_equivalence3<A: Field, B: Field, C: Field>(
    c: Columnar3<A, B, C>,
    m: RowMajor3<A, B, C>,
)
    requires
        c@ == m@,
    ensures
        c@.len() == m@.len(),
        field1_seq3(c@) == field1_seq3(m@),
        field2_seq3(c@) == field2_seq3(m@),
        field3_seq3(c@) == field3_seq3(m@),
{
}

/// Cross-strategy equivalence of diffing for the three-field containers.
pub proof fn lemma_cross_strategy_diff3<A: Field, B: Field, C: Field>(
    c1: Columnar3<A, B, C>,
    c2: Columnar3<A, B, C>,
    m1: RowMajor3<A, B, C>,
    m2: RowMajor3<A, B, C>,
)
    requires
        c1@ == m1@,
        c2@ == m2@,
    ensures
        diff_report3(c1@, c2@) == diff_report3(m1@, m2@),
{
}

/// Diff reflexivity for three-field record sequences.
pub proof fn lemma_diff_reflexive3<A: Field, B: Field, C: Field>(s: Seq<Record3<A, B, C>>)
    ensures
        diff_report3(s, s).len() == 0,
{
    let f1 = field1_seq3(s);
    let f2 = field2_seq3(s);
    let f3 = field3_seq3(s);
    assert forall|i: int| 0 <= i < f1.len() implies f1[i].value_eq(&f1[i]) by {
        f1[i].lemma_value_eq_reflexive();
    };
    assert forall|i: int| 0 <= i < f2.len() implies f2[i].value_eq(&f2[i]) by {
        f2[i].lemma_value_eq_reflexive();
    };
    assert forall|i: int| 0 <= i < f3.len() implies f3[i].value_eq(&f3[i]) by {
        f3[i].lemma_value_eq_reflexive();
    };
    lemma_field_report_upto_empty("field1"@, f1, f1, zip_len(f1, f1));
    lemma_field_report_upto_empty("field2"@, f2, f2, zip_len(f2, f2));
    lemma_field_report_upto_empty("field3"@, f3, f3, zip_len(f3, f3));
}

/// Diff precision for three-field record sequences: a lone disagreement
/// in the second field at one position makes the whole report exactly
/// that position's line for that field. The first and third fields have
/// the same property by the symmetry of the report.
pub proof fn lemma_diff_pinpoints3_field2<A: Field, B: Field, C: Field>(
    x: Seq<Record3<A, B, C>>,
    y: Seq<Record3<A, B, C>>,
    j: int,
)
    requires
        x.len() == y.len(),
        0 <= j < x.len(),
        forall|i: int| 0 <= i < x.len() ==> x[i].field1.value_eq(&y[i].field1),
        forall|i: int| 0 <= i < x.len() && i != j ==> x[i].field2.value_eq(&y[i].field2),
        !x[j].field2.value_eq(&y[j].field2),
        forall|i: int| 0 <= i < x.len() ==> x[i].field3.value_eq(&y[i].field3),
    ensures
        diff_report3(x, y) == diff_line("field2"@, j as nat, x[j].field2, y[j].field2),
        diff_report3(x, y).len() > 0,
{
    let f1x = field1_seq3(x);
    let f1y = field1_seq3(y);
    let f2x = field2_seq3(x);
    let f2y = field2_seq3(y);
    let f3x = field3_seq3(x);
    let f3y = field3_seq3(y);
    lemma_field_report_upto_empty("field1"@, f1x, f1y, zip_len(f1x, f1y));
    lemma_field_report_upto_single("field2"@, f2x, f2y, j, zip_len(f2x, f2y));
    lemma_field_report_upto_empty("field3"@, f3x, f3y, zip_len(f3x, f3y));
    lemma_diff_line_nonempty("field2"@, j as nat, x[j].field2, y[j].field2);
    assert(diff_report3(x, y) =~= diff_line("field2"@, j as nat, x[j].field2, y[j].field2));
}

/// Diff precision, second field: the mirror statement for a lone
/// disagreement in the second field.
pub proof fn lemma_diff_pinpoints_field2<A: Field, B: Field>(
    x: Seq<Record2<A, B>>,
    y: Seq<Record2<A, B>>,
    j: int,
)
    requires
        x.len() == y.len(),
        0 <= j < x.len(),
        forall|i: int| 0 <= i < x.len() ==> x[i].field1.value_eq(&y[i].field1),
        forall|i: int| 0 <= i < x.len() && i != j ==> x[i].field2.value_eq(&y[i].field2),
        !x[j].field2.value_eq(&y[j].field2),
    ensures
        diff_report2(x, y) == diff_line("field2"@, j as nat, x[j].field2, y[j].field2),
        diff_report2(x, y).len() > 0,
{
    let f1x = field1_seq(x);
    let f1y = field1_seq(y);
    let f2x = field2_seq(x);
    let f2y = field2_seq(y);
    lemma_field_report_upto_empty("field1"@, f1x, f1y, zip_len(f1x, f1y));
    lemma_field_report_upto_single("field2"@, f2x, f2y, j, zip_len(f2x, f2y));
    lemma_diff_line_nonempty("field2"@, j as nat, x[j].field2, y[j].field2);
    assert(diff_report2(x, y) =~= diff_line("field2"@, j as nat, x[j].field2, y[j].field2));
}

} // verus!
