use vstd::prelude::*;

use crate::field::Field;
use crate::project::{field1_seq, field2_seq, field1_seq3, field2_seq3, field3_seq3};
use crate::record::{Record2, Record3};
use crate::render::{dec_rep, render_u64};

verus! {

use vstd::string::StringExecFns;

/// One report line for a disagreement of field `name` at position `i`: a
/// newline, the field name, the zero-based position, then both renderings.
pub open spec fn diff_line<T: Field>(name: Seq<char>, i: nat, a: T, b: T) -> Seq<char> {
    "\n"@ + name + " "@ + dec_rep(i) + ": "@ + a.rendered() + " vs "@ + b.rendered()
}

/// The shorter of two column lengths: the positional zip of a diff stops
/// there, and positions beyond it are ignored.
pub open spec fn zip_len<T>(xs: Seq<T>, ys: Seq<T>) -> nat {
    if xs.len() <= ys.len() {
        xs.len()
    } else {
        ys.len()
    }
}

/// The lines field `name` contributes for the first `k` positions of the
/// positional zip of its two columns: one line per disagreement, in
/// ascending position order.
pub open spec fn field_report_upto<T: Field>(
    name: Seq<char>,
    xs: Seq<T>,
    ys: Seq<T>,
    k: nat,
) -> Seq<char>
    decreases k,
{
    if k == 0 {
        Seq::empty()
    } else {
        let j = (k - 1) as int;
        field_report_upto(name, xs, ys, (k - 1) as nat) + (if xs[j].value_eq(&ys[j]) {
            Seq::empty()
        } else {
            diff_line(name, (k - 1) as nat, xs[j], ys[j])
        })
    }
}

/// Every line field `name` contributes to a diff report.
pub open spec fn field_report<T: Field>(name: Seq<char>, xs: Seq<T>, ys: Seq<T>) -> Seq<char> {
    field_report_upto(name, xs, ys, zip_len(xs, ys))
}

/// The full report for two two-field record sequences: the first field's
/// lines, then the second field's, in schema order.
pub open spec fn diff_report2<A: Field, B: Field>(
    x: Seq<Record2<A, B>>,
    y: Seq<Record2<A, B>>,
) -> Seq<char> {
    field_report("field1"@, field1_seq(x), field1_seq(y)) + field_report(
        "field2"@,
        field2_seq(x),
        field2_seq(y),
    )
}

/// The full report for two three-field record sequences: each field's
/// lines in schema order.
pub open spec fn diff_report3<A: Field, B: Field, C: Field>(
    x: Seq<Record3<A, B, C>>,
    y: Seq<Record3<A, B, C>>,
) -> Seq<char> {
    field_report("field1"@, field1_seq3(x), field1_seq3(y)) + field_report(
        "field2"@,
        field2_seq3(x),
        field2_seq3(y),
    ) + field_report("field3"@, field3_seq3(x), field3_seq3(y))
}

/// A report line is never empty: it starts with a newline.
pub proof fn lemma_diff_line_nonempty<T: Field>(name: Seq<char>, i: nat, a: T, b: T)
    ensures
        diff_line(name, i, a, b).len() > 0,
{
    reveal_strlit("\n");
}

/// A field's report over the first `k` positions is empty exactly when the
/// two columns agree at every one of those positions.
pub proof fn lemma_field_report_upto_empty<T: Field>(
    name: Seq<char>,
    xs: Seq<T>,
    ys: Seq<T>,
    k: nat,
)
    ensures
        (field_report_upto(name, xs, ys, k).len() == 0) <==> (forall|i: int|
            0 <= i < k ==> xs[i].value_eq(&ys[i])),
    decreases k,
{
    if k > 0 {
        let j = (k - 1) as int;
        lemma_field_report_upto_empty(name, xs, ys, (k - 1) as nat);
        if !xs[j].value_eq(&ys[j]) {
            lemma_diff_line_nonempty(name, (k - 1) as nat, xs[j], ys[j]);
        }
    }
}

/// If the two columns agree at every compared position except exactly one,
/// the field's report is exactly that position's line.
pub proof fn lemma_field_report_upto_single<T: Field>(
    name: Seq<char>,
    xs: Seq<T>,
    ys: Seq<T>,
    j: int,
    k: nat,
)
    requires
        0 <= j < k,
        forall|i: int| 0 <= i < k && i != j ==> xs[i].value_eq(&ys[i]),
        !xs[j].value_eq(&ys[j]),
    ensures
        field_report_upto(name, xs, ys, k) == diff_line(name, j as nat, xs[j], ys[j]),
    decreases k,
{
    let prev = (k - 1) as nat;
    if j == k - 1 {
        lemma_field_report_upto_empty(name, xs, ys, prev);
        assert(field_report_upto(name, xs, ys, prev) =~= Seq::empty());
        assert(field_report_upto(name, xs, ys, k) =~= diff_line(name, j as nat, xs[j], ys[j]));
    } else {
        lemma_field_report_upto_single(name, xs, ys, j, prev);
        assert(field_report_upto(name, xs, ys, k) =~= diff_line(name, j as nat, xs[j], ys[j]));
    }
}

/// Append one report line for a disagreement of field `name` at position
/// `i` to a report under construction.
pub fn append_diff_line<T: Field>(out: &mut String, name: &str, i: usize, a: &T, b: &T)
    ensures
        final(out)@ == old(out)@ + diff_line(name@, i as nat, *a, *b),
{
    out.append("\n");
    out.append(name);
    out.append(" ");
    let num = render_u64(i as u64);
    out.append(num.as_str());
    out.append(": ");
    let left = a.render();
    out.append(left.as_str());
    out.append(" vs ");
    let right = b.render();
    out.append(right.as_str());
    proof {
        assert(out@ =~= old(out)@ + diff_line(name@, i as nat, *a, *b));
    }
}

} // verus!
