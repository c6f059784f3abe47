use vstd::prelude::*;

use crate::render::{dec_rep, dec_rep_int, render_i64, render_u64, str_eq};

verus! {

use vstd::string::StringExecFns;

/// A value that can occupy a field of a diffable container.
///
/// The diff algorithm compares field values positionally and prints both
/// sides of every disagreement, so a field value must know when two values
/// agree and how to render itself; both are pinned at the specification
/// level so the whole report text is an exact function of the stored data.
pub trait Field: Sized {
    /// When two field values agree, as the diff sees it.
    spec fn value_eq(&self, other: &Self) -> bool;

    /// The report rendering of this value.
    spec fn rendered(&self) -> Seq<char>;

    /// Agreement is reflexive: every value agrees with itself.
    proof fn lemma_value_eq_reflexive(&self)
        ensures
            self.value_eq(self),
    ;

    /// Decide agreement of two values.
    fn eq_value(&self, other: &Self) -> (r: bool)
        ensures
            r == self.value_eq(other),
    ;

    /// Render this value for a diff report.
    fn render(&self) -> (s: String)
        ensures
            s@ == self.rendered(),
    ;
}

impl Field for u8 {
    open spec fn value_eq(&self, other: &Self) -> bool {
        self == other
    }

    open spec fn rendered(&self) -> Seq<char> {
        dec_rep(*self as nat)
    }

    proof fn lemma_value_eq_reflexive(&self) {
    }

    fn eq_value(&self, other: &Self) -> (r: bool) {
        *self == *other
    }

    fn render(&self) -> (s: String) {
        render_u64(*self as u64)
    }
}

impl Field for u16 {
    open spec fn value_eq(&self, other: &Self) -> bool {
        self == other
    }

    open spec fn rendered(&self) -> Seq<char> {
        dec_rep(*self as nat)
    }

    proof fn lemma_value_eq_reflexive(&self) {
    }

    fn eq_value(&self, other: &Self) -> (r: bool) {
        *self == *other
    }

    fn render(&self) -> (s: String) {
        render_u64(*self as u64)
    }
}

impl Field for u32 {
    open spec fn value_eq(&self, other: &Self) -> bool {
        self == other
    }

    open spec fn rendered(&self) -> Seq<char> {
        dec_rep(*self as nat)
    }

    proof fn lemma_value_eq_reflexive(&self) {
    }

    fn eq_value(&self, other: &Self) -> (r: bool) {
        *self == *other
    }

    fn render(&self) -> (s: String) {
        render_u64(*self as u64)
    }
}

impl Field for u64 {
    open spec fn value_eq(&self, other: &Self) -> bool {
        self == other
    }

    open spec fn rendered(&self) -> Seq<char> {
        dec_rep(*self as nat)
    }

    proof fn lemma_value_eq_reflexive(&self) {
    }

    fn eq_value(&self, other: &Self) -> (r: bool) {
        *self == *other
    }

    fn render(&self) -> (s: String) {
        render_u64(*self)
    }
}

impl Field for i32 {
    open spec fn value_eq(&self, other: &Self) -> bool {
        self == other
    }

    open spec fn rendered(&self) -> Seq<char> {
        dec_rep_int(*self as int)
    }

    proof fn lemma_value_eq_reflexive(&self) {
    }

    fn eq_value(&self, other: &Self) -> (r: bool) {
        *self == *other
    }

    fn render(&self) -> (s: String) {
        render_i64(*self as i64)
    }
}

impl Field for i64 {
    open spec fn value_eq(&self, other: &Self) -> bool {
        self == other
    }

    open spec fn rendered(&self) -> Seq<char> {
        dec_rep_int(*self as int)
    }

    proof fn lemma_value_eq_reflexive(&self) {
    }

    fn eq_value(&self, other: &Self) -> (r: bool) {
        *self == *other
    }

    fn render(&self) -> (s: String) {
        render_i64(*self)
    }
}

impl Field for String {
    /// Two texts agree when they hold the same characters.
    open spec fn value_eq(&self, other: &Self) -> bool {
        self@ == other@
    }

    /// Text is rendered between double quotes, unescaped.
    open spec fn rendered(&self) -> Seq<char> {
        seq!['"'] + self@ + seq!['"']
    }

    proof fn lemma_value_eq_reflexive(&self) {
    }

    fn eq_value(&self, other: &Self) -> (r: bool) {
        str_eq(self.as_str(), other.as_str())
    }

    fn render(&self) -> (s: String) {
        let mut out = String::from_str("\"");
        out.append(self.as_str());
        out.append("\"");
        proof {
            reveal_strlit("\"");
            assert(out@ =~= self.rendered());
        }
        out
    }
}

impl<T: Field> Field for Option<T> {
    /// Two optional values agree when both are absent, or both are present
    /// and the inner values agree.
    open spec fn value_eq(&self, other: &Self) -> bool {
        match (self, other) {
            (Option::None, Option::None) => true,
            (Option::Some(a), Option::Some(b)) => a.value_eq(b),
            _ => false,
        }
    }

    open spec fn rendered(&self) -> Seq<char> {
        match self {
            Option::None => "None"@,
            Option::Some(v) => "Some("@ + v.rendered() + ")"@,
        }
    }

    proof fn lemma_value_eq_reflexive(&self) {
        match self {
            Option::Some(v) => v.lemma_value_eq_reflexive(),
            Option::None => {},
        }
    }

    fn eq_value(&self, other: &Self) -> (r: bool) {
        match (self, other) {
            (Option::None, Option::None) => true,
            (Option::Some(a), Option::Some(b)) => a.eq_value(b),
            _ => false,
        }
    }

    fn render(&self) -> (s: String) {
        match self {
            Option::None => String::from_str("None"),
            Option::Some(v) => {
                let mut out = String::from_str("Some(");
                out.append(v.render().as_str());
                out.append(")");
                out
            },
        }
    }
}

} // verus!
