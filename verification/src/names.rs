use vstd::prelude::*;

use crate::schema::Schema;

verus! {

use vstd::string::StringExecFns;

// ---------------------------------------------------------------------------
// The derivation scheme, stated once at the specification level. Every
// synthesized identifier is a pure function of the record type's name and of
// the field names; the executable builders below are proved against these.
// ---------------------------------------------------------------------------

/// Name of the generated container type.
pub open spec fn spec_container_ident(record_name: Seq<char>) -> Seq<char> {
    record_name + "sLayout"@
}

/// Name of the generated identity type.
pub open spec fn spec_id_ident(record_name: Seq<char>) -> Seq<char> {
    record_name + "Id"@
}

/// Name of the generated error type.
pub open spec fn spec_error_ident(record_name: Seq<char>) -> Seq<char> {
    record_name + "sError"@
}

/// Name of the generated borrowed-view type.
pub open spec fn spec_ref_ident(record_name: Seq<char>) -> Seq<char> {
    record_name + "Ref"@
}

/// Name of the generated whole-record iterator type.
pub open spec fn spec_iter_ident(record_name: Seq<char>) -> Seq<char> {
    record_name + "sIter"@
}

/// Name of a field's getter.
pub open spec fn spec_getter_ident(field: Seq<char>) -> Seq<char> {
    "get_"@ + field
}

/// Name of a field's enumerated getter.
pub open spec fn spec_getter_enumerated_ident(field: Seq<char>) -> Seq<char> {
    "get_"@ + field + "_enumerated"@
}

/// Name of a field's mutable getter.
pub open spec fn spec_getter_mut_ident(field: Seq<char>) -> Seq<char> {
    "get_"@ + field + "_mut"@
}

/// Name of a field's not-found error variant.
pub open spec fn spec_not_found_ident(field: Seq<char>) -> Seq<char> {
    "NotFound_"@ + field
}

// ---------------------------------------------------------------------------
// Executable builders.
// ---------------------------------------------------------------------------

/// Derive the container type's name.
pub fn container_ident(record_name: &str) -> (r: String)
    ensures
        r@ == spec_container_ident(record_name@),
{
    String::from_str(record_name).concat("sLayout")
}

/// Derive the identity type's name.
pub fn id_ident(record_name: &str) -> (r: String)
    ensures
        r@ == spec_id_ident(record_name@),
{
    String::from_str(record_name).concat("Id")
}

/// Derive the error type's name.
pub fn error_ident(record_name: &str) -> (r: String)
    ensures
        r@ == spec_error_ident(record_name@),
{
    String::from_str(record_name).concat("sError")
}

/// Derive the borrowed-view type's name.
pub fn ref_ident(record_name: &str) -> (r: String)
    ensures
        r@ == spec_ref_ident(record_name@),
{
    String::from_str(record_name).concat("Ref")
}

/// Derive the iterator type's name.
pub fn iter_ident(record_name: &str) -> (r: String)
    ensures
        r@ == spec_iter_ident(record_name@),
{
    String::from_str(record_name).concat("sIter")
}

/// Derive a field's getter name.
pub fn getter_ident(field: &str) -> (r: String)
    ensures
        r@ == spec_getter_ident(field@),
{
    String::from_str("get_").concat(field)
}

/// Derive a field's enumerated getter name.
pub fn getter_enumerated_ident(field: &str) -> (r: String)
    ensures
        r@ == spec_getter_enumerated_ident(field@),
{
    String::from_str("get_").concat(field).concat("_enumerated")
}

/// Derive a field's mutable getter name.
pub fn getter_mut_ident(field: &str) -> (r: String)
    ensures
        r@ == spec_getter_mut_ident(field@),
{
    String::from_str("get_").concat(field).concat("_mut")
}

/// Derive a field's not-found error variant name.
pub fn not_found_ident(field: &str) -> (r: String)
    ensures
        r@ == spec_not_found_ident(field@),
{
    String::from_str("NotFound_").concat(field)
}

// ---------------------------------------------------------------------------
// Collision-freedom of the derivation scheme.
// ---------------------------------------------------------------------------

/// `suffix` is a suffix of `s`.
pub open spec fn has_suffix(s: Seq<char>, suffix: Seq<char>) -> bool {
    s.len() >= suffix.len() && s.subrange(s.len() - suffix.len(), s.len() as int) == suffix
}

/// A field name is admissible for synthesis when it does not end in one of
/// the fixed getter suffixes; the synthesizer does not check this, it is
/// the documented precondition of the derivation scheme.
pub open spec fn admissible_field_name(f: Seq<char>) -> bool {
    &&& !has_suffix(f, "_mut"@)
    &&& !has_suffix(f, "_enumerated"@)
}

/// Prepending one sequence is injective.
proof fn lemma_prepend_injective(p: Seq<char>, a: Seq<char>, b: Seq<char>)
    requires
        p + a == p + b,
    ensures
        a == b,
{
    assert((p + a).len() == p.len() + a.len());
    assert((p + b).len() == p.len() + b.len());
    assert(a.len() == b.len());
    assert forall|i: int| 0 <= i < a.len() implies a[i] == b[i] by {
        assert((p + a)[p.len() + i] == a[i]);
        assert((p + b)[p.len() + i] == b[i]);
    };
    assert(a =~= b);
}

/// Appending one sequence is injective.
proof fn lemma_append_injective(a: Seq<char>, b: Seq<char>, s: Seq<char>)
    requires
        a + s == b + s,
    ensures
        a == b,
{
    assert((a + s).len() == a.len() + s.len());
    assert((b + s).len() == b.len() + s.len());
    assert(a.len() == b.len());
    assert forall|i: int| 0 <= i < a.len() implies a[i] == b[i] by {
        assert((a + s)[i] == a[i]);
        assert((b + s)[i] == b[i]);
    };
    assert(a =~= b);
}

/// A sequence built by appending `s` ends in `s`.
proof fn lemma_concat_has_suffix(a: Seq<char>, s: Seq<char>)
    ensures
        has_suffix(a + s, s),
{
    assert((a + s).subrange(a.len() as int, (a + s).len() as int) =~= s);
}

/// Collision-freedom of the synthesized method and variant names, for any
/// two admissible field names: a getter, an enumerated getter, a mutable
/// getter or a not-found variant collides with another synthesized name
/// only if the two field names are the same and the two names belong to
/// the same family. Field-name uniqueness is the schema's own invariant,
/// so a schema of unique, admissible field names synthesizes pairwise
/// distinct names.
pub proof fn lemma_field_names_collision_free(f: Seq<char>, g: Seq<char>)
    requires
        admissible_field_name(f),
        admissible_field_name(g),
    ensures
        f != g ==> spec_getter_ident(f) != spec_getter_ident(g),
        f != g ==> spec_getter_enumerated_ident(f) != spec_getter_enumerated_ident(g),
        f != g ==> spec_getter_mut_ident(f) != spec_getter_mut_ident(g),
        f != g ==> spec_not_found_ident(f) != spec_not_found_ident(g),
        spec_getter_ident(f) != spec_getter_mut_ident(g),
        spec_getter_ident(f) != spec_getter_enumerated_ident(g),
        spec_getter_mut_ident(f) != spec_getter_enumerated_ident(g),
        spec_not_found_ident(f) != spec_getter_ident(g),
        spec_not_found_ident(f) != spec_getter_mut_ident(g),
        spec_not_found_ident(f) != spec_getter_enumerated_ident(g),
{
    reveal_strlit("get_");
    reveal_strlit("NotFound_");
    reveal_strlit("_mut");
    reveal_strlit("_enumerated");

    // Within one family the field name is recoverable, so distinct field
    // names give distinct names.
    if spec_getter_ident(f) == spec_getter_ident(g) {
        lemma_prepend_injective("get_"@, f, g);
    }
    if spec_getter_enumerated_ident(f) == spec_getter_enumerated_ident(g) {
        lemma_append_injective("get_"@ + f, "get_"@ + g, "_enumerated"@);
        lemma_prepend_injective("get_"@, f, g);
    }
    if spec_getter_mut_ident(f) == spec_getter_mut_ident(g) {
        lemma_append_injective("get_"@ + f, "get_"@ + g, "_mut"@);
        lemma_prepend_injective("get_"@, f, g);
    }
    if spec_not_found_ident(f) == spec_not_found_ident(g) {
        lemma_prepend_injective("NotFound_"@, f, g);
    }

    // A plain getter never collides with a suffixed one: the colliding
    // field name would have to end in the fixed suffix.
    if spec_getter_ident(f) == spec_getter_mut_ident(g) {
        assert(("get_"@ + g) + "_mut"@ =~= "get_"@ + (g + "_mut"@));
        lemma_prepend_injective("get_"@, f, g + "_mut"@);
        lemma_concat_has_suffix(g, "_mut"@);
    }
    if spec_getter_ident(f) == spec_getter_enumerated_ident(g) {
        assert(("get_"@ + g) + "_enumerated"@ =~= "get_"@ + (g + "_enumerated"@));
        lemma_prepend_injective("get_"@, f, g + "_enumerated"@);
        lemma_concat_has_suffix(g, "_enumerated"@);
    }

    // The two suffixed families never collide: the suffixes end in
    // different characters.
    if spec_getter_mut_ident(f) == spec_getter_enumerated_ident(g) {
        let a = spec_getter_mut_ident(f);
        let b = spec_getter_enumerated_ident(g);
        assert(a[a.len() - 1] == 't');
        assert(b[b.len() - 1] == 'd');
    }

    // A not-found variant never collides with a getter: the first
    // characters differ.
    if spec_not_found_ident(f) == spec_getter_ident(g) {
        assert(spec_not_found_ident(f)[0] == 'N');
        assert(spec_getter_ident(g)[0] == 'g');
    }
    if spec_not_found_ident(f) == spec_getter_mut_ident(g) {
        assert(spec_not_found_ident(f)[0] == 'N');
        assert(spec_getter_mut_ident(g)[0] == 'g');
    }
    if spec_not_found_ident(f) == spec_getter_enumerated_ident(g) {
        assert(spec_not_found_ident(f)[0] == 'N');
        assert(spec_getter_enumerated_ident(g)[0] == 'g');
    }
}

/// The five synthesized type names of one record type are pairwise
/// distinct: their fixed suffixes differ in length.
pub proof fn lemma_type_idents_distinct(record_name: Seq<char>)
    ensures
        spec_container_ident(record_name) != spec_id_ident(record_name),
        spec_container_ident(record_name) != spec_error_ident(record_name),
        spec_container_ident(record_name) != spec_ref_ident(record_name),
        spec_container_ident(record_name) != spec_iter_ident(record_name),
        spec_id_ident(record_name) != spec_error_ident(record_name),
        spec_id_ident(record_name) != spec_ref_ident(record_name),
        spec_id_ident(record_name) != spec_iter_ident(record_name),
        spec_error_ident(record_name) != spec_ref_ident(record_name),
        spec_error_ident(record_name) != spec_iter_ident(record_name),
        spec_ref_ident(record_name) != spec_iter_ident(record_name),
{
    reveal_strlit("sLayout");
    reveal_strlit("Id");
    reveal_strlit("sError");
    reveal_strlit("Ref");
    reveal_strlit("sIter");
    assert(spec_container_ident(record_name).len() == record_name.len() + 7);
    assert(spec_id_ident(record_name).len() == record_name.len() + 2);
    assert(spec_error_ident(record_name).len() == record_name.len() + 6);
    assert(spec_ref_ident(record_name).len() == record_name.len() + 3);
    assert(spec_iter_ident(record_name).len() == record_name.len() + 5);
}

/// The full set of identifiers synthesized for one schema: the five derived
/// type names, and one getter, enumerated getter, mutable getter and
/// not-found variant name per field, in field order.
#[derive(Debug, Clone)]
pub struct GeneratedNames {
    pub container: String,
    pub id: String,
    pub error: String,
    pub record_ref: String,
    pub iter: String,
    pub getters: Vec<String>,
    pub getters_enumerated: Vec<String>,
    pub getters_mut: Vec<String>,
    pub not_found_variants: Vec<String>,
}

impl GeneratedNames {
    /// What synthesis promises for `schema`: every name is the stated pure
    /// function of the record type's name or of the matching field's name.
    pub open spec fn derived_from(&self, schema: Schema) -> bool {
        &&& self.container@ == spec_container_ident(schema.record_name@)
        &&& self.id@ == spec_id_ident(schema.record_name@)
        &&& self.error@ == spec_error_ident(schema.record_name@)
        &&& self.record_ref@ == spec_ref_ident(schema.record_name@)
        &&& self.iter@ == spec_iter_ident(schema.record_name@)
        &&& self.getters@.len() == schema.fields@.len()
        &&& self.getters_enumerated@.len() == schema.fields@.len()
        &&& self.getters_mut@.len() == schema.fields@.len()
        &&& self.not_found_variants@.len() == schema.fields@.len()
        &&& forall|i: int|
            0 <= i < schema.fields@.len() ==> {
                &&& self.getters@[i]@ == spec_getter_ident(schema.fields@[i].name@)
                &&& self.getters_enumerated@[i]@ == spec_getter_enumerated_ident(
                    schema.fields@[i].name@,
                )
                &&& self.getters_mut@[i]@ == spec_getter_mut_ident(schema.fields@[i].name@)
                &&& self.not_found_variants@[i]@ == spec_not_found_ident(schema.fields@[i].name@)
            }
    }
}

/// Synthesize the full identifier set for a schema. Pure and deterministic:
/// the result is a function of the record type's name and the field names
/// alone.
pub fn synthesize(schema: &Schema) -> (r: GeneratedNames)
    ensures
        r.derived_from(*schema),
{
    let mut getters: Vec<String> = Vec::new();
    let mut getters_enumerated: Vec<String> = Vec::new();
    let mut getters_mut: Vec<String> = Vec::new();
    let mut not_found_variants: Vec<String> = Vec::new();
    let n = schema.fields.len();
    let mut i: usize = 0;
    while i < n
        invariant
            n == schema.fields@.len(),
            i <= n,
            getters@.len() == i,
            getters_enumerated@.len() == i,
            getters_mut@.len() == i,
            not_found_variants@.len() == i,
            forall|k: int|
                0 <= k < i ==> {
                    &&& getters@[k]@ == spec_getter_ident(schema.fields@[k].name@)
                    &&& getters_enumerated@[k]@ == spec_getter_enumerated_ident(
                        schema.fields@[k].name@,
                    )
                    &&& getters_mut@[k]@ == spec_getter_mut_ident(schema.fields@[k].name@)
                    &&& not_found_variants@[k]@ == spec_not_found_ident(schema.fields@[k].name@)
                },
        decreases n - i,
    {
        let field = schema.fields[i].name.as_str();
        getters.push(getter_ident(field));
        getters_enumerated.push(getter_enumerated_ident(field));
        getters_mut.push(getter_mut_ident(field));
        not_found_variants.push(not_found_ident(field));
        i += 1;
    }
    GeneratedNames {
        container: container_ident(schema.record_name.as_str()),
        id: id_ident(schema.record_name.as_str()),
        error: error_ident(schema.record_name.as_str()),
        record_ref: ref_ident(schema.record_name.as_str()),
        iter: iter_ident(schema.record_name.as_str()),
        getters,
        getters_enumerated,
        getters_mut,
        not_found_variants,
    }
}

/// Collision-freedom of a whole synthesis: when a schema's field names are
/// pairwise distinct (the schema invariant) and none ends in a fixed
/// getter suffix (the synthesizer's documented precondition), the
/// synthesized method and variant names are pairwise distinct, within and
/// across the four per-field families.
pub proof fn lemma_synthesis_collision_free(schema: Schema, names: GeneratedNames)
    requires
        names.derived_from(schema),
        schema.names_distinct(),
        forall|i: int|
            0 <= i < schema.fields@.len() ==> admissible_field_name(
                #[trigger] schema.fields@[i].name@,
            ),
    ensures
        forall|i: int, j: int|
            0 <= i < schema.fields@.len() && 0 <= j < schema.fields@.len() && i != j ==> {
                &&& #[trigger] names.getters@[i]@ != #[trigger] names.getters@[j]@
                &&& names.getters_enumerated@[i]@ != names.getters_enumerated@[j]@
                &&& names.getters_mut@[i]@ != names.getters_mut@[j]@
                &&& names.not_found_variants@[i]@ != names.not_found_variants@[j]@
            },
        forall|i: int, j: int|
            0 <= i < schema.fields@.len() && 0 <= j < schema.fields@.len() ==> {
                &&& #[trigger] names.getters@[i]@ != #[trigger] names.getters_mut@[j]@
                &&& names.getters@[i]@ != names.getters_enumerated@[j]@
                &&& names.getters_mut@[i]@ != names.getters_enumerated@[j]@
                &&& names.not_found_variants@[i]@ != names.getters@[j]@
                &&& names.not_found_variants@[i]@ != names.getters_mut@[j]@
                &&& names.not_found_variants@[i]@ != names.getters_enumerated@[j]@
            },
{
    let n = schema.fields@.len() as int;
    assert forall|i: int, j: int| 0 <= i < n && 0 <= j < n && i != j implies {
        &&& #[trigger] names.getters@[i]@ != #[trigger] names.getters@[j]@
        &&& names.getters_enumerated@[i]@ != names.getters_enumerated@[j]@
        &&& names.getters_mut@[i]@ != names.getters_mut@[j]@
        &&& names.not_found_variants@[i]@ != names.not_found_variants@[j]@
    } by {
        if i < j {
            lemma_field_names_collision_free(schema.fields@[i].name@, schema.fields@[j].name@);
        } else {
            lemma_field_names_collision_free(schema.fields@[j].name@, schema.fields@[i].name@);
        }
    };
    assert forall|i: int, j: int| 0 <= i < n && 0 <= j < n implies {
        &&& #[trigger] names.getters@[i]@ != #[trigger] names.getters_mut@[j]@
        &&& names.getters@[i]@ != names.getters_enumerated@[j]@
        &&& names.getters_mut@[i]@ != names.getters_enumerated@[j]@
        &&& names.not_found_variants@[i]@ != names.getters@[j]@
        &&& names.not_found_variants@[i]@ != names.getters_mut@[j]@
        &&& names.not_found_variants@[i]@ != names.getters_enumerated@[j]@
    } by {
        lemma_field_names_collision_free(schema.fields@[i].name@, schema.fields@[j].name@);
    };
}

} // verus!
