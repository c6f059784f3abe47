use vstd::prelude::*;

verus! {

use vstd::string::StringExecFns;

/// A generation-time configuration error. Nothing is produced when one is
/// raised: the generation request fails as a whole.
#[derive(Debug, Copy, Clone, PartialEq, Eq, Structural)]
pub enum GenError {
    /// The configuration token names neither storage strategy.
    UnknownStrategy,
    /// The schema has no fields at all.
    SchemaWithoutFields,
    /// Some field of the schema carries an empty name.
    UnnamedField,
}

impl GenError {
    /// A human-readable description of the offending declaration.
    pub fn message(&self) -> (r: String)
        ensures
            *self == GenError::UnknownStrategy ==> r@ == "unknown memory layout (expected 'soa', 'struct-of-arrays', 'aos' or 'array-of-structs')"@,
            *self == GenError::SchemaWithoutFields ==> r@ == "no fields found for this memory layout"@,
            *self == GenError::UnnamedField ==> r@ == "only named fields are supported for a layout"@,
    {
        match self {
            GenError::UnknownStrategy => String::from_str(
                "unknown memory layout (expected 'soa', 'struct-of-arrays', 'aos' or 'array-of-structs')",
            ),
            GenError::SchemaWithoutFields => String::from_str(
                "no fields found for this memory layout",
            ),
            GenError::UnnamedField => String::from_str(
                "only named fields are supported for a layout",
            ),
        }
    }
}

/// One named, typed field of a schema. The type is carried as text: the
/// generation request only transports it, nothing interprets it here.
#[derive(Debug, Clone)]
pub struct FieldDecl {
    pub name: String,
    pub ty: String,
}

/// The canonical description of a record type: its name and its ordered
/// field list. Immutable once generation begins.
#[derive(Debug, Clone)]
pub struct Schema {
    pub record_name: String,
    pub fields: Vec<FieldDecl>,
}

impl Schema {
    /// A schema a container can be generated from: at least one field, and
    /// every field named.
    pub open spec fn valid(&self) -> bool {
        &&& self.fields@.len() > 0
        &&& forall|i: int| 0 <= i < self.fields@.len() ==> self.fields@[i].name@.len() > 0
    }

    /// Pairwise distinct field names: the schema invariant that
    /// collision-freedom of the synthesized identifiers rests on.
    pub open spec fn names_distinct(&self) -> bool {
        forall|i: int, j: int|
            0 <= i < j < self.fields@.len() ==> self.fields@[i].name@ != self.fields@[j].name@
    }

    /// Check the generation-time schema requirements: a field list that is
    /// non-empty and all of whose fields are named.
    pub fn validate(&self) -> (r: Result<(), GenError>)
        ensures
            r is Ok <==> self.valid(),
            self.fields@.len() == 0 ==> r == Err::<(), GenError>(GenError::SchemaWithoutFields),
            self.fields@.len() > 0 && !self.valid() ==> r == Err::<(), GenError>(
                GenError::UnnamedField,
            ),
    {
        if self.fields.len() == 0 {
            return Err(GenError::SchemaWithoutFields);
        }
        let n = self.fields.len();
        let mut i: usize = 0;
        while i < n
            invariant
                n == self.fields@.len(),
                i <= n,
                forall|k: int| 0 <= k < i ==> self.fields@[k].name@.len() > 0,
            decreases n - i,
        {
            if self.fields[i].name.as_str().is_empty() {
                return Err(GenError::UnnamedField);
            }
            i += 1;
        }
        Ok(())
    }
}

} // verus!
