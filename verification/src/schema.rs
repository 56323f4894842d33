//! Schemas: the named, typed columns of a scan, and their projection.

use vstd::prelude::*;
use crate::scalar::DataType;
use crate::error::DataFusionError;

verus! {

/// One named column of a schema.
#[derive(Debug, Clone)]
pub struct Field {
    pub name: String,
    pub data_type: DataType,
    pub nullable: bool,
}

impl Field {
    pub fn new(name: &str, data_type: DataType, nullable: bool) -> (r: Field)
        ensures
            r.name@ == name@,
            r.data_type == data_type,
            r.nullable == nullable,
    {
        Field { name: name.to_owned(), data_type, nullable }
    }

    /// A copy of the field with the same name, type and nullability.
    pub fn duplicate(&self) -> (r: Field)
        ensures
            r == *self,
    {
        Field { name: self.name.clone(), data_type: self.data_type, nullable: self.nullable }
    }
}

/// An ordered list of fields.
#[derive(Debug, Clone)]
pub struct Schema {
    pub fields: Vec<Field>,
}

/// The index of the first field named `name`, if any.
pub open spec fn spec_column_index(fields: Seq<Field>, name: Seq<char>) -> Option<int>
    decreases fields.len(),
{
    if fields.len() == 0 {
        None
    } else if fields[0].name@ == name {
        Some(0int)
    } else {
        match spec_column_index(fields.skip(1), name) {
            None => None,
            Some(i) => Some(i + 1),
        }
    }
}

/// What `spec_column_index` finds is in range, carries the name, and is the
/// first such position.
pub proof fn lemma_column_index_props(fields: Seq<Field>, name: Seq<char>)
    ensures
        match spec_column_index(fields, name) {
            None => forall|i: int| 0 <= i < fields.len() ==> fields[i].name@ != name,
            Some(k) => 0 <= k < fields.len() && fields[k].name@ == name && forall|i: int|
                0 <= i < k ==> fields[i].name@ != name,
        },
    decreases fields.len(),
{
    if fields.len() > 0 && fields[0].name@ != name {
        lemma_column_index_props(fields.skip(1), name);
        assert forall|i: int| 0 <= i < fields.len() && fields[i].name@ == name implies
            spec_column_index(fields, name) is Some by {
            if i > 0 {
                assert(fields.skip(1)[i - 1] == fields[i]);
            }
        }
        match spec_column_index(fields.skip(1), name) {
            None => {
                assert forall|i: int| 0 <= i < fields.len() implies fields[i].name@ != name by {
                    if i > 0 {
                        assert(fields.skip(1)[i - 1] == fields[i]);
                    }
                }
            },
            Some(k) => {
                assert(fields.skip(1)[k] == fields[k + 1]);
                assert forall|i: int| 0 <= i < k + 1 implies fields[i].name@ != name by {
                    if i > 0 {
                        assert(fields.skip(1)[i - 1] == fields[i]);
                    }
                }
            },
        }
    }
}

impl Schema {
    /// A schema over the given fields.
    pub fn new(fields: Vec<Field>) -> (r: Schema)
        ensures
            r.fields == fields,
    {
        Schema { fields }
    }

    /// The field at `i`.
    pub fn field(&self, i: usize) -> (r: &Field)
        requires
            i < self.fields@.len(),
        ensures
            r == self.fields@[i as int],
    {
        &self.fields[i]
    }

    /// All fields, in order.
    pub fn fields(&self) -> (r: &Vec<Field>)
        ensures
            r == &self.fields,
    {
        &self.fields
    }

    /// A copy of the schema with the same fields.
    pub fn duplicate(&self) -> (r: Schema)
        ensures
            r.fields@ == self.fields@,
    {
        let mut fields: Vec<Field> = Vec::new();
        let mut i: usize = 0;
        while i < self.fields.len()
            invariant
                i <= self.fields@.len(),
                fields@ == self.fields@.take(i as int),
            decreases self.fields@.len() - i,
        {
            fields.push(self.fields[i].duplicate());
            proof {
                assert(fields@ =~= self.fields@.take(i + 1int));
            }
            i = i + 1;
        }
        proof {
            assert(fields@ =~= self.fields@);
        }
        Schema { fields }
    }

    /// Resolve a column name to its index and field; `None` when the schema
    /// has no column of that name.
    pub fn column_with_name(&self, name: &str) -> (r: Option<(usize, &Field)>)
        ensures
            match r {
                None => spec_column_index(self.fields@, name@) is None,
                Some((i, f)) => spec_column_index(self.fields@, name@) == Some(i as int)
                    && f == &self.fields@[i as int],
            },
    {
        proof {
            lemma_column_index_props(self.fields@, name@);
        }
        let sought: String = name.to_owned();
        let mut i: usize = 0;
        while i < self.fields.len()
            invariant
                sought@ == name@,
                i <= self.fields@.len(),
                forall|j: int| 0 <= j < i ==> self.fields@[j].name@ != name@,
                match spec_column_index(self.fields@, name@) {
                    None => forall|j: int| 0 <= j < self.fields@.len() ==> self.fields@[j].name@
                        != name@,
                    Some(k) => 0 <= k < self.fields@.len() && self.fields@[k].name@ == name@
                        && forall|j: int| 0 <= j < k ==> self.fields@[j].name@ != name@,
                },
            decreases self.fields@.len() - i,
        {
            if self.fields[i].name == sought {
                return Some((i, &self.fields[i]));
            }
            i = i + 1;
        }
        None
    }
}

/// Equality of schemas: same fields with the same names, types and
/// nullability, in the same order.
pub open spec fn spec_schema_eq(a: Schema, b: Schema) -> bool {
    a.fields@.len() == b.fields@.len() && forall|i: int|
        0 <= i < a.fields@.len() ==> (#[trigger] a.fields@[i]).name@ == b.fields@[i].name@
            && a.fields@[i].data_type == b.fields@[i].data_type && a.fields@[i].nullable
            == b.fields@[i].nullable
}

/// Whether two schemas agree.
pub fn schema_eq(a: &Schema, b: &Schema) -> (r: bool)
    ensures
        r == spec_schema_eq(*a, *b),
{
    if a.fields.len() != b.fields.len() {
        return false;
    }
    let mut i: usize = 0;
    while i < a.fields.len()
        invariant
            a.fields@.len() == b.fields@.len(),
            i <= a.fields@.len(),
            forall|j: int| 0 <= j < i ==> (#[trigger] a.fields@[j]).name@ == b.fields@[j].name@
                && a.fields@[j].data_type == b.fields@[j].data_type && a.fields@[j].nullable
                == b.fields@[j].nullable,
        decreases a.fields@.len() - i,
    {
        let fa = &a.fields[i];
        let fb = &b.fields[i];
        if !(fa.name == fb.name) || fa.data_type != fb.data_type || fa.nullable != fb.nullable {
            return false;
        }
        i = i + 1;
    }
    true
}

/// Unify the schemas of the files of a scan: all must agree, and the common
/// schema is the result. An empty list yields an empty schema.
pub fn unify_schemas(schemas: &Vec<Schema>) -> (r: Result<Schema, DataFusionError>)
    ensures
        match r {
            Ok(s) => (forall|i: int| 0 <= i < schemas@.len() ==> spec_schema_eq(
                s,
                #[trigger] schemas@[i],
            )) && (schemas@.len() == 0 ==> s.fields@.len() == 0) && (schemas@.len() > 0
                ==> s.fields@ == schemas@[0].fields@),
            Err(e) => e is SchemaMismatch && exists|i: int|
                0 < i < schemas@.len() && !spec_schema_eq(schemas@[0], #[trigger] schemas@[i]),
        },
{
    if schemas.len() == 0 {
        return Ok(Schema { fields: Vec::new() });
    }
    let first = &schemas[0];
    let mut i: usize = 1;
    while i < schemas.len()
        invariant
            1 <= i <= schemas@.len(),
            schemas@.len() > 0,
            first == &schemas@[0],
            forall|j: int| 0 <= j < i ==> spec_schema_eq(schemas@[0], #[trigger] schemas@[j]),
        decreases schemas@.len() - i,
    {
        if !schema_eq(first, &schemas[i]) {
            return Err(
                DataFusionError::SchemaMismatch(
                    "files in the scan do not share a schema".to_owned(),
                ),
            );
        }
        i = i + 1;
    }
    Ok(first.duplicate())
}

} // verus!
