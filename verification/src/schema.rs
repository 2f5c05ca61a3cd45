//! Column schemas: the type tags, the fields and the ordered list of fields
//! that every batch is read against.

use vstd::prelude::*;
use vstd::string::StringExecFns;

verus! {

/// The primitive type of a column.
#[derive(Clone, Copy, Debug, PartialEq, Eq, Structural)]
pub enum DataType {
    /// Text, passed through as it was read.
    Utf8,
    /// Signed 64-bit integers.
    Int64,
    /// 64-bit floating-point numbers.
    Float64,
    /// Booleans.
    Boolean,
}

/// One column of a schema.
#[derive(Debug, PartialEq, Eq)]
pub struct Field {
    /// The column's name.
    pub name: String,
    /// The column's type.
    pub data_type: DataType,
    /// Whether a cell of the column may be null.
    pub nullable: bool,
}

/// A `Field` with its name as a sequence of characters.
pub struct FieldView {
    pub name: Seq<char>,
    pub data_type: DataType,
    pub nullable: bool,
}

impl View for Field {
    type V = FieldView;

    open spec fn view(&self) -> FieldView {
        FieldView { name: self.name@, data_type: self.data_type, nullable: self.nullable }
    }
}

impl Clone for Field {
    fn clone(&self) -> (copy: Self)
        ensures
            copy@ == self@,
    {
        Field { name: self.name.clone(), data_type: self.data_type, nullable: self.nullable }
    }
}

impl Field {
    /// A field with the given name, type and nullability.
    pub fn new(name: &str, data_type: DataType, nullable: bool) -> (field: Field)
        ensures
            field@ == (FieldView { name: name@, data_type, nullable }),
    {
        Field { name: String::from_str(name), data_type, nullable }
    }

    /// The field's name.
    pub fn name(&self) -> (name: &str)
        ensures
            name@ == self@.name,
    {
        self.name.as_str()
    }

    /// The field's type.
    pub fn data_type(&self) -> (data_type: DataType)
        ensures
            data_type == self@.data_type,
    {
        self.data_type
    }

    /// Whether a cell of this column may be null.
    pub fn is_nullable(&self) -> (nullable: bool)
        ensures
            nullable == self@.nullable,
    {
        self.nullable
    }
}

/// An ordered list of fields.
#[derive(Debug, PartialEq, Eq)]
pub struct Schema {
    /// The fields, in column order.
    pub fields: Vec<Field>,
}

impl View for Schema {
    type V = Seq<FieldView>;

    open spec fn view(&self) -> Seq<FieldView> {
        Seq::new(self.fields@.len(), |i: int| self.fields@[i]@)
    }
}

/// Whether every index of `projection` names a column of a schema with
/// `columns` fields.
pub open spec fn valid_projection(columns: nat, projection: Seq<usize>) -> bool {
    forall|j: int| 0 <= j < projection.len() ==> (#[trigger] projection[j]) < columns
}

/// The fields that `projection` selects from `schema`, in projection order.
pub open spec fn project_fields(schema: Seq<FieldView>, projection: Seq<usize>) -> Seq<
    FieldView,
> {
    Seq::new(projection.len(), |j: int| schema[projection[j] as int])
}

/// The schema of what is read: `schema` itself, or the fields that the
/// projection selects from it.
pub open spec fn output_fields(schema: Seq<FieldView>, projection: Option<Seq<usize>>) -> Seq<
    FieldView,
> {
    match projection {
        Some(p) => project_fields(schema, p),
        None => schema,
    }
}

impl Clone for Schema {
    fn clone(&self) -> (copy: Self)
        ensures
            copy@ == self@,
    {
        let mut fields: Vec<Field> = Vec::new();
        let mut i: usize = 0;
        while i < self.fields.len()
            invariant
                i <= self.fields@.len(),
                fields@.len() == i,
                forall|j: int| 0 <= j < i ==> (#[trigger] fields@[j])@ == self.fields@[j]@,
            decreases self.fields@.len() - i,
        {
            fields.push(self.fields[i].clone());
            i = i + 1;
        }
        let copy = Schema { fields };
        copy
    }
}

impl Schema {
    /// A schema of the given fields.
    pub fn new(fields: Vec<Field>) -> (schema: Schema)
        ensures
            schema.fields == fields,
    {
        Schema { fields }
    }

    /// The schema without any field.
    pub fn empty() -> (schema: Schema)
        ensures
            schema@ == Seq::<FieldView>::empty(),
    {
        let schema = Schema { fields: Vec::new() };
        schema
    }

    /// The fields, in column order.
    pub fn fields(&self) -> (fields: &Vec<Field>)
        ensures
            *fields == self.fields,
    {
        &self.fields
    }

    /// The number of fields.
    pub fn len(&self) -> (n: usize)
        ensures
            n == self@.len(),
    {
        self.fields.len()
    }

    /// The field of column `i`.
    pub fn field(&self, i: usize) -> (field: &Field)
        requires
            i < self@.len(),
        ensures
            field@ == self@[i as int],
    {
        &self.fields[i]
    }

    /// The schema of the columns that `projection` names, in its order;
    /// `None` when it names a column that this schema does not have.
    pub fn project(&self, projection: &[usize]) -> (projected: Option<Schema>)
        ensures
            projected is Some <==> valid_projection(self@.len(), projection@),
            projected matches Some(p) ==> p@ == project_fields(self@, projection@),
    {
        let mut fields: Vec<Field> = Vec::new();
        let mut j: usize = 0;
        while j < projection.len()
            invariant
                j <= projection@.len(),
                fields@.len() == j,
                forall|k: int| 0 <= k < j ==> (#[trigger] projection@[k]) < self@.len(),
                forall|k: int|
                    0 <= k < j ==> (#[trigger] fields@[k])@ == self@[projection@[k] as int],
            decreases projection@.len() - j,
        {
            let index = projection[j];
            if index >= self.fields.len() {
                return None;
            }
            fields.push(self.fields[index].clone());
            j = j + 1;
        }
        let projected = Schema { fields };
        Some(projected)
    }
}

} // verus!
