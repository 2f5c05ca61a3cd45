//! Typed columns and the batches that group them.

use vstd::prelude::*;
use crate::schema::{DataType, FieldView, Schema};
use crate::text::spec_is_float_literal;

verus! {

/// What one cell of a typed column holds.
pub enum CellValue {
    /// No value.
    Null,
    /// Text.
    Utf8(Seq<char>),
    /// A signed 64-bit integer.
    Int64(i64),
    /// A floating-point number, kept as the literal that writes it.
    Float64(Seq<char>),
    /// A boolean.
    Boolean(bool),
}

/// One typed column: a vector of optional values, `None` standing for null.
///
/// A floating-point column keeps each number as the literal that was read;
/// whoever needs the number parses the literal.
#[derive(Debug, PartialEq, Eq)]
pub enum Column {
    Utf8(Vec<Option<String>>),
    Int64(Vec<Option<i64>>),
    Float64(Vec<Option<String>>),
    Boolean(Vec<Option<bool>>),
}

/// A column as its type and its cells.
pub struct ColumnView {
    pub data_type: DataType,
    pub cells: Seq<CellValue>,
}

impl View for Column {
    type V = ColumnView;

    open spec fn view(&self) -> ColumnView {
        match self {
            Column::Utf8(v) => ColumnView {
                data_type: DataType::Utf8,
                cells: Seq::new(
                    v@.len(),
                    |i: int|
                        match v@[i] {
                            Some(s) => CellValue::Utf8(s@),
                            None => CellValue::Null,
                        },
                ),
            },
            Column::Int64(v) => ColumnView {
                data_type: DataType::Int64,
                cells: Seq::new(
                    v@.len(),
                    |i: int|
                        match v@[i] {
                            Some(n) => CellValue::Int64(n),
                            None => CellValue::Null,
                        },
                ),
            },
            Column::Float64(v) => ColumnView {
                data_type: DataType::Float64,
                cells: Seq::new(
                    v@.len(),
                    |i: int|
                        match v@[i] {
                            Some(s) => CellValue::Float64(s@),
                            None => CellValue::Null,
                        },
                ),
            },
            Column::Boolean(v) => ColumnView {
                data_type: DataType::Boolean,
                cells: Seq::new(
                    v@.len(),
                    |i: int|
                        match v@[i] {
                            Some(b) => CellValue::Boolean(b),
                            None => CellValue::Null,
                        },
                ),
            },
        }
    }
}

impl Column {
    /// The type of the column's values.
    pub fn data_type(&self) -> (data_type: DataType)
        ensures
            data_type == self@.data_type,
    {
        match self {
            Column::Utf8(_) => DataType::Utf8,
            Column::Int64(_) => DataType::Int64,
            Column::Float64(_) => DataType::Float64,
            Column::Boolean(_) => DataType::Boolean,
        }
    }

    /// The number of cells.
    pub fn len(&self) -> (n: usize)
        ensures
            n == self@.cells.len(),
    {
        match self {
            Column::Utf8(v) => v.len(),
            Column::Int64(v) => v.len(),
            Column::Float64(v) => v.len(),
            Column::Boolean(v) => v.len(),
        }
    }

    /// Whether cell `i` is null.
    pub fn is_null(&self, i: usize) -> (null: bool)
        requires
            i < self@.cells.len(),
        ensures
            null == (self@.cells[i as int] is Null),
    {
        match self {
            Column::Utf8(v) => v[i].is_none(),
            Column::Int64(v) => v[i].is_none(),
            Column::Float64(v) => v[i].is_none(),
            Column::Boolean(v) => v[i].is_none(),
        }
    }
}

/// A batch as its schema, its columns and its row count.
pub struct BatchView {
    pub schema: Seq<FieldView>,
    pub columns: Seq<ColumnView>,
    pub num_rows: nat,
}

impl BatchView {
    /// What holds of every batch: one column per field, of the field's type
    /// and of the batch's row count, and every floating-point cell holds a
    /// floating-point literal.
    pub open spec fn consistent(self) -> bool {
        &&& self.columns.len() == self.schema.len()
        &&& forall|j: int|
            0 <= j < self.columns.len() ==> {
                &&& (#[trigger] self.columns[j]).data_type == self.schema[j].data_type
                &&& self.columns[j].cells.len() == self.num_rows
            }
        &&& forall|j: int, i: int|
            0 <= j < self.columns.len() && 0 <= i < self.columns[j].cells.len() ==> (
            #[trigger] self.columns[j].cells[i] matches CellValue::Float64(text)
                ==> spec_is_float_literal(text))
    }
}

/// Up to a batch size of rows, held column by column.
#[derive(Debug, PartialEq, Eq)]
pub struct Batch {
    schema: Schema,
    columns: Vec<Column>,
    num_rows: usize,
}

impl View for Batch {
    type V = BatchView;

    closed spec fn view(&self) -> BatchView {
        BatchView {
            schema: self.schema@,
            columns: Seq::new(self.columns@.len(), |j: int| self.columns@[j]@),
            num_rows: self.num_rows as nat,
        }
    }
}

impl Batch {
    #[verifier::type_invariant]
    spec fn well_formed(&self) -> bool {
        self@.consistent()
    }

    /// Puts columns together into a batch.
    pub(crate) fn assemble(schema: Schema, columns: Vec<Column>, num_rows: usize) -> (batch: Batch)
        requires
            (BatchView {
                schema: schema@,
                columns: Seq::new(columns@.len(), |j: int| columns@[j]@),
                num_rows: num_rows as nat,
            }).consistent(),
        ensures
            batch@ == (BatchView {
                schema: schema@,
                columns: Seq::new(columns@.len(), |j: int| columns@[j]@),
                num_rows: num_rows as nat,
            }),
            batch@.consistent(),
    {
        Batch { schema, columns, num_rows }
    }

    /// The schema of the batch's columns.
    pub fn schema(&self) -> (schema: &Schema)
        ensures
            schema@ == self@.schema,
            self@.consistent(),
    {
        proof {
            use_type_invariant(self);
        }
        &self.schema
    }

    /// The number of rows.
    pub fn num_rows(&self) -> (n: usize)
        ensures
            n == self@.num_rows,
            self@.consistent(),
    {
        proof {
            use_type_invariant(self);
        }
        self.num_rows
    }

    /// The number of columns.
    pub fn num_columns(&self) -> (n: usize)
        ensures
            n == self@.columns.len(),
            self@.consistent(),
    {
        proof {
            use_type_invariant(self);
        }
        self.columns.len()
    }

    /// Column `j`.
    pub fn column(&self, j: usize) -> (column: &Column)
        requires
            j < self@.columns.len(),
        ensures
            column@ == self@.columns[j as int],
            self@.consistent(),
    {
        proof {
            use_type_invariant(self);
        }
        &self.columns[j]
    }

    /// The columns, in schema order.
    pub fn columns(&self) -> (columns: &Vec<Column>)
        ensures
            columns@.len() == self@.columns.len(),
            forall|j: int| 0 <= j < columns@.len() ==> (#[trigger] columns@[j])@ == self@.columns[j],
            self@.consistent(),
    {
        proof {
            use_type_invariant(self);
        }
        &self.columns
    }
}

} // verus!
