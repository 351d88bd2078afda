use crate::error::EngineError;
use crate::schema::{LogicalType, Schema};
use vstd::prelude::*;

verus! {

/// A homogeneous typed array; `None` marks a null.
#[derive(Debug, Clone)]
pub enum Column {
    Boolean(Vec<Option<bool>>),
    Int32(Vec<Option<i32>>),
    Int64(Vec<Option<i64>>),
    Utf8(Vec<Option<String>>),
    Binary(Vec<Option<Vec<u8>>>),
}

/// Whether some value of `v` is a null.
fn any_null<T>(v: &Vec<Option<T>>) -> (r: bool)
    ensures
        r == exists|i: int| 0 <= i < v@.len() && (#[trigger] v@[i]) is None,
{
    let mut i: usize = 0;
    while i < v.len()
        invariant
            i <= v@.len(),
            forall|j: int| 0 <= j < i ==> !((#[trigger] v@[j]) is None),
        decreases v@.len() - i,
    {
        if v[i].is_none() {
            return true;
        }
        i = i + 1;
    }
    false
}

impl Column {
    /// Whether the column holds a null.
    pub open spec fn spec_has_null(&self) -> bool {
        match self {
            Column::Boolean(v) => exists|i: int| 0 <= i < v@.len() && (#[trigger] v@[i]) is None,
            Column::Int32(v) => exists|i: int| 0 <= i < v@.len() && (#[trigger] v@[i]) is None,
            Column::Int64(v) => exists|i: int| 0 <= i < v@.len() && (#[trigger] v@[i]) is None,
            Column::Utf8(v) => exists|i: int| 0 <= i < v@.len() && (#[trigger] v@[i]) is None,
            Column::Binary(v) => exists|i: int| 0 <= i < v@.len() && (#[trigger] v@[i]) is None,
        }
    }

    pub fn has_null(&self) -> (r: bool)
        ensures
            r == self.spec_has_null(),
    {
        match self {
            Column::Boolean(v) => any_null(v),
            Column::Int32(v) => any_null(v),
            Column::Int64(v) => any_null(v),
            Column::Utf8(v) => any_null(v),
            Column::Binary(v) => any_null(v),
        }
    }

    /// The logical type of the values held.
    pub open spec fn logical_type(&self) -> LogicalType {
        match self {
            Column::Boolean(_) => LogicalType::Boolean,
            Column::Int32(_) => LogicalType::Int32,
            Column::Int64(_) => LogicalType::Int64,
            Column::Utf8(_) => LogicalType::Utf8,
            Column::Binary(_) => LogicalType::Binary,
        }
    }

    /// The number of values, nulls included.
    pub open spec fn spec_len(&self) -> nat {
        match self {
            Column::Boolean(v) => v@.len(),
            Column::Int32(v) => v@.len(),
            Column::Int64(v) => v@.len(),
            Column::Utf8(v) => v@.len(),
            Column::Binary(v) => v@.len(),
        }
    }

    pub fn data_type(&self) -> (r: LogicalType)
        ensures
            r == self.logical_type(),
    {
        match self {
            Column::Boolean(_) => LogicalType::Boolean,
            Column::Int32(_) => LogicalType::Int32,
            Column::Int64(_) => LogicalType::Int64,
            Column::Utf8(_) => LogicalType::Utf8,
            Column::Binary(_) => LogicalType::Binary,
        }
    }

    pub fn len(&self) -> (r: usize)
        ensures
            r == self.spec_len(),
    {
        match self {
            Column::Boolean(v) => v.len(),
            Column::Int32(v) => v.len(),
            Column::Int64(v) => v.len(),
            Column::Utf8(v) => v.len(),
            Column::Binary(v) => v.len(),
        }
    }
}

/// An ordered sequence of columns, one per field of a schema.
#[derive(Debug, Clone)]
pub struct Batch {
    pub columns: Vec<Column>,
}

impl Batch {
    /// The number of rows: the length of the first column, zero without columns.
    pub open spec fn rows(&self) -> nat {
        if self.columns@.len() == 0 {
            0
        } else {
            self.columns@[0].spec_len()
        }
    }

    /// Whether column `i` holds the type of field `i` of the schema.
    pub open spec fn type_matches(&self, schema: &Schema, i: int) -> bool {
        self.columns@[i].logical_type() == schema.fields@[i].data_type
    }

    /// Whether column `i` is as long as the first column.
    pub open spec fn length_matches(&self, i: int) -> bool {
        self.columns@[i].spec_len() == self.columns@[0].spec_len()
    }

    /// Whether column `i` respects the nullability of field `i`.
    pub open spec fn nulls_allowed(&self, schema: &Schema, i: int) -> bool {
        schema.fields@[i].nullable || !self.columns@[i].spec_has_null()
    }

    /// Whether the batch has one column per field, each of the field's type,
    /// all of one length, with nulls only where the field is nullable.
    pub open spec fn conforms(&self, schema: &Schema) -> bool {
        &&& self.columns@.len() == schema.fields@.len()
        &&& forall|i: int| 0 <= i < self.columns@.len() ==> #[trigger] self.type_matches(schema, i)
        &&& forall|i: int| 0 <= i < self.columns@.len() ==> #[trigger] self.length_matches(i)
        &&& forall|i: int| 0 <= i < self.columns@.len() ==> #[trigger] self.nulls_allowed(schema, i)
    }

    /// Whether `e` names the first disagreement between the batch and the
    /// schema: the column count, then the first column of the wrong type, then
    /// the first column whose length differs from the first column's, then the
    /// first column with a null under a field that is not nullable.
    pub open spec fn refused_with(&self, schema: &Schema, e: EngineError) -> bool {
        let n = self.columns@.len();
        match e {
            EngineError::ColumnCountMismatch => n != schema.fields@.len(),
            EngineError::ColumnTypeMismatch(i) => {
                &&& n == schema.fields@.len()
                &&& i < n
                &&& !self.type_matches(schema, i as int)
                &&& forall|j: int| 0 <= j < i ==> #[trigger] self.type_matches(schema, j)
            },
            EngineError::ColumnLengthMismatch(i) => {
                &&& n == schema.fields@.len()
                &&& forall|j: int| 0 <= j < n ==> #[trigger] self.type_matches(schema, j)
                &&& i < n
                &&& !self.length_matches(i as int)
                &&& forall|j: int| 0 <= j < i ==> #[trigger] self.length_matches(j)
            },
            EngineError::NullInRequiredColumn(i) => {
                &&& n == schema.fields@.len()
                &&& forall|j: int| 0 <= j < n ==> #[trigger] self.type_matches(schema, j)
                &&& forall|j: int| 0 <= j < n ==> #[trigger] self.length_matches(j)
                &&& i < n
                &&& !self.nulls_allowed(schema, i as int)
                &&& forall|j: int| 0 <= j < i ==> #[trigger] self.nulls_allowed(schema, j)
            },
            _ => false,
        }
    }

    /// Checks the batch against a schema. On success returns the number of
    /// rows; otherwise the first disagreement, as `refused_with` orders them.
    pub fn check(&self, schema: &Schema) -> (r: Result<usize, EngineError>)
        ensures
            r is Ok <==> self.conforms(schema),
            r is Ok ==> r->Ok_0 == self.rows(),
            r is Err ==> self.refused_with(schema, r->Err_0),
    {
        let n = self.columns.len();
        if n != schema.fields.len() {
            return Err(EngineError::ColumnCountMismatch);
        }
        let mut i: usize = 0;
        while i < n
            invariant
                n == self.columns@.len(),
                n == schema.fields@.len(),
                i <= n,
                forall|j: int| 0 <= j < i ==> #[trigger] self.type_matches(schema, j),
            decreases n - i,
        {
            if self.columns[i].data_type() != schema.fields[i].data_type {
                assert(!self.type_matches(schema, i as int));
                return Err(EngineError::ColumnTypeMismatch(i));
            }
            i = i + 1;
        }
        if n == 0 {
            return Ok(0);
        }
        let rows = self.columns[0].len();
        let mut k: usize = 0;
        while k < n
            invariant
                n == self.columns@.len(),
                n > 0,
                n == schema.fields@.len(),
                forall|j: int| 0 <= j < n ==> #[trigger] self.type_matches(schema, j),
                rows == self.columns@[0].spec_len(),
                k <= n,
                forall|j: int| 0 <= j < k ==> #[trigger] self.length_matches(j),
            decreases n - k,
        {
            if self.columns[k].len() != rows {
                assert(!self.length_matches(k as int));
                return Err(EngineError::ColumnLengthMismatch(k));
            }
            k = k + 1;
        }
        let mut m: usize = 0;
        while m < n
            invariant
                n == self.columns@.len(),
                n == schema.fields@.len(),
                forall|j: int| 0 <= j < n ==> #[trigger] self.type_matches(schema, j),
                forall|j: int| 0 <= j < n ==> #[trigger] self.length_matches(j),
                rows == self.columns@[0].spec_len(),
                m <= n,
                forall|j: int| 0 <= j < m ==> #[trigger] self.nulls_allowed(schema, j),
            decreases n - m,
        {
            if !schema.fields[m].nullable && self.columns[m].has_null() {
                assert(!self.nulls_allowed(schema, m as int));
                return Err(EngineError::NullInRequiredColumn(m));
            }
            m = m + 1;
        }
        Ok(rows)
    }
}

} // verus!
