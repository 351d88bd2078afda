use vstd::prelude::*;

verus! {

/// Why an operation of the engine failed.
#[derive(Debug, Clone, Copy, PartialEq, Eq, Structural)]
pub enum EngineError {
    /// The strategy selector names neither `file` nor `memory_merge`.
    Configuration,
    /// A field of the schema has a logical type with no physical representation.
    SchemaTranslation,
    /// The batch has a different number of columns than the schema has fields.
    ColumnCountMismatch,
    /// The column at this index does not hold the type of the matching field.
    ColumnTypeMismatch(usize),
    /// The column at this index has a different length than the first column.
    ColumnLengthMismatch(usize),
    /// The column at this index holds a null, but its field is not nullable.
    NullInRequiredColumn(usize),
}

impl EngineError {
    /// Whether this error belongs to the encoding family (raised by a write).
    pub open spec fn is_encoding(self) -> bool {
        self is ColumnCountMismatch || self is ColumnTypeMismatch || self is ColumnLengthMismatch
            || self is NullInRequiredColumn
    }
}

} // verus!
