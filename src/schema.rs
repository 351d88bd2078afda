use arrow2::datatypes::{DataType, UnionMode};
use vstd::prelude::*;

verus! {

/// The logical type of a field.
#[derive(Debug, Clone, Copy, PartialEq, Eq, Structural)]
pub enum LogicalType {
    Boolean,
    Int32,
    Int64,
    Utf8,
    Binary,
    /// A dense union without members: it has no physical representation.
    Union,
}

/// Whether a logical type has a physical representation in the container.
pub open spec fn has_physical(t: LogicalType) -> bool {
    t != LogicalType::Union
}

/// One field of a schema.
#[derive(Debug, Clone)]
pub struct Field {
    pub name: String,
    pub data_type: LogicalType,
    pub nullable: bool,
}

/// An ordered list of fields.
#[derive(Debug, Clone)]
pub struct Schema {
    pub fields: Vec<Field>,
}

impl Schema {
    /// Whether every field can be given a physical representation.
    pub open spec fn translatable(&self) -> bool {
        forall|i: int| 0 <= i < self.fields@.len() ==> has_physical(#[trigger] self.fields@[i].data_type)
    }
}

#[verifier::external_type_specification]
#[verifier::external_body]
pub struct ExSchemaDescriptor(parquet2::metadata::SchemaDescriptor);

#[verifier::external_type_specification]
#[verifier::external_body]
pub struct ExArrowError(arrow2::error::Error);

/// Relies on arrow2's `to_parquet_schema`: it maps each field to a parquet
/// type and fails exactly on the types it has no parquet type for (here only
/// the union).
#[verifier::external_body]
pub(crate) fn to_parquet_schema(schema: &Schema) -> (r: Result<parquet2::metadata::SchemaDescriptor, arrow2::error::Error>)
    ensures
        r is Ok <==> schema.translatable(),
{
    let fields: Vec<arrow2::datatypes::Field> = schema.fields.iter().map(|f| {
        let t = match f.data_type {
            LogicalType::Boolean => DataType::Boolean,
            LogicalType::Int32 => DataType::Int32,
            LogicalType::Int64 => DataType::Int64,
            LogicalType::Utf8 => DataType::Utf8,
            LogicalType::Binary => DataType::Binary,
            LogicalType::Union => DataType::Union(vec![], None, UnionMode::Dense),
        };
        arrow2::datatypes::Field::new(f.name.clone(), t, f.nullable)
    }).collect();
    arrow2::io::parquet::write::to_parquet_schema(&arrow2::datatypes::Schema::from(fields))
}

/// Translates a schema to its physical descriptor.
pub fn translate(schema: &Schema) -> (r: Result<parquet2::metadata::SchemaDescriptor, crate::error::EngineError>)
    ensures
        r is Ok <==> schema.translatable(),
        r is Err ==> r->Err_0 == crate::error::EngineError::SchemaTranslation,
{
    match to_parquet_schema(schema) {
        Ok(d) => Ok(d),
        Err(_) => Err(crate::error::EngineError::SchemaTranslation),
    }
}

} // verus!
