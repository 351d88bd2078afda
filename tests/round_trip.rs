use std::io::Cursor;

use arrow2::array::{Array, Int32Array, Int64Array, Utf8Array};
use arrow2::chunk::Chunk;
use arrow2::datatypes::{DataType, Field as ArrowField, Schema as ArrowSchema};
use arrow2::io::parquet::read::{infer_schema, read_metadata, FileReader};
use arrow2::io::parquet::write::{CompressionOptions, Encoding as ArrowEncoding, RowGroupIterator, Version, WriteOptions};
use parquet2::write::FileWriter;

use parquetdb::batch::{Batch, Column};
use parquetdb::engine::{Engine, Sink};
use parquetdb::schema::{Field, LogicalType, Schema};
use parquetdb::strategy::Strategy;

fn arrow_schema(s: &Schema) -> ArrowSchema {
    let fields: Vec<ArrowField> = s
        .fields
        .iter()
        .map(|f| {
            let t = match f.data_type {
                LogicalType::Int32 => DataType::Int32,
                LogicalType::Int64 => DataType::Int64,
                LogicalType::Utf8 => DataType::Utf8,
                other => panic!("type {:?} is not used here", other),
            };
            ArrowField::new(f.name.clone(), t, f.nullable)
        })
        .collect();
    ArrowSchema::from(fields)
}

fn arrow_column(c: Column) -> Box<dyn Array> {
    match c {
        Column::Int32(v) => Box::new(Int32Array::from(v)),
        Column::Int64(v) => Box::new(Int64Array::from(v)),
        Column::Utf8(v) => Box::new(Utf8Array::<i32>::from(v)),
        other => panic!("column {:?} is not used here", other),
    }
}

/// Runs the engine's plans for `batches` followed by one seal, encoding into
/// memory, and returns the bytes of the sealed container.
fn write_container(schema: Schema, strategy: Strategy, batches: Vec<Batch>) -> Vec<u8> {
    let mut engine = Engine::open("unused.parquet", schema, strategy).unwrap();
    let mut writer = FileWriter::new(
        Vec::new(),
        engine.parquet_schema().clone(),
        parquet2::write::WriteOptions { write_statistics: true, version: parquet2::write::Version::V2 },
        None,
    );
    let options = WriteOptions {
        write_statistics: true,
        compression: CompressionOptions::Zstd(None),
        version: Version::V2,
        data_pagesize_limit: None,
    };
    for batch in batches {
        let plan = engine.write(&batch).unwrap();
        let expected_sink = if strategy == Strategy::File { Sink::File } else { Sink::Memory };
        assert_eq!(plan.sink, expected_sink);
        let encodings: Vec<Vec<ArrowEncoding>> =
            engine.config().encodings.iter().map(|f| f.iter().map(|_| ArrowEncoding::Plain).collect()).collect();
        let chunk = Chunk::try_new(batch.columns.into_iter().map(arrow_column).collect()).unwrap();
        let groups = RowGroupIterator::try_new(
            std::iter::once(Ok::<_, arrow2::error::Error>(chunk)),
            &arrow_schema(engine.schema()),
            options,
            encodings,
        )
        .unwrap();
        for group in groups {
            writer.write(group.unwrap()).unwrap();
        }
    }
    let plan = engine.seal();
    writer.end(None).unwrap();
    let bytes = writer.into_inner();
    assert_eq!(plan.bulk_copy, strategy == Strategy::MemoryMerge);
    bytes
}

fn read_container(bytes: Vec<u8>) -> (usize, Vec<Chunk<Box<dyn Array>>>) {
    let mut cursor = Cursor::new(bytes);
    let metadata = read_metadata(&mut cursor).unwrap();
    let schema = infer_schema(&metadata).unwrap();
    let groups = metadata.row_groups.len();
    let reader = FileReader::new(cursor, metadata.row_groups, schema, None, None, None);
    let chunks = reader.map(|c| c.unwrap()).collect();
    (groups, chunks)
}

fn id_name_schema() -> Schema {
    Schema {
        fields: vec![
            Field { name: "id".to_string(), data_type: LogicalType::Int32, nullable: false },
            Field { name: "name".to_string(), data_type: LogicalType::Utf8, nullable: true },
        ],
    }
}

fn id_name_batch() -> Batch {
    Batch {
        columns: vec![
            Column::Int32(vec![Some(1), Some(2), Some(3)]),
            Column::Utf8(vec![Some("a".to_string()), None, Some("c".to_string())]),
        ],
    }
}

#[test]
fn id_name_scenario_reads_back() {
    for strategy in [Strategy::File, Strategy::MemoryMerge] {
        let bytes = write_container(id_name_schema(), strategy, vec![id_name_batch()]);
        let (groups, chunks) = read_container(bytes);
        assert_eq!(groups, 1);
        assert_eq!(chunks.len(), 1);
        let chunk = &chunks[0];
        assert_eq!(chunk.len(), 3);
        let ids = chunk.arrays()[0].as_any().downcast_ref::<Int32Array>().unwrap();
        assert_eq!(ids, &Int32Array::from_slice([1, 2, 3]));
        let names = chunk.arrays()[1].as_any().downcast_ref::<Utf8Array<i32>>().unwrap();
        assert_eq!(names, &Utf8Array::<i32>::from([Some("a"), None, Some("c")]));
        assert!(names.is_null(1));
    }
}

#[test]
fn several_batches_read_back_in_order() {
    let schema = Schema {
        fields: vec![
            Field { name: "n".to_string(), data_type: LogicalType::Int64, nullable: true },
            Field { name: "s".to_string(), data_type: LogicalType::Utf8, nullable: false },
        ],
    };
    let batches = vec![
        Batch { columns: vec![Column::Int64(vec![Some(10), None]), Column::Utf8(vec![Some("x".to_string()), Some("y".to_string())])] },
        Batch { columns: vec![Column::Int64(vec![None]), Column::Utf8(vec![Some("z".to_string())])] },
        Batch { columns: vec![Column::Int64(vec![Some(-4), Some(5), Some(6)]), Column::Utf8(vec![Some("p".to_string()), Some("q".to_string()), Some("r".to_string())])] },
    ];
    for strategy in [Strategy::File, Strategy::MemoryMerge] {
        let (groups, chunks) = read_container(write_container(schema.clone(), strategy, batches.clone()));
        assert_eq!(groups, 3);
        let ns: Vec<Option<i64>> = chunks
            .iter()
            .flat_map(|c| c.arrays()[0].as_any().downcast_ref::<Int64Array>().unwrap().iter().map(|v| v.copied()).collect::<Vec<_>>())
            .collect();
        assert_eq!(ns, vec![Some(10), None, None, Some(-4), Some(5), Some(6)]);
        let ss: Vec<Option<String>> = chunks
            .iter()
            .flat_map(|c| c.arrays()[1].as_any().downcast_ref::<Utf8Array<i32>>().unwrap().iter().map(|v| v.map(|s| s.to_string())).collect::<Vec<_>>())
            .collect();
        assert_eq!(ss, vec![Some("x".to_string()), Some("y".to_string()), Some("z".to_string()), Some("p".to_string()), Some("q".to_string()), Some("r".to_string())]);
    }
}

#[test]
fn sealed_empty_container_is_valid() {
    let (groups, chunks) = read_container(write_container(id_name_schema(), Strategy::File, vec![]));
    assert_eq!(groups, 0);
    assert!(chunks.is_empty());
}
