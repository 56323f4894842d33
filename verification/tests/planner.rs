use parquet_scan::error::DataFusionError;
use parquet_scan::expr::{col, lit_i32};
use parquet_scan::parquet::{split_files, DisplayFormatType, ParquetExec, ParquetPartition, RowLimiter};
use parquet_scan::scalar::DataType;
use parquet_scan::schema::{unify_schemas, Field, Schema};
use parquet_scan::stats::{get_statistics_with_limit, PartitionedFile, Statistics};

fn file(path: &str, rows: usize, bytes: usize) -> PartitionedFile {
    PartitionedFile::new(
        path,
        Statistics { num_rows: rows, total_byte_size: bytes, column_statistics: None },
    )
}

fn alltypes_schema() -> Schema {
    Schema::new(vec![
        Field::new("id", DataType::Int32, false),
        Field::new("bool_col", DataType::Boolean, false),
        Field::new("tinyint_col", DataType::Int32, false),
        Field::new("string_col", DataType::Utf8, true),
    ])
}

#[test]
fn test_split_files() {
    let filenames = vec![
        "a".to_string(),
        "b".to_string(),
        "c".to_string(),
        "d".to_string(),
        "e".to_string(),
    ];

    let chunks = split_files(&filenames, 1);
    assert_eq!(1, chunks.len());
    assert_eq!(5, chunks[0].len());

    let chunks = split_files(&filenames, 2);
    assert_eq!(2, chunks.len());
    assert_eq!(3, chunks[0].len());
    assert_eq!(2, chunks[1].len());

    let chunks = split_files(&filenames, 5);
    assert_eq!(5, chunks.len());
    assert_eq!(1, chunks[0].len());
    assert_eq!(1, chunks[1].len());
    assert_eq!(1, chunks[2].len());
    assert_eq!(1, chunks[3].len());
    assert_eq!(1, chunks[4].len());

    let chunks = split_files(&filenames, 123);
    assert_eq!(5, chunks.len());
    assert_eq!(1, chunks[0].len());
    assert_eq!(1, chunks[1].len());
    assert_eq!(1, chunks[2].len());
    assert_eq!(1, chunks[3].len());
    assert_eq!(1, chunks[4].len());
}

#[test]
fn split_files_of_nothing() {
    let filenames: Vec<String> = vec![];
    let chunks = split_files(&filenames, 3);
    assert_eq!(0, chunks.len());
}

#[test]
fn statistics_respect_the_limit() {
    let files = vec![file("a", 5, 100), file("b", 7, 200), file("c", 9, 400)];
    let (all, stats) = get_statistics_with_limit(files, None);
    assert_eq!(all.len(), 3);
    assert_eq!(stats.num_rows, 21);
    assert_eq!(stats.total_byte_size, 700);

    let files = vec![file("a", 5, 100), file("b", 7, 200), file("c", 9, 400)];
    let (all, stats) = get_statistics_with_limit(files, Some(10));
    assert_eq!(all.len(), 3);
    assert_eq!(stats.num_rows, 12);
    assert_eq!(stats.total_byte_size, 300);

    let files = vec![file("a", 5, 100), file("b", 7, 200), file("c", 9, 400)];
    let (_, stats) = get_statistics_with_limit(files, Some(4));
    assert_eq!(stats.num_rows, 5);
    assert_eq!(stats.total_byte_size, 100);
}

#[test]
fn basic_scan_plan() {
    let files = vec![file("alltypes_plain.parquet", 8, 1851)];
    let parquet_exec = ParquetExec::try_new(
        files,
        alltypes_schema(),
        Some(vec![0, 1, 2]),
        None,
        1024,
        4,
        None,
    )
    .unwrap();
    assert_eq!(parquet_exec.output_partitioning().partition_count(), 1);
    assert_eq!(parquet_exec.batch_size(), 1024);
    let names: Vec<String> = parquet_exec
        .schema()
        .fields()
        .iter()
        .map(|f| f.name.clone())
        .collect();
    assert_eq!(names, vec!["id", "bool_col", "tinyint_col"]);
    assert_eq!(parquet_exec.projection(), &vec![0, 1, 2]);
    assert_eq!(parquet_exec.statistics().num_rows, 8);

    let partition = parquet_exec.execute_partition(0).unwrap();
    assert_eq!(partition.filenames(), vec!["alltypes_plain.parquet"]);
    assert!(matches!(
        parquet_exec.execute_partition(1),
        Err(DataFusionError::Internal(_))
    ));
}

#[test]
fn empty_scan_has_no_partitions() {
    let parquet_exec =
        ParquetExec::try_new(vec![], alltypes_schema(), None, None, 8192, 4, None).unwrap();
    assert_eq!(parquet_exec.output_partitioning().partition_count(), 0);
    assert!(matches!(
        parquet_exec.execute_partition(0),
        Err(DataFusionError::Internal(_))
    ));
}

#[test]
fn projection_defaults_to_all_columns() {
    let files = vec![file("a.parquet", 8, 100)];
    let parquet_exec =
        ParquetExec::try_new(files, alltypes_schema(), None, None, 8192, 2, None).unwrap();
    assert_eq!(parquet_exec.projection(), &vec![0, 1, 2, 3]);
    assert_eq!(parquet_exec.schema().fields().len(), 4);
}

#[test]
fn creation_error_downgrades_pruning() {
    let files = vec![file("a.parquet", 8, 100)];
    let predicate = col("no_such_column").gt(lit_i32(15));
    let parquet_exec = ParquetExec::try_new(
        files,
        alltypes_schema(),
        None,
        Some(predicate),
        8192,
        2,
        None,
    )
    .unwrap();
    assert!(parquet_exec.predicate_builder.is_none());
    assert_eq!(parquet_exec.metrics.predicate_creation_errors.value(), 1);
}

#[test]
fn scan_built_twice_is_identical() {
    let build = || {
        let files = vec![
            file("a", 5, 100),
            file("b", 7, 200),
            file("c", 9, 400),
            file("d", 2, 50),
            file("e", 1, 10),
        ];
        ParquetExec::try_new(
            files,
            alltypes_schema(),
            Some(vec![0, 2]),
            Some(col("id").gt(lit_i32(3))),
            1024,
            2,
            Some(12),
        )
        .unwrap()
    };
    let s1 = build();
    let s2 = build();
    assert_eq!(s1.partitions().len(), s2.partitions().len());
    for (p1, p2) in s1.partitions().iter().zip(s2.partitions().iter()) {
        assert_eq!(p1.filenames(), p2.filenames());
        assert_eq!(p1.file_partition.index, p2.file_partition.index);
    }
    assert_eq!(s1.statistics().num_rows, s2.statistics().num_rows);
    assert_eq!(s1.statistics().total_byte_size, s2.statistics().total_byte_size);
}

#[test]
fn partitions_cover_files_in_order() {
    let files = vec![file("a", 1, 1), file("b", 1, 1), file("c", 1, 1), file("d", 1, 1), file("e", 1, 1)];
    let parquet_exec =
        ParquetExec::try_new(files, alltypes_schema(), None, None, 8192, 2, None).unwrap();
    let mut seen: Vec<String> = vec![];
    for (i, p) in parquet_exec.partitions().iter().enumerate() {
        assert_eq!(p.file_partition.index, i);
        seen.extend(p.filenames());
    }
    assert_eq!(seen, vec!["a", "b", "c", "d", "e"]);
}

#[test]
fn partition_statistics_sum_its_files() {
    let p = ParquetPartition::new(vec![file("a", 5, 100), file("b", 7, 200)], 0);
    let stats = p.statistics();
    assert_eq!(stats.num_rows, 12);
    assert_eq!(stats.total_byte_size, 300);
    assert!(stats.column_statistics.is_none());
}

#[test]
fn with_new_children_accepts_only_none() {
    let parquet_exec =
        ParquetExec::try_new(vec![], alltypes_schema(), None, None, 8192, 1, None).unwrap();
    let parquet_exec = parquet_exec.with_new_children(vec![]).unwrap();
    let other = ParquetExec::try_new(vec![], alltypes_schema(), None, None, 8192, 1, None).unwrap();
    assert!(matches!(
        parquet_exec.with_new_children(vec![other]),
        Err(DataFusionError::Internal(_))
    ));
}

#[test]
fn scan_renders_its_shape() {
    let files = vec![file("a.parquet", 8, 100), file("b.parquet", 8, 100)];
    let parquet_exec =
        ParquetExec::try_new(files, alltypes_schema(), None, None, 1024, 2, None).unwrap();
    let rendered = parquet_exec.fmt_as(DisplayFormatType::Default);
    assert_eq!(
        rendered,
        "ParquetExec: batch_size=1024, limit=None, partitions=[a.parquet, b.parquet]"
    );

    let files = vec![file("a.parquet", 8, 100)];
    let parquet_exec =
        ParquetExec::try_new(files, alltypes_schema(), None, None, 8192, 1, Some(42)).unwrap();
    let rendered = parquet_exec.fmt_as(DisplayFormatType::Default);
    assert_eq!(
        rendered,
        "ParquetExec: batch_size=8192, limit=Some(42), partitions=[a.parquet]"
    );
}

#[test]
fn metric_names_follow_the_partitions() {
    let files = vec![file("a.parquet", 8, 100), file("b.parquet", 8, 100)];
    let parquet_exec =
        ParquetExec::try_new(files, alltypes_schema(), None, None, 1024, 1, None).unwrap();
    let metrics = parquet_exec.metrics();
    assert_eq!(metrics.len(), 3);
    assert_eq!(
        metrics[0].0,
        "numPredicateEvaluationErrors for a.parquet,b.parquet"
    );
    assert_eq!(metrics[1].0, "numRowGroupsPruned for a.parquet,b.parquet");
    assert_eq!(metrics[2].0, "numPredicateCreationErrors");
    assert_eq!(metrics[0].1, 0);
    assert_eq!(metrics[2].1, 0);
}

#[test]
fn limiter_stops_within_one_batch_of_the_limit() {
    let mut limiter = RowLimiter::new(Some(10));
    assert!(!limiter.record_batch(4));
    assert!(!limiter.record_batch(5));
    assert!(limiter.record_batch(6));
    assert_eq!(limiter.total_rows, 15);
    // 15 == 10 + 6 - 1: the worker overruns by less than one batch
    let mut unbounded = RowLimiter::new(None);
    assert!(!unbounded.record_batch(usize::MAX));
    assert!(!unbounded.record_batch(usize::MAX));
}

#[test]
fn unify_schemas_requires_agreement() {
    let a = alltypes_schema();
    let b = alltypes_schema();
    let unified = unify_schemas(&vec![a, b]).unwrap();
    assert_eq!(unified.fields().len(), 4);
    let other = Schema::new(vec![Field::new("id", DataType::Int64, false)]);
    let err = unify_schemas(&vec![alltypes_schema(), other]).unwrap_err();
    assert!(matches!(err, DataFusionError::SchemaMismatch(_)));
}

#[test]
fn batch_errors_name_the_file() {
    let err = parquet_scan::parquet::batch_read_failure("part-0.parquet", "bad page header");
    assert!(matches!(err, DataFusionError::Decode(_)));
    assert_eq!(
        err.message(),
        "Error reading batch from part-0.parquet: bad page header"
    );
}
