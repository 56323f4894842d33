use parquet_scan::expr::{col, lit_bool, lit_i32};
use parquet_scan::metadata::{boolean_statistics, int32_statistics, ColumnChunkMetaData, RowGroupMetaData};
use parquet_scan::metrics::ParquetPartitionMetrics;
use parquet_scan::pruning::{build_row_group_predicate, PruningPredicate, RowGroupPruningStatistics};
use parquet_scan::scalar::{DataType, ScalarValue};
use parquet_scan::schema::{Field, Schema};

fn int32_schema_c1() -> Schema {
    Schema::new(vec![Field::new("c1", DataType::Int32, false)])
}

fn row_group(columns: Vec<ColumnChunkMetaData>) -> RowGroupMetaData {
    RowGroupMetaData::new(1000, 2000, columns)
}

#[test]
fn row_group_predicate_builder_simple_expr() {
    // int > 1 => c1_max > 1
    let expr = col("c1").gt(lit_i32(15));
    let predicate_builder = PruningPredicate::try_new(&expr, int32_schema_c1()).unwrap();

    let rgm1 = row_group(vec![int32_statistics(Some(1), Some(10), None, 0)]);
    let rgm2 = row_group(vec![int32_statistics(Some(11), Some(20), None, 0)]);
    let row_group_metadata = vec![rgm1, rgm2];
    let metrics = ParquetPartitionMetrics::new();
    let row_group_predicate =
        build_row_group_predicate(&predicate_builder, &metrics, &row_group_metadata);
    let row_group_filter: Vec<bool> = (0..row_group_metadata.len())
        .map(|i| row_group_predicate.keep(i))
        .collect();
    assert_eq!(row_group_filter, vec![false, true]);
    assert_eq!(metrics.row_groups_pruned.value(), 1);
    assert_eq!(metrics.predicate_evaluation_errors.value(), 0);
}

#[test]
fn row_group_predicate_builder_missing_stats() {
    let expr = col("c1").gt(lit_i32(15));
    let predicate_builder = PruningPredicate::try_new(&expr, int32_schema_c1()).unwrap();

    let rgm1 = row_group(vec![int32_statistics(None, None, None, 0)]);
    let rgm2 = row_group(vec![int32_statistics(Some(11), Some(20), None, 0)]);
    let row_group_metadata = vec![rgm1, rgm2];
    let metrics = ParquetPartitionMetrics::new();
    let row_group_predicate =
        build_row_group_predicate(&predicate_builder, &metrics, &row_group_metadata);
    let row_group_filter: Vec<bool> = (0..row_group_metadata.len())
        .map(|i| row_group_predicate.keep(i))
        .collect();
    // missing statistics for the first row group mean that the predicate
    // result is undefined, so the row group cannot be filtered out
    assert_eq!(row_group_filter, vec![true, true]);
    assert_eq!(metrics.row_groups_pruned.value(), 0);
}

#[test]
fn row_group_predicate_builder_partial_expr() {
    // test row group predicate with partially supported expression
    // int > 1 and int % 2 => c1_max > 1 and true
    let expr = col("c1").gt(lit_i32(15)).and(col("c2").modulus(lit_i32(2)));
    let schema = Schema::new(vec![
        Field::new("c1", DataType::Int32, false),
        Field::new("c2", DataType::Int32, false),
    ]);
    let predicate_builder = PruningPredicate::try_new(&expr, schema.clone()).unwrap();

    let rgm1 = row_group(vec![
        int32_statistics(Some(1), Some(10), None, 0),
        int32_statistics(Some(1), Some(10), None, 0),
    ]);
    let rgm2 = row_group(vec![
        int32_statistics(Some(11), Some(20), None, 0),
        int32_statistics(Some(11), Some(20), None, 0),
    ]);
    let row_group_metadata = vec![rgm1, rgm2];
    let metrics = ParquetPartitionMetrics::new();
    let row_group_predicate =
        build_row_group_predicate(&predicate_builder, &metrics, &row_group_metadata);
    let row_group_filter: Vec<bool> = (0..row_group_metadata.len())
        .map(|i| row_group_predicate.keep(i))
        .collect();
    // the first row group is still filtered out because the predicate
    // expression can be partially evaluated when conditions are joined with AND
    assert_eq!(row_group_filter, vec![false, true]);

    // if conditions are joined with OR and an unsupported expression is used,
    // this bypasses the predicate expression and no row groups are filtered
    let expr = col("c1").gt(lit_i32(15)).or(col("c2").modulus(lit_i32(2)));
    let predicate_builder = PruningPredicate::try_new(&expr, schema).unwrap();
    let metrics = ParquetPartitionMetrics::new();
    let row_group_predicate =
        build_row_group_predicate(&predicate_builder, &metrics, &row_group_metadata);
    let row_group_filter: Vec<bool> = (0..row_group_metadata.len())
        .map(|i| row_group_predicate.keep(i))
        .collect();
    assert_eq!(row_group_filter, vec![true, true]);
    assert_eq!(metrics.predicate_evaluation_errors.value(), 0);
    assert_eq!(metrics.row_groups_pruned.value(), 0);
}

#[test]
fn row_group_predicate_builder_unsupported_type() {
    // test row group predicate with an unsupported statistics type (boolean):
    // the unknown comparison propagates and no row group is pruned
    let expr = col("c1").gt(lit_i32(15)).and(col("c2").eq(lit_bool(true)));
    let schema = Schema::new(vec![
        Field::new("c1", DataType::Int32, false),
        Field::new("c2", DataType::Boolean, false),
    ]);
    let predicate_builder = PruningPredicate::try_new(&expr, schema).unwrap();

    let rgm1 = row_group(vec![
        int32_statistics(Some(1), Some(10), None, 0),
        boolean_statistics(Some(false), Some(true), None, 0),
    ]);
    let rgm2 = row_group(vec![
        int32_statistics(Some(11), Some(20), None, 0),
        boolean_statistics(Some(false), Some(true), None, 0),
    ]);
    let row_group_metadata = vec![rgm1, rgm2];
    let metrics = ParquetPartitionMetrics::new();
    let row_group_predicate =
        build_row_group_predicate(&predicate_builder, &metrics, &row_group_metadata);
    let row_group_filter: Vec<bool> = (0..row_group_metadata.len())
        .map(|i| row_group_predicate.keep(i))
        .collect();
    assert_eq!(row_group_filter, vec![true, true]);
}

#[test]
fn straddling_literal_is_kept() {
    // statistics that straddle an equality's literal never prune it
    let expr = col("c1").eq(lit_i32(15));
    let predicate_builder = PruningPredicate::try_new(&expr, int32_schema_c1()).unwrap();
    let row_group_metadata = vec![row_group(vec![int32_statistics(Some(10), Some(20), None, 0)])];
    let keep = predicate_builder.prune(&row_group_metadata).unwrap();
    assert_eq!(keep, vec![true]);
    // the same literal at either endpoint is still kept
    let row_group_metadata = vec![
        row_group(vec![int32_statistics(Some(15), Some(15), None, 0)]),
        row_group(vec![int32_statistics(Some(15), Some(20), None, 0)]),
        row_group(vec![int32_statistics(Some(16), Some(20), None, 0)]),
    ];
    let keep = predicate_builder.prune(&row_group_metadata).unwrap();
    assert_eq!(keep, vec![true, true, false]);
}

#[test]
fn predicate_creation_error_on_absent_column() {
    let expr = col("c3").gt(lit_i32(15));
    let err = PruningPredicate::try_new(&expr, int32_schema_c1()).unwrap_err();
    assert!(matches!(
        err,
        parquet_scan::error::DataFusionError::SchemaMismatch(_)
    ));
}

#[test]
fn predicate_evaluation_error_keeps_all_row_groups() {
    let expr = col("c1").gt(lit_i32(15));
    let predicate_builder = PruningPredicate::try_new(&expr, int32_schema_c1()).unwrap();
    // a row group without any statistics column cannot be evaluated
    let row_group_metadata = vec![row_group(vec![])];
    let err = predicate_builder.prune(&row_group_metadata).unwrap_err();
    assert!(matches!(
        err,
        parquet_scan::error::DataFusionError::StatisticsUnavailable(_)
    ));
    let metrics = ParquetPartitionMetrics::new();
    let row_group_predicate =
        build_row_group_predicate(&predicate_builder, &metrics, &row_group_metadata);
    assert!(row_group_predicate.keep(0));
    assert_eq!(metrics.predicate_evaluation_errors.value(), 1);
}

#[test]
fn adapter_projects_min_max_scalars() {
    let schema = Schema::new(vec![Field::new("c1", DataType::Int32, false)]);
    let row_group_metadata = vec![
        row_group(vec![int32_statistics(Some(1), Some(10), None, 0)]),
        row_group(vec![int32_statistics(None, None, None, 0)]),
    ];
    let stats = RowGroupPruningStatistics {
        row_group_metadata: &row_group_metadata,
        parquet_schema: &schema,
    };
    assert_eq!(stats.num_containers(), 2);
    let mins = stats.min_values("c1").unwrap();
    assert!(matches!(mins[0], ScalarValue::Int32(Some(1))));
    assert!(matches!(mins[1], ScalarValue::Int32(None)));
    let maxes = stats.max_values("c1").unwrap();
    assert!(matches!(maxes[0], ScalarValue::Int32(Some(10))));
    assert!(matches!(maxes[1], ScalarValue::Int32(None)));
    // a column the schema does not know yields nothing
    assert!(stats.min_values("c9").is_none());
}

#[test]
fn adapter_rejects_mismatched_statistics_types() {
    // the schema calls c1 an integer but a row group carries boolean stats:
    // the typed fold fails and the adapter yields no array
    let schema = Schema::new(vec![Field::new("c1", DataType::Int32, false)]);
    let row_group_metadata = vec![row_group(vec![boolean_statistics(
        Some(false),
        Some(true),
        None,
        0,
    )])];
    let stats = RowGroupPruningStatistics {
        row_group_metadata: &row_group_metadata,
        parquet_schema: &schema,
    };
    assert!(stats.min_values("c1").is_none());
    assert!(stats.max_values("c1").is_none());
}
