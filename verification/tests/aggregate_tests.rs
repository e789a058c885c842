use rats_lib::statistics::{aggregate_sql, aggregation_result, correlation_sql,
    group_and_aggregate_sql, AggregationSpec};
use rats_lib::value::CellValue;

fn agg(column: &str, function: &str, alias: &str) -> AggregationSpec {
    AggregationSpec {
        column: column.to_string(),
        function: function.to_string(),
        alias: alias.to_string(),
    }
}

#[test]
fn aggregate_query_uppercases_the_function() {
    assert_eq!(aggregate_sql("t", "x", "avg").unwrap(), "SELECT AVG(\"x\") FROM \"t\"");
    assert_eq!(aggregate_sql("t", "x", "SUM").unwrap(), "SELECT SUM(\"x\") FROM \"t\"");
}

#[test]
fn aggregate_function_outside_the_set_is_rejected() {
    assert_eq!(
        aggregate_sql("t", "x", "MEDIAN").unwrap_err(),
        "Invalid aggregation function"
    );
    assert!(aggregate_sql("t", "x", "COUNT(*) FROM other; --").is_err());
}

#[test]
fn grouped_aggregation_query() {
    let sql = group_and_aggregate_sql(
        "t",
        &vec!["city".to_string()],
        &vec![agg("pop", "sum", "total"), agg("pop", "avg", "mean_pop")],
    )
    .unwrap();
    assert_eq!(
        sql,
        "SELECT \"city\", SUM(\"pop\") as \"total\", AVG(\"pop\") as \"mean_pop\" \
         FROM \"t\" GROUP BY \"city\""
    );
}

#[test]
fn aggregation_without_grouping() {
    let sql = group_and_aggregate_sql("t", &vec![], &vec![agg("x", "max", "m")]).unwrap();
    assert_eq!(sql, "SELECT MAX(\"x\") as \"m\" FROM \"t\"");
}

#[test]
fn correlation_query() {
    assert_eq!(
        correlation_sql("t", "x", "y").unwrap(),
        "SELECT CORR(\"x\", \"y\") FROM \"t\""
    );
}

#[test]
fn aggregation_reply_carries_the_uppercased_function() {
    let r = aggregation_result("x".to_string(), "sum", CellValue::Int(15));
    assert_eq!(r.column_name, "x");
    assert_eq!(r.function, "SUM");
    assert!(matches!(r.result, CellValue::Int(15)));
}
