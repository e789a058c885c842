//! Filtering, grouping, aggregation and per-column descriptive statistics:
//! building the queries, and assembling the engine's answers into replies.

use vstd::prelude::*;
use vstd::string::*;
use crate::ident::{is_sql_ident, check_sql_ident, no_dquote, check_no_dquote, quoted_spec,
    quote_ident};
use crate::sql::bad_name_msg;
use crate::text::{contains_spec, contains_sub, dec_spec, int_dec_spec, i64_dec, join_spec,
    join_with, push_char, str_eq, to_ascii_upper, upper_spec, usize_dec};
use crate::value::{CellValue, lit_ok, lit_spec, in_list_ok, in_list_spec, quote_literal,
    quote_in_list};

verus! {

/// Descriptive statistics for one column. Numeric statistics are carried as
/// decimal text; a slot the engine reported as SQL `NULL` is `None`.
#[derive(Debug, Clone)]
pub struct ColumnStatistics {
    pub column_name: String,
    pub count: i64,
    pub null_count: i64,
    pub distinct_count: i64,
    pub min: Option<String>,
    pub max: Option<String>,
    pub mean: Option<String>,
    pub median: Option<String>,
    pub std_dev: Option<String>,
    pub variance: Option<String>,
    pub q25: Option<String>,
    pub q75: Option<String>,
    pub data_type: String,
}

/// Statistics for a whole table: one entry per column.
#[derive(Debug, Clone)]
pub struct TableStatistics {
    pub table_name: String,
    pub total_rows: i64,
    pub total_columns: usize,
    pub column_stats: Vec<ColumnStatistics>,
}

/// The reply of a single-column aggregation.
#[derive(Debug)]
pub struct AggregationResult {
    pub column_name: String,
    pub function: String,
    pub result: CellValue,
}

/// One filter condition: a column, an operator from the closed set
/// `= != > < >= <= LIKE IN`, and a wire value.
#[derive(Debug)]
pub struct FilterCondition {
    pub column: String,
    pub operator: String,
    pub value: CellValue,
}

/// One aggregation: a column, a function from the closed set
/// `SUM AVG COUNT MIN MAX STDDEV VAR`, and the alias of the result column.
#[derive(Debug, Clone)]
pub struct AggregationSpec {
    pub column: String,
    pub function: String,
    pub alias: String,
}

/// The comparison operators that are passed through as they stand.
pub open spec fn is_cmp_op(op: Seq<char>) -> bool {
    op == "="@ || op == "!="@ || op == ">"@ || op == "<"@ || op == ">="@ || op == "<="@
}

/// A well-formed filter condition: the column can be double-quoted, the
/// operator is in the closed set, `IN` takes exactly an array of renderable
/// scalars, and every other operator takes a renderable scalar.
pub open spec fn cond_ok(c: FilterCondition) -> bool {
    &&& no_dquote(c.column@)
    &&& if upper_spec(c.operator@) == "IN"@ {
        match c.value {
            CellValue::Array(elems) => in_list_ok(elems@),
            _ => false,
        }
    } else if upper_spec(c.operator@) == "LIKE"@ {
        lit_ok(c.value)
    } else {
        is_cmp_op(c.operator@) && lit_ok(c.value)
    }
}

/// The SQL text of one filter condition.
pub open spec fn cond_spec(c: FilterCondition) -> Seq<char> {
    if upper_spec(c.operator@) == "IN"@ {
        quoted_spec(c.column@) + " IN "@ + (match c.value {
            CellValue::Array(elems) => in_list_spec(elems@),
            _ => Seq::empty(),
        })
    } else if upper_spec(c.operator@) == "LIKE"@ {
        quoted_spec(c.column@) + " LIKE "@ + lit_spec(c.value)
    } else {
        quoted_spec(c.column@) + seq![' '] + c.operator@ + seq![' '] + lit_spec(c.value)
    }
}

/// Render one filter condition as SQL.
pub fn build_condition_clause(c: &FilterCondition) -> (r: Result<String, String>)
    ensures
        r is Ok <==> cond_ok(*c),
        r is Ok ==> r->Ok_0@ == cond_spec(*c),
        !no_dquote(c.column@) ==> r is Err && r->Err_0@ == "Invalid column name"@,
        no_dquote(c.column@) && upper_spec(c.operator@) == "IN"@ && !(c.value is Array) ==> r
            is Err && r->Err_0@ == "IN requires an array value"@,
        no_dquote(c.column@) && upper_spec(c.operator@) != "IN"@ && upper_spec(c.operator@)
            != "LIKE"@ && !is_cmp_op(c.operator@) ==> r is Err && r->Err_0@
            == "Invalid filter operator"@,
{
    if !check_no_dquote(c.column.as_str()) {
        return Err(String::from_str("Invalid column name"));
    }
    let upper = to_ascii_upper(c.operator.as_str());
    if str_eq(upper.as_str(), "IN") {
        match &c.value {
            CellValue::Array(elems) => {
                let list = match quote_in_list(elems) {
                    Ok(l) => l,
                    Err(e) => {
                        return Err(e);
                    },
                };
                let mut out = quote_ident(c.column.as_str());
                out.append(" IN ");
                out.append(list.as_str());
                proof {
                    assert(out@ =~= cond_spec(*c));
                }
                Ok(out)
            },
            _ => Err(String::from_str("IN requires an array value")),
        }
    } else if str_eq(upper.as_str(), "LIKE") {
        let lit = match quote_literal(&c.value) {
            Ok(l) => l,
            Err(e) => {
                return Err(e);
            },
        };
        let mut out = quote_ident(c.column.as_str());
        out.append(" LIKE ");
        out.append(lit.as_str());
        proof {
            assert(out@ =~= cond_spec(*c));
        }
        Ok(out)
    } else {
        let op = c.operator.as_str();
        let known = str_eq(op, "=") || str_eq(op, "!=") || str_eq(op, ">") || str_eq(op, "<")
            || str_eq(op, ">=") || str_eq(op, "<=");
        if !known {
            return Err(String::from_str("Invalid filter operator"));
        }
        let lit = match quote_literal(&c.value) {
            Ok(l) => l,
            Err(e) => {
                return Err(e);
            },
        };
        let mut out = quote_ident(c.column.as_str());
        push_char(&mut out, ' ');
        out.append(op);
        push_char(&mut out, ' ');
        out.append(lit.as_str());
        proof {
            assert(out@ =~= cond_spec(*c));
        }
        Ok(out)
    }
}

/// Every condition of the list is well formed.
pub open spec fn conds_ok(conds: Seq<FilterCondition>) -> bool {
    forall|i: int| 0 <= i < conds.len() ==> cond_ok(#[trigger] conds[i])
}

/// The `WHERE` clause for a condition list: empty for no conditions,
/// otherwise the rendered conditions joined by ` AND `.
pub open spec fn where_spec(conds: Seq<FilterCondition>) -> Seq<char> {
    if conds.len() == 0 {
        Seq::empty()
    } else {
        "WHERE "@ + join_spec(conds.map_values(|c: FilterCondition| cond_spec(c)), " AND "@)
    }
}

/// Render the `WHERE` clause of a condition list.
pub fn where_clause(conditions: &Vec<FilterCondition>) -> (r: Result<String, String>)
    ensures
        r is Ok <==> conds_ok(conditions@),
        r is Ok ==> r->Ok_0@ == where_spec(conditions@),
{
    if conditions.len() == 0 {
        let empty = String::new();
        proof {
            assert(empty@ =~= where_spec(conditions@));
        }
        return Ok(empty);
    }
    let mut parts: Vec<String> = Vec::new();
    let mut i: usize = 0;
    while i < conditions.len()
        invariant
            i <= conditions@.len(),
            parts@.len() == i,
            forall|k: int| 0 <= k < i ==> cond_ok(#[trigger] conditions@[k]),
            forall|k: int| 0 <= k < i ==> #[trigger] parts@[k]@ == cond_spec(conditions@[k]),
        decreases conditions@.len() - i,
    {
        match build_condition_clause(&conditions[i]) {
            Ok(p) => {
                parts.push(p);
            },
            Err(e) => {
                return Err(e);
            },
        }
        i = i + 1;
    }
    let joined = join_with(&parts, " AND ");
    let mut out = String::from_str("WHERE ");
    out.append(joined.as_str());
    proof {
        assert(crate::text::views_of(parts@) =~= conditions@.map_values(
            |c: FilterCondition| cond_spec(c),
        ));
        assert(out@ =~= where_spec(conditions@));
    }
    Ok(out)
}

/// `SELECT * FROM "t" <where> LIMIT l OFFSET o` — the space before the
/// window keywords stands even when the clause is empty.
pub open spec fn filter_query_spec(
    t: Seq<char>,
    conds: Seq<FilterCondition>,
    limit: nat,
    offset: nat,
) -> Seq<char> {
    "SELECT * FROM "@ + quoted_spec(t) + seq![' '] + where_spec(conds) + " LIMIT "@ + dec_spec(
        limit,
    ) + " OFFSET "@ + dec_spec(offset)
}

/// Build the windowed filtered read over a table; a missing limit means
/// 1000 rows, a missing offset the start.
pub fn filter_data_sql(
    table: &str,
    conditions: &Vec<FilterCondition>,
    limit: Option<usize>,
    offset: Option<usize>,
) -> (r: Result<String, String>)
    ensures
        r is Ok <==> is_sql_ident(table@) && conds_ok(conditions@),
        r is Ok ==> r->Ok_0@ == filter_query_spec(
            table@,
            conditions@,
            (if limit is Some { limit->0 } else { 1000 }) as nat,
            (if offset is Some { offset->0 } else { 0 }) as nat,
        ),
        !is_sql_ident(table@) ==> r is Err && r->Err_0@ == bad_name_msg(),
{
    if !check_sql_ident(table) {
        return Err(String::from_str("Invalid table name"));
    }
    let l: usize = match limit {
        Some(l) => l,
        None => 1000,
    };
    let o: usize = match offset {
        Some(o) => o,
        None => 0,
    };
    let wc = match where_clause(conditions) {
        Ok(w) => w,
        Err(e) => {
            return Err(e);
        },
    };
    let mut out = String::from_str("SELECT * FROM ");
    let q = quote_ident(table);
    out.append(q.as_str());
    push_char(&mut out, ' ');
    out.append(wc.as_str());
    out.append(" LIMIT ");
    let ld = usize_dec(l);
    out.append(ld.as_str());
    out.append(" OFFSET ");
    let od = usize_dec(o);
    out.append(od.as_str());
    proof {
        assert(out@ =~= filter_query_spec(table@, conditions@, l as nat, o as nat));
    }
    Ok(out)
}

/// `DROP VIEW IF EXISTS "v"`
pub open spec fn drop_view_spec(v: Seq<char>) -> Seq<char> {
    "DROP VIEW IF EXISTS "@ + quoted_spec(v)
}

/// `CREATE VIEW "v" AS SELECT * FROM "s" <where>`
pub open spec fn create_view_spec(v: Seq<char>, s: Seq<char>, conds: Seq<FilterCondition>) -> Seq<
    char,
> {
    "CREATE VIEW "@ + quoted_spec(v) + " AS SELECT * FROM "@ + quoted_spec(s) + seq![' ']
        + where_spec(conds)
}

/// Build the two statements that replace a filtered view: drop any view of
/// that name, then create it over the source with the condition list.
pub fn create_filtered_view_statements(
    source_table: &str,
    view_name: &str,
    conditions: &Vec<FilterCondition>,
) -> (r: Result<Vec<String>, String>)
    ensures
        r is Ok <==> is_sql_ident(source_table@) && is_sql_ident(view_name@) && conds_ok(
            conditions@,
        ),
        r is Ok ==> r->Ok_0@.len() == 2 && r->Ok_0@[0]@ == drop_view_spec(view_name@)
            && r->Ok_0@[1]@ == create_view_spec(view_name@, source_table@, conditions@),
{
    if !check_sql_ident(source_table) || !check_sql_ident(view_name) {
        return Err(String::from_str("Invalid table name"));
    }
    let wc = match where_clause(conditions) {
        Ok(w) => w,
        Err(e) => {
            return Err(e);
        },
    };
    let mut drop = String::from_str("DROP VIEW IF EXISTS ");
    let qv = quote_ident(view_name);
    drop.append(qv.as_str());
    let mut create = String::from_str("CREATE VIEW ");
    create.append(qv.as_str());
    create.append(" AS SELECT * FROM ");
    let qs = quote_ident(source_table);
    create.append(qs.as_str());
    push_char(&mut create, ' ');
    create.append(wc.as_str());
    let mut out: Vec<String> = Vec::new();
    out.push(drop);
    out.push(create);
    proof {
        assert(out@[0]@ =~= drop_view_spec(view_name@));
        assert(out@[1]@ =~= create_view_spec(view_name@, source_table@, conditions@));
    }
    Ok(out)
}

/// An aggregation function from the closed set, compared after ASCII
/// upper-casing.
pub open spec fn agg_fn_ok(f: Seq<char>) -> bool {
    ||| upper_spec(f) == "SUM"@
    ||| upper_spec(f) == "AVG"@
    ||| upper_spec(f) == "COUNT"@
    ||| upper_spec(f) == "MIN"@
    ||| upper_spec(f) == "MAX"@
    ||| upper_spec(f) == "STDDEV"@
    ||| upper_spec(f) == "VAR"@
}

/// Whether the function name, upper-cased, is in the allowed aggregation
/// set.
pub fn check_agg_fn(f: &str) -> (b: bool)
    ensures
        b == agg_fn_ok(f@),
{
    let u = to_ascii_upper(f);
    let s = u.as_str();
    str_eq(s, "SUM") || str_eq(s, "AVG") || str_eq(s, "COUNT") || str_eq(s, "MIN") || str_eq(
        s,
        "MAX",
    ) || str_eq(s, "STDDEV") || str_eq(s, "VAR")
}

/// `SELECT FN("c") FROM "t"`
pub open spec fn aggregate_spec(t: Seq<char>, c: Seq<char>, f: Seq<char>) -> Seq<char> {
    "SELECT "@ + upper_spec(f) + seq!['('] + quoted_spec(c) + ") FROM "@ + quoted_spec(t)
}

/// Build the single-column aggregation query; the function must come from
/// the allowed set and is upper-cased on the way.
pub fn aggregate_sql(table: &str, column: &str, function: &str) -> (r: Result<String, String>)
    ensures
        r is Ok <==> is_sql_ident(table@) && no_dquote(column@) && agg_fn_ok(function@),
        r is Ok ==> r->Ok_0@ == aggregate_spec(table@, column@, function@),
        !is_sql_ident(table@) ==> r is Err && r->Err_0@ == bad_name_msg(),
        is_sql_ident(table@) && !no_dquote(column@) ==> r is Err && r->Err_0@
            == "Invalid column name"@,
        is_sql_ident(table@) && no_dquote(column@) && !agg_fn_ok(function@) ==> r is Err
            && r->Err_0@ == "Invalid aggregation function"@,
{
    if !check_sql_ident(table) {
        return Err(String::from_str("Invalid table name"));
    }
    if !check_no_dquote(column) {
        return Err(String::from_str("Invalid column name"));
    }
    if !check_agg_fn(function) {
        return Err(String::from_str("Invalid aggregation function"));
    }
    let mut out = String::from_str("SELECT ");
    let fu = to_ascii_upper(function);
    out.append(fu.as_str());
    push_char(&mut out, '(');
    let qc = quote_ident(column);
    out.append(qc.as_str());
    out.append(") FROM ");
    let qt = quote_ident(table);
    out.append(qt.as_str());
    proof {
        assert(out@ =~= aggregate_spec(table@, column@, function@));
    }
    Ok(out)
}

/// Assemble the aggregation reply: the column, the upper-cased function
/// name, and the scalar the engine returned.
pub fn aggregation_result(column_name: String, function: &str, result: CellValue) -> (r:
    AggregationResult)
    ensures
        r.column_name == column_name,
        r.function@ == upper_spec(function@),
        r.result == result,
{
    let fu = to_ascii_upper(function);
    AggregationResult { column_name, function: fu, result }
}

/// `SELECT CORR("x", "y") FROM "t"`
pub open spec fn corr_spec(t: Seq<char>, x: Seq<char>, y: Seq<char>) -> Seq<char> {
    "SELECT CORR("@ + quoted_spec(x) + ", "@ + quoted_spec(y) + ") FROM "@ + quoted_spec(t)
}

/// Build the correlation query over two columns.
pub fn correlation_sql(table: &str, column_x: &str, column_y: &str) -> (r: Result<String, String>)
    ensures
        r is Ok <==> is_sql_ident(table@) && no_dquote(column_x@) && no_dquote(column_y@),
        r is Ok ==> r->Ok_0@ == corr_spec(table@, column_x@, column_y@),
        !is_sql_ident(table@) ==> r is Err && r->Err_0@ == bad_name_msg(),
        is_sql_ident(table@) && !(no_dquote(column_x@) && no_dquote(column_y@)) ==> r is Err
            && r->Err_0@ == "Invalid column name"@,
{
    if !check_sql_ident(table) {
        return Err(String::from_str("Invalid table name"));
    }
    if !check_no_dquote(column_x) || !check_no_dquote(column_y) {
        return Err(String::from_str("Invalid column name"));
    }
    let mut out = String::from_str("SELECT CORR(");
    let qx = quote_ident(column_x);
    out.append(qx.as_str());
    out.append(", ");
    let qy = quote_ident(column_y);
    out.append(qy.as_str());
    out.append(") FROM ");
    let qt = quote_ident(table);
    out.append(qt.as_str());
    proof {
        assert(out@ =~= corr_spec(table@, column_x@, column_y@));
    }
    Ok(out)
}

/// `FN("col") as "alias"`, with the function upper-cased.
pub open spec fn agg_part_spec(a: AggregationSpec) -> Seq<char> {
    upper_spec(a.function@) + seq!['('] + quoted_spec(a.column@) + ") as "@ + quoted_spec(
        a.alias@,
    )
}

/// Every aggregation entry is well formed.
pub open spec fn aggs_ok(aggs: Seq<AggregationSpec>) -> bool {
    forall|i: int|
        0 <= i < aggs.len() ==> agg_fn_ok(#[trigger] aggs[i].function@) && no_dquote(
            aggs[i].column@,
        ) && no_dquote(aggs[i].alias@)
}

/// Every grouping column can be double-quoted.
pub open spec fn group_cols_ok(cols: Seq<String>) -> bool {
    forall|i: int| 0 <= i < cols.len() ==> no_dquote(#[trigger] cols[i]@)
}

/// The quoted grouping columns joined by `, `.
pub open spec fn group_list_spec(cols: Seq<String>) -> Seq<char> {
    join_spec(cols.map_values(|c: String| quoted_spec(c@)), ", "@)
}

/// The rendered aggregation parts joined by `, `.
pub open spec fn agg_list_spec(aggs: Seq<AggregationSpec>) -> Seq<char> {
    join_spec(aggs.map_values(|a: AggregationSpec| agg_part_spec(a)), ", "@)
}

/// The grouped aggregation query: aggregations alone over the whole table,
/// or grouping columns first in the selection and a matching `GROUP BY`.
pub open spec fn group_agg_spec(
    t: Seq<char>,
    cols: Seq<String>,
    aggs: Seq<AggregationSpec>,
) -> Seq<char> {
    if cols.len() == 0 {
        "SELECT "@ + agg_list_spec(aggs) + " FROM "@ + quoted_spec(t)
    } else {
        "SELECT "@ + group_list_spec(cols) + ", "@ + agg_list_spec(aggs) + " FROM "@
            + quoted_spec(t) + " GROUP BY "@ + group_list_spec(cols)
    }
}

/// Build the grouped aggregation query over a table.
pub fn group_and_aggregate_sql(
    table: &str,
    group_by_columns: &Vec<String>,
    aggregations: &Vec<AggregationSpec>,
) -> (r: Result<String, String>)
    ensures
        r is Ok <==> is_sql_ident(table@) && group_cols_ok(group_by_columns@) && aggs_ok(
            aggregations@,
        ),
        r is Ok ==> r->Ok_0@ == group_agg_spec(table@, group_by_columns@, aggregations@),
        !is_sql_ident(table@) ==> r is Err && r->Err_0@ == bad_name_msg(),
{
    if !check_sql_ident(table) {
        return Err(String::from_str("Invalid table name"));
    }
    let mut gparts: Vec<String> = Vec::new();
    let mut i: usize = 0;
    while i < group_by_columns.len()
        invariant
            is_sql_ident(table@),
            i <= group_by_columns@.len(),
            gparts@.len() == i,
            forall|k: int| 0 <= k < i ==> no_dquote(#[trigger] group_by_columns@[k]@),
            forall|k: int|
                0 <= k < i ==> #[trigger] gparts@[k]@ == quoted_spec(group_by_columns@[k]@),
        decreases group_by_columns@.len() - i,
    {
        let col = &group_by_columns[i];
        if !check_no_dquote(col.as_str()) {
            return Err(String::from_str("Invalid column name"));
        }
        gparts.push(quote_ident(col.as_str()));
        i = i + 1;
    }
    let mut aparts: Vec<String> = Vec::new();
    let mut j: usize = 0;
    while j < aggregations.len()
        invariant
            is_sql_ident(table@),
            group_cols_ok(group_by_columns@),
            j <= aggregations@.len(),
            aparts@.len() == j,
            forall|k: int|
                0 <= k < j ==> agg_fn_ok(#[trigger] aggregations@[k].function@) && no_dquote(
                    aggregations@[k].column@,
                ) && no_dquote(aggregations@[k].alias@),
            forall|k: int|
                0 <= k < j ==> #[trigger] aparts@[k]@ == agg_part_spec(aggregations@[k]),
        decreases aggregations@.len() - j,
    {
        let a = &aggregations[j];
        proof {
            assert(aggregations@[j as int].function@ == a.function@ && aggregations@[j as int].column@
                == a.column@ && aggregations@[j as int].alias@ == a.alias@);
        }
        if !check_no_dquote(a.column.as_str()) || !check_no_dquote(a.alias.as_str()) {
            proof {
                let aj = aggregations@[j as int];
                assert(!(agg_fn_ok(aj.function@) && no_dquote(aj.column@) && no_dquote(aj.alias@)));
                assert(!aggs_ok(aggregations@));
            }
            return Err(String::from_str("Invalid column name"));
        }
        if !check_agg_fn(a.function.as_str()) {
            proof {
                let aj = aggregations@[j as int];
                assert(!(agg_fn_ok(aj.function@) && no_dquote(aj.column@) && no_dquote(aj.alias@)));
                assert(!aggs_ok(aggregations@));
            }
            return Err(String::from_str("Invalid aggregation function"));
        }
        let mut part = to_ascii_upper(a.function.as_str());
        push_char(&mut part, '(');
        let qc = quote_ident(a.column.as_str());
        part.append(qc.as_str());
        part.append(") as ");
        let qa = quote_ident(a.alias.as_str());
        part.append(qa.as_str());
        proof {
            assert(part@ =~= agg_part_spec(aggregations@[j as int]));
            let aj = aggregations@[j as int];
            assert(agg_fn_ok(aj.function@));
            assert(no_dquote(aj.column@));
            assert(no_dquote(aj.alias@));
            assert forall|k: int|
                0 <= k < j + 1 implies agg_fn_ok(#[trigger] aggregations@[k].function@)
                    && no_dquote(aggregations@[k].column@) && no_dquote(
                    aggregations@[k].alias@,
                ) by {
                if k == j {
                    assert(aggregations@[k] == aj);
                }
            }
        }
        aparts.push(part);
        j = j + 1;
    }
    let glist = join_with(&gparts, ", ");
    let alist = join_with(&aparts, ", ");
    proof {
        assert(crate::text::views_of(gparts@) =~= group_by_columns@.map_values(
            |c: String| quoted_spec(c@),
        ));
        assert(crate::text::views_of(aparts@) =~= aggregations@.map_values(
            |a: AggregationSpec| agg_part_spec(a),
        ));
    }
    let mut out = String::from_str("SELECT ");
    if group_by_columns.len() == 0 {
        out.append(alist.as_str());
        out.append(" FROM ");
        let qt = quote_ident(table);
        out.append(qt.as_str());
        proof {
            assert(out@ =~= group_agg_spec(table@, group_by_columns@, aggregations@));
        }
        Ok(out)
    } else {
        out.append(glist.as_str());
        out.append(", ");
        out.append(alist.as_str());
        out.append(" FROM ");
        let qt = quote_ident(table);
        out.append(qt.as_str());
        out.append(" GROUP BY ");
        out.append(glist.as_str());
        proof {
            assert(out@ =~= group_agg_spec(table@, group_by_columns@, aggregations@));
        }
        Ok(out)
    }
}

/// A column counts as numeric when its declared type, upper-cased, holds
/// any of `INT`, `DOUBLE`, `FLOAT`, `DECIMAL`, `NUMERIC`.
pub open spec fn numeric_type_spec(dt: Seq<char>) -> bool {
    ||| contains_spec(upper_spec(dt), "INT"@)
    ||| contains_spec(upper_spec(dt), "DOUBLE"@)
    ||| contains_spec(upper_spec(dt), "FLOAT"@)
    ||| contains_spec(upper_spec(dt), "DECIMAL"@)
    ||| contains_spec(upper_spec(dt), "NUMERIC"@)
}

/// Classify a declared column type as numeric or not.
pub fn is_numeric_type(data_type: &str) -> (b: bool)
    ensures
        b == numeric_type_spec(data_type@),
{
    let u = to_ascii_upper(data_type);
    let s = u.as_str();
    contains_sub(s, "INT") || contains_sub(s, "DOUBLE") || contains_sub(s, "FLOAT")
        || contains_sub(s, "DECIMAL") || contains_sub(s, "NUMERIC")
}

/// The statistics query for one column: counts, extrema as text, and — for
/// numeric columns — mean, median, spread and quartiles.
pub open spec fn stats_query_spec(t: Seq<char>, c: Seq<char>, numeric: bool) -> Seq<char> {
    "SELECT COUNT("@ + quoted_spec(c) + ") as count, COUNT(*) - COUNT("@ + quoted_spec(c)
        + ") as null_count, COUNT(DISTINCT "@ + quoted_spec(c) + ") as distinct_count, MIN("@
        + quoted_spec(c) + ")::VARCHAR as min_val, MAX("@ + quoted_spec(c)
        + ")::VARCHAR as max_val, "@ + (if numeric {
        "AVG("@ + quoted_spec(c) + ") as mean, MEDIAN("@ + quoted_spec(c)
            + ") as median, STDDEV_POP("@ + quoted_spec(c) + ") as std_dev, VAR_POP("@
            + quoted_spec(c) + ") as variance, PERCENTILE_CONT(0.25) WITHIN GROUP (ORDER BY "@
            + quoted_spec(c) + ") as q25, PERCENTILE_CONT(0.75) WITHIN GROUP (ORDER BY "@
            + quoted_spec(c) + ") as q75"@
    } else {
        "NULL as mean, NULL as median, NULL as std_dev, NULL as variance, NULL as q25, NULL as q75"@
    }) + " FROM "@ + quoted_spec(t)
}

/// Build the statistics query for one column, choosing the numeric or
/// non-numeric form from the declared type.
pub fn stats_query_sql(table: &str, column: &str, data_type: &str) -> (r: Result<String, String>)
    ensures
        r is Ok <==> is_sql_ident(table@) && no_dquote(column@),
        r is Ok ==> r->Ok_0@ == stats_query_spec(table@, column@, numeric_type_spec(data_type@)),
        !is_sql_ident(table@) ==> r is Err && r->Err_0@ == bad_name_msg(),
        is_sql_ident(table@) && !no_dquote(column@) ==> r is Err && r->Err_0@
            == "Invalid column name"@,
{
    if !check_sql_ident(table) {
        return Err(String::from_str("Invalid table name"));
    }
    if !check_no_dquote(column) {
        return Err(String::from_str("Invalid column name"));
    }
    let numeric = is_numeric_type(data_type);
    let qc = quote_ident(column);
    let mut out = String::from_str("SELECT COUNT(");
    out.append(qc.as_str());
    out.append(") as count, COUNT(*) - COUNT(");
    out.append(qc.as_str());
    out.append(") as null_count, COUNT(DISTINCT ");
    out.append(qc.as_str());
    out.append(") as distinct_count, MIN(");
    out.append(qc.as_str());
    out.append(")::VARCHAR as min_val, MAX(");
    out.append(qc.as_str());
    out.append(")::VARCHAR as max_val, ");
    if numeric {
        out.append("AVG(");
        out.append(qc.as_str());
        out.append(") as mean, MEDIAN(");
        out.append(qc.as_str());
        out.append(") as median, STDDEV_POP(");
        out.append(qc.as_str());
        out.append(") as std_dev, VAR_POP(");
        out.append(qc.as_str());
        out.append(") as variance, PERCENTILE_CONT(0.25) WITHIN GROUP (ORDER BY ");
        out.append(qc.as_str());
        out.append(") as q25, PERCENTILE_CONT(0.75) WITHIN GROUP (ORDER BY ");
        out.append(qc.as_str());
        out.append(") as q75");
    } else {
        out.append(
            "NULL as mean, NULL as median, NULL as std_dev, NULL as variance, NULL as q25, NULL as q75",
        );
    }
    out.append(" FROM ");
    let qt = quote_ident(table);
    out.append(qt.as_str());
    proof {
        assert(out@ =~= stats_query_spec(table@, column@, numeric_type_spec(data_type@)));
    }
    Ok(out)
}

/// The view of an optional string.
pub open spec fn opt_view(o: Option<String>) -> Option<Seq<char>> {
    match o {
        Option::None => Option::None,
        Option::Some(s) => Option::Some(s@),
    }
}

/// A statistics cell that may fill a text slot: SQL `NULL` or text.
pub open spec fn opt_text_ok(v: CellValue) -> bool {
    v is Null || v is Text
}

/// The text of a text slot.
pub open spec fn opt_text_of(v: CellValue) -> Option<Seq<char>> {
    match v {
        CellValue::Text(s) => Option::Some(s@),
        _ => Option::None,
    }
}

/// A statistics cell that may fill a numeric slot: SQL `NULL`, an integer,
/// or a float.
pub open spec fn opt_num_ok(v: CellValue) -> bool {
    v is Null || v is Int || v is Float
}

/// The decimal text of a numeric slot.
pub open spec fn opt_num_of(v: CellValue) -> Option<Seq<char>> {
    match v {
        CellValue::Int(i) => Option::Some(int_dec_spec(i as int)),
        CellValue::Float(s) => Option::Some(s@),
        _ => Option::None,
    }
}

/// The answer row of a statistics query has eleven cells of the expected
/// kinds: three integer counts, two optional texts, six optional numbers.
pub open spec fn stats_row_ok(row: Seq<CellValue>) -> bool {
    &&& row.len() == 11
    &&& row[0] is Int
    &&& row[1] is Int
    &&& row[2] is Int
    &&& opt_text_ok(row[3])
    &&& opt_text_ok(row[4])
    &&& opt_num_ok(row[5])
    &&& opt_num_ok(row[6])
    &&& opt_num_ok(row[7])
    &&& opt_num_ok(row[8])
    &&& opt_num_ok(row[9])
    &&& opt_num_ok(row[10])
}

/// Assemble one column's statistics from the answer row of its statistics
/// query.
pub fn assemble_column_statistics(
    column_name: &str,
    data_type: &str,
    row: &Vec<CellValue>,
) -> (r: Result<ColumnStatistics, String>)
    ensures
        r is Ok <==> stats_row_ok(row@),
        r is Ok ==> {
            let s = r->Ok_0;
            &&& s.column_name@ == column_name@
            &&& s.data_type@ == data_type@
            &&& s.count == row@[0]->Int_0
            &&& s.null_count == row@[1]->Int_0
            &&& s.distinct_count == row@[2]->Int_0
            &&& opt_view(s.min) == opt_text_of(row@[3])
            &&& opt_view(s.max) == opt_text_of(row@[4])
            &&& opt_view(s.mean) == opt_num_of(row@[5])
            &&& opt_view(s.median) == opt_num_of(row@[6])
            &&& opt_view(s.std_dev) == opt_num_of(row@[7])
            &&& opt_view(s.variance) == opt_num_of(row@[8])
            &&& opt_view(s.q25) == opt_num_of(row@[9])
            &&& opt_view(s.q75) == opt_num_of(row@[10])
        },
{
    if row.len() != 11 {
        return Err(String::from_str("Unexpected statistics row shape"));
    }
    let count: i64 = match &row[0] {
        CellValue::Int(i) => *i,
        _ => {
            return Err(String::from_str("Unexpected statistics row shape"));
        },
    };
    let null_count: i64 = match &row[1] {
        CellValue::Int(i) => *i,
        _ => {
            return Err(String::from_str("Unexpected statistics row shape"));
        },
    };
    let distinct_count: i64 = match &row[2] {
        CellValue::Int(i) => *i,
        _ => {
            return Err(String::from_str("Unexpected statistics row shape"));
        },
    };
    let min: Option<String> = match &row[3] {
        CellValue::Null => None,
        CellValue::Text(s) => Some(s.clone()),
        _ => {
            return Err(String::from_str("Unexpected statistics row shape"));
        },
    };
    let max: Option<String> = match &row[4] {
        CellValue::Null => None,
        CellValue::Text(s) => Some(s.clone()),
        _ => {
            return Err(String::from_str("Unexpected statistics row shape"));
        },
    };
    let mean = match num_slot(&row[5]) {
        Ok(v) => v,
        Err(e) => {
            return Err(e);
        },
    };
    let median = match num_slot(&row[6]) {
        Ok(v) => v,
        Err(e) => {
            return Err(e);
        },
    };
    let std_dev = match num_slot(&row[7]) {
        Ok(v) => v,
        Err(e) => {
            return Err(e);
        },
    };
    let variance = match num_slot(&row[8]) {
        Ok(v) => v,
        Err(e) => {
            return Err(e);
        },
    };
    let q25 = match num_slot(&row[9]) {
        Ok(v) => v,
        Err(e) => {
            return Err(e);
        },
    };
    let q75 = match num_slot(&row[10]) {
        Ok(v) => v,
        Err(e) => {
            return Err(e);
        },
    };
    Ok(
        ColumnStatistics {
            column_name: String::from_str(column_name),
            count,
            null_count,
            distinct_count,
            min,
            max,
            mean,
            median,
            std_dev,
            variance,
            q25,
            q75,
            data_type: String::from_str(data_type),
        },
    )
}

/// Read one numeric statistics slot: SQL `NULL` stays empty, an integer is
/// rendered in decimal, a float keeps its decimal text.
fn num_slot(v: &CellValue) -> (r: Result<Option<String>, String>)
    ensures
        r is Ok <==> opt_num_ok(*v),
        r is Ok ==> opt_view(r->Ok_0) == opt_num_of(*v),
{
    match v {
        CellValue::Null => Ok(None),
        CellValue::Int(i) => Ok(Some(i64_dec(*i))),
        CellValue::Float(s) => Ok(Some(s.clone())),
        _ => Err(String::from_str("Unexpected statistics row shape")),
    }
}

/// Assemble the table-wide statistics reply from the per-column results.
pub fn assemble_table_statistics(
    table_name: String,
    total_rows: i64,
    column_stats: Vec<ColumnStatistics>,
) -> (r: TableStatistics)
    ensures
        r.table_name == table_name,
        r.total_rows == total_rows,
        r.total_columns == column_stats@.len(),
        r.column_stats == column_stats,
{
    let total_columns = column_stats.len();
    TableStatistics { table_name, total_rows, total_columns, column_stats }
}

} // verus!
