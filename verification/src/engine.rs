//! The session-side shapes of engine replies: the windowed query result, the
//! table description, and the statement that opens a read window.

use vstd::prelude::*;
use vstd::string::*;
use crate::ident::is_sql_ident;
use crate::sql::{bad_name_msg, select_window_spec, select_window_sql};
use crate::value::CellValue;

verus! {

/// One column of a table: its name and its declared type.
#[derive(Debug, Clone)]
pub struct ColumnInfo {
    pub name: String,
    pub data_type: String,
}

/// A table description: its columns in order, and its row count.
#[derive(Debug, Clone)]
pub struct TableInfo {
    pub columns: Vec<ColumnInfo>,
    pub row_count: usize,
}

/// A window of rows read back from the engine. `total_rows` counts the rows
/// of this window, not the underlying relation.
#[derive(Debug)]
pub struct QueryResult {
    pub columns: Vec<String>,
    pub rows: Vec<Vec<CellValue>>,
    pub total_rows: usize,
}

/// Build the windowed read over a table, with a missing limit meaning 1000
/// rows and a missing offset meaning the start.
pub fn query_data_sql(table: &str, limit: Option<usize>, offset: Option<usize>) -> (r: Result<
    String,
    String,
>)
    ensures
        r is Ok <==> is_sql_ident(table@),
        r is Ok ==> r->Ok_0@ == select_window_spec(
            table@,
            (if limit is Some { limit->0 } else { 1000 }) as nat,
            (if offset is Some { offset->0 } else { 0 }) as nat,
        ),
        r is Err ==> r->Err_0@ == bad_name_msg(),
{
    let l: usize = match limit {
        Some(l) => l,
        None => 1000,
    };
    let o: usize = match offset {
        Some(o) => o,
        None => 0,
    };
    select_window_sql(table, l, o)
}

/// Assemble the reply for a window of decoded rows; the reported total is
/// the number of rows in the window.
pub fn assemble_query_result(columns: Vec<String>, rows: Vec<Vec<CellValue>>) -> (r: QueryResult)
    ensures
        r.columns == columns,
        r.rows == rows,
        r.total_rows == rows@.len(),
{
    let total_rows = rows.len();
    QueryResult { columns, rows, total_rows }
}

/// Assemble a table description from the `(name, declared type)` pairs of
/// the engine's column listing and a separately counted row total.
pub fn table_info_from_pragma(columns: Vec<(String, String)>, row_count: usize) -> (r: TableInfo)
    ensures
        r.columns@.len() == columns@.len(),
        forall|i: int|
            0 <= i < columns@.len() ==> #[trigger] r.columns@[i].name == columns@[i].0
                && r.columns@[i].data_type == columns@[i].1,
        r.row_count == row_count,
{
    let mut out: Vec<ColumnInfo> = Vec::new();
    let mut i: usize = 0;
    while i < columns.len()
        invariant
            i <= columns@.len(),
            out@.len() == i,
            forall|k: int|
                0 <= k < i ==> #[trigger] out@[k].name == columns@[k].0 && out@[k].data_type
                    == columns@[k].1,
        decreases columns@.len() - i,
    {
        let (name, data_type) = (columns[i].0.clone(), columns[i].1.clone());
        out.push(ColumnInfo { name, data_type });
        i = i + 1;
    }
    TableInfo { columns: out, row_count }
}

} // verus!
