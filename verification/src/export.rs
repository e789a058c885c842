//! Exporting tables and query results: the bulk-copy statements for CSV,
//! and the typed cell plan a spreadsheet writer follows.

use vstd::prelude::*;
use vstd::string::*;
use crate::engine::QueryResult;
use crate::ident::is_sql_ident;
use crate::sql::{bad_name_msg, copy_table_spec, copy_table_sql, count_spec, count_sql,
    copy_query_spec, copy_query_sql, count_query_spec, count_query_sql};
use crate::text::{dec_spec, int_dec_spec, i64_dec, usize_dec};
use crate::value::CellValue;

verus! {

/// What an export failed on.
#[derive(Debug)]
pub enum ExportError {
    /// A file could not be written.
    Io(String),
    /// The engine reported a failure.
    Engine(String),
    /// The spreadsheet writer reported a failure.
    Excel(String),
    /// Anything else, carried as its message.
    Custom(String),
}

impl ExportError {
    /// The message shown to the caller for this failure.
    pub fn message(&self) -> (r: String)
        ensures
            self is Io ==> r@ == "IO error: "@ + self->Io_0@,
            self is Engine ==> r@ == "Engine error: "@ + self->Engine_0@,
            self is Excel ==> r@ == "Excel error: "@ + self->Excel_0@,
            self is Custom ==> r@ == self->Custom_0@,
    {
        match self {
            ExportError::Io(s) => {
                let mut m = String::from_str("IO error: ");
                m.append(s.as_str());
                m
            },
            ExportError::Engine(s) => {
                let mut m = String::from_str("Engine error: ");
                m.append(s.as_str());
                m
            },
            ExportError::Excel(s) => {
                let mut m = String::from_str("Excel error: ");
                m.append(s.as_str());
                m
            },
            ExportError::Custom(s) => s.clone(),
        }
    }
}

/// The reply of a finished export.
#[derive(Debug)]
pub struct ExportResult {
    pub success: bool,
    pub message: String,
    pub file_path: String,
    pub rows_exported: usize,
}

/// The two statements of a CSV table export: the bulk copy, and the row
/// count that the reply reports. The header defaults to being written.
pub fn export_to_csv_statements(table: &str, path: &str, include_header: Option<bool>) -> (r:
    Result<(String, String), String>)
    ensures
        r is Ok <==> is_sql_ident(table@),
        r is Ok ==> r->Ok_0.0@ == copy_table_spec(
            table@,
            path@,
            if include_header is Some {
                include_header->0
            } else {
                true
            },
        ) && r->Ok_0.1@ == count_spec(table@),
        r is Err ==> r->Err_0@ == bad_name_msg(),
{
    let header = match include_header {
        Some(h) => h,
        None => true,
    };
    let copy = match copy_table_sql(table, path, header) {
        Ok(s) => s,
        Err(e) => {
            return Err(e);
        },
    };
    let count = match count_sql(table) {
        Ok(s) => s,
        Err(e) => {
            return Err(e);
        },
    };
    Ok((copy, count))
}

/// The two statements of a CSV query export: the bulk copy of the caller's
/// query, and the count of its rows.
pub fn export_query_to_csv_statements(query: &str, path: &str, include_header: Option<bool>) -> (r:
    (String, String))
    ensures
        r.0@ == copy_query_spec(
            query@,
            path@,
            if include_header is Some {
                include_header->0
            } else {
                true
            },
        ),
        r.1@ == count_query_spec(query@),
{
    let header = match include_header {
        Some(h) => h,
        None => true,
    };
    (copy_query_sql(query, path, header), count_query_sql(query))
}

/// The reply of a finished CSV export.
pub fn csv_export_result(file_path: String, rows_exported: usize) -> (r: ExportResult)
    ensures
        r.success,
        r.message@ == "Successfully exported "@ + dec_spec(rows_exported as nat)
            + " rows to CSV"@,
        r.file_path == file_path,
        r.rows_exported == rows_exported,
{
    let mut message = String::from_str("Successfully exported ");
    let d = usize_dec(rows_exported);
    message.append(d.as_str());
    message.append(" rows to CSV");
    proof {
        assert(message@ =~= "Successfully exported "@ + dec_spec(rows_exported as nat)
            + " rows to CSV"@);
    }
    ExportResult { success: true, message, file_path, rows_exported }
}

/// The reply of a finished spreadsheet export.
pub fn excel_export_result(file_path: String, rows_exported: usize) -> (r: ExportResult)
    ensures
        r.success,
        r.message@ == "Successfully exported "@ + dec_spec(rows_exported as nat)
            + " rows to Excel"@,
        r.file_path == file_path,
        r.rows_exported == rows_exported,
{
    let mut message = String::from_str("Successfully exported ");
    let d = usize_dec(rows_exported);
    message.append(d.as_str());
    message.append(" rows to Excel");
    proof {
        assert(message@ =~= "Successfully exported "@ + dec_spec(rows_exported as nat)
            + " rows to Excel"@);
    }
    ExportResult { success: true, message, file_path, rows_exported }
}

/// What the spreadsheet writer puts into one cell: nothing, a boolean, a
/// number given as decimal text, or a string.
#[derive(Debug)]
pub enum ExcelCellKind {
    Blank,
    Boolean(bool),
    Number(String),
    Text(String),
}

/// The written cell for a wire value: null becomes a blank, a boolean stays
/// a boolean, integers and floats become numbers, text stays text.
pub open spec fn kind_matches(k: ExcelCellKind, v: CellValue) -> bool {
    match v {
        CellValue::Null => k is Blank,
        CellValue::Bool(b) => k is Boolean && k->Boolean_0 == b,
        CellValue::Int(i) => k is Number && k->Number_0@ == int_dec_spec(i as int),
        CellValue::Float(s) => k is Number && k->Number_0@ == s@,
        CellValue::Text(s) => k is Text && k->Text_0@ == s@,
        CellValue::Array(_) => false,
    }
}

/// Every cell of the window is a scalar that a spreadsheet cell can hold.
pub open spec fn all_scalar(rows: Seq<Vec<CellValue>>) -> bool {
    forall|i: int, j: int|
        0 <= i < rows.len() && 0 <= j < rows[i]@.len() ==> !(#[trigger] rows[i]@[j] is Array)
}

/// The plan a spreadsheet writer follows: the sheet to create, the header
/// row, and the typed cell for every data cell. The writer puts the header
/// at row zero and data row `i` at row `i + 1`.
#[derive(Debug)]
pub struct ExcelExportPlan {
    pub sheet_name: String,
    pub header: Vec<String>,
    pub cells: Vec<Vec<ExcelCellKind>>,
}

/// Build the spreadsheet plan for a materialised query window. The sheet
/// name defaults to `Data`.
pub fn excel_export_plan(result: &QueryResult, sheet_name: Option<String>) -> (r: Result<
    ExcelExportPlan,
    String,
>)
    ensures
        r is Ok <==> all_scalar(result.rows@),
        r is Ok ==> {
            let p = r->Ok_0;
            &&& p.sheet_name@ == (if sheet_name is Some {
                sheet_name->0@
            } else {
                "Data"@
            })
            &&& p.header@ == result.columns@
            &&& p.cells@.len() == result.rows@.len()
            &&& forall|i: int|
                0 <= i < p.cells@.len() ==> #[trigger] p.cells@[i]@.len()
                    == result.rows@[i]@.len()
            &&& forall|i: int, j: int|
                0 <= i < p.cells@.len() && 0 <= j < p.cells@[i]@.len() ==> kind_matches(
                    #[trigger] p.cells@[i]@[j],
                    result.rows@[i]@[j],
                )
        },
{
    let sheet: String = match sheet_name {
        Some(s) => s,
        None => String::from_str("Data"),
    };
    let mut header: Vec<String> = Vec::new();
    let mut h: usize = 0;
    while h < result.columns.len()
        invariant
            h <= result.columns@.len(),
            header@.len() == h,
            forall|k: int| 0 <= k < h ==> #[trigger] header@[k] == result.columns@[k],
        decreases result.columns@.len() - h,
    {
        header.push(result.columns[h].clone());
        h = h + 1;
    }
    proof {
        assert(header@ =~= result.columns@);
    }
    let mut cells: Vec<Vec<ExcelCellKind>> = Vec::new();
    let mut i: usize = 0;
    while i < result.rows.len()
        invariant
            i <= result.rows@.len(),
            cells@.len() == i,
            forall|k: int|
                0 <= k < i ==> #[trigger] cells@[k]@.len() == result.rows@[k]@.len(),
            forall|k: int, c: int|
                0 <= k < i && 0 <= c < cells@[k]@.len() ==> kind_matches(
                    #[trigger] cells@[k]@[c],
                    result.rows@[k]@[c],
                ),
        decreases result.rows@.len() - i,
    {
        let src = &result.rows[i];
        let mut row: Vec<ExcelCellKind> = Vec::new();
        let mut j: usize = 0;
        while j < src.len()
            invariant
                i < result.rows@.len(),
                src@ == result.rows@[i as int]@,
                j <= src@.len(),
                row@.len() == j,
                forall|k: int|
                    0 <= k < j ==> kind_matches(#[trigger] row@[k], src@[k]),
            decreases src@.len() - j,
        {
            let kind = match &src[j] {
                CellValue::Null => ExcelCellKind::Blank,
                CellValue::Bool(b) => ExcelCellKind::Boolean(*b),
                CellValue::Int(v) => ExcelCellKind::Number(i64_dec(*v)),
                CellValue::Float(s) => ExcelCellKind::Number(s.clone()),
                CellValue::Text(s) => ExcelCellKind::Text(s.clone()),
                CellValue::Array(_) => {
                    proof {
                        assert(result.rows@[i as int]@[j as int] is Array);
                        assert(!all_scalar(result.rows@));
                    }
                    return Err(String::from_str("Unexpected array cell"));
                },
            };
            row.push(kind);
            j = j + 1;
        }
        cells.push(row);
        i = i + 1;
    }
    proof {
        assert forall|a: int, b: int|
            0 <= a < result.rows@.len() && 0 <= b < result.rows@[a]@.len() implies !(
        #[trigger] result.rows@[a]@[b] is Array) by {
            assert(kind_matches(cells@[a]@[b], result.rows@[a]@[b]));
        }
    }
    Ok(ExcelExportPlan { sheet_name: sheet, header, cells })
}

} // verus!
