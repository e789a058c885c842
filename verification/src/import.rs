//! File ingest: format detection, table-name derivation, the statement plan
//! for a CSV bulk load, the statement-and-rows plan for a spreadsheet load
//! with its progress events, and file preview.
//!
//! The host around the library executes the planned statements against the
//! engine and delivers the progress events; spreadsheet and CSV bytes are
//! parsed here, through the workbook and CSV readers.

use vstd::prelude::*;
use vstd::string::*;
use std::io::Cursor;
use calamine::Reader;
use crate::ident::{is_sql_ident, is_ident_char, check_sql_ident, sanitize_spec,
    sanitize_full_spec, sanitize_bare, sanitize_table_name as sanitize_name, quoted_spec,
    quote_ident, lemma_sanitize_well_formed};
use crate::sql::{drop_if_exists_spec, drop_if_exists_sql, count_spec, count_sql, text_lit_spec,
    text_lit};
use crate::text::{dec_spec, join_spec, join_with, lower_spec, push_char, to_ascii_lower,
    trim_spec, trim_ascii_ws, str_eq, usize_dec, views_of};

verus! {

/// Sanitise a caller-supplied table name: identifier characters kept, every
/// other code point replaced by `_`, edge underscores trimmed, and
/// `imported_data` substituted when nothing survives.
pub fn sanitize_table_name(name: &str) -> (r: String)
    ensures
        r@ == sanitize_full_spec(name@),
{
    sanitize_name(name)
}

/// What an ingest failed on.
#[derive(Debug)]
pub enum ImportError {
    /// A file could not be read.
    Io(String),
    /// The CSV reader rejected the input.
    Csv(String),
    /// The workbook reader rejected the input.
    Excel(String),
    /// The engine reported a failure.
    Engine(String),
    /// The file extension is not a recognised format.
    UnsupportedFormat,
    /// Anything else, carried as its message.
    Custom(String),
}

impl ImportError {
    /// The message shown to the caller for this failure.
    pub fn message(&self) -> (r: String)
        ensures
            self is Io ==> r@ == "IO error: "@ + self->Io_0@,
            self is Csv ==> r@ == "CSV error: "@ + self->Csv_0@,
            self is Excel ==> r@ == "Excel error: "@ + self->Excel_0@,
            self is Engine ==> r@ == "Engine error: "@ + self->Engine_0@,
            self is UnsupportedFormat ==> r@ == "Unsupported file format"@,
            self is Custom ==> r@ == self->Custom_0@,
    {
        match self {
            ImportError::Io(s) => {
                let mut m = String::from_str("IO error: ");
                m.append(s.as_str());
                m
            },
            ImportError::Csv(s) => {
                let mut m = String::from_str("CSV error: ");
                m.append(s.as_str());
                m
            },
            ImportError::Excel(s) => {
                let mut m = String::from_str("Excel error: ");
                m.append(s.as_str());
                m
            },
            ImportError::Engine(s) => {
                let mut m = String::from_str("Engine error: ");
                m.append(s.as_str());
                m
            },
            ImportError::UnsupportedFormat => String::from_str("Unsupported file format"),
            ImportError::Custom(s) => s.clone(),
        }
    }
}

/// The reply of a finished ingest.
#[derive(Debug)]
pub struct ImportResult {
    pub success: bool,
    pub message: String,
    pub table_name: String,
    pub rows_imported: usize,
}

/// A preview of a file: its header row, the first rows, and how many data
/// rows the file holds in all.
#[derive(Debug)]
pub struct PreviewData {
    pub columns: Vec<String>,
    pub rows: Vec<Vec<String>>,
    pub total_rows: usize,
}

/// One progress event of an ingest.
#[derive(Debug, Clone)]
pub struct ImportProgress {
    pub rows_imported: usize,
    pub total_rows: Option<usize>,
    pub status: String,
}

/// A path separator.
pub open spec fn is_sep(c: char) -> bool {
    c == '/' || c == '\\'
}

/// The index of the last path separator in `s`, or `-1` when there is none.
pub open spec fn last_sep_ix(s: Seq<char>) -> int
    decreases s.len(),
{
    if s.len() == 0 {
        -1
    } else if is_sep(s.last()) {
        s.len() - 1
    } else {
        last_sep_ix(s.drop_last())
    }
}

/// The index of the last `.` in `s`, or `-1` when there is none.
pub open spec fn last_dot_ix(s: Seq<char>) -> int
    decreases s.len(),
{
    if s.len() == 0 {
        -1
    } else if s.last() == '.' {
        s.len() - 1
    } else {
        last_dot_ix(s.drop_last())
    }
}

/// The file-name part of a path: everything after the last separator.
pub open spec fn fname_spec(path: Seq<char>) -> Seq<char> {
    path.subrange(last_sep_ix(path) + 1, path.len() as int)
}

/// The extension of a file name: what follows the last dot, provided the
/// dot is not the leading character.
pub open spec fn ext_spec(f: Seq<char>) -> Option<Seq<char>> {
    if last_dot_ix(f) > 0 {
        Option::Some(f.subrange(last_dot_ix(f) + 1, f.len() as int))
    } else {
        Option::None
    }
}

/// The stem of a file name: what precedes the last dot, or the whole name
/// when there is no usable extension.
pub open spec fn stem_spec(f: Seq<char>) -> Seq<char> {
    if last_dot_ix(f) > 0 {
        f.subrange(0, last_dot_ix(f))
    } else {
        f
    }
}

proof fn lemma_last_sep(s: Seq<char>, p: int)
    requires
        0 <= p <= s.len(),
        forall|k: int| p <= k < s.len() ==> !is_sep(#[trigger] s[k]),
        p == 0 || is_sep(s[p - 1]),
    ensures
        last_sep_ix(s) == p - 1,
    decreases s.len(),
{
    if s.len() == 0 {
    } else if is_sep(s.last()) {
        assert(p == s.len());
    } else {
        assert(p < s.len());
        lemma_last_sep(s.drop_last(), p);
    }
}

proof fn lemma_last_dot(s: Seq<char>, p: int)
    requires
        0 <= p <= s.len(),
        forall|k: int| p <= k < s.len() ==> #[trigger] s[k] != '.',
        p == 0 || s[p - 1] == '.',
    ensures
        last_dot_ix(s) == p - 1,
    decreases s.len(),
{
    if s.len() == 0 {
    } else if s.last() == '.' {
        assert(p == s.len());
    } else {
        assert(p < s.len());
        lemma_last_dot(s.drop_last(), p);
    }
}

/// The file-name part of a path.
pub fn file_name_of(path: &str) -> (r: String)
    ensures
        r@ == fname_spec(path@),
{
    let len = path.unicode_len();
    let mut p: usize = len;
    while p > 0 && path.get_char(p - 1) != '/' && path.get_char(p - 1) != '\\'
        invariant
            p <= len,
            len == path@.len(),
            forall|k: int| p <= k < len ==> !is_sep(#[trigger] path@[k]),
        decreases p,
    {
        p = p - 1;
    }
    let out = path.substring_char(p, len);
    let r = String::from_str(out);
    proof {
        lemma_last_sep(path@, p as int);
    }
    r
}

/// The extension of a file name, when it has one.
pub fn ext_of(fname: &str) -> (r: Option<String>)
    ensures
        r is Some <==> ext_spec(fname@) is Some,
        r is Some ==> r->0@ == ext_spec(fname@)->0,
{
    let len = fname.unicode_len();
    let mut p: usize = len;
    while p > 0 && fname.get_char(p - 1) != '.'
        invariant
            p <= len,
            len == fname@.len(),
            forall|k: int| p <= k < len ==> #[trigger] fname@[k] != '.',
        decreases p,
    {
        p = p - 1;
    }
    proof {
        lemma_last_dot(fname@, p as int);
    }
    if p > 1 {
        let out = fname.substring_char(p, len);
        Some(String::from_str(out))
    } else {
        None
    }
}

/// The stem of a file name.
pub fn stem_of(fname: &str) -> (r: String)
    ensures
        r@ == stem_spec(fname@),
{
    let len = fname.unicode_len();
    let mut p: usize = len;
    while p > 0 && fname.get_char(p - 1) != '.'
        invariant
            p <= len,
            len == fname@.len(),
            forall|k: int| p <= k < len ==> #[trigger] fname@[k] != '.',
        decreases p,
    {
        p = p - 1;
    }
    proof {
        lemma_last_dot(fname@, p as int);
    }
    if p > 1 {
        let out = fname.substring_char(0, p - 1);
        String::from_str(out)
    } else {
        String::from_str(fname)
    }
}

/// The format a path's extension selects: `csv`, `excel` for the workbook
/// extensions `xlsx xlsm xlsb xls`, or nothing.
pub open spec fn detected_format(path: Seq<char>) -> Option<Seq<char>> {
    match ext_spec(fname_spec(path)) {
        Option::None => Option::None,
        Option::Some(e) => {
            let l = lower_spec(e);
            if l == "csv"@ {
                Option::Some("csv"@)
            } else if l == "xlsx"@ || l == "xlsm"@ || l == "xlsb"@ || l == "xls"@ {
                Option::Some("excel"@)
            } else {
                Option::None
            }
        },
    }
}

/// Detect the file format from the path's extension, case-insensitively.
pub fn detect_file_format(path: &str) -> (r: Result<String, ImportError>)
    ensures
        r is Ok <==> detected_format(path@) is Some,
        r is Ok ==> r->Ok_0@ == detected_format(path@)->0,
        r is Err ==> r->Err_0 is UnsupportedFormat,
{
    let fname = file_name_of(path);
    let ext = match ext_of(fname.as_str()) {
        Some(e) => e,
        None => {
            return Err(ImportError::UnsupportedFormat);
        },
    };
    let l = to_ascii_lower(ext.as_str());
    let ls = l.as_str();
    if str_eq(ls, "csv") {
        Ok(String::from_str("csv"))
    } else if str_eq(ls, "xlsx") || str_eq(ls, "xlsm") || str_eq(ls, "xlsb") || str_eq(ls, "xls") {
        Ok(String::from_str("excel"))
    } else {
        Err(ImportError::UnsupportedFormat)
    }
}

/// The name an ingest starts from: the requested name when one is given,
/// otherwise the file stem, with `imported_data` for a path without a file
/// name.
pub open spec fn base_name_spec(path: Seq<char>, requested: Option<Seq<char>>) -> Seq<char> {
    match requested {
        Option::Some(n) => n,
        Option::None => {
            let f = fname_spec(path);
            if f.len() == 0 {
                "imported_data"@
            } else {
                stem_spec(f)
            }
        },
    }
}

/// The table name an ingest uses: the base name sanitised, with
/// `imported_data` when nothing survives sanitisation.
pub open spec fn table_name_spec(path: Seq<char>, requested: Option<Seq<char>>) -> Seq<char> {
    sanitize_full_spec(base_name_spec(path, requested))
}

/// The view of the optional requested name.
pub open spec fn opt_name_view(o: Option<String>) -> Option<Seq<char>> {
    match o {
        Option::None => Option::None,
        Option::Some(s) => Option::Some(s@),
    }
}

/// Every derived table name is a usable SQL identifier.
pub proof fn lemma_table_name_valid(path: Seq<char>, requested: Option<Seq<char>>)
    ensures
        is_sql_ident(table_name_spec(path, requested)),
{
    let base = base_name_spec(path, requested);
    lemma_sanitize_well_formed(base);
    if sanitize_spec(base).len() == 0 {
        reveal_strlit("imported_data");
        assert(forall|i: int|
            0 <= i < "imported_data"@.len() ==> is_ident_char(#[trigger] "imported_data"@[i]));
    }
}

/// Derive the sanitised table name for an ingest of `path`, honouring a
/// requested name when one is given.
pub fn derive_table_name(path: &str, requested: &Option<String>) -> (r: String)
    ensures
        r@ == table_name_spec(path@, opt_name_view(*requested)),
{
    let base: String = match requested {
        Some(n) => n.clone(),
        None => {
            let f = file_name_of(path);
            if f.as_str().is_empty() {
                String::from_str("imported_data")
            } else {
                stem_of(f.as_str())
            }
        },
    };
    sanitize_name(base.as_str())
}

/// `CREATE TABLE "t" AS FROM 'path'`: the engine loads the CSV itself,
/// inferring the schema.
pub open spec fn create_csv_spec(t: Seq<char>, path: Seq<char>) -> Seq<char> {
    "CREATE TABLE "@ + quoted_spec(t) + " AS FROM "@ + text_lit_spec(path)
}

/// The statements of a CSV ingest: drop any previous table of the name,
/// bulk-load the file, count the loaded rows.
#[derive(Debug)]
pub struct CsvImportPlan {
    pub table_name: String,
    pub drop_sql: String,
    pub create_sql: String,
    pub count_sql: String,
}

/// The statements, bound rows and progress events of a spreadsheet ingest.
#[derive(Debug)]
pub struct ExcelImportPlan {
    pub table_name: String,
    pub drop_sql: String,
    pub create_sql: String,
    pub insert_sql: String,
    /// One entry per data row: each cell bound as text, with the empty cell
    /// bound as SQL `NULL`.
    pub rows: Vec<Vec<Option<String>>>,
    /// The events to deliver while inserting: one per thousand rows, then a
    /// closing event.
    pub progress: Vec<ImportProgress>,
    pub total_rows: usize,
}

/// An ingest plan: what the host must run against the engine.
#[derive(Debug)]
pub enum ImportPlan {
    Csv(CsvImportPlan),
    Excel(ExcelImportPlan),
}

/// The name of a spreadsheet column: the header cell trimmed and sanitised,
/// with `Column{ordinal}` for a cell that is empty or loses everything to
/// sanitisation, so no empty identifier ever reaches the table definition.
pub open spec fn header_name_spec(cell: Seq<char>, ordinal: nat) -> Seq<char> {
    let t = trim_spec(cell);
    if t.len() == 0 {
        "Column"@ + dec_spec(ordinal)
    } else if sanitize_spec(t).len() == 0 {
        "Column"@ + dec_spec(ordinal)
    } else {
        sanitize_spec(t)
    }
}

/// The derived names of all header cells, ordinals counted from one.
pub open spec fn headers_spec(row: Seq<Seq<char>>) -> Seq<Seq<char>> {
    Seq::new(row.len(), |i: int| header_name_spec(row[i], (i + 1) as nat))
}

/// `CREATE TABLE "t" ("h1" VARCHAR, ...)`: every spreadsheet column is
/// declared as text.
pub open spec fn create_excel_table_spec(t: Seq<char>, headers: Seq<Seq<char>>) -> Seq<char> {
    "CREATE TABLE "@ + quoted_spec(t) + " ("@ + join_spec(
        headers.map_values(|h: Seq<char>| quoted_spec(h) + " VARCHAR"@),
        ", "@,
    ) + seq![')']
}

/// `?` placeholders for `n` bound values, joined by `, `.
pub open spec fn placeholders_spec(n: nat) -> Seq<char>
    decreases n,
{
    if n == 0 {
        Seq::empty()
    } else if n == 1 {
        seq!['?']
    } else {
        placeholders_spec((n - 1) as nat) + ", ?"@
    }
}

/// `INSERT INTO "t" VALUES (?, ...)`
pub open spec fn insert_spec(t: Seq<char>, n: nat) -> Seq<char> {
    "INSERT INTO "@ + quoted_spec(t) + " VALUES ("@ + placeholders_spec(n) + seq![')']
}

/// A bound parameter mirrors its cell: SQL `NULL` for the empty cell, the
/// text itself otherwise.
pub open spec fn param_matches(p: Option<String>, cell: Seq<char>) -> bool {
    &&& p is Some <==> cell.len() > 0
    &&& p is Some ==> p->0@ == cell
}

/// A batch progress event: after each thousandth row, naming the row count.
pub open spec fn batch_progress_matches(p: ImportProgress, b: int) -> bool {
    &&& p.rows_imported == (b + 1) * 1000
    &&& p.total_rows is None
    &&& p.status@ == "Importing... "@ + dec_spec(((b + 1) * 1000) as nat) + " rows"@
}

/// The plan of a spreadsheet ingest, derived from the table name and the
/// sheet rows.
pub open spec fn excel_plan_matches(
    p: ExcelImportPlan,
    t: Seq<char>,
    rs: Seq<Seq<Seq<char>>>,
) -> bool {
    &&& p.table_name@ == t
    &&& p.drop_sql@ == drop_if_exists_spec(t)
    &&& p.create_sql@ == create_excel_table_spec(t, headers_spec(rs[0]))
    &&& p.insert_sql@ == insert_spec(t, rs[0].len())
    &&& p.total_rows == rs.len() - 1
    &&& p.rows@.len() == rs.len() - 1
    &&& forall|r: int| 0 <= r < p.rows@.len() ==> #[trigger] p.rows@[r]@.len() == rs[r + 1].len()
    &&& forall|r: int, c: int|
        0 <= r < p.rows@.len() && 0 <= c < p.rows@[r]@.len() ==> param_matches(
            #[trigger] p.rows@[r]@[c],
            rs[r + 1][c],
        )
    &&& p.progress@.len() == (rs.len() - 1) / 1000 + 1
    &&& forall|b: int|
        0 <= b < p.progress@.len() - 1 ==> batch_progress_matches(#[trigger] p.progress@[b], b)
    &&& p.progress@.last().rows_imported == rs.len() - 1
    &&& p.progress@.last().total_rows == Option::<usize>::Some((rs.len() - 1) as usize)
    &&& p.progress@.last().status@ == "Finalizing import..."@
    &&& forall|a: int, b: int|
        0 <= a <= b < p.progress@.len() ==> #[trigger] p.progress@[a].rows_imported
            <= #[trigger] p.progress@[b].rows_imported
}

/// Build the spreadsheet ingest plan from the rows of the first sheet: the
/// first row names the columns, the rest become bound insert rows, with a
/// progress event planned for each thousand rows and a closing one.
pub fn build_excel_plan(table_name: &str, sheet_rows: &Vec<Vec<String>>) -> (r: Result<
    ExcelImportPlan,
    ImportError,
>)
    ensures
        r is Ok <==> is_sql_ident(table_name@) && sheet_rows@.len() > 0,
        r is Ok ==> excel_plan_matches(r->Ok_0, table_name@, sheet_rows.deep_view()),
        !is_sql_ident(table_name@) ==> r is Err && r->Err_0 is Custom && r->Err_0->Custom_0@
            == "Invalid table name"@,
        is_sql_ident(table_name@) && sheet_rows@.len() == 0 ==> r is Err && r->Err_0 is Custom
            && r->Err_0->Custom_0@ == "Empty Excel file"@,
{
    if !check_sql_ident(table_name) {
        return Err(ImportError::Custom(String::from_str("Invalid table name")));
    }
    if sheet_rows.len() == 0 {
        return Err(ImportError::Custom(String::from_str("Empty Excel file")));
    }
    let drop_sql = match drop_if_exists_sql(table_name) {
        Ok(s) => s,
        Err(_) => {
            return Err(ImportError::Custom(String::from_str("Invalid table name")));
        },
    };
    let header_row = &sheet_rows[0];
    let mut col_defs: Vec<String> = Vec::new();
    let mut i: usize = 0;
    while i < header_row.len()
        invariant
            i <= header_row@.len(),
            col_defs@.len() == i,
            forall|k: int|
                0 <= k < i ==> #[trigger] col_defs@[k]@ == quoted_spec(
                    header_name_spec(header_row@[k]@, (k + 1) as nat),
                ) + " VARCHAR"@,
        decreases header_row@.len() - i,
    {
        let t = trim_ascii_ws(header_row[i].as_str());
        let name: String = if t.as_str().is_empty() {
            let mut c = String::from_str("Column");
            let d = usize_dec(i + 1);
            c.append(d.as_str());
            c
        } else {
            let s = sanitize_bare(t.as_str());
            if s.as_str().is_empty() {
                let mut c = String::from_str("Column");
                let d = usize_dec(i + 1);
                c.append(d.as_str());
                c
            } else {
                s
            }
        };
        proof {
            assert(name@ =~= header_name_spec(header_row@[i as int]@, (i + 1) as nat));
        }
        let mut def = quote_ident(name.as_str());
        def.append(" VARCHAR");
        col_defs.push(def);
        i = i + 1;
    }
    let defs = join_with(&col_defs, ", ");
    let mut create_sql = String::from_str("CREATE TABLE ");
    let qt = quote_ident(table_name);
    create_sql.append(qt.as_str());
    create_sql.append(" (");
    create_sql.append(defs.as_str());
    push_char(&mut create_sql, ')');
    proof {
        let hs = headers_spec(sheet_rows.deep_view()[0]);
        assert(sheet_rows.deep_view()[0].len() == header_row@.len());
        assert(forall|k: int|
            0 <= k < header_row@.len() ==> #[trigger] sheet_rows.deep_view()[0][k]
                == header_row@[k]@);
        assert(views_of(col_defs@) =~= hs.map_values(
            |h: Seq<char>| quoted_spec(h) + " VARCHAR"@,
        ));
        assert(create_sql@ =~= create_excel_table_spec(
            table_name@,
            headers_spec(sheet_rows.deep_view()[0]),
        ));
    }
    let ncols = header_row.len();
    let mut ph = String::new();
    let mut j: usize = 0;
    while j < ncols
        invariant
            j <= ncols,
            ph@ == placeholders_spec(j as nat),
        decreases ncols - j,
    {
        if j == 0 {
            push_char(&mut ph, '?');
        } else {
            ph.append(", ?");
        }
        j = j + 1;
    }
    let mut insert_sql = String::from_str("INSERT INTO ");
    insert_sql.append(qt.as_str());
    insert_sql.append(" VALUES (");
    insert_sql.append(ph.as_str());
    push_char(&mut insert_sql, ')');
    proof {
        assert(insert_sql@ =~= insert_spec(table_name@, sheet_rows.deep_view()[0].len()));
    }
    let total: usize = sheet_rows.len() - 1;
    let mut rows: Vec<Vec<Option<String>>> = Vec::new();
    let mut progress: Vec<ImportProgress> = Vec::new();
    let mut batch: usize = 0;
    let mut r: usize = 0;
    while r < total
        invariant
            total == sheet_rows@.len() - 1,
            r <= total,
            rows@.len() == r,
            forall|k: int| 0 <= k < r ==> #[trigger] rows@[k]@.len() == sheet_rows@[k + 1]@.len(),
            forall|k: int, c: int|
                0 <= k < r && 0 <= c < rows@[k]@.len() ==> param_matches(
                    #[trigger] rows@[k]@[c],
                    sheet_rows@[k + 1]@[c]@,
                ),
            batch < 1000,
            progress@.len() * 1000 + batch == r,
            forall|b: int|
                0 <= b < progress@.len() ==> batch_progress_matches(#[trigger] progress@[b], b),
        decreases total - r,
    {
        let src = &sheet_rows[r + 1];
        let mut row: Vec<Option<String>> = Vec::new();
        let mut c: usize = 0;
        while c < src.len()
            invariant
                c <= src@.len(),
                row@.len() == c,
                forall|k: int|
                    0 <= k < c ==> param_matches(#[trigger] row@[k], src@[k]@),
            decreases src@.len() - c,
        {
            let cell = &src[c];
            if cell.as_str().is_empty() {
                row.push(None);
            } else {
                row.push(Some(cell.clone()));
            }
            c = c + 1;
        }
        rows.push(row);
        batch = batch + 1;
        r = r + 1;
        if batch == 1000 {
            let mut status = String::from_str("Importing... ");
            let d = usize_dec(r);
            status.append(d.as_str());
            status.append(" rows");
            proof {
                assert(status@ =~= "Importing... "@ + dec_spec(r as nat) + " rows"@);
            }
            progress.push(
                ImportProgress { rows_imported: r, total_rows: None, status },
            );
            batch = 0;
        }
    }
    let final_status = String::from_str("Finalizing import...");
    progress.push(
        ImportProgress { rows_imported: total, total_rows: Some(total), status: final_status },
    );
    proof {
        assert(progress@.len() - 1 == total as int / 1000) by {
            assert((progress@.len() - 1) * 1000 + batch == total);
        };
    }
    let plan = ExcelImportPlan {
        table_name: String::from_str(table_name),
        drop_sql,
        create_sql,
        insert_sql,
        rows,
        progress,
        total_rows: total,
    };
    proof {
        let rs = sheet_rows.deep_view();
        assert(rs.len() == sheet_rows@.len());
        assert(forall|k: int, c: int|
            0 <= k < rs.len() && 0 <= c < rs[k].len() ==> #[trigger] rs[k][c]
                == sheet_rows@[k]@[c]@);
        assert(forall|k: int| 0 <= k < rs.len() ==> #[trigger] rs[k].len()
            == sheet_rows@[k]@.len());
        assert(excel_plan_matches(plan, table_name@, rs));
    }
    Ok(plan)
}

/// Build the plan of a CSV ingest: drop, bulk-load from the path, count.
pub fn build_csv_plan(table_name: &str, file_path: &str) -> (r: Result<CsvImportPlan, ImportError>)
    ensures
        r is Ok <==> is_sql_ident(table_name@),
        r is Ok ==> {
            let p = r->Ok_0;
            &&& p.table_name@ == table_name@
            &&& p.drop_sql@ == drop_if_exists_spec(table_name@)
            &&& p.create_sql@ == create_csv_spec(table_name@, file_path@)
            &&& p.count_sql@ == count_spec(table_name@)
        },
{
    if !check_sql_ident(table_name) {
        return Err(ImportError::Custom(String::from_str("Invalid table name")));
    }
    let drop_sql = match drop_if_exists_sql(table_name) {
        Ok(s) => s,
        Err(_) => {
            return Err(ImportError::Custom(String::from_str("Invalid table name")));
        },
    };
    let mut create_sql = String::from_str("CREATE TABLE ");
    let qt = quote_ident(table_name);
    create_sql.append(qt.as_str());
    create_sql.append(" AS FROM ");
    let lit = text_lit(file_path);
    create_sql.append(lit.as_str());
    let cnt = match count_sql(table_name) {
        Ok(s) => s,
        Err(_) => {
            return Err(ImportError::Custom(String::from_str("Invalid table name")));
        },
    };
    proof {
        assert(create_sql@ =~= create_csv_spec(table_name@, file_path@));
    }
    Ok(
        CsvImportPlan {
            table_name: String::from_str(table_name),
            drop_sql,
            create_sql,
            count_sql: cnt,
        },
    )
}

/// What an ingest of `file_path` must run. The format comes from the
/// extension; the table name from the request or the file stem, sanitised.
/// A spreadsheet ingest needs the workbook bytes, which the host reads.
pub fn import_file(
    file_path: &str,
    table_name: Option<String>,
    workbook: Option<&Vec<u8>>,
) -> (r: Result<ImportPlan, ImportError>)
    ensures
        detected_format(file_path@) is None ==> r is Err && r->Err_0 is UnsupportedFormat,
        detected_format(file_path@) == Option::Some("csv"@) ==> r is Ok && r->Ok_0 is Csv,
        r is Ok && r->Ok_0 is Csv ==> {
            let p = r->Ok_0->Csv_0;
            let t = table_name_spec(file_path@, opt_name_view(table_name));
            &&& detected_format(file_path@) == Option::Some("csv"@)
            &&& p.table_name@ == t
            &&& p.drop_sql@ == drop_if_exists_spec(t)
            &&& p.create_sql@ == create_csv_spec(t, file_path@)
            &&& p.count_sql@ == count_spec(t)
        },
        r is Ok && r->Ok_0 is Excel ==> {
            let t = table_name_spec(file_path@, opt_name_view(table_name));
            &&& detected_format(file_path@) == Option::Some("excel"@)
            &&& workbook is Some
            &&& excel_plan_matches(r->Ok_0->Excel_0, t, xlsx_rows_of(workbook->0@))
        },
        r is Err && r->Err_0 is UnsupportedFormat ==> detected_format(file_path@) is None,
        detected_format(file_path@) == Option::Some("excel"@) && workbook is Some && xlsx_ok(
            workbook->0@,
        ) && xlsx_rows_of(workbook->0@).len() > 0 ==> r is Ok && r->Ok_0 is Excel,
        detected_format(file_path@) == Option::Some("excel"@) && workbook is None ==> r is Err
            && r->Err_0 is Io,
        detected_format(file_path@) == Option::Some("excel"@) && workbook is Some && !xlsx_ok(
            workbook->0@,
        ) ==> r is Err && r->Err_0 is Excel,
        detected_format(file_path@) == Option::Some("excel"@) && workbook is Some && xlsx_ok(
            workbook->0@,
        ) && xlsx_rows_of(workbook->0@).len() == 0 ==> r is Err && r->Err_0 is Custom
            && r->Err_0->Custom_0@ == "Empty Excel file"@,
{
    let format = match detect_file_format(file_path) {
        Ok(f) => f,
        Err(e) => {
            return Err(e);
        },
    };
    let name = derive_table_name(file_path, &table_name);
    proof {
        lemma_table_name_valid(file_path@, opt_name_view(table_name));
        reveal_strlit("csv");
        reveal_strlit("excel");
        assert("csv"@.len() == 3);
        assert("excel"@.len() == 5);
        assert("csv"@ != "excel"@);
    }
    if str_eq(format.as_str(), "csv") {
        match build_csv_plan(name.as_str(), file_path) {
            Ok(p) => Ok(ImportPlan::Csv(p)),
            Err(e) => Err(e),
        }
    } else {
        proof {
            assert(detected_format(file_path@) == Option::Some("excel"@));
        }
        let data = match workbook {
            Some(d) => d,
            None => {
                return Err(
                    ImportError::Io(String::from_str("Workbook bytes were not provided")),
                );
            },
        };
        let sheet_rows = match read_first_sheet(data) {
            Ok(rs) => rs,
            Err(e) => {
                return Err(ImportError::Excel(e));
            },
        };
        proof {
            assert(sheet_rows.deep_view().len() == sheet_rows@.len());
        }
        match build_excel_plan(name.as_str(), &sheet_rows) {
            Ok(p) => Ok(ImportPlan::Excel(p)),
            Err(e) => Err(e),
        }
    }
}

/// The reply of a finished ingest, naming the table and the row count.
pub fn finish_import(table_name: String, rows_imported: usize) -> (r: ImportResult)
    ensures
        r.success,
        r.message@ == "Successfully imported "@ + dec_spec(rows_imported as nat) + " rows"@,
        r.table_name == table_name,
        r.rows_imported == rows_imported,
{
    let mut message = String::from_str("Successfully imported ");
    let d = usize_dec(rows_imported);
    message.append(d.as_str());
    message.append(" rows");
    proof {
        assert(message@ =~= "Successfully imported "@ + dec_spec(rows_imported as nat)
            + " rows"@);
    }
    ImportResult { success: true, message, table_name, rows_imported }
}

/// The event announcing an ingest.
pub fn start_progress() -> (r: ImportProgress)
    ensures
        r.rows_imported == 0,
        r.total_rows is None,
        r.status@ == "Starting import... Large files may take 1-2 minutes"@,
{
    ImportProgress {
        rows_imported: 0,
        total_rows: None,
        status: String::from_str("Starting import... Large files may take 1-2 minutes"),
    }
}

/// The event announcing the CSV bulk load.
pub fn csv_start_progress() -> (r: ImportProgress)
    ensures
        r.rows_imported == 0,
        r.total_rows is None,
        r.status@ == "Starting CSV import..."@,
{
    ImportProgress {
        rows_imported: 0,
        total_rows: None,
        status: String::from_str("Starting CSV import..."),
    }
}

/// The closing event of an ingest.
pub fn complete_progress(rows_imported: usize) -> (r: ImportProgress)
    ensures
        r.rows_imported == rows_imported,
        r.total_rows == Option::<usize>::Some(rows_imported),
        r.status@ == "Import complete!"@,
{
    ImportProgress {
        rows_imported,
        total_rows: Some(rows_imported),
        status: String::from_str("Import complete!"),
    }
}

/// What the CSV reader yields for given bytes: the header row, and the
/// records after it. The result depends on the bytes alone.
pub uninterp spec fn csv_parse_of(data: Seq<u8>) -> (Seq<Seq<char>>, Seq<Seq<Seq<char>>>);

/// Whether the CSV reader accepts the bytes whole: the header and every
/// record parse. Like the parse itself, this depends on the bytes alone.
pub uninterp spec fn csv_ok(data: Seq<u8>) -> bool;

/// Relies on `csv::Reader`: reading the same bytes yields the same header
/// row and the same records, in order, and succeeds or fails the same way.
#[verifier::external_body]
fn parse_csv(data: &Vec<u8>) -> (r: Result<(Vec<String>, Vec<Vec<String>>), String>)
    ensures
        r is Ok <==> csv_ok(data@),
        r is Ok ==> r->Ok_0.0.deep_view() == csv_parse_of(data@).0 && r->Ok_0.1.deep_view()
            == csv_parse_of(data@).1,
{
    let mut rdr = csv::ReaderBuilder::new().from_reader(data.as_slice());
    let headers: Vec<String> = match rdr.headers() {
        Ok(h) => h.iter().map(|f| f.to_string()).collect(),
        Err(e) => return Err(e.to_string()),
    };
    let mut rows: Vec<Vec<String>> = Vec::new();
    for rec in rdr.records() {
        match rec {
            Ok(record) => rows.push(record.iter().map(|f| f.to_string()).collect()),
            Err(e) => return Err(e.to_string()),
        }
    }
    Ok((headers, rows))
}

/// What the workbook reader yields for given bytes: the rows of the first
/// sheet, each cell as its display text. The result depends on the bytes
/// alone.
pub uninterp spec fn xlsx_rows_of(data: Seq<u8>) -> Seq<Seq<Seq<char>>>;

/// Whether the workbook reader accepts the bytes: they open as a workbook
/// holding at least one sheet, and that sheet reads. Like the read itself,
/// this depends on the bytes alone.
pub uninterp spec fn xlsx_ok(data: Seq<u8>) -> bool;

/// Relies on `calamine::Xlsx`: opening the same workbook bytes and reading
/// the first sheet yields the same cell grid, row by row, and succeeds or
/// fails the same way.
#[verifier::external_body]
fn read_first_sheet(data: &Vec<u8>) -> (r: Result<Vec<Vec<String>>, String>)
    ensures
        r is Ok <==> xlsx_ok(data@),
        r is Ok ==> r->Ok_0.deep_view() == xlsx_rows_of(data@),
{
    let cursor = Cursor::new(data.as_slice());
    let mut wb: calamine::Xlsx<_> = match calamine::open_workbook_from_rs(cursor) {
        Ok(w) => w,
        Err(e) => return Err(format!("{}", e)),
    };
    let range = match wb.worksheet_range_at(0) {
        Some(Ok(rg)) => rg,
        Some(Err(e)) => return Err(format!("{}", e)),
        None => return Err("No sheets found in Excel file".to_string()),
    };
    Ok(range.rows().map(|row| row.iter().map(|c| c.to_string()).collect()).collect())
}

/// Preview parsed CSV bytes: the header row, at most `limit` records, and
/// the total record count. A malformed record anywhere fails the preview as
/// a whole.
pub fn preview_csv(data: &Vec<u8>, limit: usize) -> (r: Result<PreviewData, ImportError>)
    ensures
        r is Ok <==> csv_ok(data@),
        r is Ok ==> {
            let cp = csv_parse_of(data@);
            &&& r->Ok_0.columns.deep_view() == cp.0
            &&& r->Ok_0.total_rows == cp.1.len()
            &&& r->Ok_0.rows.deep_view() == cp.1.take(
                if limit as int <= cp.1.len() {
                    limit as int
                } else {
                    cp.1.len() as int
                },
            )
        },
        r is Err ==> r->Err_0 is Csv,
{
    let (headers, records) = match parse_csv(data) {
        Ok(hr) => hr,
        Err(e) => {
            return Err(ImportError::Csv(e));
        },
    };
    let total = records.len();
    let n = if limit <= total {
        limit
    } else {
        total
    };
    let mut rows: Vec<Vec<String>> = Vec::new();
    let mut i: usize = 0;
    while i < n
        invariant
            n <= records@.len(),
            i <= n,
            rows@.len() == i,
            forall|k: int| 0 <= k < i ==> #[trigger] rows@[k]@ == records@[k]@,
        decreases n - i,
    {
        let src = &records[i];
        let mut row: Vec<String> = Vec::new();
        let mut j: usize = 0;
        while j < src.len()
            invariant
                j <= src@.len(),
                row@.len() == j,
                forall|k: int| 0 <= k < j ==> #[trigger] row@[k] == src@[k],
            decreases src@.len() - j,
        {
            row.push(src[j].clone());
            j = j + 1;
        }
        proof {
            assert(row@ =~= records@[i as int]@);
        }
        rows.push(row);
        i = i + 1;
    }
    proof {
        assert(rows.deep_view() =~= records.deep_view().take(n as int));
    }
    Ok(PreviewData { columns: headers, rows, total_rows: total })
}

/// Preview parsed workbook bytes: the raw first row as the header, at most
/// `limit` following rows, and the total count of rows after the header.
pub fn preview_excel(data: &Vec<u8>, limit: usize) -> (r: Result<PreviewData, ImportError>)
    ensures
        r is Ok <==> xlsx_ok(data@) && xlsx_rows_of(data@).len() > 0,
        !xlsx_ok(data@) ==> r is Err && r->Err_0 is Excel,
        xlsx_ok(data@) && xlsx_rows_of(data@).len() == 0 ==> r is Err && r->Err_0 is Custom
            && r->Err_0->Custom_0@ == "Empty sheet"@,
        r is Ok ==> {
            let xr = xlsx_rows_of(data@);
            &&& xr.len() > 0
            &&& r->Ok_0.columns.deep_view() == xr[0]
            &&& r->Ok_0.total_rows == xr.len() - 1
            &&& r->Ok_0.rows.deep_view() == xr.subrange(
                1,
                1 + (if limit as int <= xr.len() - 1 {
                    limit as int
                } else {
                    xr.len() - 1
                }),
            )
        },
{
    let sheet_rows = match read_first_sheet(data) {
        Ok(rs) => rs,
        Err(e) => {
            return Err(ImportError::Excel(e));
        },
    };
    if sheet_rows.len() == 0 {
        return Err(ImportError::Custom(String::from_str("Empty sheet")));
    }
    let header_src = &sheet_rows[0];
    let mut columns: Vec<String> = Vec::new();
    let mut j: usize = 0;
    while j < header_src.len()
        invariant
            j <= header_src@.len(),
            columns@.len() == j,
            forall|k: int| 0 <= k < j ==> #[trigger] columns@[k] == header_src@[k],
        decreases header_src@.len() - j,
    {
        columns.push(header_src[j].clone());
        j = j + 1;
    }
    let total = sheet_rows.len() - 1;
    let n = if limit <= total {
        limit
    } else {
        total
    };
    let mut rows: Vec<Vec<String>> = Vec::new();
    let mut i: usize = 0;
    while i < n
        invariant
            n <= sheet_rows@.len() - 1,
            i <= n,
            rows@.len() == i,
            forall|k: int| 0 <= k < i ==> #[trigger] rows@[k]@ == sheet_rows@[k + 1]@,
        decreases n - i,
    {
        let src = &sheet_rows[i + 1];
        let mut row: Vec<String> = Vec::new();
        let mut j2: usize = 0;
        while j2 < src.len()
            invariant
                j2 <= src@.len(),
                row@.len() == j2,
                forall|k: int| 0 <= k < j2 ==> #[trigger] row@[k] == src@[k],
            decreases src@.len() - j2,
        {
            row.push(src[j2].clone());
            j2 = j2 + 1;
        }
        proof {
            assert(row@ =~= sheet_rows@[i + 1 as int]@);
        }
        rows.push(row);
        i = i + 1;
    }
    proof {
        assert(columns.deep_view() =~= sheet_rows.deep_view()[0]);
        assert(rows.deep_view() =~= sheet_rows.deep_view().subrange(1, 1 + n as int));
    }
    Ok(PreviewData { columns, rows, total_rows: total })
}

/// Preview a file: its format from the path, its content from the bytes the
/// host read; at most `rows` records, ten when unspecified.
pub fn preview_file(file_path: &str, rows: Option<usize>, data: &Vec<u8>) -> (r: Result<
    PreviewData,
    ImportError,
>)
    ensures
        detected_format(file_path@) is None ==> r is Err && r->Err_0 is UnsupportedFormat,
        r is Ok ==> detected_format(file_path@) is Some,
        detected_format(file_path@) == Option::Some("csv"@) ==> (r is Ok <==> csv_ok(data@)),
        detected_format(file_path@) == Option::Some("excel"@) ==> (r is Ok <==> xlsx_ok(data@)
            && xlsx_rows_of(data@).len() > 0),
        r is Ok && detected_format(file_path@) == Option::Some("csv"@) ==> {
            let cp = csv_parse_of(data@);
            let limit = if rows is Some { rows->0 as int } else { 10 };
            &&& r->Ok_0.columns.deep_view() == cp.0
            &&& r->Ok_0.total_rows == cp.1.len()
            &&& r->Ok_0.rows.deep_view() == cp.1.take(
                if limit <= cp.1.len() {
                    limit
                } else {
                    cp.1.len() as int
                },
            )
        },
        r is Ok && detected_format(file_path@) == Option::Some("excel"@) ==> {
            let xr = xlsx_rows_of(data@);
            let limit = if rows is Some { rows->0 as int } else { 10 };
            &&& xr.len() > 0
            &&& r->Ok_0.columns.deep_view() == xr[0]
            &&& r->Ok_0.total_rows == xr.len() - 1
            &&& r->Ok_0.rows.deep_view() == xr.subrange(
                1,
                1 + (if limit <= xr.len() - 1 {
                    limit
                } else {
                    xr.len() - 1
                }),
            )
        },
{
    let format = match detect_file_format(file_path) {
        Ok(f) => f,
        Err(e) => {
            return Err(e);
        },
    };
    let limit: usize = match rows {
        Some(n) => n,
        None => 10,
    };
    proof {
        reveal_strlit("csv");
        reveal_strlit("excel");
        assert("csv"@.len() == 3);
        assert("excel"@.len() == 5);
        assert("csv"@ != "excel"@);
    }
    if str_eq(format.as_str(), "csv") {
        preview_csv(data, limit)
    } else {
        proof {
            assert(detected_format(file_path@) == Option::Some("excel"@));
        }
        preview_excel(data, limit)
    }
}

} // verus!
