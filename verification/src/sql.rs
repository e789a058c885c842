//! Verified construction of the SQL statements that the session hands to the
//! embedded engine. Every caller-supplied identifier is validated and
//! double-quoted, and every path or value is embedded as an escaped
//! single-quoted literal, so no input can extend or close a statement.

use vstd::prelude::*;
use vstd::string::*;
use crate::ident::{is_sql_ident, check_sql_ident, quoted_spec, quote_ident};
use crate::text::{dec_spec, escape_sq, escape_single_quotes, push_char, usize_dec};

verus! {

/// The message returned whenever a table or view name is not a bare
/// identifier.
pub open spec fn bad_name_msg() -> Seq<char> {
    "Invalid table name"@
}

/// A single-quoted SQL text literal with every inner quote doubled.
pub open spec fn text_lit_spec(s: Seq<char>) -> Seq<char> {
    seq!['\''] + escape_sq(s) + seq!['\'']
}

/// Render a string as a single-quoted SQL literal.
pub fn text_lit(s: &str) -> (r: String)
    ensures
        r@ == text_lit_spec(s@),
{
    let mut out = String::new();
    push_char(&mut out, '\'');
    let esc = escape_single_quotes(s);
    out.append(esc.as_str());
    push_char(&mut out, '\'');
    proof {
        assert(out@ =~= text_lit_spec(s@));
    }
    out
}

/// `SELECT * FROM "t" LIMIT l OFFSET o`
pub open spec fn select_window_spec(t: Seq<char>, limit: nat, offset: nat) -> Seq<char> {
    "SELECT * FROM "@ + quoted_spec(t) + " LIMIT "@ + dec_spec(limit) + " OFFSET "@ + dec_spec(
        offset,
    )
}

/// Build the windowed read over a table.
pub fn select_window_sql(table: &str, limit: usize, offset: usize) -> (r: Result<String, String>)
    ensures
        r is Ok <==> is_sql_ident(table@),
        r is Ok ==> r->Ok_0@ == select_window_spec(table@, limit as nat, offset as nat),
        r is Err ==> r->Err_0@ == bad_name_msg(),
{
    if !check_sql_ident(table) {
        return Err(String::from_str("Invalid table name"));
    }
    let mut out = String::from_str("SELECT * FROM ");
    let q = quote_ident(table);
    out.append(q.as_str());
    out.append(" LIMIT ");
    let l = usize_dec(limit);
    out.append(l.as_str());
    out.append(" OFFSET ");
    let o = usize_dec(offset);
    out.append(o.as_str());
    proof {
        assert(out@ =~= select_window_spec(table@, limit as nat, offset as nat));
    }
    Ok(out)
}

/// `SELECT COUNT(*) FROM "t"`
pub open spec fn count_spec(t: Seq<char>) -> Seq<char> {
    "SELECT COUNT(*) FROM "@ + quoted_spec(t)
}

/// Build the row-count query over a table.
pub fn count_sql(table: &str) -> (r: Result<String, String>)
    ensures
        r is Ok <==> is_sql_ident(table@),
        r is Ok ==> r->Ok_0@ == count_spec(table@),
        r is Err ==> r->Err_0@ == bad_name_msg(),
{
    if !check_sql_ident(table) {
        return Err(String::from_str("Invalid table name"));
    }
    let mut out = String::from_str("SELECT COUNT(*) FROM ");
    let q = quote_ident(table);
    out.append(q.as_str());
    proof {
        assert(out@ =~= count_spec(table@));
    }
    Ok(out)
}

/// `DROP TABLE IF EXISTS "t"`
pub open spec fn drop_if_exists_spec(t: Seq<char>) -> Seq<char> {
    "DROP TABLE IF EXISTS "@ + quoted_spec(t)
}

/// Build the tolerant drop of a table.
pub fn drop_if_exists_sql(table: &str) -> (r: Result<String, String>)
    ensures
        r is Ok <==> is_sql_ident(table@),
        r is Ok ==> r->Ok_0@ == drop_if_exists_spec(table@),
        r is Err ==> r->Err_0@ == bad_name_msg(),
{
    if !check_sql_ident(table) {
        return Err(String::from_str("Invalid table name"));
    }
    let mut out = String::from_str("DROP TABLE IF EXISTS ");
    let q = quote_ident(table);
    out.append(q.as_str());
    proof {
        assert(out@ =~= drop_if_exists_spec(table@));
    }
    Ok(out)
}

/// `DROP TABLE "t"`
pub open spec fn drop_table_spec(t: Seq<char>) -> Seq<char> {
    "DROP TABLE "@ + quoted_spec(t)
}

/// Build the strict drop of a table.
pub fn drop_table_sql(table: &str) -> (r: Result<String, String>)
    ensures
        r is Ok <==> is_sql_ident(table@),
        r is Ok ==> r->Ok_0@ == drop_table_spec(table@),
        r is Err ==> r->Err_0@ == bad_name_msg(),
{
    if !check_sql_ident(table) {
        return Err(String::from_str("Invalid table name"));
    }
    let mut out = String::from_str("DROP TABLE ");
    let q = quote_ident(table);
    out.append(q.as_str());
    proof {
        assert(out@ =~= drop_table_spec(table@));
    }
    Ok(out)
}

/// `ALTER TABLE "a" RENAME TO "b"`
pub open spec fn rename_spec(from: Seq<char>, to: Seq<char>) -> Seq<char> {
    "ALTER TABLE "@ + quoted_spec(from) + " RENAME TO "@ + quoted_spec(to)
}

/// Build the rename of a table.
pub fn rename_sql(from: &str, to: &str) -> (r: Result<String, String>)
    ensures
        r is Ok <==> is_sql_ident(from@) && is_sql_ident(to@),
        r is Ok ==> r->Ok_0@ == rename_spec(from@, to@),
        r is Err ==> r->Err_0@ == bad_name_msg(),
{
    if !check_sql_ident(from) || !check_sql_ident(to) {
        return Err(String::from_str("Invalid table name"));
    }
    let mut out = String::from_str("ALTER TABLE ");
    let qf = quote_ident(from);
    out.append(qf.as_str());
    out.append(" RENAME TO ");
    let qt = quote_ident(to);
    out.append(qt.as_str());
    proof {
        assert(out@ =~= rename_spec(from@, to@));
    }
    Ok(out)
}

/// `DESCRIBE "t"`
pub open spec fn describe_spec(t: Seq<char>) -> Seq<char> {
    "DESCRIBE "@ + quoted_spec(t)
}

/// Build the column-description query over a table.
pub fn describe_sql(table: &str) -> (r: Result<String, String>)
    ensures
        r is Ok <==> is_sql_ident(table@),
        r is Ok ==> r->Ok_0@ == describe_spec(table@),
        r is Err ==> r->Err_0@ == bad_name_msg(),
{
    if !check_sql_ident(table) {
        return Err(String::from_str("Invalid table name"));
    }
    let mut out = String::from_str("DESCRIBE ");
    let q = quote_ident(table);
    out.append(q.as_str());
    proof {
        assert(out@ =~= describe_spec(table@));
    }
    Ok(out)
}

/// `PRAGMA table_info('t')`
pub open spec fn pragma_table_info_spec(t: Seq<char>) -> Seq<char> {
    "PRAGMA table_info("@ + text_lit_spec(t) + seq![')']
}

/// Build the column listing of a table.
pub fn pragma_table_info_sql(table: &str) -> (r: Result<String, String>)
    ensures
        r is Ok <==> is_sql_ident(table@),
        r is Ok ==> r->Ok_0@ == pragma_table_info_spec(table@),
        r is Err ==> r->Err_0@ == bad_name_msg(),
{
    if !check_sql_ident(table) {
        return Err(String::from_str("Invalid table name"));
    }
    let mut out = String::from_str("PRAGMA table_info(");
    let lit = text_lit(table);
    out.append(lit.as_str());
    push_char(&mut out, ')');
    proof {
        assert(out@ =~= pragma_table_info_spec(table@));
    }
    Ok(out)
}

/// `COPY "t" TO 'path' (FORMAT CSV, HEADER)`, or without `, HEADER` when no
/// header row is wanted.
pub open spec fn copy_table_spec(t: Seq<char>, path: Seq<char>, header: bool) -> Seq<char> {
    "COPY "@ + quoted_spec(t) + " TO "@ + text_lit_spec(path) + (if header {
        " (FORMAT CSV, HEADER)"@
    } else {
        " (FORMAT CSV)"@
    })
}

/// Build the bulk CSV export of a table.
pub fn copy_table_sql(table: &str, path: &str, header: bool) -> (r: Result<String, String>)
    ensures
        r is Ok <==> is_sql_ident(table@),
        r is Ok ==> r->Ok_0@ == copy_table_spec(table@, path@, header),
        r is Err ==> r->Err_0@ == bad_name_msg(),
{
    if !check_sql_ident(table) {
        return Err(String::from_str("Invalid table name"));
    }
    let mut out = String::from_str("COPY ");
    let q = quote_ident(table);
    out.append(q.as_str());
    out.append(" TO ");
    let lit = text_lit(path);
    out.append(lit.as_str());
    if header {
        out.append(" (FORMAT CSV, HEADER)");
    } else {
        out.append(" (FORMAT CSV)");
    }
    proof {
        assert(out@ =~= copy_table_spec(table@, path@, header));
    }
    Ok(out)
}

/// `COPY (query) TO 'path' (FORMAT CSV, HEADER)`: the caller supplies the
/// query text itself, as the export-a-query command does.
pub open spec fn copy_query_spec(query: Seq<char>, path: Seq<char>, header: bool) -> Seq<char> {
    "COPY ("@ + query + ") TO "@ + text_lit_spec(path) + (if header {
        " (FORMAT CSV, HEADER)"@
    } else {
        " (FORMAT CSV)"@
    })
}

/// Build the bulk CSV export of a caller-supplied query.
pub fn copy_query_sql(query: &str, path: &str, header: bool) -> (r: String)
    ensures
        r@ == copy_query_spec(query@, path@, header),
{
    let mut out = String::from_str("COPY (");
    out.append(query);
    out.append(") TO ");
    let lit = text_lit(path);
    out.append(lit.as_str());
    if header {
        out.append(" (FORMAT CSV, HEADER)");
    } else {
        out.append(" (FORMAT CSV)");
    }
    proof {
        assert(out@ =~= copy_query_spec(query@, path@, header));
    }
    out
}

/// `SELECT COUNT(*) FROM (query)`
pub open spec fn count_query_spec(query: Seq<char>) -> Seq<char> {
    "SELECT COUNT(*) FROM ("@ + query + seq![')']
}

/// Build the row-count of a caller-supplied query.
pub fn count_query_sql(query: &str) -> (r: String)
    ensures
        r@ == count_query_spec(query@),
{
    let mut out = String::from_str("SELECT COUNT(*) FROM (");
    out.append(query);
    push_char(&mut out, ')');
    proof {
        assert(out@ =~= count_query_spec(query@));
    }
    out
}

} // verus!
