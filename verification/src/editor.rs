//! Reordering the rows of a table: a sort is materialised by building a
//! sorted copy, dropping the original and renaming the copy into its place.

use vstd::prelude::*;
use vstd::string::*;
use crate::ident::{is_sql_ident, check_sql_ident, no_dquote, check_no_dquote, quoted_spec,
    quote_ident};
use crate::sql::{bad_name_msg, drop_if_exists_spec, drop_if_exists_sql, drop_table_spec,
    drop_table_sql, rename_spec, rename_sql};
use crate::text::{dec_spec, join_spec, join_with, usize_dec};

verus! {

/// The outcome reported after a reorder.
#[derive(Debug, Clone)]
pub struct ReorderResult {
    pub success: bool,
    pub message: String,
}

/// One sort key: a column and a direction.
#[derive(Debug, Clone)]
pub struct SortColumn {
    pub column: String,
    pub ascending: bool,
}

/// `"col" ASC` or `"col" DESC`.
pub open spec fn order_key_spec(col: Seq<char>, ascending: bool) -> Seq<char> {
    quoted_spec(col) + (if ascending {
        " ASC"@
    } else {
        " DESC"@
    })
}

/// The `ORDER BY` key list: the rendered keys joined by `, `.
pub open spec fn order_by_spec(keys: Seq<SortColumn>) -> Seq<char> {
    join_spec(keys.map_values(|k: SortColumn| order_key_spec(k.column@, k.ascending)), ", "@)
}

/// Every sort column can be embedded between double quotes.
pub open spec fn sort_columns_ok(keys: Seq<SortColumn>) -> bool {
    forall|i: int| 0 <= i < keys.len() ==> no_dquote(#[trigger] keys[i].column@)
}

/// Render the `ORDER BY` key list for the given sort columns.
pub fn order_by_clause(sort_columns: &Vec<SortColumn>) -> (r: Result<String, String>)
    ensures
        r is Ok <==> sort_columns_ok(sort_columns@),
        r is Ok ==> r->Ok_0@ == order_by_spec(sort_columns@),
        r is Err ==> r->Err_0@ == "Invalid column name"@,
{
    let mut parts: Vec<String> = Vec::new();
    let mut i: usize = 0;
    while i < sort_columns.len()
        invariant
            i <= sort_columns@.len(),
            parts@.len() == i,
            forall|k: int| 0 <= k < i ==> no_dquote(#[trigger] sort_columns@[k].column@),
            forall|k: int|
                0 <= k < i ==> #[trigger] parts@[k]@ == order_key_spec(
                    sort_columns@[k].column@,
                    sort_columns@[k].ascending,
                ),
        decreases sort_columns@.len() - i,
    {
        let sc = &sort_columns[i];
        if !check_no_dquote(sc.column.as_str()) {
            return Err(String::from_str("Invalid column name"));
        }
        let mut part = quote_ident(sc.column.as_str());
        if sc.ascending {
            part.append(" ASC");
        } else {
            part.append(" DESC");
        }
        parts.push(part);
        i = i + 1;
    }
    let joined = join_with(&parts, ", ");
    proof {
        assert(crate::text::views_of(parts@) =~= sort_columns@.map_values(
            |k: SortColumn| order_key_spec(k.column@, k.ascending),
        ));
    }
    Ok(joined)
}

/// The name of the scratch table a reorder builds: the table's name with
/// `_sorted_temp` appended.
pub open spec fn temp_name_spec(t: Seq<char>) -> Seq<char> {
    t + "_sorted_temp"@
}

/// `CREATE TABLE "tmp" AS SELECT * FROM "t" ORDER BY keys`
pub open spec fn create_sorted_spec(t: Seq<char>, keys: Seq<SortColumn>) -> Seq<char> {
    "CREATE TABLE "@ + quoted_spec(temp_name_spec(t)) + " AS SELECT * FROM "@ + quoted_spec(t)
        + " ORDER BY "@ + order_by_spec(keys)
}

/// The four statements that materialise a sort, in execution order: drop any
/// stale scratch table, build the sorted copy, drop the original, rename the
/// copy into its place.
pub open spec fn reorder_spec(t: Seq<char>, keys: Seq<SortColumn>) -> Seq<Seq<char>> {
    seq![
        drop_if_exists_spec(temp_name_spec(t)),
        create_sorted_spec(t, keys),
        drop_table_spec(t),
        rename_spec(temp_name_spec(t), t),
    ]
}

proof fn lemma_temp_name_ident(t: Seq<char>)
    requires
        is_sql_ident(t),
    ensures
        is_sql_ident(temp_name_spec(t)),
{
    let n = temp_name_spec(t);
    reveal_strlit("_sorted_temp");
    assert forall|i: int| 0 <= i < n.len() implies crate::ident::is_ident_char(#[trigger] n[i]) by {
        if i < t.len() {
            assert(n[i] == t[i]);
        } else {
            assert(n[i] == "_sorted_temp"@[i - t.len()]);
        }
    }
}

/// Build the statement list that reorders a table by the given keys. An
/// empty key list, a malformed table name, or a column holding a double
/// quote is rejected before any statement is produced.
pub fn reorder_statements(table: &str, sort_columns: &Vec<SortColumn>) -> (r: Result<
    Vec<String>,
    String,
>)
    ensures
        r is Ok <==> sort_columns@.len() > 0 && is_sql_ident(table@) && sort_columns_ok(
            sort_columns@,
        ),
        r is Ok ==> r->Ok_0@.len() == 4 && forall|i: int|
            0 <= i < 4 ==> #[trigger] r->Ok_0@[i]@ == reorder_spec(table@, sort_columns@)[i],
        sort_columns@.len() == 0 ==> r is Err && r->Err_0@ == "No sort columns specified"@,
        sort_columns@.len() > 0 && !is_sql_ident(table@) ==> r is Err && r->Err_0@
            == bad_name_msg(),
        sort_columns@.len() > 0 && is_sql_ident(table@) && !sort_columns_ok(sort_columns@)
            ==> r is Err && r->Err_0@ == "Invalid column name"@,
{
    if sort_columns.len() == 0 {
        return Err(String::from_str("No sort columns specified"));
    }
    if !check_sql_ident(table) {
        return Err(String::from_str("Invalid table name"));
    }
    let order_by = match order_by_clause(sort_columns) {
        Ok(o) => o,
        Err(e) => {
            return Err(e);
        },
    };
    proof {
        lemma_temp_name_ident(table@);
    }
    let mut temp = String::from_str(table);
    temp.append("_sorted_temp");
    let drop_temp = match drop_if_exists_sql(temp.as_str()) {
        Ok(s) => s,
        Err(e) => {
            return Err(e);
        },
    };
    let mut create = String::from_str("CREATE TABLE ");
    let qtemp = quote_ident(temp.as_str());
    create.append(qtemp.as_str());
    create.append(" AS SELECT * FROM ");
    let qt = quote_ident(table);
    create.append(qt.as_str());
    create.append(" ORDER BY ");
    create.append(order_by.as_str());
    let drop_orig = match drop_table_sql(table) {
        Ok(s) => s,
        Err(e) => {
            return Err(e);
        },
    };
    let rename = match rename_sql(temp.as_str(), table) {
        Ok(s) => s,
        Err(e) => {
            return Err(e);
        },
    };
    let mut out: Vec<String> = Vec::new();
    out.push(drop_temp);
    out.push(create);
    out.push(drop_orig);
    out.push(rename);
    proof {
        assert(create@ =~= create_sorted_spec(table@, sort_columns@));
        assert(forall|i: int|
            0 <= i < 4 ==> #[trigger] out@[i]@ == reorder_spec(table@, sort_columns@)[i]);
    }
    Ok(out)
}

/// The reply reported after a successful reorder, naming how many sort keys
/// were applied.
pub fn reorder_result(key_count: usize) -> (r: ReorderResult)
    ensures
        r.success,
        r.message@ == "Rows reordered by "@ + dec_spec(key_count as nat) + " column(s)"@,
{
    let mut message = String::from_str("Rows reordered by ");
    let n = usize_dec(key_count);
    message.append(n.as_str());
    message.append(" column(s)");
    proof {
        assert(message@ =~= "Rows reordered by "@ + dec_spec(key_count as nat) + " column(s)"@);
    }
    ReorderResult { success: true, message }
}

} // verus!
