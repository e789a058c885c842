//! The wire form of a cell: the tagged value that crosses the session
//! boundary, and its rendering as a SQL literal.
//!
//! A float is carried as its decimal rendering: the engine-side decode turns
//! a finite float into its shortest round-trip decimal text and a non-finite
//! one into `Null`, so no floating point value is held here. Before such a
//! text is embedded into SQL it must pass the numeric-literal check below.

use vstd::prelude::*;
use vstd::string::*;
use crate::text::{escape_sq, escape_single_quotes, int_dec_spec, i64_dec, join_spec, join_with,
    push_char};

verus! {

/// A cell value on the wire: `null | bool | int | float | text`, plus the
/// array form that the `IN` filter operator takes.
#[derive(Debug)]
pub enum CellValue {
    Null,
    Bool(bool),
    Int(i64),
    /// A finite float, already rendered as decimal text.
    Float(String),
    Text(String),
    /// A list of scalar cell values; accepted only as the right-hand side of
    /// an `IN` condition.
    Array(Vec<CellValue>),
}

/// States of the scanner for numeric literals. The accepted language is
/// `-? digits ( '.' digits )? ( [eE] [+-]? digits )?`.
pub open spec fn num_step(st: int, c: char) -> int {
    if st == 0 {
        // start
        if c == '-' {
            1
        } else if '0' <= c && c <= '9' {
            2
        } else {
            8
        }
    } else if st == 1 {
        // after leading sign
        if '0' <= c && c <= '9' {
            2
        } else {
            8
        }
    } else if st == 2 {
        // integer digits
        if '0' <= c && c <= '9' {
            2
        } else if c == '.' {
            3
        } else if c == 'e' || c == 'E' {
            5
        } else {
            8
        }
    } else if st == 3 {
        // after decimal point
        if '0' <= c && c <= '9' {
            4
        } else {
            8
        }
    } else if st == 4 {
        // fraction digits
        if '0' <= c && c <= '9' {
            4
        } else if c == 'e' || c == 'E' {
            5
        } else {
            8
        }
    } else if st == 5 {
        // after exponent marker
        if c == '+' || c == '-' {
            6
        } else if '0' <= c && c <= '9' {
            7
        } else {
            8
        }
    } else if st == 6 {
        // after exponent sign
        if '0' <= c && c <= '9' {
            7
        } else {
            8
        }
    } else if st == 7 {
        // exponent digits
        if '0' <= c && c <= '9' {
            7
        } else {
            8
        }
    } else {
        8
    }
}

/// The scanner state after reading all of `s` from the start state.
pub open spec fn num_run(s: Seq<char>) -> int
    decreases s.len(),
{
    if s.len() == 0 {
        0
    } else {
        num_step(num_run(s.drop_last()), s.last())
    }
}

/// `s` is a well-formed decimal numeric literal.
pub open spec fn is_num_lit(s: Seq<char>) -> bool {
    num_run(s) == 2 || num_run(s) == 4 || num_run(s) == 7
}

/// Whether `s` is a well-formed decimal numeric literal such as `-12`,
/// `3.5` or `1e-9`.
pub fn check_num_lit(s: &str) -> (b: bool)
    ensures
        b == is_num_lit(s@),
{
    let len = s.unicode_len();
    let mut st: u8 = 0;
    let mut i: usize = 0;
    while i < len
        invariant
            i <= len,
            len == s@.len(),
            st <= 8,
            st as int == num_run(s@.take(i as int)),
        decreases len - i,
    {
        let c = s.get_char(i);
        let digit = '0' <= c && c <= '9';
        st = if st == 0 {
            if c == '-' {
                1
            } else if digit {
                2
            } else {
                8
            }
        } else if st == 1 {
            if digit {
                2
            } else {
                8
            }
        } else if st == 2 {
            if digit {
                2
            } else if c == '.' {
                3
            } else if c == 'e' || c == 'E' {
                5
            } else {
                8
            }
        } else if st == 3 {
            if digit {
                4
            } else {
                8
            }
        } else if st == 4 {
            if digit {
                4
            } else if c == 'e' || c == 'E' {
                5
            } else {
                8
            }
        } else if st == 5 {
            if c == '+' || c == '-' {
                6
            } else if digit {
                7
            } else {
                8
            }
        } else if st == 6 {
            if digit {
                7
            } else {
                8
            }
        } else if st == 7 {
            if digit {
                7
            } else {
                8
            }
        } else {
            8
        };
        proof {
            assert(s@.take(i + 1 as int).drop_last() =~= s@.take(i as int));
        }
        i = i + 1;
    }
    proof {
        assert(s@.take(len as int) =~= s@);
    }
    st == 2 || st == 4 || st == 7
}

/// A scalar wire value that may be rendered as a SQL literal.
pub open spec fn lit_ok(v: CellValue) -> bool {
    match v {
        CellValue::Null => true,
        CellValue::Bool(_) => true,
        CellValue::Int(_) => true,
        CellValue::Float(s) => is_num_lit(s@),
        CellValue::Text(_) => true,
        CellValue::Array(_) => false,
    }
}

/// The SQL literal for a scalar wire value: `NULL`, `true`/`false`, the
/// decimal digits, the numeric text as it stands, or a single-quoted string
/// with every inner quote doubled.
pub open spec fn lit_spec(v: CellValue) -> Seq<char> {
    match v {
        CellValue::Null => "NULL"@,
        CellValue::Bool(b) => if b {
            "true"@
        } else {
            "false"@
        },
        CellValue::Int(i) => int_dec_spec(i as int),
        CellValue::Float(s) => s@,
        CellValue::Text(s) => seq!['\''] + escape_sq(s@) + seq!['\''],
        CellValue::Array(_) => Seq::empty(),
    }
}

/// Render a scalar wire value as a SQL literal. A float whose text is not a
/// well-formed numeric literal is rejected, as is an array, which only the
/// `IN` operator accepts.
pub fn quote_literal(v: &CellValue) -> (r: Result<String, String>)
    ensures
        r is Ok <==> lit_ok(*v),
        r is Ok ==> r->Ok_0@ == lit_spec(*v),
        v is Float && !is_num_lit(v->Float_0@) ==> r is Err && r->Err_0@
            == "Invalid numeric literal"@,
        v is Array ==> r is Err && r->Err_0@ == "Array value is only allowed with IN"@,
{
    match v {
        CellValue::Null => Ok(String::from_str("NULL")),
        CellValue::Bool(b) => {
            if *b {
                Ok(String::from_str("true"))
            } else {
                Ok(String::from_str("false"))
            }
        },
        CellValue::Int(i) => Ok(i64_dec(*i)),
        CellValue::Float(s) => {
            if check_num_lit(s.as_str()) {
                Ok(s.clone())
            } else {
                Err(String::from_str("Invalid numeric literal"))
            }
        },
        CellValue::Text(s) => {
            let mut out = String::new();
            push_char(&mut out, '\'');
            let esc = escape_single_quotes(s.as_str());
            out.append(esc.as_str());
            push_char(&mut out, '\'');
            proof {
                assert(out@ =~= lit_spec(*v));
            }
            Ok(out)
        },
        CellValue::Array(_) => Err(String::from_str("Array value is only allowed with IN")),
    }
}

/// Every element of an `IN` list is a renderable scalar.
pub open spec fn in_list_ok(elems: Seq<CellValue>) -> bool {
    forall|i: int| 0 <= i < elems.len() ==> lit_ok(#[trigger] elems[i])
}

/// The literal list for an `IN` condition: the element literals joined by
/// `, ` and wrapped in parentheses.
pub open spec fn in_list_spec(elems: Seq<CellValue>) -> Seq<char> {
    seq!['('] + join_spec(elems.map_values(|v: CellValue| lit_spec(v)), ", "@) + seq![')']
}

/// Render the parenthesised literal list of an `IN` condition. Each element
/// is quoted by the scalar rule — a boolean element renders `true`/`false`
/// like any other boolean — and a nested array or malformed numeric text is
/// rejected outright rather than silently written as `NULL`.
pub fn quote_in_list(elems: &Vec<CellValue>) -> (r: Result<String, String>)
    ensures
        r is Ok <==> in_list_ok(elems@),
        r is Ok ==> r->Ok_0@ == in_list_spec(elems@),
{
    let mut parts: Vec<String> = Vec::new();
    let mut i: usize = 0;
    while i < elems.len()
        invariant
            i <= elems@.len(),
            parts@.len() == i,
            forall|k: int| 0 <= k < i ==> lit_ok(#[trigger] elems@[k]),
            forall|k: int| 0 <= k < i ==> #[trigger] parts@[k]@ == lit_spec(elems@[k]),
        decreases elems@.len() - i,
    {
        match quote_literal(&elems[i]) {
            Ok(p) => {
                parts.push(p);
            },
            Err(e) => {
                return Err(e);
            },
        }
        i = i + 1;
    }
    let joined = join_with(&parts, ", ");
    let mut out = String::new();
    push_char(&mut out, '(');
    out.append(joined.as_str());
    push_char(&mut out, ')');
    proof {
        assert(crate::text::views_of(parts@) =~= elems@.map_values(|v: CellValue| lit_spec(v)));
        assert(out@ =~= in_list_spec(elems@));
    }
    Ok(out)
}

} // verus!
