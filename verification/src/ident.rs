//! Canonicalising caller-supplied names into safe SQL identifiers, and
//! quoting identifiers for embedding into SQL text.

use vstd::prelude::*;
use vstd::string::*;
use crate::text::push_char;

verus! {

/// A character allowed in a canonical identifier: ASCII letters, digits and
/// the underscore.
pub open spec fn is_ident_char(c: char) -> bool {
    ('a' <= c && c <= 'z') || ('A' <= c && c <= 'Z') || ('0' <= c && c <= '9') || c == '_'
}

/// Identifier characters kept, every other code point replaced by `_`.
pub open spec fn keep_char(c: char) -> char {
    if is_ident_char(c) {
        c
    } else {
        '_'
    }
}

/// Character-wise replacement step of sanitisation.
pub open spec fn map_keep(s: Seq<char>) -> Seq<char> {
    s.map_values(|c: char| keep_char(c))
}

/// Leading underscores removed.
pub open spec fn strip_front(s: Seq<char>) -> Seq<char>
    decreases s.len(),
{
    if s.len() > 0 && s[0] == '_' {
        strip_front(s.subrange(1, s.len() as int))
    } else {
        s
    }
}

/// Trailing underscores removed.
pub open spec fn strip_back(s: Seq<char>) -> Seq<char>
    decreases s.len(),
{
    if s.len() > 0 && s.last() == '_' {
        strip_back(s.drop_last())
    } else {
        s
    }
}

/// The canonical form of a caller-supplied name: identifier characters kept,
/// everything else replaced by `_`, then edge underscores trimmed.
pub open spec fn sanitize_spec(s: Seq<char>) -> Seq<char> {
    strip_back(strip_front(map_keep(s)))
}

/// A name that can stand in SQL as a bare, quoted identifier: non-empty and
/// made of identifier characters only.
pub open spec fn is_sql_ident(s: Seq<char>) -> bool {
    s.len() > 0 && forall|i: int| 0 <= i < s.len() ==> is_ident_char(#[trigger] s[i])
}

/// Whether `name` is a non-empty run of identifier characters.
pub fn check_sql_ident(name: &str) -> (b: bool)
    ensures
        b == is_sql_ident(name@),
{
    let len = name.unicode_len();
    if len == 0 {
        return false;
    }
    let mut i: usize = 0;
    while i < len
        invariant
            i <= len,
            len == name@.len(),
            forall|k: int| 0 <= k < i ==> is_ident_char(#[trigger] name@[k]),
        decreases len - i,
    {
        let c = name.get_char(i);
        let ok = ('a' <= c && c <= 'z') || ('A' <= c && c <= 'Z') || ('0' <= c && c <= '9')
            || c == '_';
        if !ok {
            return false;
        }
        i = i + 1;
    }
    true
}

/// No double quote anywhere in the name, so it can be embedded between
/// double quotes without closing them.
pub open spec fn no_dquote(s: Seq<char>) -> bool {
    forall|i: int| 0 <= i < s.len() ==> #[trigger] s[i] != '"'
}

/// Whether the name is free of double quotes.
pub fn check_no_dquote(name: &str) -> (b: bool)
    ensures
        b == no_dquote(name@),
{
    let len = name.unicode_len();
    let mut i: usize = 0;
    while i < len
        invariant
            i <= len,
            len == name@.len(),
            forall|k: int| 0 <= k < i ==> #[trigger] name@[k] != '"',
        decreases len - i,
    {
        if name.get_char(i) == '"' {
            return false;
        }
        i = i + 1;
    }
    true
}

/// The name wrapped in double quotes.
pub open spec fn quoted_spec(s: Seq<char>) -> Seq<char> {
    seq!['"'] + s + seq!['"']
}

/// Wrap a name in double quotes for use as a SQL identifier. Callers check
/// `no_dquote` first, so the quotes cannot be closed early.
pub fn quote_ident(name: &str) -> (r: String)
    ensures
        r@ == quoted_spec(name@),
{
    let mut r = String::new();
    push_char(&mut r, '"');
    r.append(name);
    push_char(&mut r, '"');
    proof {
        assert(r@ =~= quoted_spec(name@));
    }
    r
}

proof fn lemma_strip_front_ix(s: Seq<char>, a: int)
    requires
        0 <= a <= s.len(),
        forall|k: int| 0 <= k < a ==> s[k] == '_',
        a == s.len() || s[a] != '_',
    ensures
        strip_front(s) == s.subrange(a, s.len() as int),
    decreases a,
{
    if a == 0 {
        assert(strip_front(s) =~= s.subrange(0, s.len() as int));
    } else {
        let t = s.subrange(1, s.len() as int);
        assert(s[0] == '_');
        lemma_strip_front_ix(t, a - 1);
        assert(t.subrange(a - 1, t.len() as int) =~= s.subrange(a, s.len() as int));
    }
}

proof fn lemma_strip_back_ix(s: Seq<char>, b: int)
    requires
        0 <= b <= s.len(),
        forall|k: int| b <= k < s.len() ==> s[k] == '_',
        b == 0 || s[b - 1] != '_',
    ensures
        strip_back(s) == s.subrange(0, b),
    decreases s.len(),
{
    if b < s.len() {
        assert(s.last() == '_');
        lemma_strip_back_ix(s.drop_last(), b);
    } else {
        if s.len() > 0 {
            assert(s.last() != '_');
        }
        assert(strip_back(s) =~= s.subrange(0, b));
    }
}

/// The canonical form with the default substituted: a name that loses every
/// character to sanitisation becomes `imported_data`.
pub open spec fn sanitize_full_spec(s: Seq<char>) -> Seq<char> {
    if sanitize_spec(s).len() == 0 {
        "imported_data"@
    } else {
        sanitize_spec(s)
    }
}

/// Replace every character outside `[A-Za-z0-9_]` with `_`, trim leading and
/// trailing underscores, and fall back to `imported_data` when nothing
/// survives.
pub fn sanitize_table_name(name: &str) -> (r: String)
    ensures
        r@ == sanitize_full_spec(name@),
{
    let s = sanitize_bare(name);
    if s.as_str().is_empty() {
        String::from_str("imported_data")
    } else {
        s
    }
}

/// The bare sanitised form, with no default substituted: empty when nothing
/// survives. Spreadsheet header naming uses this step directly, since an
/// emptied header takes `Column{ordinal}`, not the table default.
pub(crate) fn sanitize_bare(name: &str) -> (r: String)
    ensures
        r@ == sanitize_spec(name@),
{
    let len = name.unicode_len();
    let mut m = String::new();
    let mut i: usize = 0;
    while i < len
        invariant
            i <= len,
            len == name@.len(),
            m@ == map_keep(name@.take(i as int)),
        decreases len - i,
    {
        let c = name.get_char(i);
        let ok = ('a' <= c && c <= 'z') || ('A' <= c && c <= 'Z') || ('0' <= c && c <= '9')
            || c == '_';
        push_char(&mut m, if ok { c } else { '_' });
        proof {
            assert(m@ =~= map_keep(name@.take(i + 1 as int)));
        }
        i = i + 1;
    }
    proof {
        assert(name@.take(len as int) =~= name@);
        assert(m@.len() == len);
    }
    let mut a: usize = 0;
    while a < len && m.as_str().get_char(a) == '_'
        invariant
            a <= len,
            len == m@.len(),
            m@ == map_keep(name@),
            forall|k: int| 0 <= k < a ==> m@[k] == '_',
        decreases len - a,
    {
        a = a + 1;
    }
    let mut b: usize = len;
    while b > a && m.as_str().get_char(b - 1) == '_'
        invariant
            a <= b <= len,
            len == m@.len(),
            m@ == map_keep(name@),
            forall|k: int| b <= k < len ==> m@[k] == '_',
        decreases b,
    {
        b = b - 1;
    }
    let out = m.as_str().substring_char(a, b);
    let r = String::from_str(out);
    proof {
        lemma_strip_front_ix(m@, a as int);
        let f = m@.subrange(a as int, len as int);
        assert(forall|k: int| (b - a) <= k < f.len() ==> #[trigger] f[k] == '_');
        if b > a {
            assert(f[b - a - 1] == m@[b - 1 as int]);
        }
        lemma_strip_back_ix(f, b - a);
        assert(f.subrange(0, b - a) =~= m@.subrange(a as int, b as int));
        assert(r@ == sanitize_spec(name@));
    }
    r
}

proof fn lemma_strip_front_chars(s: Seq<char>)
    requires
        forall|i: int| 0 <= i < s.len() ==> is_ident_char(#[trigger] s[i]),
    ensures
        forall|i: int|
            0 <= i < strip_front(s).len() ==> is_ident_char(#[trigger] strip_front(s)[i]),
        strip_front(s).len() > 0 ==> strip_front(s)[0] != '_',
        (exists|i: int| 0 <= i < s.len() && #[trigger] s[i] != '_') ==> strip_front(s).len() > 0
            && (exists|i: int|
            0 <= i < strip_front(s).len() && #[trigger] strip_front(s)[i] != '_'),
    decreases s.len(),
{
    if s.len() > 0 && s[0] == '_' {
        let t = s.subrange(1, s.len() as int);
        lemma_strip_front_chars(t);
        assert(strip_front(s) == strip_front(t));
        if exists|i: int| 0 <= i < s.len() && #[trigger] s[i] != '_' {
            let w = choose|i: int| 0 <= i < s.len() && #[trigger] s[i] != '_';
            assert(w != 0);
            assert(t[w - 1] == s[w]);
            assert(exists|i: int| 0 <= i < t.len() && #[trigger] t[i] != '_');
            let v = choose|i: int|
                0 <= i < strip_front(t).len() && #[trigger] strip_front(t)[i] != '_';
            assert(strip_front(s)[v] != '_');
        }
    } else {
        if exists|i: int| 0 <= i < s.len() && #[trigger] s[i] != '_' {
            let w = choose|i: int| 0 <= i < s.len() && #[trigger] s[i] != '_';
            assert(strip_front(s)[w] == s[w]);
        }
    }
}

proof fn lemma_strip_back_prefix(s: Seq<char>)
    ensures
        strip_back(s).len() <= s.len(),
        forall|i: int| 0 <= i < strip_back(s).len() ==> #[trigger] strip_back(s)[i] == s[i],
        strip_back(s).len() > 0 ==> strip_back(s).last() != '_',
        (exists|i: int| 0 <= i < s.len() && #[trigger] s[i] != '_') ==> strip_back(s).len() > 0,
    decreases s.len(),
{
    if s.len() > 0 && s.last() == '_' {
        lemma_strip_back_prefix(s.drop_last());
        if exists|i: int| 0 <= i < s.len() && #[trigger] s[i] != '_' {
            let w = choose|i: int| 0 <= i < s.len() && #[trigger] s[i] != '_';
            assert(s.drop_last()[w] == s[w]);
            assert(exists|i: int| 0 <= i < s.drop_last().len() && #[trigger] s.drop_last()[i]
                != '_');
        }
    }
}

/// Every sanitised name is well formed: it holds only characters from
/// `[A-Za-z0-9_]`, it neither starts nor ends with an underscore, and it is
/// non-empty whenever the input holds at least one identifier character other
/// than `_`.
pub proof fn lemma_sanitize_well_formed(s: Seq<char>)
    ensures
        forall|i: int|
            0 <= i < sanitize_spec(s).len() ==> is_ident_char(#[trigger] sanitize_spec(s)[i]),
        sanitize_spec(s).len() > 0 ==> sanitize_spec(s)[0] != '_' && sanitize_spec(s).last()
            != '_',
        (exists|i: int| 0 <= i < s.len() && is_ident_char(#[trigger] s[i]) && s[i] != '_')
            ==> sanitize_spec(s).len() > 0,
{
    let m = map_keep(s);
    assert(forall|i: int| 0 <= i < m.len() ==> is_ident_char(#[trigger] m[i]));
    lemma_strip_front_chars(m);
    let f = strip_front(m);
    lemma_strip_back_prefix(f);
    if exists|i: int| 0 <= i < s.len() && is_ident_char(#[trigger] s[i]) && s[i] != '_' {
        let w = choose|i: int| 0 <= i < s.len() && is_ident_char(#[trigger] s[i]) && s[i] != '_';
        assert(m[w] == s[w]);
        assert(exists|i: int| 0 <= i < m.len() && #[trigger] m[i] != '_');
    }
}

} // verus!
