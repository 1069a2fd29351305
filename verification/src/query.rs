//! SQL text helpers: identifier quoting, display sanitising, the
//! write-statement check used by read-only mode, and the query result
//! container.
use vstd::prelude::*;

use crate::perf::Duration;
use crate::completion::str_starts_with;
use crate::history::trimmed;
use crate::text::{
    eq_ignore_ascii_case, eq_ignore_ascii_case_spec,
    str_to_string, utf8_len,
    decimal, decimal_digit, decimal_digit_exec, decimal_string,
    chars_of, find, find_in, first_word, occurs_at, is_control, is_control_char, lemma_find_from_bounds,
    lemma_trim_start_suffix, push_char, skip_ws_backward, skip_ws_forward, uppercased,
    starts_with, starts_with_at, str_eq, string_of, to_uppercase, trim, trim_start, word_end,
    word_prefix,
};

verus! {

// ---------------------------------------------------------------------
// Identifier quoting
// ---------------------------------------------------------------------

/// `s` with every backtick doubled.
pub open spec fn double_backticks(s: Seq<char>) -> Seq<char>
    decreases s.len(),
{
    if s.len() == 0 {
        Seq::empty()
    } else {
        double_backticks(s.drop_last()) + if s.last() == '`' {
            seq!['`', '`']
        } else {
            seq![s.last()]
        }
    }
}

/// A MySQL identifier quoted with backticks, inner backticks doubled.
pub open spec fn escaped_identifier(s: Seq<char>) -> Seq<char> {
    seq!['`'] + double_backticks(s) + seq!['`']
}

/// Quotes a MySQL identifier (table, column or database name) with
/// backticks, doubling any backtick inside it, so that it can be placed
/// in SQL text safely.
pub fn escape_identifier(name: &str) -> (r: String)
    ensures
        r@ == escaped_identifier(name@),
{
    let v = chars_of(name);
    let mut out = String::new();
    push_char(&mut out, '`');
    let mut i: usize = 0;
    while i < v.len()
        invariant
            i <= v@.len(),
            v@ == name@,
            out@ == seq!['`'] + double_backticks(v@.subrange(0, i as int)),
        decreases v.len() - i,
    {
        assert(v@.subrange(0, i + 1).drop_last() =~= v@.subrange(0, i as int));
        if v[i] == '`' {
            push_char(&mut out, '`');
            push_char(&mut out, '`');
            assert(out@ =~= seq!['`'] + double_backticks(v@.subrange(0, i + 1)));
        } else {
            push_char(&mut out, v[i]);
            assert(out@ =~= seq!['`'] + double_backticks(v@.subrange(0, i + 1)));
        }
        i = i + 1;
    }
    push_char(&mut out, '`');
    assert(v@.subrange(0, v@.len() as int) =~= v@);
    out
}

// ---------------------------------------------------------------------
// Display sanitising
// ---------------------------------------------------------------------

/// What one character becomes on screen: a newline is shown as `⏎`, a
/// carriage return is dropped, a tab is shown as `→`, any other control
/// character becomes a space.
pub open spec fn sanitized_char(c: char) -> Seq<char> {
    if c == '\n' {
        seq!['⏎']
    } else if c == '\r' {
        Seq::empty()
    } else if c == '\t' {
        seq!['→']
    } else if is_control_char(c) {
        seq![' ']
    } else {
        seq![c]
    }
}

/// `s` with every character replaced as `sanitized_char` says.
pub open spec fn sanitized(s: Seq<char>) -> Seq<char>
    decreases s.len(),
{
    if s.len() == 0 {
        Seq::empty()
    } else {
        sanitized(s.drop_last()) + sanitized_char(s.last())
    }
}

/// Replaces control characters so that a value fits on one display line.
pub fn sanitize_for_display(s: &str) -> (r: String)
    ensures
        r@ == sanitized(s@),
{
    let v = chars_of(s);
    let mut out = String::new();
    let mut i: usize = 0;
    while i < v.len()
        invariant
            i <= v@.len(),
            v@ == s@,
            out@ == sanitized(v@.subrange(0, i as int)),
        decreases v.len() - i,
    {
        let c = v[i];
        assert(v@.subrange(0, i + 1).drop_last() =~= v@.subrange(0, i as int));
        if c == '\n' {
            push_char(&mut out, '⏎');
        } else if c == '\r' {
        } else if c == '\t' {
            push_char(&mut out, '→');
        } else if is_control(c) {
            push_char(&mut out, ' ');
        } else {
            push_char(&mut out, c);
        }
        assert(out@ =~= sanitized(v@.subrange(0, i + 1)));
        i = i + 1;
    }
    assert(v@.subrange(0, v@.len() as int) =~= v@);
    out
}

// ---------------------------------------------------------------------
// Leading comments and the first keyword
// ---------------------------------------------------------------------

/// `s` (which has no leading whitespace) with its leading `/* ... */` and
/// `-- ...` comments removed; empty when a comment is left open.
pub open spec fn skip_comments(s: Seq<char>) -> Seq<char>
    decreases s.len(),
{
    if starts_with(s, seq!['/', '*']) {
        match find(s, seq!['*', '/']) {
            Some(e) => {
                proof {
                    lemma_find_from_bounds(s, seq!['*', '/'], 0);
                    lemma_trim_start_suffix(s.subrange(e + 2, s.len() as int));
                }
                skip_comments(trim_start(s.subrange(e + 2, s.len() as int)))
            },
            None => Seq::empty(),
        }
    } else if starts_with(s, seq!['-', '-']) {
        match find(s, seq!['\n']) {
            Some(n) => {
                proof {
                    lemma_find_from_bounds(s, seq!['\n'], 0);
                    lemma_trim_start_suffix(s.subrange(n + 1, s.len() as int));
                }
                skip_comments(trim_start(s.subrange(n + 1, s.len() as int)))
            },
            None => Seq::empty(),
        }
    } else {
        s
    }
}

/// The first token of a SQL text after its leading comments.
pub open spec fn first_token_spec(sql: Seq<char>) -> Seq<char> {
    first_word(skip_comments(trim(sql)))
}

/// Skips the comments at the start of `v[a..b]` (which has no leading
/// whitespace). `Some(start)` when `v[start..b]` is what remains,
/// `None` when a comment is left open.
fn skip_comments_from(v: &Vec<char>, a: usize, b: usize) -> (r: Option<usize>)
    requires
        a <= b <= v@.len(),
    ensures
        r matches Some(k) ==> a <= k <= b && skip_comments(v@.subrange(a as int, b as int))
            == v@.subrange(k as int, b as int),
        r is None ==> skip_comments(v@.subrange(a as int, b as int)) == Seq::<char>::empty(),
    decreases b - a,
{
    let ghost s = v@.subrange(a as int, b as int);
    let open_block = vec!['/', '*'];
    let close_block = vec!['*', '/'];
    let line = vec!['-', '-'];
    let newline = vec!['\n'];
    assert(open_block@ =~= seq!['/', '*']);
    assert(close_block@ =~= seq!['*', '/']);
    assert(line@ =~= seq!['-', '-']);
    assert(newline@ =~= seq!['\n']);
    if starts_with_at(v, &open_block, a, b) {
        match find_in(v, &close_block, a, b) {
            Some(e) => {
                proof {
                    lemma_find_from_bounds(s, seq!['*', '/'], 0);
                }
                assert(s.subrange(e - a + 2, s.len() as int) =~= v@.subrange(e + 2, b as int));
                let k = skip_ws_forward(v, e + 2, b);
                skip_comments_from(v, k, b)
            },
            None => None,
        }
    } else if starts_with_at(v, &line, a, b) {
        match find_in(v, &newline, a, b) {
            Some(n) => {
                proof {
                    lemma_find_from_bounds(s, seq!['\n'], 0);
                }
                assert(s.subrange(n - a + 1, s.len() as int) =~= v@.subrange(n + 1, b as int));
                let k = skip_ws_forward(v, n + 1, b);
                skip_comments_from(v, k, b)
            },
            None => None,
        }
    } else {
        Some(a)
    }
}

/// The first meaningful token of a SQL text: leading whitespace and
/// leading `/* ... */` and `-- ...` comments are skipped, and the first
/// whitespace-separated word is returned (empty when nothing is left or a
/// comment is left open).
pub fn first_meaningful_token(sql: &str) -> (r: &str)
    ensures
        r@ == first_token_spec(sql@),
{
    let v = chars_of(sql);
    let a = skip_ws_forward(&v, 0, v.len());
    let b = skip_ws_backward(&v, a, v.len());
    assert(v@.subrange(0, v@.len() as int) =~= v@);
    assert(trim(sql@) == v@.subrange(a as int, b as int)) by {
        assert(v@.subrange(a as int, v@.len() as int).subrange(0, b - a) =~= v@.subrange(
            a as int,
            b as int,
        ));
    }
    match skip_comments_from(&v, a, b) {
        Some(k) => {
            let k2 = skip_ws_forward(&v, k, b);
            let e = word_end(&v, k2, b);
            sql.substring_char(k2, e)
        },
        None => {
            assert(first_word(Seq::<char>::empty()) =~= Seq::<char>::empty());
            sql.substring_char(0, 0)
        },
    }
}

// ---------------------------------------------------------------------
// Write statements
// ---------------------------------------------------------------------

/// The statement keywords that modify data or schema.
pub open spec fn is_write_keyword(t: Seq<char>) -> bool {
    ||| t == "INSERT"@
    ||| t == "UPDATE"@
    ||| t == "DELETE"@
    ||| t == "DROP"@
    ||| t == "ALTER"@
    ||| t == "TRUNCATE"@
    ||| t == "CREATE"@
    ||| t == "REPLACE"@
    ||| t == "RENAME"@
    ||| t == "GRANT"@
    ||| t == "REVOKE"@
}

/// The data-modifying keywords that may follow a `WITH` clause.
pub open spec fn is_dml_write_keyword(t: Seq<char>) -> bool {
    t == "INSERT"@ || t == "UPDATE"@ || t == "DELETE"@
}

/// Scans the upper-cased text `u` from index `i` with parenthesis depth
/// `depth`, looking for the end of the CTE definitions; true when the
/// statement body that follows begins with INSERT, UPDATE or DELETE.
pub open spec fn cte_scan(u: Seq<char>, i: int, depth: int) -> bool
    decreases u.len() - i,
{
    if i < 0 || i >= u.len() {
        false
    } else if u[i] == '(' {
        cte_scan(u, i + 1, depth + 1)
    } else if u[i] == ')' {
        if depth - 1 == 0 {
            let rem = trim_start(u.subrange(i + 1, u.len() as int));
            if rem.len() > 0 && rem[0] == ',' {
                proof {
                    lemma_trim_start_suffix(u.subrange(i + 1, u.len() as int));
                }
                cte_scan(u, u.len() - rem.len() + 1, 0)
            } else {
                is_dml_write_keyword(word_prefix(rem))
            }
        } else {
            cte_scan(u, i + 1, depth - 1)
        }
    } else {
        cte_scan(u, i + 1, depth)
    }
}

/// Whether a `WITH ...` statement writes: the body after the last CTE
/// definition of the upper-cased text starts with INSERT, UPDATE or DELETE.
pub open spec fn cte_writes(sql: Seq<char>) -> bool {
    let u = uppercased(sql);
    match find(u, "WITH"@) {
        Some(p) => cte_scan(u, p + 4, 0),
        None => false,
    }
}

/// Whether a SQL text writes, as read-only mode judges it.
pub open spec fn is_write_sql_spec(sql: Seq<char>) -> bool {
    let t = uppercased(first_token_spec(sql));
    if t == "WITH"@ {
        cte_writes(sql)
    } else {
        is_write_keyword(t)
    }
}

fn is_dml_write_word(w: &str) -> (r: bool)
    ensures
        r == is_dml_write_keyword(w@),
{
    str_eq(w, "INSERT") || str_eq(w, "UPDATE") || str_eq(w, "DELETE")
}

fn cte_scan_exec(u: &Vec<char>, start: usize) -> (r: bool)
    requires
        start <= u@.len(),
    ensures
        r == cte_scan(u@, start as int, 0),
{
    let len = u.len();
    let mut depth: i128 = 0;
    let mut i = start;
    while i < len
        invariant
            len == u@.len(),
            start <= i <= len,
            -(i as int) <= depth <= i as int,
            cte_scan(u@, start as int, 0) == cte_scan(u@, i as int, depth as int),
        decreases len - i,
    {
        if u[i] == '(' {
            depth = depth + 1;
            i = i + 1;
        } else if u[i] == ')' {
            depth = depth - 1;
            i = i + 1;
            if depth == 0 {
                let k = skip_ws_forward(u, i, len);
                proof {
                    lemma_trim_start_suffix(u@.subrange(i as int, len as int));
                }
                if k < len && u[k] == ',' {
                    i = k + 1;
                } else {
                    let e = word_end(u, k, len);
                    let w = string_of(u, k, e);
                    return is_dml_write_word(w.as_str());
                }
            }
        } else {
            i = i + 1;
        }
    }
    false
}

/// Whether a `WITH` statement's body (after all CTE definitions) is an
/// INSERT, UPDATE or DELETE. The text is upper-cased first.
pub fn cte_contains_write_op(sql: &str) -> (r: bool)
    ensures
        r == cte_writes(sql@),
{
    let upper = to_uppercase(sql);
    let u = chars_of(upper.as_str());
    let with = chars_of("WITH");
    proof {
        reveal_strlit("WITH");
    }
    assert(u@.subrange(0, u@.len() as int) =~= u@);
    match find_in(&u, &with, 0, u.len()) {
        Some(p) => {
            proof {
                lemma_find_from_bounds(u@, with@, 0);
            }
            cte_scan_exec(&u, p + 4)
        },
        None => false,
    }
}

/// Whether a SQL text is a write statement, as read-only mode judges it:
/// its first token after leading comments, upper-cased, is one of INSERT,
/// UPDATE, DELETE, DROP, ALTER, TRUNCATE, CREATE, REPLACE, RENAME, GRANT,
/// REVOKE; for WITH, the statement body after the CTE definitions decides.
pub fn is_write_sql(sql: &str) -> (r: bool)
    ensures
        r == is_write_sql_spec(sql@),
{
    let token = first_meaningful_token(sql);
    let upper = to_uppercase(token);
    let t = upper.as_str();
    if str_eq(t, "WITH") {
        return cte_contains_write_op(sql);
    }
    str_eq(t, "INSERT") || str_eq(t, "UPDATE") || str_eq(t, "DELETE") || str_eq(t, "DROP")
        || str_eq(t, "ALTER") || str_eq(t, "TRUNCATE") || str_eq(t, "CREATE") || str_eq(
        t,
        "REPLACE",
    ) || str_eq(t, "RENAME") || str_eq(t, "GRANT") || str_eq(t, "REVOKE")
}


// ---------------------------------------------------------------------
// The shape of a WITH statement
// ---------------------------------------------------------------------

/// `s` has no parentheses.
pub open spec fn no_parens(s: Seq<char>) -> bool {
    forall|i: int| 0 <= i < s.len() ==> #[trigger] s[i] != '(' && s[i] != ')'
}

/// Opening minus closing parentheses of `s`.
pub open spec fn paren_balance(s: Seq<char>) -> int
    decreases s.len(),
{
    if s.len() == 0 {
        0
    } else {
        paren_balance(s.drop_last()) + if s.last() == '(' {
            1int
        } else if s.last() == ')' {
            -1int
        } else {
            0int
        }
    }
}

/// The parentheses of `s` balance: no prefix closes more than it opened,
/// and the whole closes all it opened.
pub open spec fn balanced_parens(s: Seq<char>) -> bool {
    &&& paren_balance(s) == 0
    &&& forall|k: int| 0 <= k <= s.len() ==> paren_balance(#[trigger] s.take(k)) >= 0
}

/// One CTE definition `name AS (body)`.
pub open spec fn cte_definition(def: (Seq<char>, Seq<char>)) -> Seq<char> {
    def.0 + " AS ("@ + def.1 + ")"@
}

/// CTE definitions joined with `, `.
pub open spec fn cte_list(defs: Seq<(Seq<char>, Seq<char>)>) -> Seq<char>
    decreases defs.len(),
{
    if defs.len() == 0 {
        Seq::empty()
    } else if defs.len() == 1 {
        cte_definition(defs[0])
    } else {
        cte_definition(defs[0]) + ", "@ + cte_list(defs.drop_first())
    }
}

/// `WITH d1, ..., dn statement`.
pub open spec fn with_statement(defs: Seq<(Seq<char>, Seq<char>)>, statement: Seq<char>) -> Seq<char> {
    "WITH "@ + cte_list(defs) + " "@ + statement
}

/// Names without parentheses and bodies whose parentheses balance.
pub open spec fn ctes_well_formed(defs: Seq<(Seq<char>, Seq<char>)>) -> bool {
    forall|k: int|
        0 <= k < defs.len() ==> no_parens(#[trigger] defs[k].0) && balanced_parens(defs[k].1)
}

/// Characters without parentheses leave the scan's depth alone.
proof fn lemma_cte_scan_skips_plain(u: Seq<char>, i: int, j: int, depth: int)
    requires
        0 <= i <= j <= u.len(),
        no_parens(u.subrange(i, j)),
    ensures
        cte_scan(u, i, depth) == cte_scan(u, j, depth),
    decreases j - i,
{
    if i < j {
        assert(u.subrange(i, j)[0] == u[i]);
        assert(u.subrange(i + 1, j) =~= u.subrange(i, j).drop_first());
        lemma_cte_scan_skips_plain(u, i + 1, j, depth);
    }
}

/// Scanning the rest of a balanced text, from its `k - i`-th character
/// at the depth reached there, comes out at the starting depth.
proof fn lemma_cte_scan_balanced_from(u: Seq<char>, i: int, j: int, k: int, depth: int)
    requires
        0 <= i <= k <= j <= u.len(),
        depth >= 1,
        balanced_parens(u.subrange(i, j)),
    ensures
        cte_scan(u, k, depth + paren_balance(u.subrange(i, j).take(k - i))) == cte_scan(
            u,
            j,
            depth,
        ),
    decreases j - k,
{
    let b = u.subrange(i, j);
    if k < j {
        assert(b.take(k + 1 - i).drop_last() =~= b.take(k - i));
        assert(b.take(k + 1 - i).last() == u[k]);
        assert(paren_balance(b.take(k + 1 - i)) >= 0);
        lemma_cte_scan_balanced_from(u, i, j, k + 1, depth);
    } else {
        assert(b.take(j - i) =~= b);
    }
}

/// Scanning a balanced text at depth at least one comes out at the same
/// depth.
proof fn lemma_cte_scan_balanced(u: Seq<char>, i: int, j: int, depth: int)
    requires
        0 <= i <= j <= u.len(),
        depth >= 1,
        balanced_parens(u.subrange(i, j)),
    ensures
        cte_scan(u, i, depth) == cte_scan(u, j, depth),
{
    assert(u.subrange(i, j).take(0) =~= Seq::<char>::empty());
    lemma_cte_scan_balanced_from(u, i, j, i, depth);
}

/// From the start of a definition at depth 0, the scan goes on just as
/// it does after the definition's closing parenthesis.
proof fn lemma_cte_scan_definition(u: Seq<char>, p: int, def: (Seq<char>, Seq<char>))
    requires
        0 <= p,
        p + cte_definition(def).len() <= u.len(),
        u.subrange(p, p + cte_definition(def).len()) == cte_definition(def),
        no_parens(def.0),
        balanced_parens(def.1),
    ensures
        ({
            let q = p + cte_definition(def).len();
            let rem = trim_start(u.subrange(q, u.len() as int));
            cte_scan(u, p, 0) == if rem.len() > 0 && rem[0] == ',' {
                cte_scan(u, u.len() - rem.len() + 1, 0)
            } else {
                is_dml_write_keyword(word_prefix(rem))
            }
        }),
{
    reveal_strlit(" AS (");
    reveal_strlit(")");
    let d = cte_definition(def);
    let len = d.len() as int;
    let n = def.0.len() as int;
    let bl = def.1.len() as int;
    let open = p + n + 4;
    let close = open + 1 + bl;
    assert(len == n + 5 + bl + 1);
    assert forall|i: int| 0 <= i < len implies u[p + i] == #[trigger] d[i] by {
        assert(u.subrange(p, p + len)[i] == u[p + i]);
    }
    assert(no_parens(u.subrange(p, open))) by {
        assert forall|i: int| 0 <= i < open - p implies #[trigger] u.subrange(p, open)[i] != '('
            && u.subrange(p, open)[i] != ')' by {
            assert(u.subrange(p, open)[i] == u[p + i]);
            assert(u[p + i] == d[i]);
            if i < n {
                assert(d[i] == def.0[i]);
            } else {
                assert(d[i] == " AS ("@[i - n]);
            }
        }
    }
    lemma_cte_scan_skips_plain(u, p, open, 0);
    assert(u[open] == d[n + 4]);
    assert(d[n + 4] == " AS ("@[4]);
    assert(u[open] == '(');
    assert(u.subrange(open + 1, close) =~= def.1) by {
        assert forall|m: int| 0 <= m < bl implies #[trigger] u.subrange(open + 1, close)[m]
            == def.1[m] by {
            assert(u.subrange(open + 1, close)[m] == u[open + 1 + m]);
            assert(u[p + (n + 5 + m)] == d[n + 5 + m]);
        }
    }
    lemma_cte_scan_balanced(u, open + 1, close, 1);
    assert(u[p + (len - 1)] == d[len - 1]);
    assert(u[close] == ')');
    lemma_trim_start_suffix(u.subrange(close + 1, u.len() as int));
}

/// Past a definition list and the statement that follows it, the scan
/// judges by the statement's first word.
proof fn lemma_cte_scan_list(
    u: Seq<char>,
    p: int,
    defs: Seq<(Seq<char>, Seq<char>)>,
    statement: Seq<char>,
)
    requires
        0 <= p <= u.len(),
        defs.len() >= 1,
        ctes_well_formed(defs),
        u.subrange(p, u.len() as int) == " "@ + cte_list(defs) + " "@ + statement,
        !(trim_start(statement).len() > 0 && trim_start(statement)[0] == ','),
    ensures
        cte_scan(u, p, 0) == is_dml_write_keyword(first_word(statement)),
    decreases defs.len(),
{
    reveal_strlit(" ");
    reveal_strlit(", ");
    let d = cte_definition(defs[0]);
    let tail = u.subrange(p, u.len() as int);
    assert(no_parens(defs[0].0) && balanced_parens(defs[0].1));
    assert(tail.len() == u.len() - p);
    assert(tail.len() >= 1);
    assert forall|i: int| 0 <= i < tail.len() implies #[trigger] tail[i] == u[p + i] by {}
    assert(tail[0] == ' ');
    assert(no_parens(u.subrange(p, p + 1))) by {
        assert(u.subrange(p, p + 1)[0] == u[p]);
        assert(tail[0] == u[p]);
    }
    lemma_cte_scan_skips_plain(u, p, p + 1, 0);
    let q = p + 1 + d.len();
    if defs.len() == 1 {
        assert(cte_list(defs) == d);
        assert(tail =~= " "@ + d + (" "@ + statement));
        assert(u.subrange(p + 1, q) =~= d) by {
            assert forall|i: int| 0 <= i < d.len() implies #[trigger] u.subrange(p + 1, q)[i] == d[i] by {
                assert(u.subrange(p + 1, q)[i] == u[p + 1 + i]);
                assert(tail[1 + i] == u[p + (1 + i)]);
            }
        }
        lemma_cte_scan_definition(u, p + 1, defs[0]);
        let rest = u.subrange(q, u.len() as int);
        assert(rest =~= " "@ + statement) by {
            assert forall|i: int| 0 <= i < rest.len() implies #[trigger] rest[i] == (" "@ + statement)[i] by {
                assert(rest[i] == u[q + i]);
                assert(tail[1 + d.len() + i] == u[p + (1 + d.len() + i)]);
            }
        }
        assert(rest.drop_first() =~= statement);
        assert(trim_start(rest) == trim_start(statement));
    } else {
        let more = defs.drop_first();
        assert(ctes_well_formed(more)) by {
            assert forall|k: int| 0 <= k < more.len() implies no_parens(#[trigger] more[k].0)
                && balanced_parens(more[k].1) by {
                assert(more[k] == defs[k + 1]);
            }
        }
        let after = cte_list(more) + " "@ + statement;
        assert(tail =~= " "@ + d + (", "@ + after));
        assert(u.subrange(p + 1, q) =~= d) by {
            assert forall|i: int| 0 <= i < d.len() implies #[trigger] u.subrange(p + 1, q)[i] == d[i] by {
                assert(u.subrange(p + 1, q)[i] == u[p + 1 + i]);
                assert(tail[1 + i] == u[p + (1 + i)]);
            }
        }
        lemma_cte_scan_definition(u, p + 1, defs[0]);
        let rest = u.subrange(q, u.len() as int);
        assert(rest =~= ", "@ + after) by {
            assert forall|i: int| 0 <= i < rest.len() implies #[trigger] rest[i] == (", "@ + after)[i] by {
                assert(rest[i] == u[q + i]);
                assert(tail[1 + d.len() + i] == u[p + (1 + d.len() + i)]);
            }
        }
        assert(rest[0] == ',');
        assert(trim_start(rest) == rest);
        assert(u.subrange(q + 1, u.len() as int) =~= " "@ + cte_list(more) + " "@ + statement) by {
            assert(u.subrange(q + 1, u.len() as int) =~= rest.drop_first());
        }
        lemma_cte_scan_list(u, q + 1, more, statement);
    }
}

/// A WITH statement is judged by the statement after all of its
/// definitions, however many there are: when the upper-cased text is
/// `WITH n1 AS (b1), ..., nk AS (bk) S` (at least one definition, names
/// without parentheses, bodies whose parentheses balance, `S` not starting
/// with a comma), it writes exactly when the first word of `S` is INSERT,
/// UPDATE or DELETE; and where the first token is WITH, read-only mode
/// judges the text so.
pub proof fn law_with_statement_judged_by_its_body(
    sql: Seq<char>,
    defs: Seq<(Seq<char>, Seq<char>)>,
    statement: Seq<char>,
)
    requires
        defs.len() >= 1,
        ctes_well_formed(defs),
        !(trim_start(statement).len() > 0 && trim_start(statement)[0] == ','),
        uppercased(sql) == with_statement(defs, statement),
    ensures
        cte_writes(sql) == is_dml_write_keyword(first_word(statement)),
        uppercased(first_token_spec(sql)) == "WITH"@ ==> is_write_sql_spec(sql) == is_dml_write_keyword(
            first_word(statement),
        ),
{
    reveal_strlit("WITH ");
    reveal_strlit("WITH");
    reveal_strlit(" ");
    let u = uppercased(sql);
    assert(u.subrange(0, 4) =~= "WITH"@);
    assert(occurs_at(u, "WITH"@, 0));
    assert(find(u, "WITH"@) == Some(0int));
    let y = " "@ + cte_list(defs) + " "@ + statement;
    assert(u =~= "WITH"@ + y);
    assert(u.subrange(4, u.len() as int) =~= y);
    lemma_cte_scan_list(u, 4, defs, statement);
}

/// Another definition before the statement does not change whether a WITH
/// statement writes.
pub proof fn law_with_statement_extra_definition(
    sql: Seq<char>,
    longer: Seq<char>,
    defs: Seq<(Seq<char>, Seq<char>)>,
    extra: (Seq<char>, Seq<char>),
    statement: Seq<char>,
)
    requires
        defs.len() >= 1,
        ctes_well_formed(defs),
        no_parens(extra.0),
        balanced_parens(extra.1),
        !(trim_start(statement).len() > 0 && trim_start(statement)[0] == ','),
        uppercased(sql) == with_statement(defs, statement),
        uppercased(longer) == with_statement(defs.push(extra), statement),
    ensures
        cte_writes(longer) == cte_writes(sql),
{
    let more = defs.push(extra);
    assert(ctes_well_formed(more)) by {
        assert forall|k: int| 0 <= k < more.len() implies no_parens(#[trigger] more[k].0)
            && balanced_parens(more[k].1) by {
            if k < defs.len() {
                assert(more[k] == defs[k]);
            }
        }
    }
    law_with_statement_judged_by_its_body(sql, defs, statement);
    law_with_statement_judged_by_its_body(longer, more, statement);
}

// ---------------------------------------------------------------------
// Memory figures, as `{:.2}` prints a byte count scaled to KB, MB, GB
// ---------------------------------------------------------------------

/// `2^53`: every integer below it is exactly an `f64`.
pub const F64_EXACT_LIMIT: u128 = 9_007_199_254_740_992;

/// The spacing of the `f64` values around `n`: the least power-of-two
/// multiple of `p` that brings `n` below `2^53`.
pub open spec fn f64_spacing(n: nat, p: nat) -> nat
    decreases n - p when p > 0
{
    if n / p < F64_EXACT_LIMIT as nat {
        p
    } else {
        proof {
            lemma_div_at_least(n, p);
        }
        f64_spacing(n, 2 * p)
    }
}

/// `n / p >= 2^53` leaves room for doubling `p` below `n`.
pub proof fn lemma_div_at_least(n: nat, p: nat)
    requires
        p > 0,
        n / p >= F64_EXACT_LIMIT as nat,
    ensures
        2 * p <= n,
{
    let q = n / p;
    assert(n == p * q + n % p) by (nonlinear_arith)
        requires
            p > 0,
            q == n / p,
    ;
    assert(2 * p <= p * q) by (nonlinear_arith)
        requires
            q >= 2,
            p > 0,
    ;
}

/// `n as f64`: `n` rounded to the nearest multiple of its `f64` spacing,
/// ties to the even multiple.
pub open spec fn f64_value(n: nat) -> nat {
    let p = f64_spacing(n, 1);
    let q = n / p;
    let r = n % p;
    if 2 * r > p || (2 * r == p && q % 2 == 1) {
        (q + 1) * p
    } else {
        q * p
    }
}

/// `x / d` with two decimals, counted in hundredths: the nearest
/// hundredth, ties to an even last digit (as `{:.2}` rounds the exact
/// value of a float).
pub open spec fn hundredths(x: nat, d: nat) -> nat {
    let q = (x * 100) / d;
    let r = (x * 100) % d;
    if 2 * r > d || (2 * r == d && q % 2 == 1) {
        q + 1
    } else {
        q
    }
}

/// `h` hundredths written with two decimals, such as `1.50`.
pub open spec fn fixed2_text(h: nat) -> Seq<char> {
    decimal(h / 100) + "."@ + seq![decimal_digit((h % 100) / 10), decimal_digit(h % 10)]
}

/// How a byte count is shown: bytes below 1 KiB, otherwise KB, MB or GB
/// with two decimals of `bytes as f64` divided by the unit.
pub open spec fn memory_text(bytes: nat) -> Seq<char> {
    if bytes < 1024 {
        decimal(bytes) + " B"@
    } else if bytes < 1_048_576 {
        fixed2_text(hundredths(f64_value(bytes), 1024)) + " KB"@
    } else if bytes < 1_073_741_824 {
        fixed2_text(hundredths(f64_value(bytes), 1_048_576)) + " MB"@
    } else {
        fixed2_text(hundredths(f64_value(bytes), 1_073_741_824)) + " GB"@
    }
}

/// `n as f64`, as an integer (an integer-valued float is exact here).
fn f64_of(n: u64) -> (r: u128)
    ensures
        r == f64_value(n as nat),
        r <= 2 * (n as nat) + 1,
{
    let m = n as u128;
    let mut p: u128 = 1;
    while m / p >= F64_EXACT_LIMIT
        invariant
            p > 0,
            p <= m || p == 1,
            m == n as u128,
            f64_spacing(m as nat, p as nat) == f64_spacing(m as nat, 1),
        decreases m - p,
    {
        proof {
            lemma_div_at_least(m as nat, p as nat);
        }
        p = 2 * p;
    }
    let q = m / p;
    let r = m % p;
    assert(q * p + r == m && r < p) by (nonlinear_arith)
        requires
            p > 0,
            q == m / p,
            r == m % p,
    ;
    assert((q + 1) * p <= 2 * m + 1) by (nonlinear_arith)
        requires
            q * p <= m,
            p <= m || p == 1,
            p > 0,
    ;
    if 2 * r > p || (2 * r == p && q % 2 == 1) {
        (q + 1) * p
    } else {
        q * p
    }
}

/// `x / d` rounded to hundredths as `{:.2}` rounds.
fn hundredths_of(x: u128, d: u128) -> (h: u128)
    requires
        0 < d <= 0x1_0000_0000,
        x <= 0x2_0000_0000_0000_0000,
    ensures
        h == hundredths(x as nat, d as nat),
        h <= x * 100 + 1,
{
    let y = x * 100;
    let q = y / d;
    let r = y % d;
    assert(q <= y) by (nonlinear_arith)
        requires
            d > 0,
            q == y / d,
    ;
    if 2 * r > d || (2 * r == d && q % 2 == 1) {
        q + 1
    } else {
        q
    }
}

/// `h` hundredths written with two decimals.
fn fixed2_string(h: u128) -> (r: String)
    ensures
        r@ == fixed2_text(h as nat),
{
    let mut s = decimal_string(h / 100);
    s.append(".");
    let frac = h % 100;
    push_char(&mut s, decimal_digit_exec(frac / 10));
    push_char(&mut s, decimal_digit_exec(h % 10));
    proof {
        reveal_strlit(".");
        assert(h % 10 == frac % 10) by (nonlinear_arith)
            requires
                frac == h % 100,
        ;
    }
    s
}

/// A byte count as the memory estimate is shown: `512 B`, `1.50 KB`,
/// `3.25 MB`, `1.00 GB`.
pub fn format_bytes(bytes: usize) -> (r: String)
    ensures
        r@ == memory_text(bytes as nat),
{
    if bytes < 1024 {
        let mut s = decimal_string(bytes as u128);
        s.append(" B");
        return s;
    }
    let f = f64_of(bytes as u64);
    assert(f <= 0x2_0000_0000_0000_0000);
    let (divisor, unit): (u128, &str) = if bytes < 1_048_576 {
        (1024, " KB")
    } else if bytes < 1_073_741_824 {
        (1_048_576, " MB")
    } else {
        (1_073_741_824, " GB")
    };
    let h = hundredths_of(f, divisor);
    let mut s = fixed2_string(h);
    s.append(unit);
    s
}


// ---------------------------------------------------------------------
// Query results
// ---------------------------------------------------------------------

/// The rows a query returned, with its column names.
#[derive(Debug, Clone)]
pub struct QueryResult {
    /// The column names.
    pub columns: Vec<String>,
    /// The rows, each a list of cell texts.
    pub rows: Vec<Vec<String>>,
    /// How long the query took.
    pub execution_time: Duration,
    /// Whether the result is shown (false for statements such as USE and
    /// SET, which return nothing).
    pub should_display: bool,
}

/// The sum of some sizes.
pub open spec fn usize_sum(s: Seq<usize>) -> nat
    decreases s.len(),
{
    if s.len() == 0 {
        0
    } else {
        usize_sum(s.drop_last()) + s.last() as nat
    }
}

/// The sum over a list of lists of sizes.
pub open spec fn nested_sum(rows: Seq<Seq<usize>>) -> nat
    decreases rows.len(),
{
    if rows.len() == 0 {
        0
    } else {
        nested_sum(rows.drop_last()) + usize_sum(rows.last())
    }
}

/// The views of a list of size lists.
pub open spec fn rows_view(rows: Seq<Vec<usize>>) -> Seq<Seq<usize>> {
    rows.map_values(|r: Vec<usize>| r@)
}

/// The estimated bytes of a result: the capacities of the column names
/// and of every cell, and one vector header for the column list and for
/// each row.
pub open spec fn memory_estimate_value(
    columns: Seq<usize>,
    rows: Seq<Seq<usize>>,
    vec_size: nat,
) -> nat {
    usize_sum(columns) + nested_sum(rows) + vec_size * (1 + rows.len())
}

/// `n`, or `usize::MAX` where it does not fit.
pub open spec fn saturated(n: nat) -> nat {
    if n > usize::MAX {
        usize::MAX as nat
    } else {
        n
    }
}

proof fn lemma_saturated_add(a: nat, b: nat)
    ensures
        saturated(saturated(a) + b) == saturated(a + b),
{
}

/// `a + b`, or `usize::MAX` where it does not fit.
fn add_saturating(a: usize, b: usize) -> (r: usize)
    ensures
        r == saturated((a + b) as nat),
{
    a.saturating_add(b)
}

/// The memory estimate from the capacities: the column-name capacities,
/// the cell capacities row by row, and `vec_size` bytes for each of the
/// `1 + rows` vector headers, summed; a sum past `usize::MAX` stays at
/// `usize::MAX`.
pub fn memory_estimate(
    column_capacities: &Vec<usize>,
    row_capacities: &Vec<Vec<usize>>,
    vec_size: usize,
) -> (r: usize)
    ensures
        r == saturated(
            memory_estimate_value(column_capacities@, rows_view(row_capacities@), vec_size as nat),
        ),
{
    let ghost cols = column_capacities@;
    let ghost rows = rows_view(row_capacities@);
    let mut total: usize = 0;
    let mut i: usize = 0;
    while i < column_capacities.len()
        invariant
            i <= cols.len(),
            cols == column_capacities@,
            total == saturated(usize_sum(cols.take(i as int))),
        decreases cols.len() - i,
    {
        assert(cols.take(i + 1).drop_last() =~= cols.take(i as int));
        proof {
            lemma_saturated_add(usize_sum(cols.take(i as int)), cols[i as int] as nat);
        }
        total = add_saturating(total, column_capacities[i]);
        i = i + 1;
    }
    assert(cols.take(cols.len() as int) =~= cols);
    let mut j: usize = 0;
    while j < row_capacities.len()
        invariant
            j <= rows.len(),
            rows == rows_view(row_capacities@),
            cols == column_capacities@,
            total == saturated(usize_sum(cols) + nested_sum(rows.take(j as int))),
        decreases rows.len() - j,
    {
        let row = &row_capacities[j];
        assert(row@ == rows[j as int]);
        let mut k: usize = 0;
        while k < row.len()
            invariant
                k <= row@.len(),
                j < rows.len(),
                row@ == rows[j as int],
                total == saturated(
                    usize_sum(cols) + nested_sum(rows.take(j as int)) + usize_sum(
                        row@.take(k as int),
                    ),
                ),
            decreases row@.len() - k,
        {
            assert(row@.take(k + 1).drop_last() =~= row@.take(k as int));
            proof {
                lemma_saturated_add(
                    usize_sum(cols) + nested_sum(rows.take(j as int)) + usize_sum(
                        row@.take(k as int),
                    ),
                    row@[k as int] as nat,
                );
            }
            total = add_saturating(total, row[k]);
            k = k + 1;
        }
        assert(row@.take(row@.len() as int) =~= row@);
        assert(rows.take(j + 1).drop_last() =~= rows.take(j as int));
        j = j + 1;
    }
    assert(rows.take(rows.len() as int) =~= rows);
    let headers = add_saturating(row_capacities.len(), 1);
    let overhead = match vec_size.checked_mul(headers) {
        Some(v) => v,
        None => usize::MAX,
    };
    assert(rows.len() == row_capacities@.len());
    assert(overhead == saturated((vec_size * (1 + rows.len())) as nat)) by (nonlinear_arith)
        requires
            headers == saturated(rows.len() + 1),
            vec_size * headers > usize::MAX ==> overhead == usize::MAX,
            vec_size * headers <= usize::MAX ==> overhead == vec_size * headers,
    ;
    proof {
        lemma_saturated_add(usize_sum(cols) + nested_sum(rows), overhead as nat);
        lemma_saturated_add(
            (vec_size * (1 + rows.len())) as nat,
            usize_sum(cols) + nested_sum(rows),
        );
    }
    add_saturating(total, overhead)
}

/// Calls `String::capacity`: the bytes the string can hold without
/// reallocating, which are never fewer than the bytes it holds. How much
/// more the allocator gave is not stated.
#[verifier::external_body]
fn string_capacity(s: &String) -> (r: usize)
    ensures
        r >= utf8_len(s@),
{
    s.capacity()
}

/// `caps` gives, for each string of `strs`, a capacity at least its length.
pub open spec fn capacities_cover(caps: Seq<usize>, strs: Seq<String>) -> bool {
    &&& caps.len() == strs.len()
    &&& forall|i: int| 0 <= i < caps.len() ==> caps[i] >= utf8_len(#[trigger] strs[i]@)
}

impl QueryResult {
    /// The number of rows.
    pub fn row_count(&self) -> (r: usize)
        ensures
            r == self.rows@.len(),
    {
        self.rows.len()
    }

    /// `r` is the memory estimate for these column and cell capacities.
    pub open spec fn estimate_with(
        &self,
        column_caps: Seq<usize>,
        row_caps: Seq<Seq<usize>>,
        r: usize,
    ) -> bool {
        &&& capacities_cover(column_caps, self.columns@)
        &&& row_caps.len() == self.rows@.len()
        &&& forall|j: int|
            0 <= j < row_caps.len() ==> capacities_cover(#[trigger] row_caps[j], self.rows@[j]@)
        &&& r == saturated(
            memory_estimate_value(
                column_caps,
                row_caps,
                vstd::layout::size_of::<Vec<String>>(),
            ),
        )
    }

    /// `r` is the memory estimate for some capacities the strings may have.
    pub open spec fn is_memory_estimate(&self, r: usize) -> bool {
        exists|cc: Seq<usize>, rc: Seq<Seq<usize>>| #[trigger] self.estimate_with(cc, rc, r)
    }

    /// Roughly how many bytes the result takes: the capacities of the
    /// column names and of every cell, and a vector header for the column
    /// list and for each row. The capacities are whatever the allocator
    /// gave, so the contract states the sum for some capacities, each at
    /// least the string's length.
    pub fn estimate_memory_usage(&self) -> (r: usize)
        ensures
            self.is_memory_estimate(r),
    {
        let mut column_caps: Vec<usize> = Vec::new();
        let mut i: usize = 0;
        while i < self.columns.len()
            invariant
                i <= self.columns@.len(),
                column_caps@.len() == i,
                forall|k: int|
                    0 <= k < i ==> column_caps@[k] >= utf8_len(#[trigger] self.columns@[k]@),
            decreases self.columns@.len() - i,
        {
            column_caps.push(string_capacity(&self.columns[i]));
            i = i + 1;
        }
        let mut row_caps: Vec<Vec<usize>> = Vec::new();
        let mut j: usize = 0;
        while j < self.rows.len()
            invariant
                j <= self.rows@.len(),
                row_caps@.len() == j,
                forall|k: int|
                    0 <= k < j ==> capacities_cover(#[trigger] row_caps@[k]@, self.rows@[k]@),
            decreases self.rows@.len() - j,
        {
            let row = &self.rows[j];
            let mut caps: Vec<usize> = Vec::new();
            let mut k: usize = 0;
            while k < row.len()
                invariant
                    k <= row@.len(),
                    caps@.len() == k,
                    forall|m: int| 0 <= m < k ==> caps@[m] >= utf8_len(#[trigger] row@[m]@),
                decreases row@.len() - k,
            {
                caps.push(string_capacity(&row[k]));
                k = k + 1;
            }
            row_caps.push(caps);
            j = j + 1;
        }
        let r = memory_estimate(&column_caps, &row_caps, core::mem::size_of::<Vec<String>>());
        assert(self.estimate_with(column_caps@, rows_view(row_caps@), r));
        r
    }

    /// The memory estimate as `format_bytes` shows it.
    pub fn format_memory_usage(&self) -> (r: String)
        ensures
            exists|b: usize| #[trigger] self.is_memory_estimate(b) && r@ == memory_text(b as nat),
    {
        let bytes = self.estimate_memory_usage();
        format_bytes(bytes)
    }
}

// ---------------------------------------------------------------------
// Running a statement
// ---------------------------------------------------------------------

/// Statements that the prepared-statement protocol refuses (USE, SET):
/// the trimmed, upper-cased text starts with `USE ` or `SET `.
pub open spec fn is_non_prepared_spec(sql: Seq<char>) -> bool {
    let u = uppercased(trim(sql));
    starts_with(u, "USE "@) || starts_with(u, "SET "@)
}

/// Whether a statement must run as a plain command rather than as a
/// prepared statement (USE and SET); such a statement returns no rows and
/// its result is not shown.
pub fn is_non_prepared_command(sql: &str) -> (r: bool)
    ensures
        r == is_non_prepared_spec(sql@),
{
    let t = trimmed(sql);
    let upper = to_uppercase(t.as_str());
    str_starts_with(upper.as_str(), "USE ") || str_starts_with(upper.as_str(), "SET ")
}

/// The statement that switches the session to database `db` before a
/// query runs on the same connection: `USE ` and the quoted name.
pub fn use_database_statement(db: &str) -> (r: String)
    ensures
        r@ == "USE "@ + escaped_identifier(db@),
{
    let quoted = escape_identifier(db);
    let mut s = str_to_string("USE ");
    s.append(quoted.as_str());
    s
}

/// The result of a USE or SET command: no columns, no rows, not shown.
pub fn command_result(execution_time: Duration) -> (r: QueryResult)
    ensures
        r.columns@.len() == 0,
        r.rows@.len() == 0,
        r.execution_time == execution_time,
        !r.should_display,
{
    QueryResult { columns: Vec::new(), rows: Vec::new(), execution_time, should_display: false }
}


// ---------------------------------------------------------------------
// Reading a cell by its column type
// ---------------------------------------------------------------------

/// How a cell of a column is read, chosen by the column's type name.
#[derive(Debug, Clone, Copy, PartialEq, Eq, Structural)]
pub enum ValueKind {
    /// TINYINT, SMALLINT, MEDIUMINT, INT, BIGINT (with a precision or
    /// UNSIGNED), BOOLEAN, BOOL: read as `i64`, else as `u64`.
    Integer,
    /// FLOAT, DOUBLE: read as `f64`.
    Float,
    /// DECIMAL, NUMERIC: read as text without the type check, else as `f64`.
    Decimal,
    /// VARCHAR, CHAR, TEXT and its sizes: read as text.
    Text,
    /// DATETIME (with a precision).
    DateTime,
    /// TIMESTAMP, which carries a time zone.
    Timestamp,
    /// DATE.
    Date,
    /// TIME.
    Time,
    /// YEAR: read as `i16`, else as `u16`.
    Year,
    /// JSON in any letter case.
    Json,
    /// BLOB, its sizes, BINARY, VARBINARY: never shown.
    Blob,
    /// Anything else: read as text, or shown as the bracketed type name.
    Other,
}

/// The kind for a column type name. The checks run in this order, so
/// DATETIME is taken before DATE and TIMESTAMP before TIME.
pub open spec fn value_kind_spec(t: Seq<char>) -> ValueKind {
    if starts_with(t, "TINYINT"@) || starts_with(t, "SMALLINT"@) || starts_with(t, "MEDIUMINT"@)
        || starts_with(t, "INT"@) || starts_with(t, "BIGINT"@) || eq_ignore_ascii_case_spec(
        t,
        "BOOLEAN"@,
    ) || eq_ignore_ascii_case_spec(t, "BOOL"@) {
        ValueKind::Integer
    } else if starts_with(t, "FLOAT"@) || starts_with(t, "DOUBLE"@) {
        ValueKind::Float
    } else if starts_with(t, "DECIMAL"@) || starts_with(t, "NUMERIC"@) {
        ValueKind::Decimal
    } else if t == "VARCHAR"@ || t == "CHAR"@ || starts_with(t, "TEXT"@) || t == "TINYTEXT"@ || t
        == "MEDIUMTEXT"@ || t == "LONGTEXT"@ {
        ValueKind::Text
    } else if starts_with(t, "DATETIME"@) {
        ValueKind::DateTime
    } else if starts_with(t, "TIMESTAMP"@) {
        ValueKind::Timestamp
    } else if starts_with(t, "DATE"@) {
        ValueKind::Date
    } else if starts_with(t, "TIME"@) {
        ValueKind::Time
    } else if t == "YEAR"@ {
        ValueKind::Year
    } else if eq_ignore_ascii_case_spec(t, "JSON"@) {
        ValueKind::Json
    } else if t == "BLOB"@ || t == "TINYBLOB"@ || t == "MEDIUMBLOB"@ || t == "LONGBLOB"@ || t
        == "BINARY"@ || starts_with(t, "VARBINARY"@) {
        ValueKind::Blob
    } else {
        ValueKind::Other
    }
}

/// How to read a cell of a column whose type name the server gave as
/// `column_type` (which may carry a precision, as in `DATETIME(6)`).
pub fn value_kind(column_type: &str) -> (k: ValueKind)
    ensures
        k == value_kind_spec(column_type@),
{
    let t = column_type;
    if str_starts_with(t, "TINYINT") || str_starts_with(t, "SMALLINT") || str_starts_with(
        t,
        "MEDIUMINT",
    ) || str_starts_with(t, "INT") || str_starts_with(t, "BIGINT") || eq_ignore_ascii_case(
        t,
        "BOOLEAN",
    ) || eq_ignore_ascii_case(t, "BOOL") {
        ValueKind::Integer
    } else if str_starts_with(t, "FLOAT") || str_starts_with(t, "DOUBLE") {
        ValueKind::Float
    } else if str_starts_with(t, "DECIMAL") || str_starts_with(t, "NUMERIC") {
        ValueKind::Decimal
    } else if str_eq(t, "VARCHAR") || str_eq(t, "CHAR") || str_starts_with(t, "TEXT") || str_eq(
        t,
        "TINYTEXT",
    ) || str_eq(t, "MEDIUMTEXT") || str_eq(t, "LONGTEXT") {
        ValueKind::Text
    } else if str_starts_with(t, "DATETIME") {
        ValueKind::DateTime
    } else if str_starts_with(t, "TIMESTAMP") {
        ValueKind::Timestamp
    } else if str_starts_with(t, "DATE") {
        ValueKind::Date
    } else if str_starts_with(t, "TIME") {
        ValueKind::Time
    } else if str_eq(t, "YEAR") {
        ValueKind::Year
    } else if eq_ignore_ascii_case(t, "JSON") {
        ValueKind::Json
    } else if str_eq(t, "BLOB") || str_eq(t, "TINYBLOB") || str_eq(t, "MEDIUMBLOB") || str_eq(
        t,
        "LONGBLOB",
    ) || str_eq(t, "BINARY") || str_starts_with(t, "VARBINARY") {
        ValueKind::Blob
    } else {
        ValueKind::Other
    }
}

/// What a cell shows when it cannot be read as text and its type is not
/// known: the type name in square brackets.
pub fn unknown_type_text(column_type: &str) -> (r: String)
    ensures
        r@ == "["@ + column_type@ + "]"@,
{
    let mut s = str_to_string("[");
    s.append(column_type);
    s.append("]");
    s
}

} // verus!
