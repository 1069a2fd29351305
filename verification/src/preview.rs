//! The preview pane of the result list: every row is written as a
//! record of `column: value` lines ended by `---`, records are kept in
//! chunk files of `PREVIEW_CHUNK_SIZE` rows, and a selected row is read
//! back from its chunk.
use vstd::prelude::*;

use crate::error::Error;
use crate::text::{
    chars_of, decimal, decimal_string, find, find_in, names_view, starts_with, starts_with_at,
    str_to_string, string_of,
};

verus! {

/// Rows per chunk file.
pub const PREVIEW_CHUNK_SIZE: usize = 1000;

/// The separator line that ends a record.
pub open spec fn record_end() -> Seq<char> {
    seq!['-', '-', '-', '\n']
}

/// The name of column `i`, or `?` when there is none.
pub open spec fn column_name(columns: Seq<Seq<char>>, i: int) -> Seq<char> {
    if 0 <= i < columns.len() {
        columns[i]
    } else {
        seq!['?']
    }
}

/// The first `n` cells of a row as `name: value` lines.
pub open spec fn record_lines(columns: Seq<Seq<char>>, data: Seq<Seq<char>>, n: int) -> Seq<char>
    decreases n,
{
    if n <= 0 {
        Seq::empty()
    } else {
        record_lines(columns, data, n - 1) + column_name(columns, n - 1) + seq![':', ' '] + data[n
            - 1] + seq!['\n']
    }
}

/// A row as a preview record: one `name: value` line per cell, then `---`.
pub open spec fn preview_record(columns: Seq<Seq<char>>, data: Seq<Seq<char>>) -> Seq<char> {
    record_lines(columns, data, data.len() as int) + record_end()
}

/// Appends the preview record of a row (see `preview_record`).
pub fn append_preview_record(chunk_buf: &mut String, columns: &Vec<String>, data: &Vec<String>)
    ensures
        final(chunk_buf)@ == old(chunk_buf)@ + preview_record(names_view(columns@), names_view(data@)),
{
    let ghost cv = names_view(columns@);
    let ghost dv = names_view(data@);
    let mut i: usize = 0;
    while i < data.len()
        invariant
            i <= data@.len(),
            cv == names_view(columns@),
            dv == names_view(data@),
            chunk_buf@ == old(chunk_buf)@ + record_lines(cv, dv, i as int),
        decreases data.len() - i,
    {
        if i < columns.len() {
            chunk_buf.append(columns[i].as_str());
        } else {
            chunk_buf.append("?");
        }
        chunk_buf.append(": ");
        chunk_buf.append(data[i].as_str());
        chunk_buf.append("\n");
        proof {
            reveal_strlit("?");
            reveal_strlit(": ");
            reveal_strlit("\n");
        }
        assert(chunk_buf@ =~= old(chunk_buf)@ + record_lines(cv, dv, i + 1));
        i = i + 1;
    }
    chunk_buf.append("---\n");
    proof {
        reveal_strlit("---\n");
    }
    assert(chunk_buf@ =~= old(chunk_buf)@ + preview_record(cv, dv));
}

/// After row `row_index` is appended, the chunk to write out (and then
/// start afresh): the chunk the row ends, when it is the chunk's last row.
pub fn chunk_to_write(row_index: usize) -> (r: Option<usize>)
    ensures
        (row_index + 1) % (PREVIEW_CHUNK_SIZE as int) == 0 ==> r == Some((row_index / PREVIEW_CHUNK_SIZE) as usize),
        (row_index + 1) % (PREVIEW_CHUNK_SIZE as int) != 0 ==> r is None,
{
    if row_index % PREVIEW_CHUNK_SIZE == PREVIEW_CHUNK_SIZE - 1 {
        assert((row_index + 1) % 1000 == 0) by (nonlinear_arith)
            requires
                row_index % 1000 == 999,
        ;
        Some(row_index / PREVIEW_CHUNK_SIZE)
    } else {
        assert((row_index + 1) % 1000 != 0) by (nonlinear_arith)
            requires
                row_index % 1000 != 999,
        ;
        None
    }
}

/// When the rows are all written, the chunk that the records still
/// waiting in `pending` go to: the chunk of the last row written, unless
/// nothing waits.
pub fn chunk_to_flush(last_row_index: usize, pending: &str) -> (r: Option<usize>)
    ensures
        pending@.len() == 0 ==> r is None,
        pending@.len() > 0 ==> r == Some((last_row_index / PREVIEW_CHUNK_SIZE) as usize),
{
    if pending.is_empty() {
        None
    } else {
        Some(last_row_index / PREVIEW_CHUNK_SIZE)
    }
}

/// The file name of chunk `chunk_idx`.
pub fn chunk_file_name(chunk_idx: usize) -> (r: String)
    ensures
        r@ == "chunk_"@ + decimal(chunk_idx as nat) + ".txt"@,
{
    let mut s = str_to_string("chunk_");
    let d = decimal_string(chunk_idx as u128);
    s.append(d.as_str());
    s.append(".txt");
    s
}

// ---------------------------------------------------------------------
// Reading a row back
// ---------------------------------------------------------------------

/// The name of the chunk file that holds row `row_index`.
pub fn row_chunk_file_name(row_index: usize) -> (r: String)
    ensures
        r@ == "chunk_"@ + decimal((row_index / PREVIEW_CHUNK_SIZE) as nat) + ".txt"@,
{
    chunk_file_name(row_index / PREVIEW_CHUNK_SIZE)
}

/// `s` split at every `---` line end, in order (`str::split`).
pub open spec fn split_records(s: Seq<char>) -> Seq<Seq<char>>
    decreases s.len(),
{
    match find(s, record_end()) {
        Some(i) => if 0 <= i && i + 4 <= s.len() {
            seq![s.take(i)] + split_records(s.skip(i + 4))
        } else {
            seq![s]
        },
        None => seq![s],
    }
}

/// The non-empty parts of a list.
pub open spec fn non_empty(v: Seq<Seq<char>>) -> Seq<Seq<char>>
    decreases v.len(),
{
    if v.len() == 0 {
        Seq::empty()
    } else if v.last().len() == 0 {
        non_empty(v.drop_last())
    } else {
        non_empty(v.drop_last()).push(v.last())
    }
}

/// A line without the carriage return of a `\r\n` ending.
pub open spec fn without_cr(l: Seq<char>) -> Seq<char> {
    if l.len() > 0 && l.last() == '\r' {
        l.drop_last()
    } else {
        l
    }
}

/// The lines of `s` (`str::lines`): split at `\n` (a `\r` before it is
/// dropped), no final empty line.
pub open spec fn lines_of(s: Seq<char>) -> Seq<Seq<char>>
    decreases s.len(),
{
    if s.len() == 0 {
        Seq::empty()
    } else {
        match find(s, seq!['\n']) {
            Some(i) => if 0 <= i < s.len() {
                seq![without_cr(s.take(i))] + lines_of(s.skip(i + 1))
            } else {
                seq![s]
            },
            None => seq![s],
        }
    }
}

/// The value of a `name: value` line: what follows `name: `; otherwise
/// what follows the first `: `; otherwise the whole line.
pub open spec fn line_value(line: Seq<char>, name: Seq<char>) -> Seq<char> {
    let prefix = name + seq![':', ' '];
    if starts_with(line, prefix) {
        line.skip(prefix.len() as int)
    } else {
        match find(line, seq![':', ' ']) {
            Some(p) => line.skip(p + 2),
            None => line,
        }
    }
}

/// The values of a record, one per column: read from the line at the
/// column's position, empty when the record has fewer lines.
pub open spec fn record_values(record: Seq<char>, columns: Seq<Seq<char>>) -> Seq<Seq<char>> {
    let lines = lines_of(record);
    Seq::new(
        columns.len(),
        |i: int|
            if i < lines.len() {
                line_value(lines[i], columns[i])
            } else {
                Seq::empty()
            },
    )
}

/// The message for a row missing from its chunk.
pub open spec fn row_missing_text(row_index: int, chunk: int) -> Seq<char> {
    "選択された行がチャンクファイル内に見つかりません (row="@ + decimal(row_index as nat) + ", chunk="@
        + decimal(chunk as nat) + ")"@
}

/// The message for a chunk file that could not be read.
pub open spec fn chunk_unreadable_text(row_index: int, detail: Seq<char>) -> Seq<char> {
    "チャンクファイルの読み込みに失敗しました (row="@ + decimal(row_index as nat) + "): "@ + detail
}

/// The error for a chunk file that could not be read.
pub fn chunk_read_error(row_index: usize, detail: &str) -> (r: Error)
    ensures
        r matches Error::Other(m) && m@ == chunk_unreadable_text(row_index as int, detail@),
{
    let mut s = str_to_string("チャンクファイルの読み込みに失敗しました (row=");
    let d = decimal_string(row_index as u128);
    s.append(d.as_str());
    s.append("): ");
    s.append(detail);
    Error::Other(s)
}

/// The pieces of `v[from..]` split at `---` line ends.
fn split_records_in(v: &Vec<char>) -> (r: Vec<(usize, usize)>)
    ensures
        r@.len() == split_records(v@).len(),
        forall|k: int|
            #![trigger r@[k]]
            0 <= k < r@.len() ==> r@[k].0 <= r@[k].1 && r@[k].1 <= v@.len() && v@.subrange(
                r@[k].0 as int,
                r@[k].1 as int,
            ) == split_records(v@)[k],
{
    let sep = chars_of("---\n");
    proof {
        reveal_strlit("---\n");
        assert(sep@ =~= record_end());
    }
    let mut out: Vec<(usize, usize)> = Vec::new();
    let mut pos: usize = 0;
    let ghost mut done: Seq<Seq<char>> = Seq::empty();
    assert(v@.skip(0) =~= v@);
    assert(v@.subrange(0, v@.len() as int) =~= v@);
    loop
        invariant
            pos <= v@.len(),
            sep@ == record_end(),
            split_records(v@) == done + split_records(v@.skip(pos as int)),
            out@.len() == done.len(),
            forall|k: int|
                #![trigger out@[k]]
                0 <= k < out@.len() ==> out@[k].0 <= out@[k].1 && out@[k].1 <= v@.len() && v@.subrange(
                    out@[k].0 as int,
                    out@[k].1 as int,
                ) == done[k],
        decreases v@.len() - pos,
    {
        let ghost rest = v@.skip(pos as int);
        assert(rest =~= v@.subrange(pos as int, v@.len() as int));
        match find_in(v, &sep, pos, v.len()) {
            Some(i) => {
                proof {
                    crate::text::lemma_find_from_bounds(rest, record_end(), 0);
                    assert(rest.take(i - pos) =~= v@.subrange(pos as int, i as int));
                    assert(rest.skip(i - pos + 4) =~= v@.skip(i + 4));
                    assert(split_records(rest) == seq![rest.take(i - pos)] + split_records(
                        rest.skip(i - pos + 4),
                    ));
                }
                let ghost before = out@;
                out.push((pos, i));
                proof {
                    let old_done = done;
                    done = done.push(rest.take(i - pos));
                    assert forall|k: int| #![trigger out@[k]] 0 <= k < out@.len() implies out@[k].0 <= out@[k].1 && out@[k].1 <= v@.len()
                        && v@.subrange(out@[k].0 as int, out@[k].1 as int) == done[k] by {
                        if k < before.len() {
                            assert(out@[k] == before[k]);
                            assert(done[k] == old_done[k]);
                        } else {
                            assert(out@[k] == (pos, i));
                        }
                    }
                }
                assert(split_records(v@) =~= done + split_records(v@.skip(i + 4)));
                assert(v@.subrange(pos as int, i as int) == done.last());
                pos = i + 4;
            },
            None => {
                assert(split_records(rest) == seq![rest]);
                let ghost before = out@;
                out.push((pos, v.len()));
                proof {
                    let old_done = done;
                    done = done.push(rest);
                    assert forall|k: int| #![trigger out@[k]] 0 <= k < out@.len() implies out@[k].0 <= out@[k].1 && out@[k].1 <= v@.len()
                        && v@.subrange(out@[k].0 as int, out@[k].1 as int) == done[k] by {
                        if k < before.len() {
                            assert(out@[k] == before[k]);
                            assert(done[k] == old_done[k]);
                        } else {
                            assert(out@[k] == (pos, v@.len() as usize));
                        }
                    }
                }
                assert(split_records(v@) =~= done);
                return out;
            },
        }
    }
}


/// Splitting a list keeps the non-empty parts of both halves, in order.
pub proof fn lemma_non_empty_split(s: Seq<Seq<char>>, m: int)
    requires
        0 <= m <= s.len(),
    ensures
        non_empty(s) == non_empty(s.take(m)) + non_empty(s.skip(m)),
    decreases s.len(),
{
    if m == s.len() {
        assert(s.take(m) =~= s);
        assert(s.skip(m) =~= Seq::<Seq<char>>::empty());
        assert(non_empty(s) + Seq::<Seq<char>>::empty() =~= non_empty(s));
    } else {
        lemma_non_empty_split(s.drop_last(), m);
        assert(s.drop_last().take(m) =~= s.take(m));
        assert(s.drop_last().skip(m) =~= s.skip(m).drop_last());
        assert(s.skip(m).last() == s.last());
        if s.last().len() == 0 {
        } else {
            assert((non_empty(s.take(m)) + non_empty(s.skip(m).drop_last())).push(s.last())
                =~= non_empty(s.take(m)) + non_empty(s.skip(m).drop_last()).push(s.last()));
        }
    }
}

/// The values of row `row_index` in the content of its chunk: the
/// row's record among the non-empty records, read per column; `None`
/// when the chunk has no such record.
pub open spec fn chunk_row(content: Seq<char>, row_index: int, columns: Seq<Seq<char>>) -> Option<Seq<Seq<char>>> {
    let recs = non_empty(split_records(content));
    let k = row_index % (PREVIEW_CHUNK_SIZE as int);
    if k < recs.len() {
        Some(record_values(recs[k], columns))
    } else {
        None
    }
}

/// The lines of `v[a..b]` (see `lines_of`), as index ranges.
fn lines_in(v: &Vec<char>, a: usize, b: usize) -> (r: Vec<(usize, usize)>)
    requires
        a <= b <= v@.len(),
    ensures
        r@.len() == lines_of(v@.subrange(a as int, b as int)).len(),
        forall|k: int|
            #![trigger r@[k]]
            0 <= k < r@.len() ==> r@[k].0 <= r@[k].1 && r@[k].1 <= v@.len() && v@.subrange(
                r@[k].0 as int,
                r@[k].1 as int,
            ) == lines_of(v@.subrange(a as int, b as int))[k],
{
    let nl = chars_of("\n");
    proof {
        reveal_strlit("\n");
        assert(nl@ =~= seq!['\n']);
    }
    let mut out: Vec<(usize, usize)> = Vec::new();
    let mut p = a;
    let ghost mut done: Seq<Seq<char>> = Seq::empty();
    while p < b
        invariant
            a <= p <= b <= v@.len(),
            nl@ == seq!['\n'],
            lines_of(v@.subrange(a as int, b as int)) == done + lines_of(v@.subrange(p as int, b as int)),
            out@.len() == done.len(),
            forall|k: int|
                #![trigger out@[k]]
                0 <= k < out@.len() ==> out@[k].0 <= out@[k].1 && out@[k].1 <= v@.len() && v@.subrange(
                    out@[k].0 as int,
                    out@[k].1 as int,
                ) == done[k],
        decreases b - p,
    {
        let ghost rest = v@.subrange(p as int, b as int);
        let ghost before = out@;
        let ghost old_done = done;
        match find_in(v, &nl, p, b) {
            Some(i) => {
                proof {
                    crate::text::lemma_find_from_bounds(rest, nl@, 0);
                    assert(rest.take(i - p) =~= v@.subrange(p as int, i as int));
                    assert(rest.skip(i - p + 1) =~= v@.subrange(i + 1, b as int));
                }
                let e = if i > p && v[i - 1] == '\r' {
                    i - 1
                } else {
                    i
                };
                proof {
                    if i > p && v@[i - 1] == '\r' {
                        assert(v@.subrange(p as int, i as int).drop_last() =~= v@.subrange(p as int, e as int));
                    }
                }
                out.push((p, e));
                proof {
                    done = done.push(without_cr(rest.take(i - p)));
                    assert forall|k: int| #![trigger out@[k]] 0 <= k < out@.len() implies out@[k].0 <= out@[k].1
                        && out@[k].1 <= v@.len() && v@.subrange(out@[k].0 as int, out@[k].1 as int) == done[k] by {
                        if k < before.len() {
                            assert(out@[k] == before[k]);
                            assert(done[k] == old_done[k]);
                        } else {
                            assert(out@[k] == (p, e));
                        }
                    }
                }
                assert(lines_of(v@.subrange(a as int, b as int)) =~= done + lines_of(v@.subrange(i + 1, b as int)));
                p = i + 1;
            },
            None => {
                out.push((p, b));
                proof {
                    done = done.push(rest);
                    assert forall|k: int| #![trigger out@[k]] 0 <= k < out@.len() implies out@[k].0 <= out@[k].1
                        && out@[k].1 <= v@.len() && v@.subrange(out@[k].0 as int, out@[k].1 as int) == done[k] by {
                        if k < before.len() {
                            assert(out@[k] == before[k]);
                            assert(done[k] == old_done[k]);
                        } else {
                            assert(out@[k] == (p, b));
                        }
                    }
                    assert(v@.subrange(b as int, b as int) =~= Seq::<char>::empty());
                }
                assert(lines_of(v@.subrange(a as int, b as int)) =~= done + lines_of(v@.subrange(b as int, b as int)));
                p = b;
            },
        }
    }
    proof {
        assert(v@.subrange(p as int, b as int) =~= Seq::<char>::empty());
        assert(done + Seq::<Seq<char>>::empty() =~= done);
    }
    out
}

/// The value of the line `v[ls..le]` for column `name` (see `line_value`).
fn value_of_line(v: &Vec<char>, ls: usize, le: usize, name: &str) -> (r: String)
    requires
        ls <= le <= v@.len(),
    ensures
        r@ == line_value(v@.subrange(ls as int, le as int), name@),
{
    let ghost line = v@.subrange(ls as int, le as int);
    let mut prefix = str_to_string(name);
    prefix.append(": ");
    proof {
        reveal_strlit(": ");
    }
    let pv = chars_of(prefix.as_str());
    assert(pv@ =~= name@ + seq![':', ' ']);
    if starts_with_at(v, &pv, ls, le) {
        let n = pv.len();
        assert(line.skip(pv@.len() as int) =~= v@.subrange(ls + n, le as int));
        return string_of(v, ls + n, le);
    }
    let sep = chars_of(": ");
    assert(sep@ =~= seq![':', ' ']);
    match find_in(v, &sep, ls, le) {
        Some(p) => {
            proof {
                crate::text::lemma_find_from_bounds(line, sep@, 0);
                assert(line.skip(p - ls + 2) =~= v@.subrange(p + 2, le as int));
            }
            string_of(v, p + 2, le)
        },
        None => string_of(v, ls, le),
    }
}

/// Reads the values of row `row_index` from the content of its chunk
/// (see `chunk_row`); an error when the chunk has no record for it.
pub fn row_from_chunk_content(content: &str, row_index: usize, columns: &Vec<String>) -> (r: Result<Vec<String>, Error>)
    ensures
        match chunk_row(content@, row_index as int, names_view(columns@)) {
            Some(vals) => r matches Ok(values) && names_view(values@) == vals,
            None => r matches Err(Error::Other(m)) && m@ == row_missing_text(
                row_index as int,
                (row_index / PREVIEW_CHUNK_SIZE) as int,
            ),
        },
{
    let chunk_idx = row_index / PREVIEW_CHUNK_SIZE;
    let row_in_chunk = row_index % PREVIEW_CHUNK_SIZE;
    let v = chars_of(content);
    let pieces = split_records_in(&v);
    let ghost sr = split_records(v@);
    let mut j: usize = 0;
    let mut cnt: usize = 0;
    let mut found: Option<(usize, usize)> = None;
    assert(sr.take(0) =~= Seq::<Seq<char>>::empty());
    assert(sr.take(sr.len() as int) =~= sr);
    while j < pieces.len()
        invariant_except_break
            found is None,
        invariant
            j <= pieces@.len() == sr.len(),
            sr == split_records(v@),
            v@ == content@,
            forall|k: int|
                #![trigger pieces@[k]]
                0 <= k < pieces@.len() ==> pieces@[k].0 <= pieces@[k].1 && pieces@[k].1 <= v@.len() && v@.subrange(
                    pieces@[k].0 as int,
                    pieces@[k].1 as int,
                ) == sr[k],
            cnt == non_empty(sr.take(j as int)).len(),
            cnt <= row_in_chunk,
            sr.take(sr.len() as int) == sr,
        ensures
            found matches Some(rg) ==> rg.0 <= rg.1 && rg.1 <= v@.len() && row_in_chunk < non_empty(sr).len()
                && v@.subrange(rg.0 as int, rg.1 as int) == non_empty(sr)[row_in_chunk as int],
            found is None ==> non_empty(sr).len() <= row_in_chunk,
        decreases pieces.len() - j,
    {
        let (ps, pe) = pieces[j];
        assert(sr.take(j + 1).drop_last() =~= sr.take(j as int));
        assert(sr.take(j + 1).last() == sr[j as int]);
        assert(v@.subrange(ps as int, pe as int) == sr[j as int]);
        if ps < pe {
            if cnt == row_in_chunk {
                proof {
                    lemma_non_empty_split(sr, j + 1);
                    assert(non_empty(sr.take(j + 1)) == non_empty(sr.take(j as int)).push(sr[j as int]));
                    assert(non_empty(sr)[row_in_chunk as int] == non_empty(sr.take(j + 1))[row_in_chunk as int]);
                }
                found = Some((ps, pe));
                break;
            }
            cnt = cnt + 1;
        }
        j = j + 1;
        proof {
            if j == pieces@.len() {
                assert(sr.take(j as int) =~= sr);
            }
        }
    }
    proof {
        if pieces@.len() == 0 {
            assert(sr.take(0) =~= sr);
        }
    }
    match found {
        None => {
            let mut m = str_to_string("選択された行がチャンクファイル内に見つかりません (row=");
            let d = decimal_string(row_index as u128);
            m.append(d.as_str());
            m.append(", chunk=");
            let c = decimal_string(chunk_idx as u128);
            m.append(c.as_str());
            m.append(")");
            Err(Error::Other(m))
        },
        Some((rs, re)) => {
            let lines = lines_in(&v, rs, re);
            let ghost record = v@.subrange(rs as int, re as int);
            let mut values: Vec<String> = Vec::new();
            let mut i: usize = 0;
            while i < columns.len()
                invariant
                    i <= columns@.len(),
                    rs <= re <= v@.len(),
                    record == v@.subrange(rs as int, re as int),
                    lines@.len() == lines_of(record).len(),
                    forall|k: int|
                        #![trigger lines@[k]]
                        0 <= k < lines@.len() ==> lines@[k].0 <= lines@[k].1 && lines@[k].1 <= v@.len()
                            && v@.subrange(lines@[k].0 as int, lines@[k].1 as int) == lines_of(record)[k],
                    values@.len() == i,
                    forall|k: int|
                        #![trigger values@[k]]
                        0 <= k < i ==> values@[k]@ == record_values(record, names_view(columns@))[k],
                decreases columns.len() - i,
            {
                if i < lines.len() {
                    let (ls, le) = lines[i];
                    let val = value_of_line(&v, ls, le, columns[i].as_str());
                    values.push(val);
                } else {
                    values.push(String::new());
                }
                i = i + 1;
            }
            assert(names_view(values@) =~= record_values(record, names_view(columns@)));
            Ok(values)
        },
    }
}


// ---------------------------------------------------------------------
// Reading back what was written
// ---------------------------------------------------------------------

/// The records of some rows one after another, as a chunk file holds them.
pub open spec fn chunk_content(columns: Seq<Seq<char>>, rows: Seq<Seq<Seq<char>>>) -> Seq<char>
    decreases rows.len(),
{
    if rows.len() == 0 {
        Seq::empty()
    } else {
        chunk_content(columns, rows.drop_last()) + preview_record(columns, rows.last())
    }
}

/// What reading a row back gives: its values, one per column, empty
/// past the row's end.
pub open spec fn written_values(columns: Seq<Seq<char>>, row: Seq<Seq<char>>) -> Seq<Seq<char>> {
    Seq::new(columns.len(), |i: int| if i < row.len() { row[i] } else { Seq::<char>::empty() })
}

/// `s` has no line break.
pub open spec fn single_line(s: Seq<char>) -> bool {
    forall|i: int| 0 <= i < s.len() ==> s[i] != '\n'
}

/// A value that a record line carries intact: a single line that ends
/// neither in a carriage return nor in `---`.
pub open spec fn previewable(v: Seq<char>) -> bool {
    &&& single_line(v)
    &&& !(v.len() > 0 && v.last() == '\r')
    &&& !(v.len() >= 3 && v[v.len() - 3] == '-' && v[v.len() - 2] == '-' && v[v.len() - 1] == '-')
}

/// The line of cell `i` of a record, without its line break.
pub open spec fn record_line(columns: Seq<Seq<char>>, data: Seq<Seq<char>>, i: int) -> Seq<char> {
    column_name(columns, i) + seq![':', ' '] + data[i]
}

/// The first occurrence of `p` at or after `from` is the one at `i`
/// when there is none in between.
proof fn lemma_find_first(s: Seq<char>, p: Seq<char>, from: int, i: int)
    requires
        0 <= from <= i,
        crate::text::occurs_at(s, p, i),
        forall|j: int| from <= j < i ==> !crate::text::occurs_at(s, p, j),
    ensures
        crate::text::find_from(s, p, from) == Some(i),
    decreases i - from,
{
    if from < i {
        lemma_find_first(s, p, from + 1, i);
    }
}

/// Adding a record front: a body in which no `---` line ends splits off
/// whole at the separator that follows it.
proof fn lemma_split_front(body: Seq<char>, rest: Seq<char>)
    requires
        forall|j: int| !crate::text::occurs_at(body, record_end(), j),
        body.len() == 0 || body.last() == '\n',
    ensures
        split_records(body + record_end() + rest) == seq![body] + split_records(rest),
{
    let s = body + record_end() + rest;
    let n = body.len() as int;
    assert(s.subrange(n, n + 4) =~= record_end());
    assert forall|j: int| 0 <= j < n implies !crate::text::occurs_at(s, record_end(), j) by {
        if j + 4 <= n {
            assert(s.subrange(j, j + 4) =~= body.subrange(j, j + 4));
            assert(!crate::text::occurs_at(body, record_end(), j));
        } else if crate::text::occurs_at(s, record_end(), j) {
            assert(s[n - 1] == '\n');
            assert(s.subrange(j, j + 4)[n - 1 - j] == s[n - 1]);
            assert(record_end()[n - 1 - j] == '-');
        }
    }
    lemma_find_first(s, record_end(), 0, n);
    assert(s.take(n) =~= body);
    assert(s.skip(n + 4) =~= rest);
}

/// A record body: no `---` line ends in it, and it ends with a line break
/// when it has cells.
proof fn lemma_record_lines_shape(columns: Seq<Seq<char>>, data: Seq<Seq<char>>, n: int)
    requires
        0 <= n <= data.len(),
        forall|i: int| 0 <= i < columns.len() ==> single_line(#[trigger] columns[i]),
        forall|i: int| 0 <= i < data.len() ==> previewable(#[trigger] data[i]),
    ensures
        forall|j: int| !crate::text::occurs_at(record_lines(columns, data, n), record_end(), j),
        n > 0 ==> record_lines(columns, data, n).len() > 0 && record_lines(columns, data, n).last() == '\n',
    decreases n,
{
    if n > 0 {
        lemma_record_lines_shape(columns, data, n - 1);
        let prev = record_lines(columns, data, n - 1);
        let name = column_name(columns, n - 1);
        let v = data[n - 1];
        let line = name + seq![':', ' '] + v + seq!['\n'];
        let s = record_lines(columns, data, n);
        let l = prev.len() as int;
        assert(s =~= prev + line);
        assert(single_line(name));
        assert(previewable(v));
        let x = name.len() as int;
        assert forall|k: int| 0 <= k < line.len() - 1 implies line[k] != '\n' by {
            if k < x {
                assert(line[k] == name[k]);
            } else if k < x + 2 {
            } else {
                assert(line[k] == v[k - x - 2]);
            }
        }
        assert forall|j: int| !crate::text::occurs_at(s, record_end(), j) by {
            if crate::text::occurs_at(s, record_end(), j) {
                assert(s.subrange(j, j + 4) =~= record_end());
                assert(s.subrange(j, j + 4)[3] == s[j + 3]);
                assert(s[j + 3] == '\n');
                if j + 4 <= l {
                    assert(s.subrange(j, j + 4) =~= prev.subrange(j, j + 4));
                    assert(crate::text::occurs_at(prev, record_end(), j));
                } else if j < l {
                    assert(s[l - 1] == prev[l - 1]);
                    assert(s.subrange(j, j + 4)[l - 1 - j] == s[l - 1]);
                } else {
                    let m = j - l;
                    assert(s[j + 3] == line[m + 3]);
                    assert(m + 3 == line.len() - 1);
                    assert(s.subrange(j, j + 4)[0] == line[m]);
                    assert(s.subrange(j, j + 4)[1] == line[m + 1]);
                    assert(s.subrange(j, j + 4)[2] == line[m + 2]);
                    if v.len() >= 3 {
                        assert(line[m] == v[v.len() - 3]);
                        assert(line[m + 1] == v[v.len() - 2]);
                        assert(line[m + 2] == v[v.len() - 1]);
                    } else if v.len() == 2 {
                        assert(line[m] == ' ');
                    } else if v.len() == 1 {
                        assert(line[m + 1] == ' ');
                    } else {
                        assert(line[m + 2] == ' ');
                    }
                }
            }
        }
        assert(s.last() == '\n');
    }
}

/// Splitting text that ends a line keeps the lines of both parts.
proof fn lemma_lines_concat(a: Seq<char>, b: Seq<char>)
    requires
        a.len() == 0 || a.last() == '\n',
    ensures
        lines_of(a + b) == lines_of(a) + lines_of(b),
    decreases a.len(),
{
    let nl = seq!['\n'];
    if a.len() == 0 {
        assert(a + b =~= b);
        assert(lines_of(a) + lines_of(b) =~= lines_of(b));
    } else {
        assert(a.subrange(a.len() - 1, a.len() as int) =~= nl);
        assert(crate::text::occurs_at(a, nl, a.len() - 1));
        crate::text::lemma_find_from_bounds(a, nl, 0);
        let i = find(a, nl)->0;
        assert(0 <= i && i + 1 <= a.len());
        assert forall|j: int| 0 <= j < i implies !crate::text::occurs_at(a + b, nl, j) by {
            assert(!crate::text::occurs_at(a, nl, j));
            assert((a + b).subrange(j, j + 1) =~= a.subrange(j, j + 1));
        }
        assert((a + b).subrange(i, i + 1) =~= a.subrange(i, i + 1));
        lemma_find_first(a + b, nl, 0, i);
        assert((a + b).take(i) =~= a.take(i));
        assert((a + b).skip(i + 1) =~= a.skip(i + 1) + b);
        lemma_lines_concat(a.skip(i + 1), b);
        assert(lines_of(a + b) =~= lines_of(a) + lines_of(b));
    }
}

/// One line with its line break gives that line.
proof fn lemma_lines_single(x: Seq<char>)
    requires
        single_line(x),
        !(x.len() > 0 && x.last() == '\r'),
    ensures
        lines_of(x + seq!['\n']) == seq![x],
{
    let nl = seq!['\n'];
    let s = x + nl;
    let n = x.len() as int;
    assert forall|j: int| 0 <= j < n implies !crate::text::occurs_at(s, nl, j) by {
        assert(s.subrange(j, j + 1)[0] == x[j]);
    }
    assert(s.subrange(n, n + 1) =~= nl);
    lemma_find_first(s, nl, 0, n);
    assert(s.take(n) =~= x);
    assert(s.skip(n + 1) =~= Seq::<char>::empty());
    assert(lines_of(Seq::<char>::empty()) =~= Seq::<Seq<char>>::empty());
    assert(without_cr(x) == x);
    assert(lines_of(s) =~= seq![x]);
}

/// The lines of a record body are its `name: value` lines.
proof fn lemma_record_lines_lines(columns: Seq<Seq<char>>, data: Seq<Seq<char>>, n: int)
    requires
        0 <= n <= data.len(),
        forall|i: int| 0 <= i < columns.len() ==> single_line(#[trigger] columns[i]),
        forall|i: int| 0 <= i < data.len() ==> previewable(#[trigger] data[i]),
    ensures
        lines_of(record_lines(columns, data, n)) == Seq::new(n as nat, |i: int| record_line(columns, data, i)),
    decreases n,
{
    if n == 0 {
        assert(lines_of(record_lines(columns, data, 0)) =~= Seq::new(0, |i: int| record_line(columns, data, i)));
    } else {
        lemma_record_lines_lines(columns, data, n - 1);
        lemma_record_lines_shape(columns, data, n - 1);
        let prev = record_lines(columns, data, n - 1);
        let x = record_line(columns, data, n - 1);
        let name = column_name(columns, n - 1);
        let v = data[n - 1];
        assert(single_line(name));
        assert(previewable(v));
        assert forall|k: int| 0 <= k < x.len() implies x[k] != '\n' by {
            if k < name.len() {
                assert(x[k] == name[k]);
            } else if k < name.len() + 2 {
            } else {
                assert(x[k] == v[k - name.len() - 2]);
            }
        }
        if v.len() > 0 {
            assert(x.last() == v.last());
        } else {
            assert(x.last() == ' ');
        }
        assert(record_lines(columns, data, n) =~= prev + (x + seq!['\n']));
        lemma_lines_concat(prev, x + seq!['\n']);
        lemma_lines_single(x);
        assert(lines_of(record_lines(columns, data, n)) =~= Seq::new(n as nat, |i: int| record_line(columns, data, i)));
    }
}

/// A chunk's content starts with the record of its first row.
proof fn lemma_chunk_content_front(columns: Seq<Seq<char>>, rows: Seq<Seq<Seq<char>>>)
    requires
        rows.len() > 0,
    ensures
        chunk_content(columns, rows) == preview_record(columns, rows[0]) + chunk_content(columns, rows.drop_first()),
    decreases rows.len(),
{
    if rows.len() == 1 {
        assert(rows.drop_last() =~= Seq::<Seq<Seq<char>>>::empty());
        assert(rows.drop_first() =~= Seq::<Seq<Seq<char>>>::empty());
        assert(chunk_content(columns, rows) =~= preview_record(columns, rows[0]) + chunk_content(
            columns,
            rows.drop_first(),
        ));
    } else {
        lemma_chunk_content_front(columns, rows.drop_last());
        assert(rows.drop_last().drop_first() =~= rows.drop_first().drop_last());
        assert(rows.drop_first().last() == rows.last());
        assert(rows.drop_last()[0] == rows[0]);
        assert(chunk_content(columns, rows) =~= preview_record(columns, rows[0]) + chunk_content(
            columns,
            rows.drop_first(),
        ));
    }
}

/// The record bodies of some rows.
pub open spec fn record_bodies(columns: Seq<Seq<char>>, rows: Seq<Seq<Seq<char>>>) -> Seq<Seq<char>> {
    Seq::new(rows.len(), |r: int| record_lines(columns, rows[r], rows[r].len() as int))
}

/// A chunk splits into the record bodies of its rows and an empty tail.
proof fn lemma_split_chunk(columns: Seq<Seq<char>>, rows: Seq<Seq<Seq<char>>>)
    requires
        forall|i: int| 0 <= i < columns.len() ==> single_line(#[trigger] columns[i]),
        forall|r: int, i: int| 0 <= r < rows.len() && 0 <= i < rows[r].len() ==> previewable(#[trigger] rows[r][i]),
    ensures
        split_records(chunk_content(columns, rows)) == record_bodies(columns, rows).push(Seq::<char>::empty()),
    decreases rows.len(),
{
    if rows.len() == 0 {
        assert(chunk_content(columns, rows) =~= Seq::<char>::empty());
        assert(split_records(Seq::<char>::empty()) =~= seq![Seq::<char>::empty()]);
        assert(record_bodies(columns, rows).push(Seq::<char>::empty()) =~= seq![Seq::<char>::empty()]);
    } else {
        let first = rows[0];
        assert forall|i: int| 0 <= i < first.len() implies previewable(#[trigger] first[i]) by {
            assert(previewable(rows[0][i]));
        }
        let tail = rows.drop_first();
        assert forall|r: int, i: int| 0 <= r < tail.len() && 0 <= i < tail[r].len() implies previewable(
            #[trigger] tail[r][i],
        ) by {
            assert(tail[r] == rows[r + 1]);
            assert(previewable(rows[r + 1][i]));
        }
        lemma_split_chunk(columns, tail);
        lemma_chunk_content_front(columns, rows);
        lemma_record_lines_shape(columns, first, first.len() as int);
        let body = record_lines(columns, first, first.len() as int);
        assert(preview_record(columns, first) == body + record_end());
        lemma_split_front(body, chunk_content(columns, tail));
        assert(record_bodies(columns, rows).push(Seq::<char>::empty()) =~= seq![body] + record_bodies(
            columns,
            tail,
        ).push(Seq::<char>::empty()));
    }
}

/// Dropping the empty parts keeps a list that has none.
proof fn lemma_non_empty_all(v: Seq<Seq<char>>)
    requires
        forall|k: int| 0 <= k < v.len() ==> (#[trigger] v[k]).len() > 0,
    ensures
        non_empty(v) == v,
    decreases v.len(),
{
    if v.len() > 0 {
        lemma_non_empty_all(v.drop_last());
        assert(v.drop_last().push(v.last()) =~= v);
    }
}

/// `name: value` gives back the value under that name.
proof fn lemma_line_value(name: Seq<char>, v: Seq<char>)
    ensures
        line_value(name + seq![':', ' '] + v, name) == v,
{
    let line = name + seq![':', ' '] + v;
    let prefix = name + seq![':', ' '];
    assert(line.subrange(0, prefix.len() as int) =~= prefix);
    assert(line.skip(prefix.len() as int) =~= v);
}

/// A row written to a chunk reads back as it was written. Take the
/// records of some rows one after another, as a chunk file holds them:
/// the row in the place that `row_index` has in its chunk gives back its
/// values, one per column, empty past the row's end. This holds where no
/// column name spans lines, every row has a value, and every value is a
/// single line that ends neither in a carriage return nor in `---`.
pub proof fn law_written_row_reads_back(columns: Seq<Seq<char>>, rows: Seq<Seq<Seq<char>>>, row_index: int)
    requires
        0 <= row_index,
        row_index % (PREVIEW_CHUNK_SIZE as int) < rows.len(),
        forall|i: int| 0 <= i < columns.len() ==> single_line(#[trigger] columns[i]),
        forall|r: int| 0 <= r < rows.len() ==> (#[trigger] rows[r]).len() > 0,
        forall|r: int, i: int| 0 <= r < rows.len() && 0 <= i < rows[r].len() ==> previewable(#[trigger] rows[r][i]),
    ensures
        chunk_row(chunk_content(columns, rows), row_index, columns) == Some(
            written_values(columns, rows[row_index % (PREVIEW_CHUNK_SIZE as int)]),
        ),
{
    let k = row_index % (PREVIEW_CHUNK_SIZE as int);
    let bodies = record_bodies(columns, rows);
    lemma_split_chunk(columns, rows);
    assert forall|r: int| 0 <= r < bodies.len() implies (#[trigger] bodies[r]).len() > 0 by {
        let row = rows[r];
        assert forall|i: int| 0 <= i < row.len() implies previewable(#[trigger] row[i]) by {
            assert(previewable(rows[r][i]));
        }
        lemma_record_lines_shape(columns, row, row.len() as int);
    }
    lemma_non_empty_all(bodies);
    let split = bodies.push(Seq::<char>::empty());
    assert(split.drop_last() =~= bodies);
    assert(non_empty(split) == non_empty(bodies));
    let row = rows[k];
    assert forall|i: int| 0 <= i < row.len() implies previewable(#[trigger] row[i]) by {
        assert(previewable(rows[k][i]));
    }
    lemma_record_lines_lines(columns, row, row.len() as int);
    let lines = lines_of(bodies[k]);
    assert forall|i: int| 0 <= i < columns.len() implies #[trigger] record_values(bodies[k], columns)[i]
        == written_values(columns, row)[i] by {
        if i < row.len() {
            assert(lines[i] == record_line(columns, row, i));
            lemma_line_value(columns[i], row[i]);
        }
    }
    assert(record_values(bodies[k], columns) =~= written_values(columns, row));
}

} // verus!
