//! Laying out query results as text: cells padded or cut to a display
//! width, column widths from the data, and rows joined with ` | `.
use vstd::prelude::*;

use crate::text::{chars_of, joined, names_view, push_char, push_joined, str_to_string};
use crate::width::{char_width, char_width_spec, str_width, str_width_spec};

verus! {

/// The narrowest a column is shown.
pub const MIN_COLUMN_WIDTH: usize = 4;

/// The widest a column is shown.
pub const MAX_COLUMN_WIDTH: usize = 40;

/// The width a column gets when none is known for it.
pub const DEFAULT_COLUMN_WIDTH: usize = 10;

/// How many rows of a streamed result are read before its column widths
/// are fixed.
pub const WIDTH_SAMPLE_ROWS: usize = 100;

/// `n` spaces.
pub open spec fn spaces(n: nat) -> Seq<char> {
    Seq::new(n, |i: int| ' ')
}

/// `a - b`, or 0 when `b` is larger.
pub open spec fn sat_sub(a: int, b: int) -> nat {
    if a > b {
        (a - b) as nat
    } else {
        0
    }
}

/// The width a character counts for when cutting: control characters count 0.
pub open spec fn cut_width(c: char) -> int {
    match char_width_spec(c) {
        Some(w) => w as int,
        None => 0,
    }
}

/// The longest start of `s` whose characters fit in `room` columns,
/// stopping at the first character that does not fit.
pub open spec fn fitting_prefix(s: Seq<char>, room: int) -> Seq<char>
    decreases s.len(),
{
    if s.len() == 0 || cut_width(s[0]) > room {
        Seq::empty()
    } else {
        seq![s[0]] + fitting_prefix(s.drop_first(), room - cut_width(s[0]))
    }
}

/// A cell shown in `target` columns: padded with spaces when it fits;
/// otherwise cut to fit `target - 3` columns, followed by `...`, and
/// padded to `target`.
pub open spec fn padded_cell(s: Seq<char>, target: int) -> Seq<char> {
    let w = str_width_spec(s) as int;
    if w > target {
        let t = fitting_prefix(s, sat_sub(target, 3) as int) + "..."@;
        t + spaces(sat_sub(target, str_width_spec(t) as int))
    } else {
        s + spaces(sat_sub(target, w))
    }
}

/// Appends `n` spaces.
fn push_spaces(out: &mut String, n: usize)
    ensures
        final(out)@ == old(out)@ + spaces(n as nat),
{
    let mut i: usize = 0;
    while i < n
        invariant
            i <= n,
            out@ == old(out)@ + spaces(i as nat),
        decreases n - i,
    {
        push_char(out, ' ');
        i = i + 1;
        assert(out@ =~= old(out)@ + spaces(i as nat));
    }
}

/// Shows `s` in `target_width` columns (see `padded_cell`).
pub fn pad_to_width(s: &str, target_width: usize) -> (r: String)
    ensures
        r@ == padded_cell(s@, target_width as int),
{
    let display_width = str_width(s);
    if display_width > target_width {
        let v = chars_of(s);
        let room = if target_width > 3 {
            target_width - 3
        } else {
            0
        };
        let mut truncated = String::new();
        let mut w: usize = 0;
        let mut i: usize = 0;
        assert(v@.skip(0) =~= v@);
        while i < v.len()
            invariant
                i <= v@.len(),
                v@ == s@,
                w <= room,
                fitting_prefix(s@, room as int) == truncated@ + fitting_prefix(
                    v@.skip(i as int),
                    room - w,
                ),
            ensures
                fitting_prefix(s@, room as int) == truncated@,
            decreases v.len() - i,
        {
            let cw = match char_width(v[i]) {
                Some(x) => x,
                None => 0,
            };
            assert(v@.skip(i as int)[0] == v@[i as int]);
            if cw > room - w {
                assert(fitting_prefix(v@.skip(i as int), room - w) =~= Seq::<char>::empty());
                assert(truncated@ + Seq::<char>::empty() =~= truncated@);
                break;
            }
            push_char(&mut truncated, v[i]);
            assert(v@.skip(i as int).drop_first() =~= v@.skip(i + 1));
            w = w + cw;
            i = i + 1;
            proof {
                if i == v.len() {
                    assert(v@.skip(i as int) =~= Seq::<char>::empty());
                    assert(truncated@ + Seq::<char>::empty() =~= truncated@);
                }
            }
        }
        truncated.append("...");
        let tw = str_width(truncated.as_str());
        let padding = if target_width > tw {
            target_width - tw
        } else {
            0
        };
        push_spaces(&mut truncated, padding);
        truncated
    } else {
        let mut out = str_to_string(s);
        push_spaces(&mut out, target_width - display_width);
        out
    }
}

// ---------------------------------------------------------------------
// Column widths
// ---------------------------------------------------------------------

/// The widest of `w` and the display widths of the cells at column `i`
/// of the rows that have one.
pub open spec fn widest_cell(rows: Seq<Seq<Seq<char>>>, i: int, w: int) -> int
    decreases rows.len(),
{
    if rows.len() == 0 {
        w
    } else {
        let rest = widest_cell(rows.drop_last(), i, w);
        let r = rows.last();
        if i < r.len() && str_width_spec(r[i]) as int > rest {
            str_width_spec(r[i]) as int
        } else {
            rest
        }
    }
}

/// `w` brought into `[lo, hi]`.
pub open spec fn clamped(w: int, lo: int, hi: int) -> int {
    if w < lo {
        lo
    } else if w > hi {
        hi
    } else {
        w
    }
}

/// The width of column `i`: the widest of its name and its cells,
/// brought into the shown range.
pub open spec fn column_width(columns: Seq<Seq<char>>, rows: Seq<Seq<Seq<char>>>, i: int) -> int {
    clamped(
        widest_cell(rows, i, str_width_spec(columns[i]) as int),
        MIN_COLUMN_WIDTH as int,
        MAX_COLUMN_WIDTH as int,
    )
}

/// The cells of a list of rows.
pub open spec fn cells_view(rows: Seq<Vec<String>>) -> Seq<Seq<Seq<char>>> {
    rows.map_values(|r: Vec<String>| names_view(r@))
}

/// The display width of each column (see `column_width`).
pub fn calculate_column_widths(columns: &Vec<String>, rows: &Vec<Vec<String>>) -> (r: Vec<usize>)
    ensures
        r@.len() == columns@.len(),
        forall|i: int|
            0 <= i < r@.len() ==> r@[i] as int == column_width(
                names_view(columns@),
                cells_view(rows@),
                i,
            ),
{
    let ghost rv = cells_view(rows@);
    let ghost cv = names_view(columns@);
    let mut widths: Vec<usize> = Vec::new();
    let mut c: usize = 0;
    while c < columns.len()
        invariant
            c <= columns@.len(),
            widths@.len() == c,
            rv == cells_view(rows@),
            cv == names_view(columns@),
            forall|i: int| 0 <= i < c ==> widths@[i] as int == column_width(cv, rv, i),
        decreases columns.len() - c,
    {
        let mut w = str_width(columns[c].as_str());
        let mut k: usize = 0;
        assert(rv.take(0) =~= Seq::<Seq<Seq<char>>>::empty());
        while k < rows.len()
            invariant
                c < columns@.len(),
                k <= rows@.len(),
                rv == cells_view(rows@),
                cv == names_view(columns@),
                w as int == widest_cell(rv.take(k as int), c as int, str_width_spec(cv[c as int]) as int),
            decreases rows.len() - k,
        {
            assert(rv.take(k + 1).drop_last() =~= rv.take(k as int));
            assert(rv.take(k + 1).last() == names_view(rows@[k as int]@));
            if c < rows[k].len() {
                let cw = str_width(rows[k][c].as_str());
                if cw > w {
                    w = cw;
                }
            }
            k = k + 1;
        }
        assert(rv.take(rows@.len() as int) =~= rv);
        let clamped_w = if w < MIN_COLUMN_WIDTH {
            MIN_COLUMN_WIDTH
        } else if w > MAX_COLUMN_WIDTH {
            MAX_COLUMN_WIDTH
        } else {
            w
        };
        widths.push(clamped_w);
        c = c + 1;
    }
    widths
}

/// `widest_cell` is at least `w` and at least the width of each cell at
/// column `i`, and it is `w` or the width of one of those cells.
pub proof fn lemma_widest_cell_bounds(rows: Seq<Seq<Seq<char>>>, i: int, w: int)
    ensures
        widest_cell(rows, i, w) >= w,
        forall|k: int|
            0 <= k < rows.len() && i < rows[k].len() ==> widest_cell(rows, i, w)
                >= str_width_spec(#[trigger] rows[k][i]) as int,
        widest_cell(rows, i, w) == w || exists|k: int|
            0 <= k < rows.len() && i < rows[k].len() && widest_cell(rows, i, w)
                == str_width_spec(#[trigger] rows[k][i]) as int,
    decreases rows.len(),
{
    if rows.len() > 0 {
        let front = rows.drop_last();
        lemma_widest_cell_bounds(front, i, w);
        let last = rows.len() - 1;
        assert forall|k: int|
            0 <= k < rows.len() && i < rows[k].len() implies widest_cell(rows, i, w)
                >= str_width_spec(#[trigger] rows[k][i]) as int by {
            if k < last {
                assert(rows[k] == front[k]);
            }
        }
        if widest_cell(rows, i, w) != w {
            if widest_cell(rows, i, w) == widest_cell(front, i, w) {
                let k = choose|k: int|
                    0 <= k < front.len() && i < front[k].len() && widest_cell(front, i, w)
                        == str_width_spec(#[trigger] front[k][i]) as int;
                assert(rows[k] == front[k]);
            } else {
                assert(widest_cell(rows, i, w) == str_width_spec(rows[last][i]) as int);
            }
        }
    }
}

/// Column widths: each column is at least as wide as its name and as each
/// of its cells, as far as the widest shown width allows; it is never
/// narrower than the narrowest shown width nor wider than the widest; and
/// it is one of these bounds, the width of its name, or the width of one
/// of its cells.
pub proof fn law_column_width_covers_name_and_cells(
    columns: Seq<Seq<char>>,
    rows: Seq<Seq<Seq<char>>>,
    i: int,
)
    requires
        0 <= i < columns.len(),
    ensures
        MIN_COLUMN_WIDTH as int <= column_width(columns, rows, i) <= MAX_COLUMN_WIDTH as int,
        column_width(columns, rows, i) >= if str_width_spec(columns[i]) < MAX_COLUMN_WIDTH {
            str_width_spec(columns[i]) as int
        } else {
            MAX_COLUMN_WIDTH as int
        },
        forall|k: int|
            0 <= k < rows.len() && i < rows[k].len() ==> column_width(columns, rows, i) >= if str_width_spec(
                #[trigger] rows[k][i],
            ) < MAX_COLUMN_WIDTH {
                str_width_spec(rows[k][i]) as int
            } else {
                MAX_COLUMN_WIDTH as int
            },
        ({
            let cw = column_width(columns, rows, i);
            ||| cw == MIN_COLUMN_WIDTH as int
            ||| cw == MAX_COLUMN_WIDTH as int
            ||| cw == str_width_spec(columns[i]) as int
            ||| exists|k: int|
                0 <= k < rows.len() && i < rows[k].len() && cw == str_width_spec(
                    #[trigger] rows[k][i],
                ) as int
        }),
{
    lemma_widest_cell_bounds(rows, i, str_width_spec(columns[i]) as int);
}

// ---------------------------------------------------------------------
// Rows
// ---------------------------------------------------------------------

/// The width of column `i`, or the default when none is given.
pub open spec fn width_at(widths: Seq<usize>, i: int) -> int {
    if 0 <= i < widths.len() {
        widths[i] as int
    } else {
        DEFAULT_COLUMN_WIDTH as int
    }
}

/// The cells of `row`, each shown in its column's width.
pub open spec fn padded_cells(row: Seq<Seq<char>>, widths: Seq<usize>) -> Seq<Seq<char>> {
    Seq::new(row.len(), |i: int| padded_cell(row[i], width_at(widths, i)))
}

/// A row as one line: each cell shown in its column's width, joined with ` | `.
pub fn format_row_display(row: &Vec<String>, col_widths: &Vec<usize>) -> (r: String)
    ensures
        r@ == joined(padded_cells(names_view(row@), col_widths@), " | "@),
{
    let mut cells: Vec<String> = Vec::new();
    let mut i: usize = 0;
    while i < row.len()
        invariant
            i <= row@.len(),
            cells@.len() == i,
            forall|j: int|
                0 <= j < i ==> (#[trigger] cells@[j])@ == padded_cell(
                    row@[j]@,
                    width_at(col_widths@, j),
                ),
        decreases row.len() - i,
    {
        let w = if i < col_widths.len() {
            col_widths[i]
        } else {
            DEFAULT_COLUMN_WIDTH
        };
        cells.push(pad_to_width(row[i].as_str(), w));
        i = i + 1;
    }
    let mut out = String::new();
    push_joined(&mut out, &cells, " | ");
    assert(names_view(cells@) =~= padded_cells(names_view(row@), col_widths@));
    assert(out@ =~= joined(padded_cells(names_view(row@), col_widths@), " | "@));
    out
}


/// The header of a streamed result: the column names laid out like the
/// rows, or `(結果なし)` when the result has no columns.
pub fn streamed_header(columns: &Vec<String>, col_widths: &Vec<usize>) -> (r: String)
    ensures
        columns@.len() == 0 ==> r@ == "(結果なし)"@,
        columns@.len() > 0 ==> r@ == joined(padded_cells(names_view(columns@), col_widths@), " | "@),
{
    if columns.len() == 0 {
        str_to_string("(結果なし)")
    } else {
        format_row_display(columns, col_widths)
    }
}

} // verus!
