//! What the terminal screen shows, computed without drawing: where the
//! completion popup goes, how an input text splits into highlighted lines,
//! where the cursor lands once lines wrap, the breadcrumb trail and the
//! texts of the connection screens.
use vstd::prelude::*;

use crate::config::{BastionSetting, ConnectionConfig};
use crate::i18n::{tui_msg_en, tui_msg_ja, Lang, TuiMsg};
use crate::result_actions::SelectedRecord;
use crate::text::{chars_of, decimal, decimal_string, str_to_string, string_of};
use crate::width::{char_width, char_width_spec};

verus! {

// ---------------------------------------------------------------------
// Rectangles
// ---------------------------------------------------------------------

/// A rectangle of terminal cells.
#[derive(Debug, Clone, Copy, PartialEq, Eq, Structural)]
pub struct Area {
    pub x: u16,
    pub y: u16,
    pub width: u16,
    pub height: u16,
}

/// Most rows of the completion popup, borders included.
pub const MAX_POPUP_HEIGHT: u16 = 8;

/// Width of the completion popup.
pub const MAX_POPUP_WIDTH: u16 = 40;

/// `a - b`, or zero below zero.
pub open spec fn sat_sub_u16(a: u16, b: u16) -> u16 {
    if a >= b {
        (a - b) as u16
    } else {
        0
    }
}

/// Rows of the popup: the candidates (their count narrowed to `u16`) and
/// two border rows, at most `MAX_POPUP_HEIGHT`.
pub open spec fn popup_height(candidate_count: usize) -> u16 {
    let h = (candidate_count as nat % 0x1_0000) + 2;
    if h < MAX_POPUP_HEIGHT {
        h as u16
    } else {
        MAX_POPUP_HEIGHT
    }
}

/// Where the completion popup goes: one row below the cursor line, at the
/// cursor's column; above the input when it would pass the bottom of the
/// screen, and pulled left when it would pass the right edge.
pub open spec fn popup_area(input: Area, cursor_x_offset: u16, candidate_count: usize, screen: Area) -> Area {
    let h = popup_height(candidate_count);
    let y0 = input.y + 2;
    let x0 = input.x + 1 + cursor_x_offset;
    Area {
        x: if x0 + MAX_POPUP_WIDTH > screen.width {
            sat_sub_u16(screen.width, MAX_POPUP_WIDTH)
        } else {
            x0 as u16
        },
        y: if y0 + h > screen.height {
            sat_sub_u16(input.y, h)
        } else {
            y0 as u16
        },
        width: MAX_POPUP_WIDTH,
        height: h,
    }
}

/// The rectangle of the completion popup (see `popup_area`). The sums the
/// placement adds up must fit in `u16`.
pub fn completion_popup_rect(input_area: Area, cursor_x_offset: u16, candidate_count: usize, terminal_area: Area) -> (r: Area)
    requires
        (candidate_count as nat % 0x1_0000) + 2 <= u16::MAX,
        input_area.y + 2 + popup_height(candidate_count) <= u16::MAX,
        input_area.x + 1 + cursor_x_offset + MAX_POPUP_WIDTH <= u16::MAX,
    ensures
        r == popup_area(input_area, cursor_x_offset, candidate_count, terminal_area),
{
    let narrowed = ((candidate_count as u64) % 0x1_0000u64) as u16;
    let wanted = narrowed + 2;
    let popup_height = if wanted < MAX_POPUP_HEIGHT {
        wanted
    } else {
        MAX_POPUP_HEIGHT
    };
    let below = input_area.y + 2;
    let popup_y = if below + popup_height > terminal_area.height {
        input_area.y.saturating_sub(popup_height)
    } else {
        below
    };
    let at_cursor = input_area.x + 1 + cursor_x_offset;
    let popup_x = if at_cursor + MAX_POPUP_WIDTH > terminal_area.width {
        terminal_area.width.saturating_sub(MAX_POPUP_WIDTH)
    } else {
        at_cursor
    };
    Area { x: popup_x, y: popup_y, width: MAX_POPUP_WIDTH, height: popup_height }
}

// ---------------------------------------------------------------------
// Lines of an input text
// ---------------------------------------------------------------------

/// The first `\n` at or after `i`, or the length when there is none.
pub open spec fn next_newline(s: Seq<char>, i: int) -> int
    decreases s.len() - i,
{
    if i >= s.len() {
        s.len() as int
    } else if s[i] == '\n' {
        i
    } else {
        next_newline(s, i + 1)
    }
}

pub proof fn lemma_next_newline(s: Seq<char>, i: int)
    requires
        0 <= i <= s.len(),
    ensures
        i <= next_newline(s, i) <= s.len(),
        next_newline(s, i) < s.len() ==> s[next_newline(s, i)] == '\n',
        forall|j: int| i <= j < next_newline(s, i) ==> s[j] != '\n',
    decreases s.len() - i,
{
    if i < s.len() && s[i] != '\n' {
        lemma_next_newline(s, i + 1);
    }
}

/// The lines of `s` from position `b` on, as `split('\n')` gives them:
/// the start and end position of each, newlines excluded. There is always
/// at least one line, possibly empty.
pub open spec fn line_bounds_from(s: Seq<char>, b: int) -> Seq<(int, int)>
    decreases s.len() - b,
{
    if b < 0 || b > s.len() {
        Seq::empty()
    } else {
        let e = next_newline(s, b);
        if e >= s.len() {
            seq![(b, s.len() as int)]
        } else {
            proof {
                lemma_next_newline(s, b);
            }
            seq![(b, e)] + line_bounds_from(s, e + 1)
        }
    }
}

/// The lines of `s`, as `split('\n')` gives them.
pub open spec fn line_bounds(s: Seq<char>) -> Seq<(int, int)> {
    line_bounds_from(s, 0)
}

/// One line of an input area: plain, or with the part under the selection
/// highlighted.
pub enum LineText {
    Plain(String),
    Highlighted { before: String, selected: String, after: String },
}

/// `l` shows `s[b..e]`, highlighting where the selection `[ss, se)` (if
/// any) overlaps the line.
pub open spec fn line_shows(l: LineText, s: Seq<char>, b: int, e: int, sel: Option<(int, int)>) -> bool {
    let overlap = match sel {
        Some((ss, se)) => {
            let os = if ss > b {
                ss
            } else {
                b
            };
            let oe = if se < e {
                se
            } else {
                e
            };
            if os < oe {
                Some((os, oe))
            } else {
                None
            }
        },
        None => None,
    };
    match overlap {
        Some((os, oe)) => l matches LineText::Highlighted { before, selected, after } && before@
            == s.subrange(b, os) && selected@ == s.subrange(os, oe) && after@ == s.subrange(oe, e),
        None => l matches LineText::Plain(p) && p@ == s.subrange(b, e),
    }
}

/// The selection as a character range: from the lower to the higher of
/// its anchor and the cursor.
pub open spec fn selection_range(selection_start: Option<usize>, cursor: usize) -> Option<(int, int)> {
    match selection_start {
        Some(a) => if a <= cursor {
            Some((a as int, cursor as int))
        } else {
            Some((cursor as int, a as int))
        },
        None => None,
    }
}

/// The first `\n` in `v` at or after `i`, or the length.
fn next_newline_exec(v: &Vec<char>, i: usize) -> (r: usize)
    requires
        i <= v@.len(),
    ensures
        r == next_newline(v@, i as int),
{
    proof {
        lemma_next_newline(v@, i as int);
    }
    let mut j = i;
    while j < v.len() && v[j] != '\n'
        invariant
            i <= j <= v@.len(),
            next_newline(v@, j as int) == next_newline(v@, i as int),
        decreases v@.len() - j,
    {
        j = j + 1;
    }
    j
}

fn min_usize(a: usize, b: usize) -> (r: usize)
    ensures
        r == (if a < b {
            a
        } else {
            b
        }),
{
    if a < b {
        a
    } else {
        b
    }
}

fn max_usize(a: usize, b: usize) -> (r: usize)
    ensures
        r == (if a > b {
            a
        } else {
            b
        }),
{
    if a > b {
        a
    } else {
        b
    }
}

/// The line `v[b..e]` with the selection highlighted where it overlaps.
fn line_text(v: &Vec<char>, b: usize, e: usize, sel: Option<(usize, usize)>) -> (l: LineText)
    requires
        b <= e <= v@.len(),
    ensures
        line_shows(
            l,
            v@,
            b as int,
            e as int,
            match sel {
                Some((x, y)) => Some((x as int, y as int)),
                None => None,
            },
        ),
{
    match sel {
        Some((ss, se)) => {
            let os = max_usize(ss, b);
            let oe = min_usize(se, e);
            if os < oe {
                LineText::Highlighted {
                    before: string_of(v, b, os),
                    selected: string_of(v, os, oe),
                    after: string_of(v, oe, e),
                }
            } else {
                LineText::Plain(string_of(v, b, e))
            }
        },
        None => LineText::Plain(string_of(v, b, e)),
    }
}

/// The text split at each `\n` into lines, with the selection (between
/// `selection_start` and the cursor, in characters) highlighted.
pub fn build_multiline_text(text: &str, selection_start: Option<usize>, cursor_position: usize) -> (r: Vec<LineText>)
    ensures
        r@.len() == line_bounds(text@).len(),
        forall|k: int|
            0 <= k < r@.len() ==> line_shows(
                #[trigger] r@[k],
                text@,
                line_bounds(text@)[k].0,
                line_bounds(text@)[k].1,
                selection_range(selection_start, cursor_position),
            ),
{
    let v = chars_of(text);
    let sel: Option<(usize, usize)> = match selection_start {
        Some(a) => if a <= cursor_position {
            Some((a, cursor_position))
        } else {
            Some((cursor_position, a))
        },
        None => None,
    };
    let ghost gsel = selection_range(selection_start, cursor_position);
    let ghost total = line_bounds(v@);
    let mut out: Vec<LineText> = Vec::new();
    let ghost mut done: Seq<(int, int)> = Seq::empty();
    let mut b: usize = 0;
    loop
        invariant_except_break
            b <= v@.len(),
            done + line_bounds_from(v@, b as int) == total,
        invariant
            v@ == text@,
            total == line_bounds(v@),
            gsel == match sel {
                Some((x, y)) => Some((x as int, y as int)),
                None => None,
            },
            out@.len() == done.len(),
            forall|k: int|
                0 <= k < done.len() ==> line_shows(#[trigger] out@[k], v@, done[k].0, done[k].1, gsel),
        ensures
            done == total,
        decreases v@.len() - b,
    {
        let e = next_newline_exec(&v, b);
        proof {
            lemma_next_newline(v@, b as int);
        }
        out.push(line_text(&v, b, e, sel));
        proof {
            done = done.push((b as int, e as int));
        }
        if e >= v.len() {
            assert(line_bounds_from(v@, b as int) == seq![(b as int, v@.len() as int)]);
            break;
        }
        assert(line_bounds_from(v@, b as int) == seq![(b as int, e as int)] + line_bounds_from(
            v@,
            e + 1,
        ));
        assert(done + line_bounds_from(v@, e + 1) =~= total);
        b = e + 1;
    }
    out
}

// ---------------------------------------------------------------------
// The cursor in a wrapped input
// ---------------------------------------------------------------------

/// The cells a character takes: its width, or one where it has none.
pub open spec fn cell_width(c: char) -> nat {
    match char_width_spec(c) {
        Some(w) => w as nat,
        None => 1,
    }
}

/// The cells a run of characters takes.
pub open spec fn cells(s: Seq<char>) -> nat
    decreases s.len(),
{
    if s.len() == 0 {
        0
    } else {
        cells(s.drop_last()) + cell_width(s.last())
    }
}

/// The rows a line of `w` cells takes when wrapped at `iw` cells: at least
/// one.
pub open spec fn wrapped_rows(w: nat, iw: nat) -> nat {
    if w == 0 {
        1
    } else {
        ((w + iw - 1) as nat) / iw
    }
}

/// Where the cursor lands, as (column, row): walking the lines from line
/// `k`, with `remaining` characters still to pass and `y` rows used.
pub open spec fn cursor_cell(s: Seq<char>, lines: Seq<(int, int)>, k: int, remaining: int, y: nat, iw: nat) -> (nat, nat)
    decreases lines.len() - k,
{
    if k < 0 || k >= lines.len() {
        (0, y)
    } else {
        let b = lines[k].0;
        let e = lines[k].1;
        if remaining <= e - b {
            let w = cells(s.subrange(b, b + remaining));
            (w % iw, y + w / iw)
        } else {
            cursor_cell(
                s,
                lines,
                k + 1,
                remaining - (e - b) - 1,
                y + wrapped_rows(cells(s.subrange(b, e)), iw),
                iw,
            )
        }
    }
}

/// The cells of `v[from..to]`.
fn cells_of(v: &Vec<char>, from: usize, to: usize) -> (r: u128)
    requires
        from <= to <= v@.len(),
    ensures
        r == cells(v@.subrange(from as int, to as int)),
        r <= 3 * (to - from),
{
    let mut total: u128 = 0;
    let mut i = from;
    while i < to
        invariant
            from <= i <= to <= v@.len(),
            total == cells(v@.subrange(from as int, i as int)),
            total <= 3 * (i - from),
        decreases to - i,
    {
        let w: u128 = match char_width(v[i]) {
            Some(w) => w as u128,
            None => 1,
        };
        assert(v@.subrange(from as int, i + 1).drop_last() =~= v@.subrange(from as int, i as int));
        total = total + w;
        i = i + 1;
    }
    total
}

/// The cursor's column and row inside an input area `inner_width` cells
/// wide, where each `\n`-separated line wraps on its own (see
/// `cursor_cell`); a character without a width counts as one cell. The
/// row is narrowed to `u16` as the screen position is.
pub fn cursor_position_in_multiline(text: &str, cursor_char_pos: usize, inner_width: u16) -> (r: (u16, u16))
    requires
        inner_width > 0,
    ensures
        r.0 as nat == cursor_cell(text@, line_bounds(text@), 0, cursor_char_pos as int, 0, inner_width as nat).0,
        r.1 as nat == cursor_cell(text@, line_bounds(text@), 0, cursor_char_pos as int, 0, inner_width as nat).1
            % 0x1_0000,
{
    let v = chars_of(text);
    let iw = inner_width as u128;
    let ghost lines = line_bounds(v@);
    let ghost target = cursor_cell(v@, lines, 0, cursor_char_pos as int, 0, iw as nat);
    let mut remaining: usize = cursor_char_pos;
    let mut y_offset: u128 = 0;
    let mut b: usize = 0;
    let ghost mut k: int = 0;
    loop
        invariant
            v@ == text@,
            lines == line_bounds(v@),
            iw == inner_width as u128,
            iw > 0,
            0 <= k < lines.len(),
            b <= v@.len(),
            lines.subrange(k, lines.len() as int) == line_bounds_from(v@, b as int),
            cursor_cell(v@, lines, k, remaining as int, y_offset as nat, iw as nat) == target,
            target == cursor_cell(text@, line_bounds(text@), 0, cursor_char_pos as int, 0, inner_width as nat),
            y_offset <= 4 * b,
        decreases v@.len() - b,
    {
        let e = next_newline_exec(&v, b);
        proof {
            lemma_next_newline(v@, b as int);
            assert(lines[k] == line_bounds_from(v@, b as int)[0]);
        }
        let count = e - b;
        assert(lines[k].0 == b as int && lines[k].1 == e as int);
        if remaining <= count {
            let w = cells_of(&v, b, b + remaining);
            let x = (w % iw) as u16;
            let y_total = y_offset + w / iw;
            let y = (y_total % 0x1_0000) as u16;
            assert(target == (w as nat % iw as nat, y_offset as nat + w as nat / iw as nat));
            assert(w % iw < iw);
            assert(x as nat == w as nat % iw as nat);
            assert(y as nat == (y_offset as nat + w as nat / iw as nat) % 0x1_0000);
            return (x, y);
        }
        let lw = cells_of(&v, b, e);
        let rows: u128 = if lw == 0 {
            1
        } else {
            (lw + iw - 1) / iw
        };
        assert(rows <= lw + 1) by (nonlinear_arith)
            requires
                iw > 0,
                lw == 0 ==> rows == 1,
                lw > 0 ==> rows == (lw + iw - 1) / (iw as int),
        ;
        if e >= v.len() {
            proof {
                assert(line_bounds_from(v@, b as int) == seq![(b as int, v@.len() as int)]);
                assert(lines.len() == k + 1);
                assert(rows as nat == wrapped_rows(lw as nat, iw as nat));
                assert(cursor_cell(
                    v@,
                    lines,
                    k + 1,
                    remaining - count - 1,
                    y_offset as nat + wrapped_rows(lw as nat, iw as nat),
                    iw as nat,
                ) == (0nat, y_offset as nat + rows as nat));
                assert(target == (0nat, y_offset as nat + rows as nat));
            }
            return (0, ((y_offset + rows) % 0x1_0000) as u16);
        }
        proof {
            assert(line_bounds_from(v@, b as int) == seq![(b as int, e as int)] + line_bounds_from(
                v@,
                e + 1,
            ));
            let rest = lines.subrange(k, lines.len() as int);
            assert(rest == seq![(b as int, e as int)] + line_bounds_from(v@, e + 1));
            assert(lines.subrange(k + 1, lines.len() as int) =~= rest.subrange(1, rest.len() as int));
            assert(rest.subrange(1, rest.len() as int) =~= line_bounds_from(v@, e + 1));
        }
        y_offset = y_offset + rows;
        remaining = remaining - count - 1;
        b = e + 1;
        proof {
            k = k + 1;
        }
    }
}

// ---------------------------------------------------------------------
// Breadcrumb trail
// ---------------------------------------------------------------------

/// What a piece of the breadcrumb trail stands for (each has its colour).
#[derive(Debug, Clone, Copy, PartialEq, Eq, Structural)]
pub enum CrumbKind {
    Bastion,
    Separator,
    Connection,
    Database,
    Table,
}

/// One piece of the breadcrumb trail.
pub struct Crumb {
    pub text: String,
    pub kind: CrumbKind,
}

/// The pieces of the trail as (kind, text): the bastion host and a
/// separator when connected through one, the connection name, then the
/// database and, under it, the table, each after a separator.
pub open spec fn trail(
    connection: Seq<char>,
    bastion: Option<Seq<char>>,
    database: Option<Seq<char>>,
    table: Option<Seq<char>>,
) -> Seq<(CrumbKind, Seq<char>)> {
    let sep = (CrumbKind::Separator, " > "@);
    let head = match bastion {
        Some(b) => seq![(CrumbKind::Bastion, b), sep],
        None => Seq::empty(),
    };
    let tail = match database {
        Some(d) => seq![sep, (CrumbKind::Database, d)] + match table {
            Some(t) => seq![sep, (CrumbKind::Table, t)],
            None => Seq::empty(),
        },
        None => Seq::empty(),
    };
    head + seq![(CrumbKind::Connection, connection)] + tail
}

/// The (kind, text) pairs of some crumbs.
pub open spec fn crumbs_view(v: Seq<Crumb>) -> Seq<(CrumbKind, Seq<char>)> {
    v.map_values(|c: Crumb| (c.kind, c.text@))
}

/// `view` of an optional string slice.
pub open spec fn opt_str_view(o: Option<&str>) -> Option<Seq<char>> {
    match o {
        Some(s) => Some(s@),
        None => None,
    }
}

fn push_crumb(v: &mut Vec<Crumb>, kind: CrumbKind, text: &str)
    ensures
        crumbs_view(final(v)@) == crumbs_view(old(v)@).push((kind, text@)),
{
    let ghost before = v@;
    v.push(Crumb { text: str_to_string(text), kind });
    assert(crumbs_view(v@) =~= crumbs_view(before).push((kind, text@)));
}

/// The breadcrumb trail (see `trail`), or nothing before a connection is
/// chosen.
pub fn breadcrumb(
    connection_name: Option<&str>,
    bastion_name: Option<&str>,
    database: Option<&str>,
    table: Option<&str>,
) -> (r: Option<Vec<Crumb>>)
    ensures
        connection_name is None ==> r is None,
        connection_name matches Some(c) ==> (r matches Some(v) && crumbs_view(v@) == trail(
            c@,
            opt_str_view(bastion_name),
            opt_str_view(database),
            opt_str_view(table),
        )),
{
    let conn = match connection_name {
        Some(c) => c,
        None => return None,
    };
    let mut v: Vec<Crumb> = Vec::new();
    assert(crumbs_view(v@) =~= Seq::<(CrumbKind, Seq<char>)>::empty());
    match bastion_name {
        Some(b) => {
            push_crumb(&mut v, CrumbKind::Bastion, b);
            push_crumb(&mut v, CrumbKind::Separator, " > ");
        },
        None => {},
    }
    push_crumb(&mut v, CrumbKind::Connection, conn);
    match database {
        Some(d) => {
            push_crumb(&mut v, CrumbKind::Separator, " > ");
            push_crumb(&mut v, CrumbKind::Database, d);
            match table {
                Some(t) => {
                    push_crumb(&mut v, CrumbKind::Separator, " > ");
                    push_crumb(&mut v, CrumbKind::Table, t);
                },
                None => {},
            }
        },
        None => {},
    }
    assert(crumbs_view(v@) =~= trail(
        conn@,
        opt_str_view(bastion_name),
        opt_str_view(database),
        opt_str_view(table),
    ));
    Some(v)
}

// ---------------------------------------------------------------------
// Texts of the screens
// ---------------------------------------------------------------------

/// A message of the interface in `lang`.
pub open spec fn tui_text<'a>(m: TuiMsg<'a>, lang: Lang) -> Seq<char> {
    match lang {
        Lang::En => tui_msg_en(m),
        Lang::Ja => tui_msg_ja(m),
    }
}

/// The entry of a connection in the connection list:
/// `name - user@host:port`, followed by ` (via user@host)` for one that
/// goes through its own bastion.
pub open spec fn connection_entry(c: ConnectionConfig) -> Seq<char> {
    c.name@ + " - "@ + c.mysql.user@ + "@"@ + c.mysql.host@ + ":"@ + decimal(c.mysql.port as nat)
        + match c.bastion {
        Some(BastionSetting::Config(b)) => " (via "@ + b.user@ + "@"@ + b.host@ + ")"@,
        _ => Seq::empty(),
    }
}

/// The text of a connection in the connection list (see
/// `connection_entry`).
pub fn connection_entry_text(conn: &ConnectionConfig) -> (r: String)
    ensures
        r@ == connection_entry(*conn),
{
    let mut s = conn.name.clone();
    s.append(" - ");
    s.append(conn.mysql.user.as_str());
    s.append("@");
    s.append(conn.mysql.host.as_str());
    s.append(":");
    let port = decimal_string(conn.mysql.port as u128);
    s.append(port.as_str());
    match &conn.bastion {
        Some(BastionSetting::Config(b)) => {
            s.append(" (via ");
            s.append(b.user.as_str());
            s.append("@");
            s.append(b.host.as_str());
            s.append(")");
        },
        _ => {},
    }
    s
}

/// The connection panel: the connection's name, host and port, and
/// database, each after its localized label, one per line, and the
/// database chosen with USE (if any) on a last line.
pub open spec fn connection_info(c: ConnectionConfig, current_database: Option<Seq<char>>, lang: Lang) -> Seq<char> {
    tui_text(TuiMsg::ConnectionTarget, lang) + ": "@ + c.name@ + "\n"@ + tui_text(TuiMsg::Host, lang)
        + ": "@ + c.mysql.host@ + ":"@ + decimal(c.mysql.port as nat) + "\n"@ + tui_text(
        TuiMsg::Database,
        lang,
    ) + ": "@ + c.mysql.database@ + match current_database {
        Some(d) => "\n"@ + tui_text(TuiMsg::SelectedDatabase, lang) + ": "@ + d,
        None => Seq::empty(),
    }
}

/// The text of the connection panel (see `connection_info`).
pub fn connection_info_text(conn: &ConnectionConfig, current_database: Option<&str>, lang: Lang) -> (r: String)
    ensures
        r@ == connection_info(*conn, opt_str_view(current_database), lang),
{
    let mut s = TuiMsg::ConnectionTarget.translate(lang);
    s.append(": ");
    s.append(conn.name.as_str());
    s.append("\n");
    let host = TuiMsg::Host.translate(lang);
    s.append(host.as_str());
    s.append(": ");
    s.append(conn.mysql.host.as_str());
    s.append(":");
    let port = decimal_string(conn.mysql.port as u128);
    s.append(port.as_str());
    s.append("\n");
    let db_label = TuiMsg::Database.translate(lang);
    s.append(db_label.as_str());
    s.append(": ");
    s.append(conn.mysql.database.as_str());
    match current_database {
        Some(d) => {
            s.append("\n");
            let label = TuiMsg::SelectedDatabase.translate(lang);
            s.append(label.as_str());
            s.append(": ");
            s.append(d);
        },
        None => {},
    }
    s
}

/// The lines `column: value` of a record, joined with `\n`.
pub open spec fn record_preview(pairs: Seq<(String, String)>) -> Seq<char>
    decreases pairs.len(),
{
    if pairs.len() == 0 {
        Seq::empty()
    } else if pairs.len() == 1 {
        pairs[0].0@ + ": "@ + pairs[0].1@
    } else {
        record_preview(pairs.drop_last()) + "\n"@ + pairs.last().0@ + ": "@ + pairs.last().1@
    }
}

/// The preview of the selected record: one `column: value` line per
/// column.
pub fn record_preview_text(record: &SelectedRecord) -> (r: String)
    ensures
        r@ == record_preview(record.columns@),
{
    let mut s = String::new();
    let mut i: usize = 0;
    while i < record.columns.len()
        invariant
            i <= record.columns@.len(),
            s@ == record_preview(record.columns@.take(i as int)),
        decreases record.columns@.len() - i,
    {
        let (col, val) = &record.columns[i];
        assert(record.columns@.take(i + 1).drop_last() =~= record.columns@.take(i as int));
        if i > 0 {
            s.append("\n");
        }
        s.append(col.as_str());
        s.append(": ");
        s.append(val.as_str());
        i = i + 1;
    }
    assert(record.columns@.take(record.columns@.len() as int) =~= record.columns@);
    s
}

/// The title of the SQL input as pieces, the flag telling which piece is
/// emphasized: on a read-only connection `title `, the emphasized
/// read-only label and ` suffix`; otherwise `title suffix` alone.
pub open spec fn sql_title(readonly: bool, lang: Lang) -> Seq<(Seq<char>, bool)> {
    if readonly {
        seq![
            (tui_text(TuiMsg::SqlInputTitle, lang) + " "@, false),
            (tui_text(TuiMsg::SqlInputReadonlyLabel, lang), true),
            (" "@ + tui_text(TuiMsg::SqlInputTitleSuffix, lang), false),
        ]
    } else {
        seq![
            (tui_text(TuiMsg::SqlInputTitle, lang) + " "@ + tui_text(TuiMsg::SqlInputTitleSuffix, lang), false),
        ]
    }
}

/// The title pieces of the SQL input (see `sql_title`).
pub fn sql_input_title(readonly: bool, lang: Lang) -> (r: Vec<(String, bool)>)
    ensures
        r@.len() == sql_title(readonly, lang).len(),
        forall|i: int|
            0 <= i < r@.len() ==> (#[trigger] r@[i]).0@ == sql_title(readonly, lang)[i].0 && r@[i].1
                == sql_title(readonly, lang)[i].1,
{
    let title = TuiMsg::SqlInputTitle.translate(lang);
    let suffix = TuiMsg::SqlInputTitleSuffix.translate(lang);
    let mut v: Vec<(String, bool)> = Vec::new();
    if readonly {
        let mut first = title;
        first.append(" ");
        let label = TuiMsg::SqlInputReadonlyLabel.translate(lang);
        let mut last = str_to_string(" ");
        last.append(suffix.as_str());
        v.push((first, false));
        v.push((label, true));
        v.push((last, false));
    } else {
        let mut only = title;
        only.append(" ");
        only.append(suffix.as_str());
        v.push((only, false));
    }
    v
}

} // verus!
