//! The frame diff renderer: a merge walk over the current and previous
//! frames' occupied-cell sequences (both already in row-major order) that
//! emits a minimal stream of terminal commands.
//!
//! Equal cells emit nothing; a cell only in the current frame is drawn; a
//! cell only in the previous frame is erased by printing a blank in the
//! default style at its position (the erase reuses a one-column space whatever
//! the erased glyph's width: a known approximation). Cursor moves and style
//! changes are emitted only when they differ from the last emitted value, and
//! printing contiguous cells on one row needs no move between them.

use vstd::prelude::*;
use crate::geometry::{sat_add, VecI2};
use crate::screen::char_width_of;
use crate::style::{Attribute, Attributes, Color, Style};

verus! {

/// The terminal cursor position, as requested by client code (for text
/// fields and the like); `None` hides the cursor.
#[derive(Debug, Default, Clone, Copy, PartialEq, Eq, Structural)]
pub struct Cursor {
    pub x: u16,
    pub y: u16,
}

/// One byte-oriented command for the terminal backend.
#[derive(Debug, Clone, PartialEq)]
pub enum TermCommand {
    ClearAll,
    MoveTo(u16, u16),
    MoveToRow(u16),
    MoveToColumn(u16),
    SetAttributes(Attributes),
    SetForeground(Color),
    SetBackground(Color),
    Print(Vec<char>),
    ShowCursor,
    HideCursor,
}

/// The ghost model of a command (printed text as a character sequence).
#[verifier::ext_equal]
pub enum CmdModel {
    ClearAll,
    MoveTo(u16, u16),
    MoveToRow(u16),
    MoveToColumn(u16),
    SetAttributes(Attributes),
    SetForeground(Color),
    SetBackground(Color),
    Print(Seq<char>),
    ShowCursor,
    HideCursor,
}

/// The model of one command.
pub open spec fn cmd_view(c: TermCommand) -> CmdModel {
    match c {
        TermCommand::ClearAll => CmdModel::ClearAll,
        TermCommand::MoveTo(x, y) => CmdModel::MoveTo(x, y),
        TermCommand::MoveToRow(y) => CmdModel::MoveToRow(y),
        TermCommand::MoveToColumn(x) => CmdModel::MoveToColumn(x),
        TermCommand::SetAttributes(a) => CmdModel::SetAttributes(a),
        TermCommand::SetForeground(c) => CmdModel::SetForeground(c),
        TermCommand::SetBackground(c) => CmdModel::SetBackground(c),
        TermCommand::Print(t) => CmdModel::Print(t@),
        TermCommand::ShowCursor => CmdModel::ShowCursor,
        TermCommand::HideCursor => CmdModel::HideCursor,
    }
}

/// The model of a command stream.
pub open spec fn cmds_view(r: Seq<TermCommand>) -> Seq<CmdModel> {
    r.map_values(|c: TermCommand| cmd_view(c))
}

/// Whether a command draws or erases a cell (everything but cursor
/// visibility and positioning bookkeeping is a `Print`).
pub open spec fn is_print(c: CmdModel) -> bool {
    c is Print
}

/// The displayed width of a text run: the sum of its characters' widths.
pub open spec fn seq_width(s: Seq<char>) -> int
    decreases s.len(),
{
    if s.len() == 0 {
        0
    } else {
        char_width_of(s[0]) + seq_width(s.drop_first())
    }
}

/// What the emitter remembers between cells: the position the cursor will be
/// at after the last print, and the last emitted colours and attributes.
#[derive(Debug, Clone, Copy, PartialEq, Eq, Structural)]
pub struct EmitState {
    pub last_pos: Option<VecI2>,
    pub last_fg: Option<Color>,
    pub last_bg: Option<Color>,
    pub last_attr: Option<Attributes>,
}

impl EmitState {
    /// The emitter's state at the start of a frame: nothing emitted yet.
    pub fn fresh() -> (r: Self)
        ensures
            r == EmitState::spec_fresh(),
    {
        EmitState { last_pos: None, last_fg: None, last_bg: None, last_attr: None }
    }

    pub open spec fn spec_fresh() -> EmitState {
        EmitState { last_pos: None, last_fg: None, last_bg: None, last_attr: None }
    }
}

/// The cursor moves needed before printing at `pos`: none when the cursor is
/// already there; a row-only or column-only move when one coordinate matches;
/// a full move otherwise or when nothing was printed yet.
pub open spec fn spec_move_cmds(st: EmitState, pos: VecI2) -> Seq<CmdModel> {
    match st.last_pos {
        Some(lp) => if lp == pos {
            Seq::empty()
        } else if lp.x == pos.x {
            seq![CmdModel::MoveToRow(pos.y)]
        } else if lp.y == pos.y {
            seq![CmdModel::MoveToColumn(pos.x)]
        } else {
            seq![CmdModel::MoveTo(pos.x, pos.y)]
        },
        None => seq![CmdModel::MoveTo(pos.x, pos.y)],
    }
}

/// The commands that print one cell from state `st`, and the state after:
/// a move when needed, then each style component that differs from the last
/// emitted one (attributes always carry the reset flag when emitted), then
/// the text itself. The remembered position advances by the text's width.
pub open spec fn spec_emit_cell(st: EmitState, text: Seq<char>, style: Style, pos: VecI2) -> (
    Seq<CmdModel>,
    EmitState,
) {
    let moves = spec_move_cmds(st, pos);
    let attrs = if st.last_attr != Some(style.attributes) {
        seq![
            CmdModel::SetAttributes(
                Attributes { bits: style.attributes.bits | Attribute::Reset.spec_bit() },
            ),
        ]
    } else {
        Seq::empty()
    };
    let fgs = if st.last_fg != Some(style.fg) {
        seq![CmdModel::SetForeground(style.fg)]
    } else {
        Seq::empty()
    };
    let bgs = if st.last_bg != Some(style.bg) {
        seq![CmdModel::SetBackground(style.bg)]
    } else {
        Seq::empty()
    };
    let w = seq_width(text);
    let next_x: u16 = if pos.x + w > u16::MAX {
        u16::MAX
    } else {
        (pos.x + w) as u16
    };
    (
        moves + attrs + fgs + bgs + seq![CmdModel::Print(text)],
        EmitState {
            last_pos: Some(VecI2 { x: next_x, y: pos.y }),
            last_fg: Some(style.fg),
            last_bg: Some(style.bg),
            last_attr: Some(style.attributes),
        },
    )
}

/// One drawn cell: its text, its style and its grid position.
pub open spec fn triple_eq(
    a: (Seq<char>, Style, VecI2),
    b: (Seq<char>, Style, VecI2),
) -> bool {
    a.0 == b.0 && a.1 == b.1 && a.2 == b.2
}

/// The merge walk over the two position-ordered cell sequences, from indices
/// `i` (current frame) and `j` (previous frame), with emitter state `st`.
///
/// - equal cells at the same step: advance both, emit nothing;
/// - same position, different content: draw the current cell, advance both;
/// - current cell first in row-major order: draw it, advance the current
///   side;
/// - previous cell first: erase it (a blank in the default style at its
///   position), advance the previous side;
/// - one side exhausted: drain the other as draws or erases.
pub open spec fn spec_diff(
    cur: Seq<(Seq<char>, Style, VecI2)>,
    prev: Seq<(Seq<char>, Style, VecI2)>,
    i: int,
    j: int,
    st: EmitState,
) -> (Seq<CmdModel>, EmitState)
    decreases
            (if i < cur.len() {
                cur.len() - i
            } else {
                0
            }) + (if j < prev.len() {
                prev.len() - j
            } else {
                0
            }),
{
    if (i < 0 || i >= cur.len()) && (j < 0 || j >= prev.len()) {
        (Seq::empty(), st)
    } else if j < 0 || j >= prev.len() {
        let step = spec_emit_cell(st, cur[i].0, cur[i].1, cur[i].2);
        let rest = spec_diff(cur, prev, i + 1, j, step.1);
        (step.0 + rest.0, rest.1)
    } else if i < 0 || i >= cur.len() {
        let step = spec_emit_cell(st, seq![' '], Style::spec_default(), prev[j].2);
        let rest = spec_diff(cur, prev, i, j + 1, step.1);
        (step.0 + rest.0, rest.1)
    } else {
        let c = cur[i];
        let p = prev[j];
        if triple_eq(c, p) {
            spec_diff(cur, prev, i + 1, j + 1, st)
        } else if c.2.y == p.2.y && c.2.x == p.2.x {
            let step = spec_emit_cell(st, c.0, c.1, c.2);
            let rest = spec_diff(cur, prev, i + 1, j + 1, step.1);
            (step.0 + rest.0, rest.1)
        } else if c.2.y < p.2.y || (c.2.y == p.2.y && c.2.x < p.2.x) {
            let step = spec_emit_cell(st, c.0, c.1, c.2);
            let rest = spec_diff(cur, prev, i + 1, j, step.1);
            (step.0 + rest.0, rest.1)
        } else {
            let step = spec_emit_cell(st, seq![' '], Style::spec_default(), p.2);
            let rest = spec_diff(cur, prev, i, j + 1, step.1);
            (step.0 + rest.0, rest.1)
        }
    }
}

/// The cursor visibility and position commands at the end of a frame: show
/// the cursor when it appears, hide it when it disappears, and move to it
/// when present.
pub open spec fn spec_cursor_cmds(
    current_cursor: Option<Cursor>,
    last_cursor: Option<Cursor>,
) -> Seq<CmdModel> {
    let vis = if last_cursor != current_cursor {
        if last_cursor is None {
            seq![CmdModel::ShowCursor]
        } else if current_cursor is None {
            seq![CmdModel::HideCursor]
        } else {
            Seq::empty()
        }
    } else {
        Seq::empty()
    };
    let mv = match current_cursor {
        Some(c) => seq![CmdModel::MoveTo(c.x, c.y)],
        None => Seq::empty(),
    };
    vis + mv
}

/// The whole frame's command stream: a full clear when the terminal was
/// resized, the merge-walk diff, then the cursor commands.
pub open spec fn spec_render(
    cur: Seq<(Seq<char>, Style, VecI2)>,
    prev: Seq<(Seq<char>, Style, VecI2)>,
    resized: bool,
    current_cursor: Option<Cursor>,
    last_cursor: Option<Cursor>,
) -> Seq<CmdModel> {
    let clear = if resized {
        seq![CmdModel::ClearAll]
    } else {
        Seq::empty()
    };
    clear + spec_diff(cur, prev, 0, 0, EmitState::spec_fresh()).0 + spec_cursor_cmds(
        current_cursor,
        last_cursor,
    )
}

/// Compare two character vectors by contents.
fn chars_eq(a: &Vec<char>, b: &Vec<char>) -> (r: bool)
    ensures
        r == (a@ == b@),
{
    if a.len() != b.len() {
        return false;
    }
    let n = a.len();
    let mut i: usize = 0;
    while i < n
        invariant
            i <= n,
            n == a@.len(),
            n == b@.len(),
            forall|k: int| 0 <= k < i ==> #[trigger] a@[k] == b@[k],
        decreases n - i,
    {
        if a[i] != b[i] {
            return false;
        }
        i += 1;
    }
    proof {
        assert(a@ =~= b@);
    }
    true
}

/// Copy a character vector.
fn clone_chars(v: &Vec<char>) -> (r: Vec<char>)
    ensures
        r@ == v@,
{
    let n = v.len();
    let mut r: Vec<char> = Vec::new();
    let mut i: usize = 0;
    while i < n
        invariant
            i <= n,
            n == v@.len(),
            r@.len() == i,
            forall|k: int| 0 <= k < i ==> #[trigger] r@[k] == v@[k],
        decreases n - i,
    {
        r.push(v[i]);
        i += 1;
    }
    proof {
        assert(r@ =~= v@);
    }
    r
}

/// The displayed width of a text run, clamped to the addressable range.
pub fn text_width(t: &Vec<char>) -> (r: u16)
    ensures
        r as int == if seq_width(t@) > u16::MAX {
            u16::MAX as int
        } else {
            seq_width(t@)
        },
{
    let n = t.len();
    let mut acc: u16 = 0;
    let mut i: usize = n;
    proof {
        assert(t@.subrange(n as int, n as int) =~= Seq::<char>::empty());
    }
    while i > 0
        invariant
            i <= n,
            n == t@.len(),
            acc as int == if seq_width(t@.subrange(i as int, n as int)) > u16::MAX {
                u16::MAX as int
            } else {
                seq_width(t@.subrange(i as int, n as int))
            },
        decreases i,
    {
        i -= 1;
        let w = crate::screen::char_display_width(t[i]);
        proof {
            lemma_seq_width_nonneg(t@.subrange(i + 1, n as int));
            assert(t@.subrange(i as int, n as int).drop_first() =~= t@.subrange(i + 1, n as int));
            assert(t@.subrange(i as int, n as int)[0] == t@[i as int]);
        }
        acc = w.saturating_add(acc);
    }
    proof {
        assert(t@.subrange(0, n as int) =~= t@);
    }
    acc
}

/// A run's width is never negative.
pub proof fn lemma_seq_width_nonneg(s: Seq<char>)
    ensures
        seq_width(s) >= 0,
    decreases s.len(),
{
    if s.len() == 0 {
    } else {
        lemma_seq_width_nonneg(s.drop_first());
    }
}

/// Append the commands that print one cell, updating the emitter state; the
/// exact effect is [`spec_emit_cell`].
fn emit_cell(out: &mut Vec<TermCommand>, st: &mut EmitState, text: Vec<char>, style: Style, pos: VecI2)
    ensures
        cmds_view(final(out)@) == cmds_view(old(out)@) + spec_emit_cell(
            *old(st),
            text@,
            style,
            pos,
        ).0,
        *final(st) == spec_emit_cell(*old(st), text@, style, pos).1,
{
    let ghost target = spec_emit_cell(*st, text@, style, pos);
    match st.last_pos {
        Some(lp) => {
            if lp == pos {
            } else if lp.x == pos.x {
                out.push(TermCommand::MoveToRow(pos.y));
            } else if lp.y == pos.y {
                out.push(TermCommand::MoveToColumn(pos.x));
            } else {
                out.push(TermCommand::MoveTo(pos.x, pos.y));
            }
        },
        None => {
            out.push(TermCommand::MoveTo(pos.x, pos.y));
        },
    }
    let attr_differs = match st.last_attr {
        Some(a) => !(a == style.attributes),
        None => true,
    };
    if attr_differs {
        out.push(
            TermCommand::SetAttributes(
                Attributes { bits: style.attributes.bits | Attribute::Reset.bit() },
            ),
        );
    }
    let fg_differs = match st.last_fg {
        Some(c) => !(c == style.fg),
        None => true,
    };
    if fg_differs {
        out.push(TermCommand::SetForeground(style.fg));
    }
    let bg_differs = match st.last_bg {
        Some(c) => !(c == style.bg),
        None => true,
    };
    if bg_differs {
        out.push(TermCommand::SetBackground(style.bg));
    }
    let w = text_width(&text);
    let next_x = pos.x.saturating_add(w);
    proof {
        lemma_seq_width_nonneg(text@);
    }
    out.push(TermCommand::Print(text));
    st.last_pos = Some(VecI2 { x: next_x, y: pos.y });
    st.last_fg = Some(style.fg);
    st.last_bg = Some(style.bg);
    st.last_attr = Some(style.attributes);
    proof {
        assert(cmds_view(out@) =~= cmds_view(old(out)@) + target.0);
    }
}

/// A one-column blank, used to erase a cell left over from the previous
/// frame.
fn one_space() -> (r: Vec<char>)
    ensures
        r@ == seq![' '],
{
    let mut r: Vec<char> = Vec::new();
    r.push(' ');
    proof {
        assert(r@ =~= seq![' ']);
    }
    r
}

/// Produce the terminal commands that turn the previous frame into the
/// current one: see [`spec_render`]. Both cell sequences must be in row-major
/// position order, as [`crate::screen::Screen::iter`] and
/// [`crate::screen::Screen::drain`] yield them.
pub fn render_frame(
    current: &Vec<(Vec<char>, Style, VecI2)>,
    previous: &Vec<(Vec<char>, Style, VecI2)>,
    resized: bool,
    current_cursor: Option<Cursor>,
    last_cursor: Option<Cursor>,
) -> (r: Vec<TermCommand>)
    ensures
        cmds_view(r@) == spec_render(
            crate::screen::triples_view(current@),
            crate::screen::triples_view(previous@),
            resized,
            current_cursor,
            last_cursor,
        ),
{
    let ghost cur = crate::screen::triples_view(current@);
    let ghost prev = crate::screen::triples_view(previous@);
    let mut out: Vec<TermCommand> = Vec::new();
    if resized {
        out.push(TermCommand::ClearAll);
    }
    let ghost prefix = cmds_view(out@);
    let mut st = EmitState::fresh();
    let ghost dtarget = spec_diff(cur, prev, 0, 0, EmitState::spec_fresh());
    proof {
        assert(prefix == if resized {
            seq![CmdModel::ClearAll]
        } else {
            Seq::<CmdModel>::empty()
        }) by {
            if resized {
                assert(cmds_view(out@) =~= seq![CmdModel::ClearAll]);
            } else {
                assert(cmds_view(out@) =~= Seq::<CmdModel>::empty());
            }
        }
    }
    let mut i: usize = 0;
    let mut j: usize = 0;
    while i < current.len() || j < previous.len()
        invariant
            i <= cur.len(),
            j <= prev.len(),
            cur == crate::screen::triples_view(current@),
            prev == crate::screen::triples_view(previous@),
            cur.len() == current@.len(),
            prev.len() == previous@.len(),
            dtarget == spec_diff(cur, prev, 0, 0, EmitState::spec_fresh()),
            prefix == if resized {
                seq![CmdModel::ClearAll]
            } else {
                Seq::<CmdModel>::empty()
            },
            cmds_view(out@) + spec_diff(cur, prev, i as int, j as int, st).0 == prefix + dtarget.0,
            spec_diff(cur, prev, i as int, j as int, st).1 == dtarget.1,
        decreases current@.len() - i + (previous@.len() - j),
    {
        proof {
            if i < cur.len() {
                let e = current@[i as int];
                assert(cur[i as int] == (e.0@, e.1, e.2));
            }
            if j < prev.len() {
                let e = previous@[j as int];
                assert(prev[j as int] == (e.0@, e.1, e.2));
            }
        }
        if j >= previous.len() {
            let text = clone_chars(&current[i].0);
            emit_cell(&mut out, &mut st, text, current[i].1, current[i].2);
            i += 1;
        } else if i >= current.len() {
            let sp = one_space();
            emit_cell(&mut out, &mut st, sp, Style::new(), previous[j].2);
            j += 1;
        } else {
            let same_text = chars_eq(&current[i].0, &previous[j].0);
            let equal = same_text && current[i].1 == previous[j].1 && current[i].2
                == previous[j].2;
            let cy = current[i].2.y;
            let cx = current[i].2.x;
            let py = previous[j].2.y;
            let px = previous[j].2.x;
            if equal {
                i += 1;
                j += 1;
            } else if cy == py && cx == px {
                let text = clone_chars(&current[i].0);
                emit_cell(&mut out, &mut st, text, current[i].1, current[i].2);
                i += 1;
                j += 1;
            } else if cy < py || (cy == py && cx < px) {
                let text = clone_chars(&current[i].0);
                emit_cell(&mut out, &mut st, text, current[i].1, current[i].2);
                i += 1;
            } else {
                let sp = one_space();
                emit_cell(&mut out, &mut st, sp, Style::new(), previous[j].2);
                j += 1;
            }
        }
    }
    let show_hide: bool = match (last_cursor, current_cursor) {
        (Some(a), Some(b)) => false,
        (Some(_), None) => true,
        (None, Some(_)) => true,
        (None, None) => false,
    };
    if show_hide {
        match last_cursor {
            None => {
                out.push(TermCommand::ShowCursor);
            },
            Some(_) => {
                out.push(TermCommand::HideCursor);
            },
        }
    }
    match current_cursor {
        Some(c) => {
            out.push(TermCommand::MoveTo(c.x, c.y));
        },
        None => {},
    }
    proof {
        assert(cmds_view(out@) =~= spec_render(cur, prev, resized, current_cursor, last_cursor));
    }
    out
}

/// Walking two identical sequences emits nothing and leaves the state alone.
pub proof fn lemma_diff_identical(cells: Seq<(Seq<char>, Style, VecI2)>, i: int, st: EmitState)
    ensures
        spec_diff(cells, cells, i, i, st) == (Seq::<CmdModel>::empty(), st),
    decreases cells.len() - i,
{
    if i < 0 || i >= cells.len() {
    } else {
        lemma_diff_identical(cells, i + 1, st);
    }
}

/// Idempotence under no change: when the current and previous frames hold
/// identical cell sequences, the terminal was not resized and the cursor did
/// not move, the renderer emits no commands at all.
pub proof fn law_no_change_no_output(
    cells: Seq<(Seq<char>, Style, VecI2)>,
    cursor: Option<Cursor>,
)
    ensures
        cursor is None ==> spec_render(cells, cells, false, cursor, cursor) == Seq::<
            CmdModel,
        >::empty(),
        spec_render(cells, cells, false, cursor, cursor) == spec_cursor_cmds(cursor, cursor),
        forall|k: int|
            0 <= k < spec_render(cells, cells, false, cursor, cursor).len() ==> !is_print(
                #[trigger] spec_render(cells, cells, false, cursor, cursor)[k],
            ),
{
    lemma_diff_identical(cells, 0, EmitState::spec_fresh());
    assert(spec_render(cells, cells, false, cursor, cursor) =~= spec_cursor_cmds(cursor, cursor));
    if cursor is None {
        assert(spec_render(cells, cells, false, cursor, cursor) =~= Seq::<CmdModel>::empty());
    }
}

} // verus!
