//! Glyph tables for box drawing, bars, blocks and pointers. Every symbol here
//! is a single terminal cell wide, so each table holds plain characters.

use vstd::prelude::*;

verus! {

/// One point per cell as a dot.
pub const DOT: char = '•';

/// Marker to use when plotting data points.
#[derive(Debug, Clone, Copy)]
pub enum Marker {
    /// One point per cell in shape of dot.
    Dot,
    /// One point per cell in shape of a block.
    Block,
    /// Up to 8 points per cell.
    Braille,
}

/// The braille dot bit for a dot row (0..4, top to bottom) and column (0 left,
/// 1 right), as offsets from the braille block base codepoint.
pub fn braille_dot(row: usize, col: usize) -> (r: u16)
    requires
        row < 4,
        col < 2,
    ensures
        r == ({
            let bits = seq![
                seq![0x0001u16, 0x0008u16],
                seq![0x0002u16, 0x0010u16],
                seq![0x0004u16, 0x0020u16],
                seq![0x0040u16, 0x0080u16],
            ];
            bits[row as int][col as int]
        }),
{
    match (row, col) {
        (0, 0) => 0x0001,
        (0, 1) => 0x0008,
        (1, 0) => 0x0002,
        (1, 1) => 0x0010,
        (2, 0) => 0x0004,
        (2, 1) => 0x0020,
        (3, 0) => 0x0040,
        (_, 0) => 0x0080,
        (_, _) => {
            proof {
                assert(row == 3 && col == 1);
            }
            0x0080
        },
    }
}

/// Vertical block fill levels, full to empty.
#[derive(Debug, Clone, Copy, PartialEq, Eq, Structural)]
pub struct BlockSet {
    pub full: char,
    pub seven_eighths: char,
    pub three_quarters: char,
    pub five_eighths: char,
    pub half: char,
    pub three_eighths: char,
    pub one_quarter: char,
    pub one_eighth: char,
    pub empty: char,
}

pub fn block_nine_levels() -> (r: BlockSet)
    ensures
        r.full == '█',
        r.empty == ' ',
{
    BlockSet {
        full: '█',
        seven_eighths: '▉',
        three_quarters: '▊',
        five_eighths: '▋',
        half: '▌',
        three_eighths: '▍',
        one_quarter: '▎',
        one_eighth: '▏',
        empty: ' ',
    }
}

pub fn block_three_levels() -> (r: BlockSet)
    ensures
        r.full == '█',
        r.empty == ' ',
{
    BlockSet {
        full: '█',
        seven_eighths: '█',
        three_quarters: '▌',
        five_eighths: '▌',
        half: '▌',
        three_eighths: '▌',
        one_quarter: '▌',
        one_eighth: ' ',
        empty: ' ',
    }
}

/// Horizontal bar fill levels, full to empty.
#[derive(Debug, Clone, Copy, PartialEq, Eq, Structural)]
pub struct BarSet {
    pub full: char,
    pub seven_eighths: char,
    pub three_quarters: char,
    pub five_eighths: char,
    pub half: char,
    pub three_eighths: char,
    pub one_quarter: char,
    pub one_eighth: char,
    pub empty: char,
}

pub fn bar_nine_levels() -> (r: BarSet)
    ensures
        r.full == '█',
        r.empty == ' ',
{
    BarSet {
        full: '█',
        seven_eighths: '▇',
        three_quarters: '▆',
        five_eighths: '▅',
        half: '▄',
        three_eighths: '▃',
        one_quarter: '▂',
        one_eighth: '▁',
        empty: ' ',
    }
}

pub fn bar_three_levels() -> (r: BarSet)
    ensures
        r.full == '█',
        r.empty == ' ',
{
    BarSet {
        full: '█',
        seven_eighths: '█',
        three_quarters: '▄',
        five_eighths: '▄',
        half: '▄',
        three_eighths: '▄',
        one_quarter: '▄',
        one_eighth: ' ',
        empty: ' ',
    }
}

/// Box-drawing line pieces: edges, corners, junctions and the cross.
#[derive(Debug, Clone, Copy, PartialEq, Eq, Structural)]
pub struct LineSet {
    pub vertical: char,
    pub horizontal: char,
    pub top_right: char,
    pub top_left: char,
    pub bottom_right: char,
    pub bottom_left: char,
    pub vertical_left: char,
    pub vertical_right: char,
    pub horizontal_down: char,
    pub horizontal_up: char,
    pub cross: char,
}

/// The plain single-line box-drawing table.
pub open spec fn spec_line_normal() -> LineSet {
    LineSet {
        vertical: '│',
        horizontal: '─',
        top_right: '┐',
        top_left: '┌',
        bottom_right: '┘',
        bottom_left: '└',
        vertical_left: '┤',
        vertical_right: '├',
        horizontal_down: '┬',
        horizontal_up: '┴',
        cross: '┼',
    }
}

pub fn line_normal() -> (r: LineSet)
    ensures
        r == spec_line_normal(),
        r == (LineSet {
            vertical: '│',
            horizontal: '─',
            top_right: '┐',
            top_left: '┌',
            bottom_right: '┘',
            bottom_left: '└',
            vertical_left: '┤',
            vertical_right: '├',
            horizontal_down: '┬',
            horizontal_up: '┴',
            cross: '┼',
        }),
{
    LineSet {
        vertical: '│',
        horizontal: '─',
        top_right: '┐',
        top_left: '┌',
        bottom_right: '┘',
        bottom_left: '└',
        vertical_left: '┤',
        vertical_right: '├',
        horizontal_down: '┬',
        horizontal_up: '┴',
        cross: '┼',
    }
}

pub fn line_ascii() -> (r: LineSet)
    ensures
        r.vertical == '|',
        r.horizontal == '-',
        r.cross == '+',
{
    LineSet {
        vertical: '|',
        horizontal: '-',
        top_right: '+',
        top_left: '+',
        bottom_right: '+',
        bottom_left: '+',
        vertical_left: '+',
        vertical_right: '+',
        horizontal_down: '+',
        horizontal_up: '+',
        cross: '+',
    }
}

pub fn line_double() -> (r: LineSet)
    ensures
        r.vertical == '║',
        r.horizontal == '═',
{
    LineSet {
        vertical: '║',
        horizontal: '═',
        top_right: '╗',
        top_left: '╔',
        bottom_right: '╝',
        bottom_left: '╚',
        vertical_left: '╣',
        vertical_right: '╠',
        horizontal_down: '╦',
        horizontal_up: '╩',
        cross: '╬',
    }
}

pub fn line_thick() -> (r: LineSet)
    ensures
        r.vertical == '┃',
        r.horizontal == '━',
{
    LineSet {
        vertical: '┃',
        horizontal: '━',
        top_right: '┓',
        top_left: '┏',
        bottom_right: '┛',
        bottom_left: '┗',
        vertical_left: '┫',
        vertical_right: '┣',
        horizontal_down: '┳',
        horizontal_up: '┻',
        cross: '╋',
    }
}

pub fn line_rounded() -> (r: LineSet)
    ensures
        r.vertical == '│',
        r.horizontal == '─',
        r.top_left == '╭',
        r.top_right == '╮',
        r.bottom_left == '╰',
        r.bottom_right == '╯',
{
    LineSet {
        vertical: '│',
        horizontal: '─',
        top_right: '╮',
        top_left: '╭',
        bottom_right: '╯',
        bottom_left: '╰',
        vertical_left: '┤',
        vertical_right: '├',
        horizontal_down: '┬',
        horizontal_up: '┴',
        cross: '┼',
    }
}

/// Directional pointer glyphs for the eight compass directions.
#[derive(Debug, Clone, Copy, PartialEq, Eq, Structural)]
pub struct PointerSet {
    pub up: char,
    pub up_right: char,
    pub right: char,
    pub right_down: char,
    pub down: char,
    pub down_left: char,
    pub left: char,
    pub left_up: char,
}

pub fn pointer_triangle() -> (r: PointerSet)
    ensures
        r.up == '▲',
        r.right == '▶',
        r.down == '▼',
        r.left == '◀',
{
    PointerSet {
        up: '▲',
        up_right: ' ',
        right: '▶',
        right_down: ' ',
        down: '▼',
        down_left: ' ',
        left: '◀',
        left_up: ' ',
    }
}

pub fn pointer_arrow() -> (r: PointerSet)
    ensures
        r.up == '↑',
        r.right == '→',
        r.down == '↓',
        r.left == '←',
{
    PointerSet {
        up: '↑',
        up_right: '↗',
        right: '→',
        right_down: '↘',
        down: '↓',
        down_left: '↙',
        left: '←',
        left_up: '↖',
    }
}

pub fn pointer_ascii() -> (r: PointerSet)
    ensures
        r.up == '^',
        r.right == '>',
        r.left == '<',
{
    PointerSet {
        up: '^',
        up_right: ' ',
        right: '>',
        right_down: ' ',
        down: ' ',
        down_left: ' ',
        left: '<',
        left_up: ' ',
    }
}

} // verus!
