//! The layered cell-buffer screen model.
//!
//! A [`Screen`] owns a flat array of cell slots sized `width * height`, a
//! growable text pool and a growable style pool. A slot is either free,
//! occupied by an anchor cell (a reference into the pools plus a layer), or an
//! associated continuation of a multi-column glyph, pointing back at its
//! anchor's column for erasure. A multi-column glyph always occupies
//! contiguous slots of one row: the anchor, then its continuations.
//!
//! The ghost model of a screen is its [`Screen::grid`]: one [`SlotModel`] per
//! slot, with the pool indirections resolved to the actual text and style.

use vstd::prelude::*;
use crate::geometry::{Rect, VecI2};
use crate::style::Style;

verus! {

/// Names the displayed column width of a character, as the Unicode width
/// tables give it (0 for a control or combining character, up to 3 columns).
pub uninterp spec fn char_width_of(c: char) -> nat;

/// Relies on `unicode_width::UnicodeWidthChar::width`: the displayed column
/// width of one character, `None` (here 0) for a control character. The
/// result depends on the character alone; the version's tables never give a
/// width above 3, and every printable ASCII character is one column wide.
#[verifier::external_body]
pub fn char_display_width(c: char) -> (r: u16)
    ensures
        r as nat == char_width_of(c),
        r <= 3,
        ' ' <= c && c <= '~' ==> r == 1,
{
    unicode_width::UnicodeWidthChar::width(c).unwrap_or(0) as u16
}

/// An occupied slot's contents: a span of the text pool, a style-pool index
/// and the layer the glyph was drawn on.
#[derive(Clone, Copy, PartialEq, Eq, Structural, Debug, Hash)]
pub struct Cell {
    str_offset: usize,
    str_len: usize,
    layer: u8,
    style_offset: usize,
}

/// One slot of the grid: free, an anchor cell, or the continuation of a
/// multi-column glyph anchored at column `asociated_x_position` of the same
/// row.
#[derive(Clone, Copy, PartialEq, Eq, Structural, Debug, Hash)]
pub enum CellData {
    Occupied(Cell),
    Free,
    Asociated { layer: u8, asociated_x_position: u16 },
}

impl CellData {
    /// A free slot.
    pub fn none() -> (r: Self)
        ensures
            r == CellData::Free,
    {
        CellData::Free
    }

    /// A continuation slot for a glyph on `layer` anchored at column
    /// `asociated_x_position`.
    pub fn asociated(layer: u8, asociated_x_position: u16) -> (r: Self)
        ensures
            r == (CellData::Asociated { layer, asociated_x_position }),
    {
        CellData::Asociated { layer, asociated_x_position }
    }

    /// An anchor slot holding `cell`.
    pub fn some(cell: Cell) -> (r: Self)
        ensures
            r == CellData::Occupied(cell),
    {
        CellData::Occupied(cell)
    }

    /// The layer a write must reach to paint over this slot; a free slot has
    /// layer 0, below every real layer.
    pub closed spec fn spec_get_layer(self) -> u8 {
        match self {
            CellData::Occupied(cell) => cell.layer,
            CellData::Free => 0u8,
            CellData::Asociated { layer, .. } => layer,
        }
    }

    pub fn get_layer(&self) -> (r: u8)
        ensures
            r == self.spec_get_layer(),
    {
        match self {
            CellData::Occupied(cell) => cell.layer,
            CellData::Free => 0,
            CellData::Asociated { layer, .. } => *layer,
        }
    }

    /// Take the slot's contents, leaving it free.
    pub fn take(&mut self) -> (r: Self)
        ensures
            r == *old(self),
            *final(self) == CellData::Free,
    {
        let mut res = CellData::Free;
        core::mem::swap(&mut res, self);
        res
    }
}

/// The ghost model of one slot, with pool references resolved.
#[verifier::ext_equal]
pub enum SlotModel {
    Empty,
    Anchor { text: Seq<char>, style: Style, layer: u8 },
    Tail { layer: u8, anchor_x: u16 },
}

/// The layer of a modelled slot; an empty slot has layer 0.
pub open spec fn slot_layer(s: SlotModel) -> u8 {
    match s {
        SlotModel::Empty => 0u8,
        SlotModel::Anchor { layer, .. } => layer,
        SlotModel::Tail { layer, .. } => layer,
    }
}

/// Whether `pos` addresses a slot of a grid with dimensions `dims`.
pub open spec fn in_grid(dims: VecI2, pos: VecI2) -> bool {
    pos.x < dims.x && pos.y < dims.y
}

/// The flat, row-major index of `pos` in a grid with dimensions `dims`.
pub open spec fn grid_index(dims: VecI2, pos: VecI2) -> int {
    pos.x + dims.x * pos.y
}

/// An all-empty grid for dimensions `dims`.
pub open spec fn empty_grid(dims: VecI2) -> Seq<SlotModel> {
    Seq::new((dims.x * dims.y) as nat, |i: int| SlotModel::Empty)
}

/// Division bounds: a flat index below `width * height` has its row below
/// `height` and its column below `width`.
pub proof fn lemma_pos_of_bounds(dims: VecI2, i: int)
    by (nonlinear_arith)
    requires
        0 <= i < dims.x * dims.y,
        dims.x > 0,
    ensures
        0 <= i / (dims.x as int) < dims.y,
        0 <= i % (dims.x as int) < dims.x,
{
}

/// Index arithmetic: an in-grid position's flat index lies inside its row,
/// and the row ends within the slot array.
pub proof fn lemma_grid_index_bounds(dims: VecI2, pos: VecI2)
    by (nonlinear_arith)
    requires
        in_grid(dims, pos),
    ensures
        0 <= grid_index(dims, pos),
        grid_index(dims, pos) < dims.x * (pos.y + 1),
        dims.x * (pos.y + 1) <= dims.x * dims.y,
        dims.x * (pos.y + 1) == dims.x * pos.y + dims.x,
        0 <= dims.x * pos.y <= 65535 * 65535,
{
}

/// Whether a glyph of width `w` on `layer` may be written with its anchor at
/// `pos`: the anchor is on the grid, the whole glyph fits its row, and every
/// column it will cover sits on a layer no higher than `layer`.
pub open spec fn can_write(
    grid: Seq<SlotModel>,
    dims: VecI2,
    pos: VecI2,
    w: u16,
    layer: u8,
) -> bool {
    &&& in_grid(dims, pos)
    &&& 1 <= w
    &&& pos.x + w <= dims.x
    &&& forall|j: int|
        0 <= j < w ==> slot_layer(#[trigger] grid[grid_index(dims, pos) + j]) <= layer
}

/// Clear the continuation slots from `k` on, for as long as they continue the
/// run `Tail { l, ax }`, stopping at `row_end`.
pub open spec fn spec_erase_from(
    grid: Seq<SlotModel>,
    row_end: int,
    k: int,
    l: u8,
    ax: u16,
) -> Seq<SlotModel>
    decreases row_end - k,
{
    if k < 0 || k >= row_end || k >= grid.len() {
        grid
    } else if grid[k] == (SlotModel::Tail { layer: l, anchor_x: ax }) {
        spec_erase_from(grid.update(k, SlotModel::Empty), row_end, k + 1, l, ax)
    } else {
        grid
    }
}

/// Erase the whole run whose anchor sits at column `ax` of row `y`: the
/// anchor slot, then its continuation slots within the row.
pub open spec fn spec_erase_run(
    grid: Seq<SlotModel>,
    dims: VecI2,
    y: u16,
    ax: u16,
    l: u8,
) -> Seq<SlotModel> {
    let base = grid_index(dims, VecI2 { x: ax, y });
    let row_end = dims.x * (y + 1);
    if 0 <= base < grid.len() {
        spec_erase_from(grid.update(base, SlotModel::Empty), row_end, base + 1, l, ax)
    } else {
        grid
    }
}

/// Walk the `w` columns a glyph will cover, starting at column offset `j`;
/// for each continuation slot found, erase the run it points into, so no
/// stale continuation is left pointing at an overwritten anchor.
pub open spec fn spec_erase_tails(
    grid: Seq<SlotModel>,
    dims: VecI2,
    pos: VecI2,
    w: u16,
    j: int,
) -> Seq<SlotModel>
    decreases w - j,
{
    if j < 0 || j >= w {
        grid
    } else {
        let idx = grid_index(dims, pos) + j;
        let g1 = if 0 <= idx < grid.len() {
            match grid[idx] {
                SlotModel::Tail { layer, anchor_x } => spec_erase_run(
                    grid,
                    dims,
                    pos.y,
                    anchor_x,
                    layer,
                ),
                _ => grid,
            }
        } else {
            grid
        };
        spec_erase_tails(g1, dims, pos, w, j + 1)
    }
}

/// One glyph write at the model level. If the write is admissible, the runs
/// under any overwritten continuation slots are erased first, then the anchor
/// and its `w - 1` continuations are placed; the write is atomic, so an
/// inadmissible glyph changes nothing. Returns the new grid and whether the
/// glyph was drawn.
pub open spec fn spec_write_cell(
    grid: Seq<SlotModel>,
    dims: VecI2,
    text: Seq<char>,
    style: Style,
    layer: u8,
    w: u16,
    pos: VecI2,
) -> (Seq<SlotModel>, bool) {
    if !can_write(grid, dims, pos, w, layer) {
        (grid, false)
    } else {
        let idx = grid_index(dims, pos);
        let g1 = spec_erase_tails(grid, dims, pos, w, 0);
        let g2 = Seq::new(
            g1.len(),
            |i: int|
                if i == idx {
                    SlotModel::Anchor { text, style, layer }
                } else if idx < i < idx + w {
                    SlotModel::Tail { layer, anchor_x: pos.x }
                } else {
                    g1[i]
                },
        );
        (g2, true)
    }
}

/// A styled run written character by character, at the model level.
///
/// Starting at character `i` with the cursor at column `x` of row `y` and the
/// zero-width characters gathered so far in `pending`:
/// - a character the cursor cannot advance past (the column would leave the
///   addressable range) stops the run;
/// - a zero-width character at column 0 is dropped;
/// - any other zero-width character joins `pending`, advancing nothing;
/// - a character of positive width `w` forms a glyph together with `pending`;
///   the glyph is written if the cursor lies in `clip` (clipping is per
///   character), and the cursor advances by `w` whether or not it was
///   written.
///
/// Returns the resulting grid and whether any glyph was drawn.
pub open spec fn spec_push_text(
    grid: Seq<SlotModel>,
    dims: VecI2,
    chars: Seq<char>,
    i: int,
    x: u16,
    y: u16,
    pending: Seq<char>,
    style: Style,
    layer: u8,
    clip: Rect,
) -> (Seq<SlotModel>, bool)
    decreases chars.len() - i,
{
    if i < 0 || i >= chars.len() {
        (grid, false)
    } else {
        let c = chars[i];
        let w = char_width_of(c);
        if x + w > u16::MAX {
            (grid, false)
        } else if x + w == 0 {
            spec_push_text(grid, dims, chars, i + 1, x, y, pending, style, layer, clip)
        } else if w == 0 {
            spec_push_text(grid, dims, chars, i + 1, x, y, pending.push(c), style, layer, clip)
        } else {
            let step = if clip.spec_contains(VecI2 { x, y }) {
                spec_write_cell(grid, dims, pending.push(c), style, layer, w as u16, VecI2 { x, y })
            } else {
                (grid, false)
            };
            let rest = spec_push_text(
                step.0,
                dims,
                chars,
                i + 1,
                (x + w) as u16,
                y,
                Seq::empty(),
                style,
                layer,
                clip,
            );
            (rest.0, step.1 || rest.1)
        }
    }
}

/// A run that draws nothing leaves the grid unchanged.
pub proof fn lemma_push_no_draw(
    grid: Seq<SlotModel>,
    dims: VecI2,
    chars: Seq<char>,
    i: int,
    x: u16,
    y: u16,
    pending: Seq<char>,
    style: Style,
    layer: u8,
    clip: Rect,
)
    ensures
        !spec_push_text(grid, dims, chars, i, x, y, pending, style, layer, clip).1
            ==> spec_push_text(grid, dims, chars, i, x, y, pending, style, layer, clip).0 == grid,
    decreases chars.len() - i,
{
    if i < 0 || i >= chars.len() {
    } else {
        let c = chars[i];
        let w = char_width_of(c);
        if x + w > u16::MAX {
        } else if x + w == 0 {
            lemma_push_no_draw(grid, dims, chars, i + 1, x, y, pending, style, layer, clip);
        } else if w == 0 {
            lemma_push_no_draw(grid, dims, chars, i + 1, x, y, pending.push(c), style, layer, clip);
        } else {
            let step = if clip.spec_contains(VecI2 { x, y }) {
                spec_write_cell(grid, dims, pending.push(c), style, layer, w as u16, VecI2 { x, y })
            } else {
                (grid, false)
            };
            lemma_push_no_draw(
                step.0,
                dims,
                chars,
                i + 1,
                (x + w) as u16,
                y,
                Seq::empty(),
                style,
                layer,
                clip,
            );
        }
    }
}

/// The grid position of flat index `i`, row-major.
pub open spec fn pos_of(dims: VecI2, i: int) -> VecI2 {
    VecI2 { x: (i % (dims.x as int)) as u16, y: (i / (dims.x as int)) as u16 }
}

/// The occupied cells of a grid from index `i` on, in row-major order, as
/// `(text, style, position)` triples.
pub open spec fn spec_triples(grid: Seq<SlotModel>, dims: VecI2, i: int) -> Seq<
    (Seq<char>, Style, VecI2),
>
    decreases grid.len() - i,
{
    if i < 0 || i >= grid.len() {
        Seq::empty()
    } else {
        let rest = spec_triples(grid, dims, i + 1);
        match grid[i] {
            SlotModel::Anchor { text, style, layer } => seq![(text, style, pos_of(dims, i))] + rest,
            _ => rest,
        }
    }
}

/// The view of a vector of drawn cells, for comparing against
/// [`spec_triples`].
pub open spec fn triples_view(r: Seq<(Vec<char>, Style, VecI2)>) -> Seq<(Seq<char>, Style, VecI2)> {
    r.map_values(|t: (Vec<char>, Style, VecI2)| (t.0@, t.1, t.2))
}

/// An all-empty grid yields no triples.
pub proof fn lemma_triples_of_empty(dims: VecI2, i: int)
    ensures
        spec_triples(empty_grid(dims), dims, i) == Seq::<(Seq<char>, Style, VecI2)>::empty(),
    decreases empty_grid(dims).len() - i,
{
    if i < 0 || i >= empty_grid(dims).len() {
    } else {
        lemma_triples_of_empty(dims, i + 1);
    }
}

/// After a resize the buffer starts empty: iterating a freshly resized screen
/// yields no cells until something is pushed.
pub proof fn law_resize_empty(dims: VecI2)
    ensures
        spec_triples(empty_grid(dims), dims, 0) == Seq::<(Seq<char>, Style, VecI2)>::empty(),
{
    lemma_triples_of_empty(dims, 0);
}

/// Round trip: what a buffer yields depends on its grid alone, so writing a
/// run into an empty buffer, draining it (which empties the grid again), then
/// writing the identical run and draining again yields the same triples both
/// times.
pub proof fn law_round_trip(
    dims: VecI2,
    chars: Seq<char>,
    start: VecI2,
    style: Style,
    layer: u8,
    clip: Rect,
)
    ensures
        ({
            let first = spec_push_text(
                empty_grid(dims),
                dims,
                chars,
                0,
                start.x,
                start.y,
                Seq::empty(),
                style,
                layer,
                clip,
            ).0;
            let second = spec_push_text(
                empty_grid(dims),
                dims,
                chars,
                0,
                start.x,
                start.y,
                Seq::empty(),
                style,
                layer,
                clip,
            ).0;
            spec_triples(first, dims, 0) == spec_triples(second, dims, 0)
        }),
{
}

/// Pushing one single-column character that lands in the clip is exactly one
/// model write at the starting position: the bridge between
/// [`spec_push_text`] (what [`Screen::push_text`] promises) and the
/// write-level laws above.
pub proof fn lemma_push_single_char(
    grid: Seq<SlotModel>,
    dims: VecI2,
    c: char,
    pos: VecI2,
    style: Style,
    layer: u8,
    clip: Rect,
)
    requires
        char_width_of(c) == 1,
        pos.x < u16::MAX,
        clip.spec_contains(pos),
    ensures
        spec_push_text(grid, dims, seq![c], 0, pos.x, pos.y, Seq::empty(), style, layer, clip)
            == spec_write_cell(grid, dims, seq![c], style, layer, 1u16, pos),
{
    let chars = seq![c];
    assert(chars[0] == c);
    let step = spec_write_cell(grid, dims, Seq::empty().push(c), style, layer, 1u16, pos);
    assert(Seq::empty().push(c) =~= chars);
    assert(spec_push_text(step.0, dims, chars, 1, (pos.x + 1) as u16, pos.y, Seq::empty(), style, layer, clip)
        == (step.0, false));
}

/// A sequence of single-column writes, all at one position.
pub open spec fn apply_writes(
    grid: Seq<SlotModel>,
    dims: VecI2,
    pos: VecI2,
    writes: Seq<(Seq<char>, Style, u8)>,
) -> Seq<SlotModel>
    decreases writes.len(),
{
    if writes.len() == 0 {
        grid
    } else {
        let g1 = spec_write_cell(grid, dims, writes[0].0, writes[0].1, writes[0].2, 1, pos).0;
        apply_writes(g1, dims, pos, writes.drop_first())
    }
}

/// One admissible single-column write replaces exactly its own slot.
pub proof fn lemma_single_write(
    grid: Seq<SlotModel>,
    dims: VecI2,
    pos: VecI2,
    text: Seq<char>,
    style: Style,
    layer: u8,
)
    requires
        grid.len() == dims.x * dims.y,
        in_grid(dims, pos),
        !(grid[grid_index(dims, pos)] is Tail),
        slot_layer(grid[grid_index(dims, pos)]) <= layer,
    ensures
        spec_write_cell(grid, dims, text, style, layer, 1, pos).1 == true,
        spec_write_cell(grid, dims, text, style, layer, 1, pos).0 == grid.update(
            grid_index(dims, pos),
            SlotModel::Anchor { text, style, layer },
        ),
{
    lemma_grid_index_bounds(dims, pos);
    let idx = grid_index(dims, pos);
    assert forall|j: int| 0 <= j < 1 implies slot_layer(#[trigger] grid[idx + j]) <= layer by {
        assert(grid[idx + j] == grid[idx]);
    }
    assert(can_write(grid, dims, pos, 1, layer));
    assert(spec_erase_tails(grid, dims, pos, 1, 0) == spec_erase_tails(grid, dims, pos, 1, 1));
    assert(spec_write_cell(grid, dims, text, style, layer, 1, pos).0 =~= grid.update(
        idx,
        SlotModel::Anchor { text, style, layer },
    ));
}

/// Layer occlusion: writing single-column glyphs at one position with
/// strictly increasing layers (the first at or above the slot's layer) always
/// leaves the last, highest-layer write as the final occupant, and touches no
/// other slot.
pub proof fn law_layer_occlusion(
    grid: Seq<SlotModel>,
    dims: VecI2,
    pos: VecI2,
    writes: Seq<(Seq<char>, Style, u8)>,
)
    requires
        grid.len() == dims.x * dims.y,
        in_grid(dims, pos),
        writes.len() >= 1,
        !(grid[grid_index(dims, pos)] is Tail),
        slot_layer(grid[grid_index(dims, pos)]) <= writes[0].2,
        forall|k: int| 0 <= k < writes.len() - 1 ==> (#[trigger] writes[k].2) < writes[k + 1].2,
    ensures
        apply_writes(grid, dims, pos, writes)[grid_index(dims, pos)] == (SlotModel::Anchor {
            text: writes.last().0,
            style: writes.last().1,
            layer: writes.last().2,
        }),
        forall|i: int|
            0 <= i < grid.len() && i != grid_index(dims, pos) ==> #[trigger] apply_writes(
                grid,
                dims,
                pos,
                writes,
            )[i] == grid[i],
    decreases writes.len(),
{
    lemma_grid_index_bounds(dims, pos);
    let idx = grid_index(dims, pos);
    lemma_single_write(grid, dims, pos, writes[0].0, writes[0].1, writes[0].2);
    let g1 = spec_write_cell(grid, dims, writes[0].0, writes[0].1, writes[0].2, 1, pos).0;
    if writes.len() == 1 {
        assert(apply_writes(g1, dims, pos, writes.drop_first()) == g1);
    } else {
        assert(g1[idx] == (SlotModel::Anchor {
            text: writes[0].0,
            style: writes[0].1,
            layer: writes[0].2,
        }));
        assert(writes[0].2 < writes[1].2);
        assert(forall|k: int|
            0 <= k < writes.drop_first().len() - 1 ==> (#[trigger] writes.drop_first()[k].2)
                < writes.drop_first()[k + 1].2);
        law_layer_occlusion(g1, dims, pos, writes.drop_first());
        assert(writes.drop_first().last() == writes.last());
    }
}

/// A z-layered grid of cells with its shared text and style pools.
pub struct Screen {
    cells: Vec<CellData>,
    size: VecI2,
    styles: Vec<Style>,
    text: Vec<char>,
    last_cell: Option<Cell>,
}

impl Screen {
    /// Whether `cell`'s pool references lie within this screen's pools.
    pub closed spec fn cell_wf(self, cell: Cell) -> bool {
        &&& cell.str_offset + cell.str_len <= self.text@.len()
        &&& cell.style_offset < self.styles@.len()
        &&& cell.layer >= 1
    }

    /// Structural well-formedness: the slot array matches the dimensions,
    /// every occupied slot points into the pools, and every continuation
    /// names a real layer and an in-row anchor column.
    pub closed spec fn cells_wf(self) -> bool {
        &&& self.cells@.len() == self.size.x * self.size.y
        &&& forall|i: int|
            0 <= i < self.cells@.len() ==> match #[trigger] self.cells@[i] {
                CellData::Occupied(cell) => self.cell_wf(cell),
                CellData::Free => true,
                CellData::Asociated { layer, asociated_x_position } => layer >= 1
                    && asociated_x_position < self.size.x,
            }
        &&& match self.last_cell {
            Some(cell) => self.cell_wf(cell),
            None => true,
        }
    }

    /// The last-drawn cell, if any, always references the top of the style
    /// pool: the pool only grows when a newly styled cell is actually drawn.
    pub closed spec fn styles_top(self) -> bool {
        match self.last_cell {
            Some(cell) => cell.style_offset + 1 == self.styles@.len(),
            None => true,
        }
    }

    /// Well-formedness of a screen between operations.
    pub closed spec fn wf(self) -> bool {
        self.cells_wf() && self.styles_top()
    }

    /// Whether `style` differs from the style of the last-drawn cell (a write
    /// with an unchanged style reuses the top style-pool entry).
    pub closed spec fn spec_style_changed(self, style: Style) -> bool {
        match self.last_cell {
            Some(cell) => self.spec_cell_style(cell) != style,
            None => true,
        }
    }

    /// The text span a well-formed cell references.
    pub closed spec fn spec_cell_text(self, cell: Cell) -> Seq<char> {
        self.text@.subrange(cell.str_offset as int, cell.str_offset + cell.str_len)
    }

    /// The style a well-formed cell references.
    pub closed spec fn spec_cell_style(self, cell: Cell) -> Style {
        self.styles@[cell.style_offset as int]
    }

    /// The model of slot `i`, with pool references resolved.
    pub closed spec fn slot_model(self, i: int) -> SlotModel {
        match self.cells@[i] {
            CellData::Occupied(cell) => SlotModel::Anchor {
                text: self.spec_cell_text(cell),
                style: self.spec_cell_style(cell),
                layer: cell.layer,
            },
            CellData::Free => SlotModel::Empty,
            CellData::Asociated { layer, asociated_x_position } => SlotModel::Tail {
                layer,
                anchor_x: asociated_x_position,
            },
        }
    }

    /// The ghost model of the whole screen: one resolved slot per grid cell,
    /// row-major.
    pub closed spec fn grid(self) -> Seq<SlotModel> {
        Seq::new(self.cells@.len(), |i: int| self.slot_model(i))
    }

    pub closed spec fn spec_size(self) -> VecI2 {
        self.size
    }

    /// An empty screen of size zero.
    pub fn new() -> (r: Self)
        ensures
            r.wf(),
            r.spec_size() == (VecI2 { x: 0u16, y: 0u16 }),
            r.grid() == empty_grid(r.spec_size()),
            r.spec_num_styles() == 0,
            r.spec_text_len() == 0,
    {
        let r = Screen {
            cells: Vec::new(),
            size: VecI2 { x: 0, y: 0 },
            styles: Vec::new(),
            text: Vec::new(),
            last_cell: None,
        };
        proof {
            assert(r.cells@.len() == 0);
            assert(r.grid().len() == 0);
            assert(r.size.x == 0 && r.size.y == 0);
            assert(r.size.x * r.size.y == 0) by (nonlinear_arith)
                requires
                    r.size.x == 0,
            ;
            assert(r.grid() =~= empty_grid(r.size));
        }
        r
    }

    /// Reallocate the slot array for `size`, clear both pools and forget the
    /// last-drawn cell. No state crosses a resize: the buffer comes out
    /// empty.
    pub fn resize(&mut self, size: VecI2)
        ensures
            final(self).wf(),
            final(self).spec_size() == size,
            final(self).grid() == empty_grid(size),
            final(self).spec_num_styles() == 0,
            final(self).spec_text_len() == 0,
    {
        proof {
            assert(size.x as int * size.y as int <= 65535int * 65535) by (nonlinear_arith)
                requires
                    size.x <= 65535,
                    size.y <= 65535,
            ;
        }
        let len = (size.x as usize) * (size.y as usize);
        self.cells.clear();
        let mut i: usize = 0;
        while i < len
            invariant
                i <= len,
                self.cells@.len() == i,
                forall|j: int| 0 <= j < i ==> self.cells@[j] == CellData::Free,
            decreases len - i,
        {
            self.cells.push(CellData::Free);
            i += 1;
        }
        self.size = size;
        self.last_cell = None;
        self.text.clear();
        self.styles.clear();
        proof {
            assert(self.grid() =~= empty_grid(size));
        }
    }

    pub fn size(&self) -> (r: VecI2)
        ensures
            r == self.spec_size(),
    {
        self.size
    }

    /// Free every slot and clear both pools; the dimensions stay.
    pub fn clear(&mut self)
        requires
            old(self).wf(),
        ensures
            final(self).wf(),
            final(self).spec_size() == old(self).spec_size(),
            final(self).grid() == empty_grid(old(self).spec_size()),
            final(self).spec_num_styles() == 0,
            final(self).spec_text_len() == 0,
    {
        let n = self.cells.len();
        let mut i: usize = 0;
        while i < n
            invariant
                i <= n,
                self.cells@.len() == n,
                self.size == old(self).size,
                self.styles == old(self).styles,
                self.text == old(self).text,
                forall|j: int| 0 <= j < i ==> self.cells@[j] == CellData::Free,
            decreases n - i,
        {
            self.cells.set(i, CellData::Free);
            i += 1;
        }
        self.text.clear();
        self.styles.clear();
        self.last_cell = None;
        proof {
            assert(self.grid() =~= empty_grid(self.size));
        }
    }

    /// Copy one span of the text pool.
    fn copy_span(&self, off: usize, len: usize) -> (r: Vec<char>)
        requires
            off + len <= self.text@.len(),
        ensures
            r@ == self.text@.subrange(off as int, off + len),
    {
        let tn = self.text.len();
        let mut r: Vec<char> = Vec::new();
        let mut i: usize = 0;
        while i < len
            invariant
                i <= len,
                tn == self.text@.len(),
                off + len <= tn,
                r@.len() == i,
                forall|k: int| 0 <= k < i ==> #[trigger] r@[k] == self.text@[off + k],
            decreases len - i,
        {
            r.push(self.text[off + i]);
            i += 1;
        }
        proof {
            assert(r@ =~= self.text@.subrange(off as int, off + len));
        }
        r
    }

    /// The occupied cells in position order (row-major, then column), each as
    /// `(text, style, position)`.
    pub fn iter(&self) -> (r: Vec<(Vec<char>, Style, VecI2)>)
        requires
            self.wf(),
        ensures
            triples_view(r@) == spec_triples(self.grid(), self.spec_size(), 0),
    {
        let ghost dims = self.size;
        let ghost target = spec_triples(self.grid(), dims, 0);
        let mut out: Vec<(Vec<char>, Style, VecI2)> = Vec::new();
        let n = self.cells.len();
        let mut i: usize = 0;
        while i < n
            invariant
                i <= n,
                self.wf(),
                n == self.cells@.len(),
                dims == self.size,
                target == spec_triples(self.grid(), dims, 0),
                triples_view(out@) + spec_triples(self.grid(), dims, i as int) == target,
            decreases n - i,
        {
            let ghost pre = triples_view(out@);
            match self.cells[i] {
                CellData::Occupied(cell) => {
                    let sx = self.size.x as usize;
                    proof {
                        if self.size.x == 0 {
                            assert(self.cells@.len() == 0);
                        }
                        lemma_pos_of_bounds(dims, i as int);
                    }
                    let pos = VecI2 { x: (i % sx) as u16, y: (i / sx) as u16 };
                    let text = self.copy_span(cell.str_offset, cell.str_len);
                    let style = self.styles[cell.style_offset];
                    out.push((text, style, pos));
                    proof {
                        assert(pos == pos_of(dims, i as int));
                        assert(self.grid()[i as int] == self.slot_model(i as int));
                        assert(triples_view(out@) =~= pre + seq![
                            (self.spec_cell_text(cell), self.spec_cell_style(cell), pos),
                        ]);
                        assert(triples_view(out@) + spec_triples(self.grid(), dims, i + 1) =~= pre
                            + spec_triples(self.grid(), dims, i as int));
                    }
                },
                _ => {
                    proof {
                        assert(self.grid()[i as int] == self.slot_model(i as int));
                    }
                },
            }
            i += 1;
        }
        out
    }

    /// Like [`Screen::iter`], but also frees every slot and clears both pools:
    /// the buffer comes out as after a resize to the same dimensions.
    pub fn drain(&mut self) -> (r: Vec<(Vec<char>, Style, VecI2)>)
        requires
            old(self).wf(),
        ensures
            triples_view(r@) == spec_triples(old(self).grid(), old(self).spec_size(), 0),
            final(self).wf(),
            final(self).spec_size() == old(self).spec_size(),
            final(self).grid() == empty_grid(old(self).spec_size()),
            final(self).spec_num_styles() == 0,
            final(self).spec_text_len() == 0,
    {
        let r = self.iter();
        self.clear();
        r
    }

    /// The zero-width characters gathered for the cell being built: the text
    /// pool past the pending cell's offset.
    pub closed spec fn pending_of(self, cell: Cell) -> Seq<char> {
        self.text@.subrange(cell.str_offset as int, self.text@.len() as int)
    }

    /// Compare two equal-length spans of the text pool.
    fn spans_equal(&self, a_off: usize, b_off: usize, len: usize) -> (r: bool)
        requires
            a_off + len <= self.text@.len(),
            b_off + len <= self.text@.len(),
        ensures
            r == (self.text@.subrange(a_off as int, a_off + len) == self.text@.subrange(
                b_off as int,
                b_off + len,
            )),
    {
        let tn = self.text.len();
        let mut i: usize = 0;
        while i < len
            invariant
                i <= len,
                tn == self.text@.len(),
                a_off + len <= tn,
                b_off + len <= tn,
                forall|k: int|
                    0 <= k < i ==> #[trigger] self.text@[a_off + k] == self.text@[b_off + k],
            decreases len - i,
        {
            if self.text[a_off + i] != self.text[b_off + i] {
                proof {
                    assert(self.text@.subrange(a_off as int, a_off + len)[i as int] != self.text@
                        .subrange(b_off as int, b_off + len)[i as int]);
                }
                return false;
            }
            i += 1;
        }
        proof {
            let sa = self.text@.subrange(a_off as int, a_off + len);
            let sb = self.text@.subrange(b_off as int, b_off + len);
            assert forall|k: int| 0 <= k < len implies sa[k] == sb[k] by {
                assert(self.text@[a_off + k] == self.text@[b_off + k]);
            }
            assert(sa =~= sb);
        }
        true
    }

    /// Write a styled run character by character, starting at `start` on
    /// `layer`, clipped per character to `clip`; [`spec_push_text`] gives the
    /// exact effect on the grid. A style-pool entry is appended only if at
    /// least one glyph was drawn and the style differs from the last drawn
    /// cell's; a glyph whose text equals the last drawn cell's reuses its
    /// text-pool span, so repeated glyphs do not grow the pool.
    pub fn push_text(
        &mut self,
        text: &Vec<char>,
        style: Style,
        start: VecI2,
        layer: u8,
        clip: Rect,
    )
        requires
            old(self).wf(),
            layer >= 1,
        ensures
            final(self).wf(),
            final(self).spec_size() == old(self).spec_size(),
            final(self).grid() == spec_push_text(
                old(self).grid(),
                old(self).spec_size(),
                text@,
                0,
                start.x,
                start.y,
                Seq::empty(),
                style,
                layer,
                clip,
            ).0,
            final(self).spec_num_styles() == if spec_push_text(
                old(self).grid(),
                old(self).spec_size(),
                text@,
                0,
                start.x,
                start.y,
                Seq::empty(),
                style,
                layer,
                clip,
            ).1 && old(self).spec_style_changed(style) {
                old(self).spec_num_styles() + 1
            } else {
                old(self).spec_num_styles()
            },
            final(self).spec_text_len() >= old(self).spec_text_len(),
    {
        let ghost dims = self.size;
        let ghost g_init = self.grid();
        let ghost target = spec_push_text(
            g_init,
            dims,
            text@,
            0,
            start.x,
            start.y,
            Seq::empty(),
            style,
            layer,
            clip,
        );

        let style_changed: bool = match self.last_cell {
            Some(last) => {
                let ls = self.styles[last.style_offset];
                !(ls == style)
            },
            None => true,
        };
        if style_changed {
            self.styles.push(style);
        }
        proof {
            assert(self.grid() =~~= g_init);
        }
        let mut cell = Cell {
            str_offset: self.text.len(),
            str_len: 0,
            layer,
            style_offset: self.styles.len() - 1,
        };
        let mut drawn_any = false;
        let mut x = start.x;
        let y = start.y;
        let mut i: usize = 0;
        proof {
            assert(self.pending_of(cell) =~= Seq::<char>::empty());
        }
        while i < text.len()
            invariant
                i <= text@.len(),
                layer >= 1,
                self.cells_wf(),
                self.size == dims,
                dims == old(self).spec_size(),
                old(self).wf(),
                target == spec_push_text(
                    g_init,
                    dims,
                    text@,
                    0,
                    start.x,
                    start.y,
                    Seq::empty(),
                    style,
                    layer,
                    clip,
                ),
                g_init == old(self).grid(),
                y == start.y,
                cell.layer == layer,
                cell.style_offset + 1 == self.styles@.len(),
                self.styles@[cell.style_offset as int] == style,
                cell.str_offset + cell.str_len == self.text@.len(),
                old(self).spec_text_len() <= cell.str_offset,
                style_changed == old(self).spec_style_changed(style),
                self.styles@ == if style_changed {
                    old(self).styles@.push(style)
                } else {
                    old(self).styles@
                },
                forall|k: int|
                    0 <= k < self.cells@.len() ==> match #[trigger] self.cells@[k] {
                        CellData::Occupied(c) => c.str_offset + c.str_len <= cell.str_offset,
                        _ => true,
                    },
                match self.last_cell {
                    Some(c) => c.str_offset + c.str_len <= cell.str_offset,
                    None => true,
                },
                !drawn_any ==> self.cells@ == old(self).cells@ && self.last_cell == old(
                    self,
                ).last_cell,
                drawn_any ==> match self.last_cell {
                    Some(c) => c.style_offset == cell.style_offset,
                    None => false,
                },
                spec_push_text(
                    self.grid(),
                    dims,
                    text@,
                    i as int,
                    x,
                    y,
                    self.pending_of(cell),
                    style,
                    layer,
                    clip,
                ).0 == target.0,
                (drawn_any || spec_push_text(
                    self.grid(),
                    dims,
                    text@,
                    i as int,
                    x,
                    y,
                    self.pending_of(cell),
                    style,
                    layer,
                    clip,
                ).1) == target.1,
            ensures
                spec_push_text(
                    self.grid(),
                    dims,
                    text@,
                    i as int,
                    x,
                    y,
                    self.pending_of(cell),
                    style,
                    layer,
                    clip,
                ).0 == self.grid(),
                spec_push_text(
                    self.grid(),
                    dims,
                    text@,
                    i as int,
                    x,
                    y,
                    self.pending_of(cell),
                    style,
                    layer,
                    clip,
                ).1 == false,
            decreases text@.len() - i,
        {
            let ghost g_pre = self.grid();
            let ghost pending_pre = self.pending_of(cell);
            let c = text[i];
            let w16 = char_display_width(c);
            match x.checked_add(w16) {
                None => {
                    break;
                },
                Some(nx) => {
                    if nx == 0 {
                        i += 1;
                    } else {
                        self.text.push(c);
                        let tl = self.text.len();
                        cell.str_len = tl - cell.str_offset;
                        proof {
                            assert(self.grid() =~~= g_pre);
                            assert(self.pending_of(cell) =~= pending_pre.push(c));
                        }
                        if w16 != 0 {
                            let pos = VecI2 { x, y };
                            if clip.contains(pos) {
                                match self.last_cell {
                                    Some(last) => {
                                        if last.str_len == cell.str_len && self.spans_equal(
                                            last.str_offset,
                                            cell.str_offset,
                                            cell.str_len,
                                        ) {
                                            let ghost text_mid = self.text@;
                                            self.text.truncate(cell.str_offset);
                                            proof {
                                                assert(forall|a: int, b: int|
                                                    0 <= a && a <= b && b <= cell.str_offset
                                                        ==> self.text@.subrange(a, b) =~= text_mid
                                                        .subrange(a, b));
                                                assert(self.grid() =~~= g_pre);
                                            }
                                            cell.str_offset = last.str_offset;
                                            proof {
                                                assert(self.spec_cell_text(cell) == pending_pre
                                                    .push(c));
                                                assert(self.cells_wf());
                                            }
                                        }
                                    },
                                    None => {},
                                }
                                proof {
                                    assert(self.spec_cell_text(cell) == pending_pre.push(c));
                                    assert(self.spec_cell_style(cell) == style);
                                    assert(self.grid() =~~= g_pre);
                                }
                                let d = self.write_cell(cell, w16, pos);
                                drawn_any = drawn_any || d;
                            }
                            cell.str_len = 0;
                            cell.str_offset = self.text.len();
                            proof {
                                assert(self.pending_of(cell) =~= Seq::<char>::empty());
                            }
                            x = nx;
                        }
                        i += 1;
                    }
                },
            }
        }
        proof {
            assert(self.grid() == target.0);
            assert(drawn_any == target.1);
        }
        if !drawn_any && style_changed {
            let _ = self.styles.pop();
            proof {
                assert(self.styles@ =~= old(self).styles@);
                lemma_push_no_draw(
                    g_init,
                    dims,
                    text@,
                    0,
                    start.x,
                    start.y,
                    Seq::empty(),
                    style,
                    layer,
                    clip,
                );
                assert(self.grid() =~~= g_init);
            }
        }
        proof {
            assert(self.wf());
        }
    }

    /// Erase the run anchored at column `ax` of row `y`.
    fn erase_run(&mut self, y: u16, ax: u16, l: u8)
        requires
            old(self).cells_wf(),
            ax < old(self).size.x,
            y < old(self).size.y,
        ensures
            final(self).cells_wf(),
            final(self).size == old(self).size,
            final(self).text == old(self).text,
            final(self).styles == old(self).styles,
            final(self).last_cell == old(self).last_cell,
            final(self).grid() == spec_erase_run(old(self).grid(), old(self).size, y, ax, l),
            forall|i: int|
                0 <= i < final(self).cells@.len() ==> final(self).cells@[i] == old(
                    self,
                ).cells@[i] || final(self).cells@[i] == CellData::Free,
    {
        proof {
            lemma_grid_index_bounds(self.size, VecI2 { x: ax, y });
        }
        let ghost g0 = self.grid();
        let base = ax as usize + self.size.x as usize * y as usize;
        assert(self.size.x as int * (y as int + 1) <= 65536 * 65535) by (nonlinear_arith)
            requires
                self.size.x <= 65535,
                y < 65536,
        ;
        let row_end = self.size.x as usize * (y as usize + 1);
        self.cells.set(base, CellData::Free);
        proof {
            assert(self.grid() =~= g0.update(base as int, SlotModel::Empty));
        }
        let ghost g1 = self.grid();
        let tail = CellData::Asociated { layer: l, asociated_x_position: ax };
        let mut k = base + 1;
        while k < row_end && self.cells[k] == tail
            invariant
                tail == (CellData::Asociated { layer: l, asociated_x_position: ax }),
                base < k <= row_end,
                row_end <= self.cells@.len(),
                self.size == old(self).size,
                self.text == old(self).text,
                self.styles == old(self).styles,
                self.last_cell == old(self).last_cell,
                self.cells@.len() == g1.len(),
                self.cells_wf(),
                spec_erase_from(self.grid(), row_end as int, k as int, l, ax) == spec_erase_from(
                    g1,
                    row_end as int,
                    base + 1,
                    l,
                    ax,
                ),
                forall|i: int|
                    0 <= i < self.cells@.len() ==> self.cells@[i] == old(self).cells@[i]
                        || self.cells@[i] == CellData::Free,
            decreases row_end - k,
        {
            let ghost gk = self.grid();
            self.cells.set(k, CellData::Free);
            proof {
                assert(self.grid() =~= gk.update(k as int, SlotModel::Empty));
            }
            k += 1;
        }
    }

    /// Write one glyph: `cell` as the anchor at `position`, with `cell_width
    /// - 1` continuation slots after it. The glyph is atomic: it is drawn only
    /// if it fits its row and every covered column is on a layer no higher
    /// than the glyph's; any run a covered continuation slot points into is
    /// erased first.
    fn write_cell(&mut self, cell: Cell, cell_width: u16, position: VecI2) -> (drawn: bool)
        requires
            old(self).cells_wf(),
            old(self).cell_wf(cell),
            cell_width >= 1,
        ensures
            final(self).cells_wf(),
            final(self).size == old(self).size,
            final(self).text == old(self).text,
            final(self).styles == old(self).styles,
            ({
                let (g, d) = spec_write_cell(
                    old(self).grid(),
                    old(self).size,
                    old(self).spec_cell_text(cell),
                    old(self).spec_cell_style(cell),
                    cell.layer,
                    cell_width,
                    position,
                );
                final(self).grid() == g && drawn == d
            }),
            final(self).last_cell == if drawn {
                Some(cell)
            } else {
                old(self).last_cell
            },
            !drawn ==> final(self).cells@ == old(self).cells@,
            forall|i: int|
                0 <= i < final(self).cells@.len() ==> final(self).cells@[i] == old(
                    self,
                ).cells@[i] || final(self).cells@[i] == CellData::Free || final(self).cells@[i]
                    == (CellData::Asociated { layer: cell.layer, asociated_x_position: position.x })
                    || final(self).cells@[i] == CellData::Occupied(cell),
    {
        let dims = self.size;
        if !(position.x < dims.x && position.y < dims.y) {
            return false;
        }
        if !(cell_width as usize <= dims.x as usize - position.x as usize) {
            return false;
        }
        proof {
            lemma_grid_index_bounds(dims, position);
        }
        let idx = position.x as usize + dims.x as usize * position.y as usize;
        let w = cell_width as usize;
        let n = self.cells.len();
        assert(idx + w <= n);

        // Every covered column must be on a layer at or below the glyph's.
        let mut j: usize = 0;
        while j < w
            invariant
                j <= w,
                self == old(self),
                old(self).cells_wf(),
                dims == self.size,
                w == cell_width as usize,
                idx == grid_index(dims, position),
                n == self.cells@.len(),
                idx + w <= n,
                forall|jj: int|
                    0 <= jj < j ==> slot_layer(
                        #[trigger] self.grid()[grid_index(dims, position) + jj],
                    ) <= cell.layer,
            decreases w - j,
        {
            if self.cells[idx + j].get_layer() > cell.layer {
                proof {
                    assert(self.grid()[idx + j as int] == self.slot_model(idx + j as int));
                    assert(slot_layer(self.grid()[grid_index(dims, position) + j as int])
                        > cell.layer);
                    assert(!can_write(self.grid(), dims, position, cell_width, cell.layer));
                    assert(self.cells_wf());
                }
                return false;
            }
            proof {
                assert(self.grid()[idx + j as int] == self.slot_model(idx + j as int));
            }
            j += 1;
        }
        assert(can_write(self.grid(), dims, position, cell_width, cell.layer));

        // Erase every run that a covered continuation slot points into.
        let ghost g0 = self.grid();
        let mut j: usize = 0;
        while j < w
            invariant
                j <= w,
                self.cells_wf(),
                old(self).cells_wf(),
                old(self).cell_wf(cell),
                dims == self.size,
                self.text == old(self).text,
                self.styles == old(self).styles,
                self.last_cell == old(self).last_cell,
                w == cell_width as usize,
                idx == grid_index(dims, position),
                n == self.cells@.len(),
                idx + w <= n,
                in_grid(dims, position),
                position.x + w <= dims.x,
                can_write(g0, dims, position, cell_width, cell.layer),
                g0 == old(self).grid(),
                spec_erase_tails(self.grid(), dims, position, cell_width, j as int)
                    == spec_erase_tails(g0, dims, position, cell_width, 0),
                forall|i: int|
                    0 <= i < self.cells@.len() ==> self.cells@[i] == old(self).cells@[i]
                        || self.cells@[i] == CellData::Free,
            decreases w - j,
        {
            proof {
                assert(self.grid()[idx + j as int] == self.slot_model(idx + j as int));
            }
            match self.cells[idx + j] {
                CellData::Asociated { layer, asociated_x_position } => {
                    let ax = asociated_x_position;
                    let al = layer;
                    self.erase_run(position.y, ax, al);
                },
                _ => {},
            }
            j += 1;
        }

        // Place the continuations, then the anchor.
        let ghost g1 = self.grid();
        let ghost cells1 = self.cells@;
        let mut j: usize = 1;
        while j < w
            invariant
                1 <= j <= w,
                self.cells_wf(),
                old(self).cells_wf(),
                old(self).cell_wf(cell),
                self.cell_wf(cell),
                dims == self.size,
                self.text == old(self).text,
                self.styles == old(self).styles,
                self.last_cell == old(self).last_cell,
                w == cell_width as usize,
                idx == grid_index(dims, position),
                n == self.cells@.len(),
                cells1.len() == n,
                g1.len() == n,
                idx + w <= n,
                in_grid(dims, position),
                position.x + w <= dims.x,
                cell.layer >= 1,
                can_write(g0, dims, position, cell_width, cell.layer),
                g0 == old(self).grid(),
                g1 == spec_erase_tails(g0, dims, position, cell_width, 0),
                forall|i: int|
                    0 <= i < n && !(idx < i < idx + j) ==> self.cells@[i] == cells1[i],
                forall|i: int|
                    0 <= i < n && !(idx < i < idx + j) ==> self.grid()[i] == g1[i],
                forall|i: int|
                    idx < i < idx + j ==> self.cells@[i] == (CellData::Asociated {
                        layer: cell.layer,
                        asociated_x_position: position.x,
                    }),
                forall|i: int|
                    0 <= i < n ==> self.cells@[i] == old(self).cells@[i] || self.cells@[i]
                        == CellData::Free || self.cells@[i] == (CellData::Asociated {
                        layer: cell.layer,
                        asociated_x_position: position.x,
                    }),
            decreases w - j,
        {
            self.cells.set(
                idx + j,
                CellData::Asociated { layer: cell.layer, asociated_x_position: position.x },
            );
            j += 1;
        }
        self.cells.set(idx, CellData::Occupied(cell));
        self.last_cell = Some(cell);
        proof {
            let tgt = spec_write_cell(
                g0,
                dims,
                old(self).spec_cell_text(cell),
                old(self).spec_cell_style(cell),
                cell.layer,
                cell_width,
                position,
            );
            assert forall|i: int| 0 <= i < n implies self.grid()[i] == tgt.0[i] by {
                assert(self.grid()[i] == self.slot_model(i));
                if i == idx {
                    assert(self.cells@[i] == CellData::Occupied(cell));
                } else if idx < i < idx + w {
                } else {
                    assert(self.cells@[i] == cells1[i]);
                }
            }
            assert(self.grid() =~= tgt.0);
            assert(self.cells_wf());
        }
        true
    }

    pub closed spec fn spec_num_styles(self) -> nat {
        self.styles@.len()
    }

    /// How many entries the style pool holds (deduplicated by adjacency).
    pub fn num_styles(&self) -> (r: usize)
        ensures
            r == self.spec_num_styles(),
    {
        self.styles.len()
    }

    pub closed spec fn spec_text_len(self) -> nat {
        self.text@.len()
    }

    /// How many characters the text pool holds.
    pub fn text_len(&self) -> (r: usize)
        ensures
            r == self.spec_text_len(),
    {
        self.text.len()
    }
}

} // verus!
