//! Laying out cells in a grid of columns, either filling rows first
//! (left to right) or columns first (top to bottom), and rendering the grid
//! as text.

use vstd::prelude::*;

use crate::output::display_cell::{padded, Alignment, DisplayCell};
use crate::text::{push_spaces, spaces, string_push, string_push_str};

verus! {

/// The order in which cells fill the grid.
#[derive(Debug, Clone, Copy, PartialEq, Eq, Structural)]
pub enum Direction {
    /// Row by row, like a typewriter.
    LeftToRight,
    /// Column by column, like `ls` lists files by default.
    TopToBottom,
}

impl Default for Direction {
    fn default() -> (r: Self)
        ensures
            r == Direction::LeftToRight,
    {
        Direction::LeftToRight
    }
}

/// The abstract content of a grid: its cells (text, width, alignment), the
/// number of spaces between columns and the fill direction.
pub struct GridView {
    pub cells: Seq<(Seq<char>, nat, Alignment)>,
    pub num_spaces: nat,
    pub direction: Direction,
}

/// The abstract shape of a layout: the number of rows and the width of each
/// column.
pub struct DimView {
    pub num_rows: nat,
    pub column_widths: Seq<nat>,
}

/// `lhs / rhs` rounded up.
pub open spec fn div_ceil(lhs: nat, rhs: nat) -> nat
    recommends
        rhs > 0,
{
    if lhs % rhs > 0 {
        lhs / rhs + 1
    } else {
        lhs / rhs
    }
}

/// The column that cell `i` falls into in a grid of `num_columns` columns
/// and `num_rows` rows.
pub open spec fn column_of(direction: Direction, i: int, num_columns: nat, num_rows: nat) -> int {
    match direction {
        Direction::LeftToRight => i % (num_columns as int),
        Direction::TopToBottom => i / (num_rows as int),
    }
}

/// The widest of the first `k` cells that fall into column `c` (0 when none
/// does).
pub open spec fn col_max(g: GridView, num_columns: nat, num_rows: nat, c: int, k: int) -> nat
    decreases k,
{
    if k <= 0 {
        0
    } else {
        let prev = col_max(g, num_columns, num_rows, c, k - 1);
        if column_of(g.direction, k - 1, num_columns, num_rows) == c && g.cells[k - 1].1 > prev {
            g.cells[k - 1].1
        } else {
            prev
        }
    }
}

/// The layout of `g` in `num_columns` columns: just enough rows for all
/// cells, and each column as wide as its widest cell.
pub open spec fn spec_dims(g: GridView, num_columns: nat) -> DimView {
    let num_rows = div_ceil(g.cells.len(), num_columns);
    DimView {
        num_rows: num_rows,
        column_widths: Seq::new(
            num_columns,
            |c: int| col_max(g, num_columns, num_rows, c, g.cells.len() as int),
        ),
    }
}

/// The sum of a sequence of naturals.
pub open spec fn seq_sum(s: Seq<nat>) -> nat
    decreases s.len(),
{
    if s.len() == 0 {
        0
    } else {
        seq_sum(s.drop_last()) + s.last()
    }
}

/// The width of a layout: its columns plus the spaces between them.
pub open spec fn dims_total_width(d: DimView, spaces: nat) -> int {
    seq_sum(d.column_widths) + (d.column_widths.len() - 1) * spaces
}

/// A layout is well packed when its last column holds no more cells than
/// there are rows, and it has a different number of rows than the previous
/// well packed layout (fewer columns being better for the same rows).
pub open spec fn is_well_packed_spec(d: DimView, cell_count: nat, previous_num_rows: nat) -> bool {
    &&& cell_count % ((d.column_widths.len() - 1) as nat) <= d.num_rows
    &&& d.num_rows != previous_num_rows
}

/// A layout of one row with `cell_count` columns of width 0.
pub open spec fn one_row_spec(cell_count: nat) -> DimView {
    DimView { num_rows: 1, column_widths: Seq::new(cell_count, |i: int| 0nat) }
}

/// The widths of a grid's cells, in order.
pub open spec fn widths(g: GridView) -> Seq<nat> {
    g.cells.map_values(|c: (Seq<char>, nat, Alignment)| c.1)
}

/// The widest of the first `k` cells (0 when `k` is 0).
pub open spec fn max_width(g: GridView, k: int) -> nat
    decreases k,
{
    if k <= 0 {
        0
    } else {
        let prev = max_width(g, k - 1);
        if g.cells[k - 1].1 > prev {
            g.cells[k - 1].1
        } else {
            prev
        }
    }
}

/// The width of all cells side by side in one row, with the spaces between
/// them.
pub open spec fn one_row_width(g: GridView) -> int {
    seq_sum(widths(g)) + (g.cells.len() - 1) * g.num_spaces
}

/// The number of columns chosen while searching upwards from `next`, `best`
/// being the best packed number of columns seen so far: the search stops at
/// the first layout wider than `display_width`, and moves to a layout when
/// it is well packed.
pub open spec fn search_columns(g: GridView, display_width: nat, next: int, best: int) -> int
    decreases g.cells.len() - next,
{
    let n = g.cells.len();
    if next < 1 || next > n {
        best
    } else if dims_total_width(spec_dims(g, next as nat), g.num_spaces) > display_width {
        best
    } else {
        let chosen = if is_well_packed_spec(
            spec_dims(g, next as nat),
            n,
            spec_dims(g, best as nat).num_rows,
        ) {
            next
        } else {
            best
        };
        if next == n {
            chosen
        } else {
            search_columns(g, display_width, next + 1, chosen)
        }
    }
}

/// The column count the search starts from: as many columns of the widest
/// cell, with their spaces, as fit into the display width.
pub open spec fn start_columns(g: GridView, display_width: nat) -> int {
    (display_width / (max_width(g, g.cells.len() as int) + g.num_spaces)) as int
}

/// The layout `fit_into_width` chooses, or `None` when some cell is at least
/// as wide as the display.
pub open spec fn fit_width_spec(g: GridView, display_width: nat) -> Option<DimView> {
    let n = g.cells.len();
    if n == 0 {
        Some(one_row_spec(0))
    } else if max_width(g, n as int) >= display_width {
        None
    } else if one_row_width(g) <= display_width {
        Some(one_row_spec(n))
    } else {
        let c0 = start_columns(g, display_width);
        Some(spec_dims(g, search_columns(g, display_width, c0 + 1, c0) as nat))
    }
}

/// The inputs on which fitting into a width is defined: the one-row width
/// fits in a machine word, and when the cells do not fit in one row the
/// widest cell with its spaces fits into the display (else no column count
/// can be started from).
pub open spec fn fit_into_width_defined(g: GridView, display_width: nat) -> bool {
    let n = g.cells.len();
    ||| n == 0
    ||| max_width(g, n as int) >= display_width
    ||| (one_row_width(g) <= usize::MAX && (one_row_width(g) <= display_width
        || max_width(g, n as int) + g.num_spaces <= display_width))
}

/// The grid after `cells` are added one after the other, each as
/// `Grid::add` adds a cell: after the cells already there, with the spacing
/// and the direction kept.
pub open spec fn after_adds(g: GridView, cells: Seq<(Seq<char>, nat, Alignment)>) -> GridView
    decreases cells.len(),
{
    if cells.len() == 0 {
        g
    } else {
        let h = after_adds(g, cells.drop_last());
        GridView { cells: h.cells.push(cells.last()), ..h }
    }
}

/// Adding cells one by one keeps them unchanged and in the order they were
/// added, after those already there; the spacing and the direction stay.
/// From a new grid, the cells are exactly those added.
pub proof fn law_adds_keep_order(g: GridView, cells: Seq<(Seq<char>, nat, Alignment)>)
    ensures
        after_adds(g, cells) == (GridView { cells: g.cells + cells, ..g }),
        g.cells.len() == 0 ==> after_adds(g, cells).cells == cells,
    decreases cells.len(),
{
    if cells.len() > 0 {
        law_adds_keep_order(g, cells.drop_last());
        assert(g.cells + cells =~= (g.cells + cells.drop_last()).push(cells.last()));
    } else {
        assert(g.cells + cells =~= g.cells);
    }
    if g.cells.len() == 0 {
        assert(g.cells + cells =~= cells);
    }
}

/// Rounding up a division by more gives no more.
proof fn lemma_div_ceil_antitone(n: nat, a: nat, b: nat)
    requires
        0 < a <= b,
    ensures
        div_ceil(n, b) <= div_ceil(n, a),
{
    let qa = div_ceil(n, a);
    let qb = div_ceil(n, b);
    assert(qa * a >= n && (qa == 0 || (qa - 1) * a < n)) by (nonlinear_arith)
        requires
            a > 0,
            qa == (if n % a > 0 { n / a + 1 } else { n / a }),
    {
        assert(n == a * (n / a) + n % a);
    }
    assert(qb * b >= n && (qb == 0 || (qb - 1) * b < n)) by (nonlinear_arith)
        requires
            b > 0,
            qb == (if n % b > 0 { n / b + 1 } else { n / b }),
    {
        assert(n == b * (n / b) + n % b);
    }
    assert(qb <= qa) by (nonlinear_arith)
        requires
            0 < a <= b,
            qa * a >= n,
            qb == 0 || (qb - 1) * b < n,
    {
        if qb > qa {
            assert((qb - 1) * b >= qa * b);
            assert(qa * b >= qa * a);
        }
    }
}

/// The number of rows of the layout in `k` columns.
pub open spec fn rows_in(g: GridView, k: int) -> nat {
    div_ceil(g.cells.len(), k as nat)
}

/// Whether the layouts in `from` to `k` columns all fit into the display,
/// so that the search, going up from `from`, reaches `k` columns.
pub open spec fn reached(g: GridView, display_width: nat, from: int, k: int) -> bool {
    forall|j: int| from <= j <= k ==> dims_total_width(#[trigger] spec_dims(g, j as nat), g.num_spaces)
        <= display_width
}

/// Whether the layout in `k` columns has no more cells in its last column,
/// counted as the cells left over when they are dealt out over the other
/// columns (`cells % (k - 1)`), than it has rows.
pub open spec fn last_column_not_overfull(g: GridView, k: int) -> bool {
    g.cells.len() % ((k - 1) as nat) <= rows_in(g, k)
}

proof fn lemma_search_fewest_rows(g: GridView, display_width: nat, next: int, best: int)
    requires
        1 <= best < next,
    ensures
        rows_in(g, search_columns(g, display_width, next, best)) <= rows_in(g, best),
        forall|k: int|
            next <= k <= g.cells.len() && reached(g, display_width, next, k) && last_column_not_overfull(g, k)
                ==> rows_in(g, search_columns(g, display_width, next, best)) <= #[trigger] rows_in(g, k),
    decreases g.cells.len() - next,
{
    let n = g.cells.len();
    if next < 1 || next > n {
    } else if dims_total_width(spec_dims(g, next as nat), g.num_spaces) > display_width {
        assert forall|k: int|
            next <= k <= g.cells.len() && reached(g, display_width, next, k) && last_column_not_overfull(g, k)
                implies rows_in(g, search_columns(g, display_width, next, best)) <= #[trigger] rows_in(g, k) by {
            assert(dims_total_width(spec_dims(g, next as nat), g.num_spaces) <= display_width);
        }
    } else {
        lemma_div_ceil_antitone(n, best as nat, next as nat);
        let chosen = if is_well_packed_spec(spec_dims(g, next as nat), n, spec_dims(g, best as nat).num_rows) {
            next
        } else {
            best
        };
        assert(spec_dims(g, next as nat).num_rows == rows_in(g, next));
        assert(spec_dims(g, best as nat).num_rows == rows_in(g, best));
        assert(spec_dims(g, next as nat).column_widths.len() == next);
        assert(rows_in(g, chosen) <= rows_in(g, best));
        if last_column_not_overfull(g, next) {
            assert(rows_in(g, chosen) <= rows_in(g, next));
        }
        if next < n {
            lemma_search_fewest_rows(g, display_width, next + 1, chosen);
            assert forall|k: int|
                next <= k <= g.cells.len() && reached(g, display_width, next, k) && last_column_not_overfull(g, k)
                    implies rows_in(g, search_columns(g, display_width, next, best)) <= #[trigger] rows_in(g, k) by {
                if k > next {
                    assert(reached(g, display_width, next + 1, k));
                }
            }
        }
    }
}

/// The layout `fit_into_width` chooses when the cells do not fit in one
/// row has the fewest rows among the layouts the search reaches: no layout
/// with more columns, up to the first that is too wide, whose last column
/// is not overfull has fewer rows (and none has fewer rows than the one it
/// starts from).
pub proof fn law_fit_into_width_fewest_rows(g: GridView, display_width: nat, k: int)
    requires
        g.cells.len() >= 1,
        max_width(g, g.cells.len() as int) < display_width,
        one_row_width(g) > display_width,
        start_columns(g, display_width) >= 1,
        start_columns(g, display_width) < k <= g.cells.len(),
        reached(g, display_width, start_columns(g, display_width) + 1, k),
        last_column_not_overfull(g, k),
    ensures
        fit_width_spec(g, display_width) matches Some(d) && d.num_rows <= rows_in(g, k),
{
    let c0 = start_columns(g, display_width);
    lemma_search_fewest_rows(g, display_width, c0 + 1, c0);
    assert(rows_in(g, search_columns(g, display_width, c0 + 1, c0)) <= rows_in(g, k));
}

/// The index of the cell shown in row `r`, column `c`.
pub open spec fn cell_index(direction: Direction, r: int, c: int, num_rows: nat, num_columns: nat) -> int {
    match direction {
        Direction::LeftToRight => r * num_columns + c,
        Direction::TopToBottom => r + num_rows * c,
    }
}

/// Whether row `r`, column `c` holds a cell.
pub open spec fn is_present(g: GridView, d: DimView, r: int, c: int) -> bool {
    cell_index(g.direction, r, c, d.num_rows, d.column_widths.len()) < g.cells.len()
}

/// The number of cells shown before row `r`, column `c`, reading row by row
/// (`c` may equal the number of columns, meaning the end of the row).
pub open spec fn visited_before(g: GridView, d: DimView, r: int, c: int) -> nat
    decreases r, c,
{
    if c <= 0 {
        if r <= 0 {
            0
        } else {
            visited_before(g, d, r - 1, d.column_widths.len() as int)
        }
    } else {
        visited_before(g, d, r, c - 1) + if is_present(g, d, r, c - 1) {
            1nat
        } else {
            0nat
        }
    }
}

/// The text written for row `r`, column `c`: nothing when the position is
/// empty; the bare contents of a left-aligned cell in the last column or of
/// the last cell written; otherwise the contents padded to the column width
/// followed by the column separator.
pub open spec fn render_piece(g: GridView, d: DimView, r: int, c: int) -> Seq<char> {
    let idx = cell_index(g.direction, r, c, d.num_rows, d.column_widths.len());
    if idx >= g.cells.len() {
        Seq::empty()
    } else {
        let cell = g.cells[idx];
        let is_last = c == d.column_widths.len() - 1 || visited_before(g, d, r, c) + 1
            == g.cells.len();
        if is_last && cell.2 == Alignment::Left {
            cell.0
        } else {
            padded(cell.0, cell.1, cell.2, d.column_widths[c]) + spaces(g.num_spaces)
        }
    }
}

/// The text of the first `k` positions of row `r`.
pub open spec fn render_row_prefix(g: GridView, d: DimView, r: int, k: int) -> Seq<char>
    decreases k,
{
    if k <= 0 {
        Seq::empty()
    } else {
        render_row_prefix(g, d, r, k - 1) + render_piece(g, d, r, k - 1)
    }
}

/// The text of the first `k` rows, each ended by a newline.
pub open spec fn render_rows(g: GridView, d: DimView, k: int) -> Seq<char>
    decreases k,
{
    if k <= 0 {
        Seq::empty()
    } else {
        render_rows(g, d, k - 1) + render_row_prefix(g, d, k - 1, d.column_widths.len() as int)
            + seq!['\n']
    }
}

/// The text of a laid-out grid: a lone newline for an empty grid, else its
/// rows.
pub open spec fn render(g: GridView, d: DimView) -> Seq<char> {
    if g.cells.len() == 0 {
        seq!['\n']
    } else {
        render_rows(g, d, d.num_rows as int)
    }
}

/// The shape of a grid's layout.
pub struct Dimentions {
    num_rows: usize,
    column_widths: Vec<usize>,
}

impl View for Dimentions {
    type V = DimView;

    closed spec fn view(&self) -> DimView {
        DimView {
            num_rows: self.num_rows as nat,
            column_widths: self.column_widths@.map_values(|w: usize| w as nat),
        }
    }
}

pub(crate) proof fn lemma_seq_sum_push(s: Seq<nat>, x: nat)
    ensures
        seq_sum(s.push(x)) == seq_sum(s) + x,
{
    assert(s.push(x).drop_last() =~= s);
}

proof fn lemma_seq_sum_zeros(n: nat)
    ensures
        seq_sum(Seq::new(n, |i: int| 0nat)) == 0,
    decreases n,
{
    if n > 0 {
        assert(Seq::new(n, |i: int| 0nat).drop_last() =~= Seq::new((n - 1) as nat, |i: int| 0nat));
        lemma_seq_sum_zeros((n - 1) as nat);
    }
}

impl Dimentions {
    /// The total width: the column widths plus `spaces` between each pair of
    /// adjacent columns.
    pub fn total_width(&self, spaces: usize) -> (r: usize)
        requires
            self@.column_widths.len() >= 1,
            dims_total_width(self@, spaces as nat) <= usize::MAX,
        ensures
            r == dims_total_width(self@, spaces as nat),
    {
        let len = self.column_widths.len();
        let mut sum: usize = 0;
        let mut i: usize = 0;
        proof {
            assert(self@.column_widths.len() == len);
        }
        while i < len
            invariant
                i <= len,
                len == self.column_widths@.len(),
                len == self@.column_widths.len(),
                self@.column_widths == self.column_widths@.map_values(|w: usize| w as nat),
                sum == seq_sum(self@.column_widths.take(i as int)),
                dims_total_width(self@, spaces as nat) <= usize::MAX,
            decreases len - i,
        {
            proof {
                lemma_seq_sum_push(self@.column_widths.take(i as int), self@.column_widths[i as int]);
                assert(self@.column_widths.take(i as int).push(self@.column_widths[i as int])
                    =~= self@.column_widths.take(i + 1));
                lemma_seq_sum_prefix_le(self@.column_widths, i + 1);
                assert((len - 1) * spaces >= 0) by (nonlinear_arith)
                    requires len >= 1;
            }
            sum = sum + self.column_widths[i];
            i = i + 1;
        }
        proof {
            assert(self@.column_widths.take(len as int) =~= self@.column_widths);
            assert((len - 1) * spaces <= usize::MAX) by (nonlinear_arith)
                requires seq_sum(self@.column_widths) + (len - 1) * spaces <= usize::MAX, len >= 1;
        }
        sum + (len - 1) * spaces
    }

    /// Whether this layout is better packed than the previous one chosen,
    /// whose number of rows is `previous_num_rows`.
    pub fn is_well_packed(&self, cell_count: usize, previous_num_rows: usize) -> (r: bool)
        requires
            self@.column_widths.len() >= 2,
        ensures
            r == is_well_packed_spec(self@, cell_count as nat, previous_num_rows as nat),
    {
        let last_col_cell_count = cell_count % (self.column_widths.len() - 1);
        (last_col_cell_count <= self.num_rows) && (self.num_rows != previous_num_rows)
    }

    /// A single row with `cell_count` columns.
    pub fn one_row(cell_count: usize) -> (r: Self)
        ensures
            r@ == one_row_spec(cell_count as nat),
    {
        let r = Dimentions { num_rows: 1, column_widths: vec![0; cell_count] };
        proof {
            assert(r@.column_widths =~= one_row_spec(cell_count as nat).column_widths);
        }
        r
    }
}

pub(crate) proof fn lemma_seq_sum_prefix_le(s: Seq<nat>, k: int)
    requires
        0 <= k <= s.len(),
    ensures
        seq_sum(s.take(k)) <= seq_sum(s),
    decreases s.len() - k,
{
    if k < s.len() {
        lemma_seq_sum_prefix_le(s, k + 1);
        lemma_seq_sum_push(s.take(k), s[k]);
        assert(s.take(k).push(s[k]) =~= s.take(k + 1));
    } else {
        assert(s.take(k) =~= s);
    }
}

/// Cells to be laid out in a grid.
pub struct Grid {
    cells_vec: Vec<DisplayCell>,
    num_spaces: usize,
    direction: Direction,
}

impl View for Grid {
    type V = GridView;

    closed spec fn view(&self) -> GridView {
        GridView {
            cells: self.cells_vec@.map_values(|c: DisplayCell| c@),
            num_spaces: self.num_spaces as nat,
            direction: self.direction,
        }
    }
}

proof fn lemma_column_in_range(i: int, rows: int, cols: int)
    requires
        0 <= i < rows * cols,
        rows > 0,
        cols > 0,
    ensures
        0 <= i / rows < cols,
{
    assert(0 <= i / rows < cols) by (nonlinear_arith)
        requires 0 <= i < rows * cols, rows > 0, cols > 0;
}

impl Grid {
    /// An empty grid with `num_spaces` spaces between columns.
    pub fn new(initial_capacity: usize, num_spaces: usize, direction: Direction) -> (r: Self)
        ensures
            r@.cells == Seq::<(Seq<char>, nat, Alignment)>::empty(),
            r@.num_spaces == num_spaces,
            r@.direction == direction,
    {
        let r = Grid { cells_vec: Vec::with_capacity(initial_capacity), num_spaces: num_spaces, direction: direction };
        proof {
            assert(r@.cells =~= Seq::<(Seq<char>, nat, Alignment)>::empty());
        }
        r
    }

    /// The number of cells added so far.
    pub fn total_cell_count(&self) -> (r: usize)
        ensures
            r == self@.cells.len(),
    {
        self.cells_vec.len()
    }

    /// Adds a cell after the cells already added.
    pub fn add(&mut self, cell: DisplayCell)
        ensures
            final(self)@.cells == old(self)@.cells.push(cell@),
            final(self)@.num_spaces == old(self)@.num_spaces,
            final(self)@.direction == old(self)@.direction,
    {
        self.cells_vec.push(cell);
        proof {
            assert(self@.cells =~= old(self)@.cells.push(cell@));
        }
    }

    /// The layout in `num_columns` columns.
    pub fn fit_into_columns(&self, num_columns: usize) -> (r: Display<'_>)
        requires
            num_columns > 0,
        ensures
            r.dims() == spec_dims(self@, num_columns as nat),
            r.grid() == self@,
    {
        let dimentions = self.calculate_dimentions(num_columns);
        Display { dimentions: dimentions, grid: self }
    }

    /// The best packed layout that fits into `display_width` columns.
    ///
    /// Returns `None` when a cell is at least as wide as the display. When
    /// all cells fit side by side they are laid out in one row; otherwise
    /// the column count starts from how many of the widest cells fit and
    /// grows while the layout still fits, moving to each better packed
    /// layout found.
    pub fn fit_into_width(&self, display_width: usize) -> (r: Option<Display<'_>>)
        requires
            fit_into_width_defined(self@, display_width as nat),
        ensures
            r is None <==> fit_width_spec(self@, display_width as nat) is None,
            r matches Some(d) ==> Some(d.dims()) == fit_width_spec(self@, display_width as nat)
                && d.grid() == self@,
    {
        let ghost g = self@;
        let n = self.cells_vec.len();
        if n == 0 {
            return Some(Display { dimentions: Dimentions::one_row(0), grid: self });
        }
        let mut max_cell_width: usize = 0;
        let mut i: usize = 0;
        while i < n
            invariant
                n == self.cells_vec@.len(),
                g == self@,
                g.cells.len() == n,
                i <= n,
                max_cell_width == max_width(g, i as int),
            decreases n - i,
        {
            proof {
                assert(g.cells[i as int] == self.cells_vec@[i as int]@);
            }
            let w = self.cells_vec[i].width;
            if w > max_cell_width {
                max_cell_width = w;
            }
            i = i + 1;
        }
        if max_cell_width >= display_width {
            return None;
        }
        let mut sum: usize = 0;
        let mut j: usize = 0;
        while j < n
            invariant
                n == self.cells_vec@.len(),
                g == self@,
                g.cells.len() == n,
                widths(g).len() == n,
                j <= n,
                sum == seq_sum(widths(g).take(j as int)),
                one_row_width(g) <= usize::MAX,
            decreases n - j,
        {
            proof {
                assert(g.cells[j as int] == self.cells_vec@[j as int]@);
                lemma_seq_sum_push(widths(g).take(j as int), widths(g)[j as int]);
                assert(widths(g).take(j as int).push(widths(g)[j as int]) =~= widths(g).take(j + 1));
                lemma_seq_sum_prefix_le(widths(g), j + 1);
                assert((n - 1) * g.num_spaces >= 0) by (nonlinear_arith) requires n >= 1;
            }
            sum = sum + self.cells_vec[j].width;
            j = j + 1;
        }
        proof {
            assert(widths(g).take(n as int) =~= widths(g));
            assert((n - 1) * g.num_spaces <= usize::MAX) by (nonlinear_arith)
                requires seq_sum(widths(g)) + (n - 1) * g.num_spaces <= usize::MAX, n >= 1;
        }
        let total_width: usize = sum + (n - 1) * self.num_spaces;
        if total_width <= display_width {
            Some(Display { dimentions: Dimentions::one_row(n), grid: self })
        } else {
            Some(self.internal_fit_into_width(max_cell_width, display_width))
        }
    }

    fn internal_fit_into_width(&self, max_cell_width: usize, display_width: usize) -> (r: Display<'_>)
        requires
            self@.cells.len() >= 1,
            max_cell_width == max_width(self@, self@.cells.len() as int),
            max_cell_width < display_width,
            one_row_width(self@) > display_width,
            one_row_width(self@) <= usize::MAX,
            max_cell_width + self@.num_spaces <= display_width,
        ensures
            r.dims() == spec_dims(
                self@,
                search_columns(
                    self@,
                    display_width as nat,
                    start_columns(self@, display_width as nat) + 1,
                    start_columns(self@, display_width as nat),
                ) as nat,
            ),
            r.grid() == self@,
    {
        let ghost g = self@;
        let n = self.cells_vec.len();
        let step = max_cell_width + self.num_spaces;
        proof {
            lemma_sum_le_len_max(g);
            if step == 0 {
                assert(seq_sum(widths(g)) == 0) by (nonlinear_arith)
                    requires seq_sum(widths(g)) <= n * max_cell_width, max_cell_width == 0;
                assert((n - 1) * g.num_spaces == 0) by (nonlinear_arith)
                    requires g.num_spaces == 0;
                assert(one_row_width(g) == 0);
            }
        }
        let c0 = display_width / step;
        proof {
            assert(c0 >= 1) by (nonlinear_arith)
                requires c0 == display_width / step, step <= display_width, step > 0;
            assert(c0 * step <= display_width) by (nonlinear_arith)
                requires c0 == display_width / step, step > 0;
            assert(c0 < n) by (nonlinear_arith)
                requires
                    c0 * step <= display_width,
                    display_width < seq_sum(widths(g)) + (n - 1) * g.num_spaces,
                    seq_sum(widths(g)) <= n * max_cell_width,
                    step == max_cell_width + g.num_spaces,
                    n >= 1,
            ;
            lemma_dims_all_columns(g);
        }
        let mut num_columns = c0;
        let mut dimentions = self.calculate_dimentions(num_columns);
        let ghost mut best: int = c0 as int;
        loop
            invariant_except_break
                num_columns < n,
                search_columns(g, display_width as nat, c0 + 1, c0 as int) == search_columns(
                    g,
                    display_width as nat,
                    num_columns + 1,
                    best,
                ),
            invariant
                g == self@,
                n == g.cells.len(),
                n >= 1,
                1 <= c0 <= num_columns <= n,
                dims_total_width(spec_dims(g, n as nat), g.num_spaces) == one_row_width(g),
                one_row_width(g) > display_width,
                one_row_width(g) <= usize::MAX,
                1 <= best <= num_columns,
                dimentions@ == spec_dims(g, best as nat),
            ensures
                dimentions@ == spec_dims(
                    g,
                    search_columns(g, display_width as nat, c0 + 1, c0 as int) as nat,
                ),
            decreases n - num_columns,
        {
            num_columns = num_columns + 1;
            let new_dimentions = self.calculate_dimentions(num_columns);
            proof {
                lemma_dims_total_bounded(g, num_columns as nat);
            }
            if new_dimentions.total_width(self.num_spaces) > display_width {
                proof {
                    assert(search_columns(g, display_width as nat, num_columns as int, best) == best);
                }
                break;
            }
            proof {
                assert(num_columns != n);
            }
            if new_dimentions.is_well_packed(n, dimentions.num_rows) {
                proof {
                    best = num_columns as int;
                }
                dimentions = new_dimentions;
            }
        }
        Display { dimentions: dimentions, grid: self }
    }

    fn calculate_dimentions(&self, num_columns: usize) -> (r: Dimentions)
        requires
            num_columns > 0,
        ensures
            r@ == spec_dims(self@, num_columns as nat),
    {
        let n = self.cells_vec.len();
        let num_rows = usize_div_ceil(n, num_columns);
        let mut column_widths: Vec<usize> = vec![0; num_columns];
        let ghost g = self@;
        let mut i: usize = 0;
        while i < n
            invariant
                n == self.cells_vec@.len(),
                g == self@,
                g.cells.len() == n,
                i <= n,
                num_rows == div_ceil(n as nat, num_columns as nat),
                num_rows * num_columns >= n,
                column_widths@.len() == num_columns,
                forall|c: int|
                    0 <= c < num_columns ==> #[trigger] column_widths@[c] as nat == col_max(
                        g,
                        num_columns as nat,
                        num_rows as nat,
                        c,
                        i as int,
                    ),
            decreases n - i,
        {
            proof {
                assert(g.cells[i as int] == self.cells_vec@[i as int]@);
            }
            let column_index = match self.direction {
                Direction::LeftToRight => i % num_columns,
                Direction::TopToBottom => {
                    proof {
                        assert(num_rows > 0) by (nonlinear_arith)
                            requires num_rows * num_columns >= n, i < n;
                        lemma_column_in_range(i as int, num_rows as int, num_columns as int);
                    }
                    i / num_rows
                },
            };
            let w = self.cells_vec[i].width;
            let old_w = column_widths[column_index];
            let new_w = if w > old_w { w } else { old_w };
            column_widths.set(column_index, new_w);
            i = i + 1;
        }
        let r = Dimentions { num_rows: num_rows, column_widths: column_widths };
        proof {
            assert(r@.column_widths =~= spec_dims(g, num_columns as nat).column_widths);
        }
        r
    }
}

/// A grid together with a layout for it, ready to be rendered.
pub struct Display<'a> {
    dimentions: Dimentions,
    grid: &'a Grid,
}

impl<'a> Display<'a> {
    /// The layout.
    pub closed spec fn dims(&self) -> DimView {
        self.dimentions@
    }

    /// The grid being laid out.
    pub closed spec fn grid(&self) -> GridView {
        self.grid@
    }

    /// A non-empty grid is laid out in at least one column.
    #[verifier::type_invariant]
    closed spec fn has_columns(&self) -> bool {
        self.grid@.cells.len() == 0 || self.dimentions@.column_widths.len() >= 1
    }

    /// The grid as text, row after row, each row ended by a newline.
    pub fn to_string(&self) -> (r: String)
        ensures
            r@ == render(self.grid(), self.dims()),
    {
        proof {
            use_type_invariant(self);
        }
        let ghost g = self.grid@;
        let ghost d = self.dimentions@;
        let n = self.grid.cells_vec.len();
        let mut out = String::new();
        if n == 0 {
            string_push(&mut out, '\n');
            proof {
                assert(out@ =~= render(g, d));
            }
            return out;
        }
        let num_columns = self.dimentions.column_widths.len();
        let num_rows = self.dimentions.num_rows;
        let last_column_index = num_columns - 1;
        let last_cell_index = n - 1;
        let num_spaces = self.grid.num_spaces;
        let direction = self.grid.direction;
        let mut cell_count: u128 = 0;
        let mut row_index: usize = 0;
        while row_index < num_rows
            invariant
                g == self.grid@,
                d == self.dimentions@,
                n == g.cells.len(),
                n == self.grid.cells_vec@.len(),
                n >= 1,
                last_cell_index == n - 1,
                num_columns == d.column_widths.len(),
                num_columns == self.dimentions.column_widths@.len(),
                num_columns >= 1,
                last_column_index == num_columns - 1,
                num_rows == d.num_rows,
                num_spaces == g.num_spaces,
                direction == g.direction,
                row_index <= num_rows,
                cell_count == visited_before(g, d, row_index as int, 0),
                cell_count <= row_index * num_columns,
                out@ == render_rows(g, d, row_index as int),
            decreases num_rows - row_index,
        {
            let mut column_index: usize = 0;
            while column_index < num_columns
                invariant
                    g == self.grid@,
                    d == self.dimentions@,
                    n == g.cells.len(),
                    n == self.grid.cells_vec@.len(),
                    n >= 1,
                    last_cell_index == n - 1,
                    num_columns == d.column_widths.len(),
                    num_columns == self.dimentions.column_widths@.len(),
                    num_columns >= 1,
                    last_column_index == num_columns - 1,
                    num_rows == d.num_rows,
                    num_spaces == g.num_spaces,
                    direction == g.direction,
                    row_index < num_rows,
                    column_index <= num_columns,
                    cell_count == visited_before(g, d, row_index as int, column_index as int),
                    cell_count <= row_index * num_columns + column_index,
                    out@ == render_rows(g, d, row_index as int) + render_row_prefix(
                        g,
                        d,
                        row_index as int,
                        column_index as int,
                    ),
                decreases num_columns - column_index,
            {
                proof {
                    assert((row_index as int) * (num_columns as int) + (column_index as int)
                        < 0xffff_ffff_ffff_ffff_ffff_ffff_ffff_ffff) by (nonlinear_arith)
                        requires
                            row_index <= usize::MAX,
                            num_columns <= usize::MAX,
                            column_index <= usize::MAX,
                    ;
                    assert((row_index as int) + (num_rows as int) * (column_index as int)
                        < 0x1_0000_0000_0000_0000_0000_0000_0000_0000) by (nonlinear_arith)
                        requires
                            row_index <= usize::MAX,
                            num_rows <= usize::MAX,
                            column_index <= usize::MAX,
                    ;
                }
                let idx: u128 = match direction {
                    Direction::LeftToRight => (row_index as u128) * (num_columns as u128)
                        + (column_index as u128),
                    Direction::TopToBottom => (row_index as u128) + (num_rows as u128) * (
                    column_index as u128),
                };
                let ghost before = out@;
                if idx <= last_cell_index as u128 {
                    let cell_index = idx as usize;
                    cell_count = cell_count + 1;
                    let cell = &self.grid.cells_vec[cell_index];
                    proof {
                        assert(g.cells[cell_index as int] == cell@);
                    }
                    if (column_index == last_column_index || cell_count == n as u128)
                        && cell.alignment == Alignment::Left {
                        string_push_str(&mut out, cell.contents.as_str());
                    } else {
                        proof {
                            assert(self.dimentions@.column_widths[column_index as int]
                                == self.dimentions.column_widths@[column_index as int] as nat);
                        }
                        cell.write(&mut out, self.dimentions.column_widths[column_index]);
                        push_spaces(&mut out, num_spaces);
                    }
                }
                proof {
                    assert(out@ =~= render_rows(g, d, row_index as int) + render_row_prefix(
                        g,
                        d,
                        row_index as int,
                        column_index + 1,
                    ));
                    assert(cell_count <= row_index * num_columns + column_index + 1);
                }
                column_index = column_index + 1;
            }
            string_push(&mut out, '\n');
            proof {
                assert(out@ =~= render_rows(g, d, row_index + 1));
                assert(visited_before(g, d, row_index + 1, 0) == visited_before(
                    g,
                    d,
                    row_index as int,
                    num_columns as int,
                ));
                assert(cell_count <= (row_index + 1) * num_columns) by (nonlinear_arith)
                    requires cell_count <= row_index * num_columns + num_columns;
            }
            row_index = row_index + 1;
        }
        proof {
            assert(out@ =~= render(g, d));
        }
        out
    }
}

proof fn lemma_seq_sum_update(s: Seq<nat>, j: int, v: nat)
    requires
        0 <= j < s.len(),
    ensures
        seq_sum(s.update(j, v)) == seq_sum(s) - s[j] + v,
    decreases s.len(),
{
    if j == s.len() - 1 {
        assert(s.update(j, v).drop_last() =~= s.drop_last());
    } else {
        lemma_seq_sum_update(s.drop_last(), j, v);
        assert(s.update(j, v).drop_last() =~= s.drop_last().update(j, v));
    }
}

proof fn lemma_seq_sum_bounded(s: Seq<nat>, b: nat)
    requires
        forall|i: int| 0 <= i < s.len() ==> #[trigger] s[i] <= b,
    ensures
        seq_sum(s) <= s.len() * b,
    decreases s.len(),
{
    if s.len() > 0 {
        lemma_seq_sum_bounded(s.drop_last(), b);
        assert(seq_sum(s) <= s.len() * b) by (nonlinear_arith)
            requires
                seq_sum(s) == seq_sum(s.drop_last()) + s.last(),
                seq_sum(s.drop_last()) <= (s.len() - 1) * b,
                s.last() <= b,
        ;
    }
}

/// The column widths of the layout in `cols` columns after the first `k`
/// cells have been placed.
spec fn col_widths_after(g: GridView, cols: nat, rows: nat, k: int) -> Seq<nat> {
    Seq::new(cols, |c: int| col_max(g, cols, rows, c, k))
}

proof fn lemma_col_sum_le(g: GridView, cols: nat, rows: nat, k: int)
    requires
        0 <= k <= g.cells.len(),
    ensures
        seq_sum(col_widths_after(g, cols, rows, k)) <= seq_sum(widths(g).take(k)),
    decreases k,
{
    if k == 0 {
        assert(col_widths_after(g, cols, rows, 0) =~= Seq::new(cols, |i: int| 0nat));
        lemma_seq_sum_zeros(cols);
    } else {
        lemma_col_sum_le(g, cols, rows, k - 1);
        let prev = col_widths_after(g, cols, rows, k - 1);
        let cur = col_widths_after(g, cols, rows, k);
        let cc = column_of(g.direction, k - 1, cols, rows);
        lemma_seq_sum_push(widths(g).take(k - 1), widths(g)[k - 1]);
        assert(widths(g).take(k - 1).push(widths(g)[k - 1]) =~= widths(g).take(k));
        if 0 <= cc < cols {
            assert(cur =~= prev.update(cc, col_max(g, cols, rows, cc, k)));
            lemma_seq_sum_update(prev, cc, col_max(g, cols, rows, cc, k));
        } else {
            assert(cur =~= prev);
        }
    }
}

proof fn lemma_col_max_le_max(g: GridView, cols: nat, rows: nat, c: int, k: int)
    requires
        0 <= k <= g.cells.len(),
    ensures
        col_max(g, cols, rows, c, k) <= max_width(g, k),
    decreases k,
{
    if k > 0 {
        lemma_col_max_le_max(g, cols, rows, c, k - 1);
    }
}

proof fn lemma_col_max_ge_cell(g: GridView, cols: nat, rows: nat, i: int, k: int)
    requires
        0 <= i < k <= g.cells.len(),
    ensures
        col_max(g, cols, rows, column_of(g.direction, i, cols, rows), k) >= g.cells[i].1,
    decreases k,
{
    if i < k - 1 {
        lemma_col_max_ge_cell(g, cols, rows, i, k - 1);
    }
}

proof fn lemma_max_width_ge(g: GridView, i: int, k: int)
    requires
        0 <= i < k <= g.cells.len(),
    ensures
        max_width(g, k) >= g.cells[i].1,
    decreases k,
{
    if i < k - 1 {
        lemma_max_width_ge(g, i, k - 1);
    }
}

proof fn lemma_sum_le_len_max(g: GridView)
    ensures
        seq_sum(widths(g)) <= g.cells.len() * max_width(g, g.cells.len() as int),
{
    let n = g.cells.len();
    assert forall|i: int| 0 <= i < widths(g).len() implies #[trigger] widths(g)[i] <= max_width(g, n as int) by {
        lemma_max_width_ge(g, i, n as int);
    }
    lemma_seq_sum_bounded(widths(g), max_width(g, n as int));
}

proof fn lemma_col_max_identity(g: GridView, c: int, k: int)
    requires
        0 <= k <= g.cells.len(),
        0 <= c < g.cells.len(),
    ensures
        col_max(g, g.cells.len(), 1, c, k) == if c < k { g.cells[c].1 } else { 0 },
    decreases k,
{
    let n = g.cells.len() as int;
    if k > 0 {
        lemma_col_max_identity(g, c, k - 1);
        assert((k - 1) % n == k - 1) by (nonlinear_arith)
            requires 0 <= k - 1 < n;
        assert((k - 1) / 1 == k - 1);
    }
}

proof fn lemma_dims_all_columns(g: GridView)
    requires
        g.cells.len() >= 1,
    ensures
        spec_dims(g, g.cells.len()).num_rows == 1,
        spec_dims(g, g.cells.len()).column_widths =~= widths(g),
        dims_total_width(spec_dims(g, g.cells.len()), g.num_spaces) == one_row_width(g),
{
    let n = g.cells.len();
    assert(n % n == 0) by (nonlinear_arith) requires n >= 1;
    assert(n / n == 1) by (nonlinear_arith) requires n >= 1;
    assert forall|c: int| 0 <= c < n implies spec_dims(g, n).column_widths[c] == widths(g)[c] by {
        lemma_col_max_identity(g, c, n as int);
    }
}

proof fn lemma_dims_total_bounded(g: GridView, cols: nat)
    requires
        1 <= cols <= g.cells.len(),
    ensures
        dims_total_width(spec_dims(g, cols), g.num_spaces) <= one_row_width(g),
{
    let n = g.cells.len();
    let rows = div_ceil(n, cols);
    lemma_col_sum_le(g, cols, rows, n as int);
    assert(widths(g).take(n as int) =~= widths(g));
    assert(spec_dims(g, cols).column_widths =~= col_widths_after(g, cols, rows, n as int));
    assert((cols - 1) * g.num_spaces <= (n - 1) * g.num_spaces) by (nonlinear_arith)
        requires cols <= n, cols >= 1;
}

proof fn lemma_search_keeps_fit(g: GridView, display_width: nat, next: int, best: int)
    requires
        dims_total_width(spec_dims(g, best as nat), g.num_spaces) <= display_width,
    ensures
        dims_total_width(
            spec_dims(g, search_columns(g, display_width, next, best) as nat),
            g.num_spaces,
        ) <= display_width,
    decreases g.cells.len() - next,
{
    let n = g.cells.len();
    if next < 1 || next > n {
    } else if dims_total_width(spec_dims(g, next as nat), g.num_spaces) > display_width {
    } else {
        let chosen = if is_well_packed_spec(
            spec_dims(g, next as nat),
            n,
            spec_dims(g, best as nat).num_rows,
        ) {
            next
        } else {
            best
        };
        if next != n {
            lemma_search_keeps_fit(g, display_width, next + 1, chosen);
        }
    }
}

proof fn lemma_max_width_attained(g: GridView, k: int)
    requires
        1 <= k <= g.cells.len(),
    ensures
        exists|i: int| 0 <= i < k && max_width(g, k) == #[trigger] g.cells[i].1,
    decreases k,
{
    if k > 1 {
        lemma_max_width_attained(g, k - 1);
        let i = choose|i: int| 0 <= i < k - 1 && max_width(g, k - 1) == #[trigger] g.cells[i].1;
        if g.cells[k - 1].1 > max_width(g, k - 1) {
            assert(max_width(g, k) == g.cells[k - 1].1);
        } else {
            assert(max_width(g, k) == g.cells[i].1);
        }
    } else {
        assert(max_width(g, 0) == 0);
        assert(max_width(g, 1) == g.cells[0].1);
    }
}

/// Fitting into a width fails exactly when the grid has a cell at least as
/// wide as the display.
pub proof fn law_fit_into_width_none(g: GridView, display_width: nat)
    ensures
        fit_width_spec(g, display_width) is None <==> exists|i: int|
            0 <= i < g.cells.len() && #[trigger] g.cells[i].1 >= display_width,
{
    let n = g.cells.len();
    if n > 0 {
        lemma_max_width_attained(g, n as int);
        if exists|i: int| 0 <= i < g.cells.len() && #[trigger] g.cells[i].1 >= display_width {
            let i = choose|i: int| 0 <= i < g.cells.len() && #[trigger] g.cells[i].1 >= display_width;
            lemma_max_width_ge(g, i, n as int);
        }
    }
}

/// The layout chosen by fitting into a width is no wider than the display:
/// its columns and the spaces between them add up to at most the display
/// width, and when it is a single row the cells side by side fit.
pub proof fn law_fit_into_width_fits(g: GridView, display_width: nat)
    requires
        fit_into_width_defined(g, display_width),
        fit_width_spec(g, display_width) is Some,
        g.cells.len() >= 1,
    ensures
        dims_total_width(fit_width_spec(g, display_width)->0, g.num_spaces) <= display_width,
        fit_width_spec(g, display_width)->0 == one_row_spec(g.cells.len()) ==> one_row_width(g)
            <= display_width,
{
    let n = g.cells.len();
    let m = max_width(g, n as int);
    let sp = g.num_spaces;
    lemma_seq_sum_zeros(n);
    lemma_sum_le_len_max(g);
    if one_row_width(g) <= display_width {
        assert(dims_total_width(one_row_spec(n), sp) == (n - 1) * sp);
        assert((n - 1) * sp <= seq_sum(widths(g)) + (n - 1) * sp);
    } else {
        let c0 = start_columns(g, display_width);
        let step = m + sp;
        if step == 0 {
            assert(seq_sum(widths(g)) == 0) by (nonlinear_arith)
                requires seq_sum(widths(g)) <= n * m, m == 0;
            assert((n - 1) * sp == 0) by (nonlinear_arith) requires sp == 0;
        }
        assert(step > 0);
        assert(c0 >= 1) by (nonlinear_arith)
            requires c0 == display_width / step, step <= display_width, step > 0;
        assert(c0 * step <= display_width) by (nonlinear_arith)
            requires c0 == display_width / step, step > 0, c0 >= 0;
        let d0 = spec_dims(g, c0 as nat);
        assert forall|c: int| 0 <= c < d0.column_widths.len() implies #[trigger] d0.column_widths[c]
            <= m by {
            lemma_col_max_le_max(g, c0 as nat, d0.num_rows, c, n as int);
        }
        lemma_seq_sum_bounded(d0.column_widths, m);
        assert(seq_sum(d0.column_widths) + (c0 - 1) * sp <= display_width) by (nonlinear_arith)
            requires
                seq_sum(d0.column_widths) <= c0 * m,
                c0 * step <= display_width,
                step == m + sp,
                c0 >= 1,
        ;
        lemma_search_keeps_fit(g, display_width, c0 + 1, c0);
        let chosen = search_columns(g, display_width, c0 + 1, c0);
        if spec_dims(g, chosen as nat) == one_row_spec(n) {
            assert(false) by {
                // a search layout with one row holds every cell in its own
                // column, so its width is the one-row width
                assert(spec_dims(g, chosen as nat).column_widths.len() == n);
                lemma_search_range(g, display_width, c0 + 1, c0);
                lemma_dims_all_columns(g);
            }
        }
    }
}

proof fn lemma_search_range(g: GridView, display_width: nat, next: int, best: int)
    requires
        1 <= best,
    ensures
        1 <= search_columns(g, display_width, next, best),
        search_columns(g, display_width, next, best) == best || (next <= search_columns(
            g,
            display_width,
            next,
            best,
        ) <= g.cells.len() && dims_total_width(
            spec_dims(g, search_columns(g, display_width, next, best) as nat),
            g.num_spaces,
        ) <= display_width),
    decreases g.cells.len() - next,
{
    let n = g.cells.len();
    if next < 1 || next > n {
    } else if dims_total_width(spec_dims(g, next as nat), g.num_spaces) > display_width {
    } else {
        let chosen = if is_well_packed_spec(
            spec_dims(g, next as nat),
            n,
            spec_dims(g, best as nat).num_rows,
        ) {
            next
        } else {
            best
        };
        if next != n {
            lemma_search_range(g, display_width, next + 1, chosen);
        }
    }
}

/// In the layout in any number of columns, every cell falls into one of the
/// columns, the rows and columns have room for every cell, and each column
/// is at least as wide as each cell in it.
pub proof fn law_columns_hold_their_cells(g: GridView, num_columns: nat, i: int)
    requires
        num_columns >= 1,
        0 <= i < g.cells.len(),
    ensures
        spec_dims(g, num_columns).num_rows * num_columns >= g.cells.len(),
        0 <= column_of(
            g.direction,
            i,
            num_columns,
            spec_dims(g, num_columns).num_rows,
        ) < num_columns,
        spec_dims(g, num_columns).column_widths[column_of(
            g.direction,
            i,
            num_columns,
            spec_dims(g, num_columns).num_rows,
        )] >= g.cells[i].1,
{
    let n = g.cells.len();
    let rows = div_ceil(n, num_columns);
    assert(rows * num_columns >= n) by (nonlinear_arith)
        requires
            rows == (if n % num_columns > 0 { n / num_columns + 1 } else { n / num_columns }),
            num_columns >= 1,
    ;
    match g.direction {
        Direction::LeftToRight => {},
        Direction::TopToBottom => {
            assert(rows > 0) by (nonlinear_arith) requires rows * num_columns >= n, 0 <= i < n;
            lemma_column_in_range(i, rows as int, num_columns as int);
        },
    }
    lemma_col_max_ge_cell(g, num_columns, rows, i, n as int);
}

/// `lhs / rhs` rounded up.
pub fn usize_div_ceil(lhs: usize, rhs: usize) -> (r: usize)
    requires
        rhs > 0,
    ensures
        r == div_ceil(lhs as nat, rhs as nat),
        r * rhs >= lhs,
        r == 0 || (r - 1) * rhs < lhs,
{
    let d = lhs / rhs;
    let rem = lhs % rhs;
    proof {
        assert(d * rhs + rem == lhs) by (nonlinear_arith)
            requires d == lhs / rhs, rem == lhs % rhs, rhs > 0;
        assert(rem < rhs);
    }
    if rem > 0 && rhs > 0 {
        proof {
            assert(d < lhs || (d == 0)) by (nonlinear_arith)
                requires d * rhs + rem == lhs, rem > 0, rhs > 0, d >= 0;
            assert((d + 1) * rhs >= lhs) by (nonlinear_arith)
                requires d * rhs + rem == lhs, rem < rhs;
        }
        d + 1
    } else {
        proof {
            assert(d * rhs >= lhs);
            if d > 0 {
                assert((d - 1) * rhs < lhs) by (nonlinear_arith)
                    requires d * rhs == lhs, rhs > 0, d > 0;
            }
        }
        d
    }
}

} // verus!
