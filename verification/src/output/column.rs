//! The column formats: one entry per line, or names laid out in as many
//! columns as fit into the terminal, filled down or across.

use vstd::prelude::*;

use crate::config::Config;
use crate::entry::{allocated_size_cell_spec, ino_cell_spec, name_cell_spec, EntryBuf};
use crate::output::display_cell::{Alignment, CellView, DisplayCell};
use crate::output::format_filename::{cell_append, cell_push, cell_push_str, wrap_add};
use crate::output::grid::{fit_into_width_defined, max_width, one_row_width, seq_sum, widths, Direction, GridView};
use crate::output::{cell_views, fit_into_columns, grid_fit_into_width, term_grid_columns, term_grid_width};
use crate::text::{push_spaces, spaces, string_push, string_push_str};
use crate::theme::opt_string_view;

verus! {

/// The number of cells per entry in the single-column format: the name,
/// and the inode and allocated size where they are listed.
pub open spec fn single_column_count(config: &Config) -> nat {
    1 + (if config.list_inode { 1nat } else { 0 }) + (if config.list_allocated_size { 1nat } else { 0 })
}

/// The cells of one entry in the single-column format.
pub open spec fn single_row_cells(e: EntryBuf, config: &Config) -> Seq<CellView> {
    (if config.list_inode { seq![ino_cell_spec(e@, config)] } else { Seq::empty() }) + (
    if config.list_allocated_size {
        seq![allocated_size_cell_spec(e@, config)]
    } else {
        Seq::empty()
    }) + seq![name_cell_spec(e@, config)]
}

/// The cells of the first `k` entries in the single-column format.
pub open spec fn single_column_cells(entries: Seq<EntryBuf>, k: int, config: &Config) -> Seq<CellView>
    decreases k,
{
    if k <= 0 {
        Seq::empty()
    } else {
        single_column_cells(entries, k - 1, config) + single_row_cells(entries[k - 1], config)
    }
}

/// The names of the first `k` entries, each on a line of its own.
pub open spec fn name_lines(entries: Seq<EntryBuf>, k: int, config: &Config) -> Seq<char>
    decreases k,
{
    if k <= 0 {
        Seq::empty()
    } else {
        name_lines(entries, k - 1, config) + name_cell_spec(entries[k - 1]@, config).0 + seq!['\n']
    }
}

/// The text of the single-column format: the names one per line, or, with
/// inode or allocated-size columns, the cells in a grid of that many
/// columns.
pub open spec fn single_column_text(entries: Seq<EntryBuf>, config: &Config) -> Seq<char> {
    if single_column_count(config) == 1 {
        name_lines(entries, entries.len() as int, config)
    } else {
        term_grid_columns(
            single_column_cells(entries, entries.len() as int, config),
            seq![' '],
            Direction::LeftToRight,
            single_column_count(config),
        )
    }
}

/// The text of the single-column format.
pub fn single_column_format(entrybuf_vec: &Vec<EntryBuf>, config: &Config) -> (r: String)
    requires
        entrybuf_vec@.len() * 3 + 3 <= usize::MAX,
    ensures
        r@ == single_column_text(entrybuf_vec@, config),
{
    let n = entrybuf_vec.len();
    let num_columns: usize = 1 + (if config.list_inode { 1 } else { 0 }) + (if config.list_allocated_size {
        1
    } else {
        0
    });

    if num_columns == 1 {
        let mut text = String::new();
        let mut i: usize = 0;
        while i < n
            invariant
                n == entrybuf_vec@.len(),
                i <= n,
                text@ == name_lines(entrybuf_vec@, i as int, config),
            decreases n - i,
        {
            let file_name_cell = entrybuf_vec[i].file_name_cell(config);
            string_push_str(&mut text, file_name_cell.contents.as_str());
            string_push(&mut text, '\n');
            i = i + 1;
            proof {
                assert(text@ =~= name_lines(entrybuf_vec@, i as int, config));
            }
        }
        text
    } else {
        let mut cells_vec: Vec<DisplayCell> = Vec::new();
        let mut i: usize = 0;
        while i < n
            invariant
                n == entrybuf_vec@.len(),
                n * 3 + 3 <= usize::MAX,
                i <= n,
                cell_views(cells_vec@) == single_column_cells(entrybuf_vec@, i as int, config),
                cells_vec@.len() <= 3 * i,
            decreases n - i,
        {
            let entrybuf = &entrybuf_vec[i];
            let ghost before = cells_vec@;
            if config.list_inode {
                cells_vec.push(entrybuf.ino_cell(config));
            }
            if config.list_allocated_size {
                cells_vec.push(entrybuf.allocated_size_cell(config));
            }
            cells_vec.push(entrybuf.file_name_cell(config));
            i = i + 1;
            proof {
                assert(cell_views(cells_vec@) =~= single_column_cells(entrybuf_vec@, i as int, config));
            }
        }
        fit_into_columns(&cells_vec, num_columns)
    }
}

/// The widest of the first `k` widths (0 when `k` is 0).
pub open spec fn max_of(s: Seq<nat>, k: int) -> nat
    decreases k,
{
    if k <= 0 {
        0
    } else if s[k - 1] > max_of(s, k - 1) {
        s[k - 1]
    } else {
        max_of(s, k - 1)
    }
}

/// The text of `c` padded with spaces on the left to `width` columns.
pub open spec fn right_padded(c: CellView, width: nat) -> Seq<char> {
    if width <= c.1 {
        c.0
    } else {
        spaces((width - c.1) as nat) + c.0
    }
}

/// The widths of the inode cells of the entries.
pub open spec fn ino_widths(entries: Seq<EntryBuf>, config: &Config) -> Seq<nat> {
    Seq::new(entries.len(), |i: int| ino_cell_spec(entries[i]@, config).1)
}

/// The widths of the allocated-size cells of the entries.
pub open spec fn allocated_widths(entries: Seq<EntryBuf>, config: &Config) -> Seq<nat> {
    Seq::new(entries.len(), |i: int| allocated_size_cell_spec(entries[i]@, config).1)
}

/// The cell of one entry in a multi-column layout with inode or allocated
/// size: those numbers right-aligned to the widest of their column, each
/// followed by a space, then the name.
pub open spec fn complex_cell(e: EntryBuf, max_ino: nat, max_allocated: nat, config: &Config) -> CellView {
    let c0: CellView = (Seq::empty(), 0nat, Alignment::Left);
    let c1 = if config.list_inode {
        cell_push(cell_push_str(c0, right_padded(ino_cell_spec(e@, config), max_ino), max_ino), ' ')
    } else {
        c0
    };
    let c2 = if config.list_allocated_size {
        cell_push(
            cell_push_str(c1, right_padded(allocated_size_cell_spec(e@, config), max_allocated), max_allocated),
            ' ',
        )
    } else {
        c1
    };
    cell_append(c2, name_cell_spec(e@, config))
}

/// The cells of a multi-column layout with inode or allocated size.
pub open spec fn complex_cells(entries: Seq<EntryBuf>, config: &Config) -> Seq<CellView> {
    Seq::new(
        entries.len(),
        |i: int|
            complex_cell(
                entries[i],
                max_of(ino_widths(entries, config), entries.len() as int),
                max_of(allocated_widths(entries, config), entries.len() as int),
                config,
            ),
    )
}

/// Appends the text of `other` padded on the left to `width` columns, and
/// counts `width` columns.
pub fn gridcell_append_contents_with_width_right_padded(
    cell: &mut DisplayCell,
    other_cell: &DisplayCell,
    width: usize,
)
    ensures
        final(cell)@ == cell_push_str(old(cell)@, right_padded(other_cell@, width as nat), width as nat),
{
    let pad_width: usize = if width <= other_cell.width {
        0
    } else {
        width - other_cell.width
    };
    if pad_width == 0 {
        string_push_str(&mut cell.contents, other_cell.contents.as_str());
    } else {
        push_spaces(&mut cell.contents, pad_width);
        string_push_str(&mut cell.contents, other_cell.contents.as_str());
    }
    cell.width = cell.width.wrapping_add(width);
    proof {
        assert(cell.contents@ =~= old(cell).contents@ + right_padded(other_cell@, width as nat));
    }
}

/// Builds, in `cells_vec`, one cell per entry holding its inode number and
/// allocated size (where listed), each right-aligned to the widest of its
/// kind and followed by a space, and then its name.
pub fn complex_multi_column_grid_init(
    cells_vec: &mut Vec<DisplayCell>,
    entrybuf_vec: &Vec<EntryBuf>,
    config: &Config,
)
    ensures
        cell_views(final(cells_vec)@) == cell_views(old(cells_vec)@) + complex_cells(entrybuf_vec@, config),
{
    let ghost entries = entrybuf_vec@;
    let entrybuf_count = entrybuf_vec.len();
    let mut ino_cell_vec: Vec<DisplayCell> = Vec::new();
    let mut max_ino_cell_width: usize = 0;
    let mut allocated_size_cell_vec: Vec<DisplayCell> = Vec::new();
    let mut max_allocated_size_cell_width: usize = 0;

    let mut i: usize = 0;
    while i < entrybuf_count
        invariant
            entrybuf_count == entries.len(),
            entries == entrybuf_vec@,
            i <= entrybuf_count,
            config.list_inode ==> ino_cell_vec@.len() == i,
            config.list_allocated_size ==> allocated_size_cell_vec@.len() == i,
            config.list_inode ==> forall|k: int| 0 <= k < i ==> #[trigger] ino_cell_vec@[k]@ == ino_cell_spec(entries[k]@, config),
            config.list_allocated_size ==> forall|k: int|
                0 <= k < i ==> #[trigger] allocated_size_cell_vec@[k]@ == allocated_size_cell_spec(entries[k]@, config),
            max_ino_cell_width == max_of(ino_widths(entries, config), i as int) || !config.list_inode,
            max_allocated_size_cell_width == max_of(allocated_widths(entries, config), i as int)
                || !config.list_allocated_size,
        decreases entrybuf_count - i,
    {
        let entrybuf = &entrybuf_vec[i];
        if config.list_inode {
            let ino_cell = entrybuf.ino_cell(config);
            if ino_cell.width > max_ino_cell_width {
                max_ino_cell_width = ino_cell.width;
            }
            ino_cell_vec.push(ino_cell);
        }
        if config.list_allocated_size {
            let allocated_size_cell = entrybuf.allocated_size_cell(config);
            if allocated_size_cell.width > max_allocated_size_cell_width {
                max_allocated_size_cell_width = allocated_size_cell.width;
            }
            allocated_size_cell_vec.push(allocated_size_cell);
        }
        i = i + 1;
    }

    let ghost max_ino: nat = max_of(ino_widths(entries, config), entries.len() as int);
    let ghost max_allocated: nat = max_of(allocated_widths(entries, config), entries.len() as int);
    let ghost start = cell_views(cells_vec@);
    let mut i: usize = 0;
    while i < entrybuf_count
        invariant
            entrybuf_count == entries.len(),
            entries == entrybuf_vec@,
            i <= entrybuf_count,
            config.list_inode ==> ino_cell_vec@.len() == entrybuf_count,
            config.list_allocated_size ==> allocated_size_cell_vec@.len() == entrybuf_count,
            config.list_inode ==> forall|k: int|
                0 <= k < entrybuf_count ==> #[trigger] ino_cell_vec@[k]@ == ino_cell_spec(entries[k]@, config),
            config.list_allocated_size ==> forall|k: int|
                0 <= k < entrybuf_count ==> #[trigger] allocated_size_cell_vec@[k]@ == allocated_size_cell_spec(
                    entries[k]@,
                    config,
                ),
            config.list_inode ==> max_ino_cell_width == max_ino,
            config.list_allocated_size ==> max_allocated_size_cell_width == max_allocated,
            max_ino == max_of(ino_widths(entries, config), entries.len() as int),
            max_allocated == max_of(allocated_widths(entries, config), entries.len() as int),
            cell_views(cells_vec@) == start + complex_cells(entries, config).take(i as int),
        decreases entrybuf_count - i,
    {
        let mut cell = DisplayCell::with_capacity(128);
        if config.list_inode {
            gridcell_append_contents_with_width_right_padded(
                &mut cell,
                &ino_cell_vec[i],
                max_ino_cell_width,
            );
            crate::output::format_filename::push_char_wrapping(&mut cell, ' ');
        }
        if config.list_allocated_size {
            gridcell_append_contents_with_width_right_padded(
                &mut cell,
                &allocated_size_cell_vec[i],
                max_allocated_size_cell_width,
            );
            crate::output::format_filename::push_char_wrapping(&mut cell, ' ');
        }
        let name_cell = entrybuf_vec[i].file_name_cell(config);
        crate::output::format_filename::append_wrapping(&mut cell, name_cell);
        proof {
            assert(cell@ == complex_cell(entries[i as int], max_ino, max_allocated, config));
        }
        let ghost prev = cells_vec@;
        let ghost cv = cell@;
        cells_vec.push(cell);
        i = i + 1;
        proof {
            assert(cell_views(cells_vec@) =~= cell_views(prev).push(cv));
            assert(complex_cells(entries, config).take(i as int) =~= complex_cells(entries, config).take(
                i - 1,
            ).push(cv));
            assert(cell_views(cells_vec@) =~= start + complex_cells(entries, config).take(i as int));
        }
    }
    proof {
        assert(complex_cells(entries, config).take(entrybuf_count as int) =~= complex_cells(entries, config));
    }
}

/// Whether `nls_term_grid` can fit `cells` with `num_spaces` spaces
/// between columns into `display_width` columns without failing.
fn width_fit_defined(cells: &Vec<DisplayCell>, num_spaces: usize, direction: Direction, display_width: usize) -> (r: bool)
    ensures
        r == fit_into_width_defined(
            (GridView { cells: cell_views(cells@), num_spaces: num_spaces as nat, direction: direction }),
            display_width as nat,
        ),
{
    let ghost g = GridView { cells: cell_views(cells@), num_spaces: num_spaces as nat, direction: direction };
    let n = cells.len();
    if n == 0 {
        return true;
    }
    let mut max_cell_width: usize = 0;
    let mut i: usize = 0;
    while i < n
        invariant
            n == cells@.len(),
            g.cells == cell_views(cells@),
            i <= n,
            max_cell_width == max_width(g, i as int),
        decreases n - i,
    {
        let w = cells[i].width;
        if w > max_cell_width {
            max_cell_width = w;
        }
        i = i + 1;
    }
    if max_cell_width >= display_width {
        return true;
    }
    let mut sum: usize = 0;
    let mut j: usize = 0;
    while j < n
        invariant
            n == cells@.len(),
            g.cells == cell_views(cells@),
            widths(g).len() == n,
            n >= 1,
            g == (GridView { cells: cell_views(cells@), num_spaces: num_spaces as nat, direction: direction }),
            max_cell_width == max_width(g, n as int),
            max_cell_width < display_width,
            j <= n,
            sum == seq_sum(widths(g).take(j as int)),
        decreases n - j,
    {
        proof {
            crate::output::grid::lemma_seq_sum_push(widths(g).take(j as int), widths(g)[j as int]);
            assert(widths(g).take(j as int).push(widths(g)[j as int]) =~= widths(g).take(j + 1));
        }
        match sum.checked_add(cells[j].width) {
            Some(s) => {
                sum = s;
            },
            None => {
                proof {
                    crate::output::grid::lemma_seq_sum_prefix_le(widths(g), j + 1);
                    assert((n - 1) * g.num_spaces >= 0) by (nonlinear_arith)
                        requires
                            n >= 1,
                    ;
                }
                return false;
            },
        }
        j = j + 1;
    }
    proof {
        assert(widths(g).take(n as int) =~= widths(g));
    }
    let spacing = match (n - 1).checked_mul(num_spaces) {
        Some(s) => s,
        None => {
            return false;
        },
    };
    let total_width = match sum.checked_add(spacing) {
        Some(t) => t,
        None => {
            return false;
        },
    };
    if total_width <= display_width {
        return true;
    }
    match max_cell_width.checked_add(num_spaces) {
        Some(m) => m <= display_width,
        None => false,
    }
}

/// The cells of a multi-column layout: the complex cells when inode or
/// allocated size is listed, else the name cells.
pub open spec fn multi_column_cells(entries: Seq<EntryBuf>, config: &Config) -> Seq<CellView> {
    if config.list_inode || config.list_allocated_size {
        complex_cells(entries, config)
    } else {
        Seq::new(entries.len(), |i: int| name_cell_spec(entries[i]@, config))
    }
}

/// The text of a multi-column layout in a terminal `display_width`
/// columns wide: the cells fitted into the width with two spaces between
/// columns, or the single-column format when some cell is too wide;
/// `None` on the inputs on which the grid layout would fail.
pub open spec fn multi_column_text(
    direction: Direction,
    entries: Seq<EntryBuf>,
    config: &Config,
    display_width: nat,
) -> Option<Seq<char>> {
    let cells = multi_column_cells(entries, config);
    if !fit_into_width_defined(
        (GridView { cells: cells, num_spaces: 2, direction: direction }),
        display_width,
    ) {
        None
    } else {
        match term_grid_width(cells, seq![' ', ' '], direction, display_width) {
            Some(text) => Some(text),
            None => Some(single_column_text(entries, config)),
        }
    }
}

/// The width the layout uses: the terminal's, or 80 columns when it is
/// unknown.
pub open spec fn display_width_of(terminal_width: Option<usize>) -> nat {
    match terminal_width {
        Some(w) => w as nat,
        None => 80,
    }
}

fn multi_column_format(
    direction: Direction,
    entrybuf_vec: &Vec<EntryBuf>,
    config: &Config,
    terminal_width: Option<usize>,
) -> (r: Option<String>)
    requires
        entrybuf_vec@.len() * 3 + 3 <= usize::MAX,
    ensures
        opt_string_view(r) == multi_column_text(
            direction,
            entrybuf_vec@,
            config,
            display_width_of(terminal_width),
        ),
{
    let mut cells_vec: Vec<DisplayCell> = Vec::new();
    if config.list_inode || config.list_allocated_size {
        complex_multi_column_grid_init(&mut cells_vec, entrybuf_vec, config);
        proof {
            assert(cell_views(cells_vec@) =~= multi_column_cells(entrybuf_vec@, config));
        }
    } else {
        let n = entrybuf_vec.len();
        let mut i: usize = 0;
        while i < n
            invariant
                n == entrybuf_vec@.len(),
                i <= n,
                cell_views(cells_vec@) == Seq::new(i as nat, |k: int| name_cell_spec(entrybuf_vec@[k]@, config)),
            decreases n - i,
        {
            let c = entrybuf_vec[i].file_name_cell(config);
            let ghost prev = cells_vec@;
            let ghost cv = c@;
            cells_vec.push(c);
            i = i + 1;
            proof {
                assert(cell_views(cells_vec@) =~= cell_views(prev).push(cv));
                assert(cell_views(cells_vec@) =~= Seq::new(i as nat, |k: int| name_cell_spec(entrybuf_vec@[k]@, config)));
            }
        }
        proof {
            assert(cell_views(cells_vec@) =~= multi_column_cells(entrybuf_vec@, config));
        }
    }

    let display_width: usize = match terminal_width {
        Some(w) => w,
        None => 80,
    };
    if !width_fit_defined(&cells_vec, 2, direction, display_width) {
        return None;
    }
    let separator = "  ";
    proof {
        reveal_strlit("  ");
        assert(separator@ =~= seq![' ', ' ']);
        assert(separator@ =~= spaces(2));
    }
    match grid_fit_into_width(&cells_vec, separator, direction, display_width) {
        Some(display) => Some(display),
        None => Some(single_column_format(entrybuf_vec, config)),
    }
}

/// The entries laid out in columns filled top to bottom.
pub fn vertical_format(entrybuf_vec: &Vec<EntryBuf>, config: &Config, terminal_width: Option<usize>) -> (r: Option<String>)
    requires
        entrybuf_vec@.len() * 3 + 3 <= usize::MAX,
    ensures
        opt_string_view(r) == multi_column_text(
            Direction::TopToBottom,
            entrybuf_vec@,
            config,
            display_width_of(terminal_width),
        ),
{
    multi_column_format(Direction::TopToBottom, entrybuf_vec, config, terminal_width)
}

/// The entries laid out in columns filled left to right.
pub fn across_format(entrybuf_vec: &Vec<EntryBuf>, config: &Config, terminal_width: Option<usize>) -> (r: Option<String>)
    requires
        entrybuf_vec@.len() * 3 + 3 <= usize::MAX,
    ensures
        opt_string_view(r) == multi_column_text(
            Direction::LeftToRight,
            entrybuf_vec@,
            config,
            display_width_of(terminal_width),
        ),
{
    multi_column_format(Direction::LeftToRight, entrybuf_vec, config, terminal_width)
}

} // verus!
