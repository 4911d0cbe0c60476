//! Building the text of a listing: cells for each column, laid out in a
//! grid or a single column.

pub mod display_cell;
pub mod grid;
pub mod format_size;
pub mod format_filename;
pub mod filename_cell;
pub mod format_timestamp;
pub mod sort;
pub mod column;
pub mod long;

use vstd::prelude::*;

use crate::config::{Config, OutputFormat};
use crate::entry::EntryBuf;
use crate::os::unix::accounts::AccountCache;
use crate::output::column::{
    across_format, display_width_of, multi_column_text, single_column_format, single_column_text,
    vertical_format,
};
use crate::output::display_cell::{Alignment, CellView, DisplayCell};
use crate::output::format_size::{format_size, size_cell_view};
use crate::output::grid::{fit_into_width_defined, max_width, Direction, GridView};
use crate::output::long::{cache_extends, long_cells_ok, long_column_count, long_format};
use crate::output::sort::{sort_entrybuf_vec, sorted_entries};
use crate::text::{spaces, string_push, string_push_str};
use crate::theme::opt_string_view;

verus! {

/// The views of a sequence of cells.
pub open spec fn cell_views(cells: Seq<DisplayCell>) -> Seq<CellView> {
    cells.map_values(|c: DisplayCell| c@)
}

/// The text `nls_term_grid` writes for `cells` laid out in
/// `num_columns` columns, `separator` between columns, filled in
/// `direction`.
pub uninterp spec fn term_grid_columns(
    cells: Seq<CellView>,
    separator: Seq<char>,
    direction: Direction,
    num_columns: nat,
) -> Seq<char>;

/// The text `nls_term_grid` writes for `cells` fitted into
/// `display_width` terminal columns, or `None` when it finds no layout.
pub uninterp spec fn term_grid_width(
    cells: Seq<CellView>,
    separator: Seq<char>,
    direction: Direction,
    display_width: nat,
) -> Option<Seq<char>>;

/// `nls_term_grid::Grid::new(separator, direction, cells)
/// .fit_into_columns(num_columns)`, written out with `to_string`. Its text
/// is named, not described. The grid divides by the number of columns and
/// indexes cells by row and column, so that number must be positive and
/// small enough to add to the cell count.
#[verifier::external_body]
fn grid_fit_into_columns(cells: &Vec<DisplayCell>, separator: &str, direction: Direction, num_columns: usize) -> (r: String)
    requires
        num_columns > 0,
        cells@.len() + num_columns <= usize::MAX,
    ensures
        r@ == term_grid_columns(cell_views(cells@), separator@, direction, num_columns as nat),
{
    let grid_cells: Vec<nls_term_grid::GridCell<&str>> = cells.iter().map(|c| nls_term_grid::GridCell {
        contents: c.contents.as_str(),
        width: c.width,
        alignment: match c.alignment {
            Alignment::Left => nls_term_grid::Alignment::Left,
            Alignment::Right => nls_term_grid::Alignment::Right,
        },
    }).collect();
    let dir = match direction {
        Direction::LeftToRight => nls_term_grid::Direction::LeftToRight,
        Direction::TopToBottom => nls_term_grid::Direction::TopToBottom,
    };
    nls_term_grid::Grid::new(separator, dir, &grid_cells).fit_into_columns(num_columns).to_string()
}

/// Whether `s` consists of spaces only.
pub open spec fn is_spaces(s: Seq<char>) -> bool {
    s == spaces(s.len())
}

/// `nls_term_grid::Grid::new(separator, direction, cells)
/// .fit_into_width(display_width)`, written out with `to_string`. Its
/// text is named, not described; as its source shows, there is no layout
/// exactly when some cell is at least as wide as the display. The grid
/// measures a separator of spaces as one column per space; it adds up the
/// widths of all cells, and when they do not fit in one row it starts from
/// the number of widest cells that fit, dividing by it, hence the
/// requirement.
#[verifier::external_body]
fn grid_fit_into_width(cells: &Vec<DisplayCell>, separator: &str, direction: Direction, display_width: usize) -> (r: Option<String>)
    requires
        is_spaces(separator@),
        fit_into_width_defined(
            (GridView { cells: cell_views(cells@), num_spaces: separator@.len(), direction: direction }),
            display_width as nat,
        ),
    ensures
        opt_string_view(r) == term_grid_width(cell_views(cells@), separator@, direction, display_width as nat),
        r is None <==> (cells@.len() > 0 && max_width(
            (GridView { cells: cell_views(cells@), num_spaces: separator@.len(), direction: direction }),
            cells@.len() as int,
        ) >= display_width),
{
    let grid_cells: Vec<nls_term_grid::GridCell<&str>> = cells.iter().map(|c| nls_term_grid::GridCell {
        contents: c.contents.as_str(),
        width: c.width,
        alignment: match c.alignment {
            Alignment::Left => nls_term_grid::Alignment::Left,
            Alignment::Right => nls_term_grid::Alignment::Right,
        },
    }).collect();
    let dir = match direction {
        Direction::LeftToRight => nls_term_grid::Direction::LeftToRight,
        Direction::TopToBottom => nls_term_grid::Direction::TopToBottom,
    };
    nls_term_grid::Grid::new(separator, dir, &grid_cells).fit_into_width(display_width).map(|d| d.to_string())
}

/// `cells` laid out in `num_columns` columns with one space between them,
/// row by row.
pub fn fit_into_columns(cells: &Vec<DisplayCell>, num_columns: usize) -> (r: String)
    requires
        num_columns > 0,
        cells@.len() + num_columns <= usize::MAX,
    ensures
        r@ == term_grid_columns(cell_views(cells@), seq![' '], Direction::LeftToRight, num_columns as nat),
{
    let separator = " ";
    proof {
        reveal_strlit(" ");
        assert(separator@ =~= seq![' ']);
    }
    grid_fit_into_columns(cells, separator, Direction::LeftToRight, num_columns)
}

/// The sum of the allocated sizes of the first `k` entries (an unknown
/// size counting as 0), wrapping around as machine addition does.
pub open spec fn total_allocated(entries: Seq<EntryBuf>, k: int) -> u64
    decreases k,
{
    if k <= 0 {
        0
    } else {
        total_allocated(entries, k - 1).wrapping_add(
            match entries[k - 1]@.allocated_size {
                Some(s) => s,
                None => 0,
            },
        )
    }
}

/// `total `, the total allocated size in the size format, and a newline.
pub open spec fn total_line(entries: Seq<EntryBuf>, config: &Config) -> Seq<char> {
    seq!['t', 'o', 't', 'a', 'l', ' '] + size_cell_view(total_allocated(entries, entries.len() as int), config).0
        + seq!['\n']
}

/// The line with the total allocated size of the entries.
pub fn print_total(entrybuf_vec: &Vec<EntryBuf>, config: &Config) -> (r: String)
    ensures
        r@ == total_line(entrybuf_vec@, config),
{
    let n = entrybuf_vec.len();
    let mut total: u64 = 0;
    let mut i: usize = 0;
    while i < n
        invariant
            n == entrybuf_vec@.len(),
            i <= n,
            total == total_allocated(entrybuf_vec@, i as int),
        decreases n - i,
    {
        let size = match entrybuf_vec[i].allocated_size() {
            Some(s) => s,
            None => 0,
        };
        total = total.wrapping_add(size);
        i = i + 1;
    }
    let mut line = String::new();
    string_push(&mut line, 't');
    string_push(&mut line, 'o');
    string_push(&mut line, 't');
    string_push(&mut line, 'a');
    string_push(&mut line, 'l');
    string_push(&mut line, ' ');
    let cell = format_size(total, config);
    string_push_str(&mut line, cell.contents.as_str());
    string_push(&mut line, '\n');
    proof {
        assert(line@ =~= total_line(entrybuf_vec@, config));
    }
    line
}

/// The text of a listing of `entrybuf_vec`: nothing for no entries, else
/// the entries sorted (in place) and laid out in the configured format;
/// `None` where the grid layout would fail (see `multi_column_text`).
pub fn output(
    entrybuf_vec: &mut Vec<EntryBuf>,
    terminal_width: Option<usize>,
    users: &mut AccountCache,
    groups: &mut AccountCache,
    six_months_ago_timestamp: i64,
    config: &Config,
) -> (r: Option<String>)
    requires
        old(entrybuf_vec)@.len() * 9 + 9 <= usize::MAX,
    ensures
        old(entrybuf_vec)@.len() == 0 ==> (r matches Some(t) && t@ == Seq::<char>::empty())
            && final(entrybuf_vec)@ == old(entrybuf_vec)@,
        old(entrybuf_vec)@.len() > 0 ==> sorted_entries(
            old(entrybuf_vec)@,
            final(entrybuf_vec)@,
            config.sorting_order,
            config.reverse,
        ),
        old(entrybuf_vec)@.len() > 0 ==> match config.output_format {
            OutputFormat::SingleColumn => r matches Some(t) && t@ == single_column_text(
                final(entrybuf_vec)@,
                config,
            ),
            OutputFormat::Vertical => opt_string_view(r) == multi_column_text(
                Direction::TopToBottom,
                final(entrybuf_vec)@,
                config,
                display_width_of(terminal_width),
            ),
            OutputFormat::Across => opt_string_view(r) == multi_column_text(
                Direction::LeftToRight,
                final(entrybuf_vec)@,
                config,
                display_width_of(terminal_width),
            ),
            OutputFormat::Long => r matches Some(t) && exists|cells: Seq<CellView>|
                long_cells_ok(
                    cells,
                    final(entrybuf_vec)@,
                    final(users).view(),
                    final(groups).view(),
                    six_months_ago_timestamp,
                    config,
                ) && t@ == #[trigger] term_grid_columns(
                    cells,
                    seq![' '],
                    Direction::LeftToRight,
                    long_column_count(config),
                ),
        },
        cache_extends(final(users).view(), old(users).view()),
        cache_extends(final(groups).view(), old(groups).view()),
{
    if entrybuf_vec.len() == 0 {
        return Some(String::new());
    }

    sort_entrybuf_vec(entrybuf_vec, config);

    match config.output_format {
        OutputFormat::SingleColumn => Some(single_column_format(entrybuf_vec, config)),
        OutputFormat::Vertical => vertical_format(entrybuf_vec, config, terminal_width),
        OutputFormat::Across => across_format(entrybuf_vec, config, terminal_width),
        OutputFormat::Long => Some(long_format(entrybuf_vec, users, groups, six_months_ago_timestamp, config)),
    }
}

} // verus!
