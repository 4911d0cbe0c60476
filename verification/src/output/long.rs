//! The long format: one row per entry with its metadata columns.

use vstd::prelude::*;

use crate::config::Config;
use crate::entry::{
    allocated_size_cell_spec, error_cell_view, ino_cell_spec, is_timestamp_cell, mode_cell_spec,
    name_cell_spec, nlink_cell_spec, size_cell_spec, EntryBuf, EntryView,
};
use crate::os::unix::accounts::AccountCache;
use crate::output::display_cell::{Alignment, CellView, DisplayCell};
use crate::output::grid::Direction;
use crate::output::{cell_views, fit_into_columns, term_grid_columns};

verus! {

/// The number of columns of the long format.
pub open spec fn long_column_count(config: &Config) -> nat {
    5 + (if config.list_inode { 1nat } else { 0 }) + (if config.list_allocated_size { 1nat } else { 0 })
        + (if config.list_owner { 1nat } else { 0 }) + (if config.list_group { 1nat } else { 0 })
}

/// Whether `cell` is the owner column of `e` given the cache of user
/// names: `?` without metadata, else the cell the cache holds for its
/// owner.
pub open spec fn owner_cell_ok(cell: CellView, e: EntryView, users: Map<u32, CellView>) -> bool {
    match e.metadata {
        None => cell == error_cell_view(Alignment::Left),
        Some(m) => users.dom().contains(m.uid) && users[m.uid] == cell,
    }
}

/// Whether `cell` is the group column of `e` given the cache of group
/// names: `?` without metadata, else the cell the cache holds for its
/// group.
pub open spec fn group_cell_ok(cell: CellView, e: EntryView, groups: Map<u32, CellView>) -> bool {
    match e.metadata {
        None => cell == error_cell_view(Alignment::Left),
        Some(m) => groups.dom().contains(m.gid) && groups[m.gid] == cell,
    }
}

/// The row of one entry: inode, allocated size, mode, links, owner, group,
/// size, time and name, the optional columns where the configuration
/// lists them.
pub open spec fn long_row(
    e: EntryBuf,
    owner: CellView,
    group: CellView,
    time: CellView,
    config: &Config,
) -> Seq<CellView> {
    (if config.list_inode { seq![ino_cell_spec(e@, config)] } else { Seq::empty() }) + (
    if config.list_allocated_size {
        seq![allocated_size_cell_spec(e@, config)]
    } else {
        Seq::empty()
    }) + seq![mode_cell_spec(e@, config), nlink_cell_spec(e@, config)] + (if config.list_owner {
        seq![owner]
    } else {
        Seq::empty()
    }) + (if config.list_group {
        seq![group]
    } else {
        Seq::empty()
    }) + seq![size_cell_spec(e@, config), time, name_cell_spec(e@, config)]
}

/// The rows of the first `k` entries, one after the other.
pub open spec fn long_rows(
    entries: Seq<EntryBuf>,
    owners: Seq<CellView>,
    groups: Seq<CellView>,
    times: Seq<CellView>,
    k: int,
    config: &Config,
) -> Seq<CellView>
    decreases k,
{
    if k <= 0 {
        Seq::empty()
    } else {
        long_rows(entries, owners, groups, times, k - 1, config) + long_row(
            entries[k - 1],
            owners[k - 1],
            groups[k - 1],
            times[k - 1],
            config,
        )
    }
}

/// Whether the owner, group and time cells of a row fit the entry, given
/// the caches.
pub open spec fn row_cells_ok(
    owner: CellView,
    group: CellView,
    time: CellView,
    e: EntryView,
    users: Map<u32, CellView>,
    groups: Map<u32, CellView>,
    six_months_ago_timestamp: i64,
    config: &Config,
) -> bool {
    &&& config.list_owner ==> owner_cell_ok(owner, e, users)
    &&& config.list_group ==> group_cell_ok(group, e, groups)
    &&& is_timestamp_cell(time, e, six_months_ago_timestamp, config)
}

/// Whether `cells` are the rows of the long format for `entries`: the
/// owner and group cells are those the caches hold, the time cells those a
/// timestamp can show.
pub open spec fn long_cells_ok(
    cells: Seq<CellView>,
    entries: Seq<EntryBuf>,
    users: Map<u32, CellView>,
    groups: Map<u32, CellView>,
    six_months_ago_timestamp: i64,
    config: &Config,
) -> bool {
    exists|owner_cells: Seq<CellView>, group_cells: Seq<CellView>, time_cells: Seq<CellView>|
        #![trigger long_rows(entries, owner_cells, group_cells, time_cells, entries.len() as int, config)]
        {
            &&& owner_cells.len() == entries.len()
            &&& group_cells.len() == entries.len()
            &&& time_cells.len() == entries.len()
            &&& long_rows(entries, owner_cells, group_cells, time_cells, entries.len() as int, config)
                == cells
            &&& forall|i: int|
                0 <= i < entries.len() ==> row_cells_ok(
                    #[trigger] owner_cells[i],
                    group_cells[i],
                    time_cells[i],
                    entries[i]@,
                    users,
                    groups,
                    six_months_ago_timestamp,
                    config,
                )
        }
}

/// Whether a cache only gained entries: every id it held keeps its cell.
pub open spec fn cache_extends(after: Map<u32, CellView>, before: Map<u32, CellView>) -> bool {
    forall|id: u32| #[trigger] before.dom().contains(id) ==> after.dom().contains(id) && after[id] == before[id]
}

proof fn lemma_long_rows_agree(
    entries: Seq<EntryBuf>,
    o1: Seq<CellView>,
    g1: Seq<CellView>,
    t1: Seq<CellView>,
    o2: Seq<CellView>,
    g2: Seq<CellView>,
    t2: Seq<CellView>,
    k: int,
    config: &Config,
)
    requires
        k <= o1.len() <= o2.len(),
        k <= g1.len() <= g2.len(),
        k <= t1.len() <= t2.len(),
        forall|i: int| 0 <= i < k ==> o1[i] == o2[i] && g1[i] == g2[i] && t1[i] == t2[i],
    ensures
        long_rows(entries, o1, g1, t1, k, config) == long_rows(entries, o2, g2, t2, k, config),
    decreases k,
{
    if k > 0 {
        lemma_long_rows_agree(entries, o1, g1, t1, o2, g2, t2, k - 1, config);
    }
}

proof fn lemma_row_cells_ok_extends(
    owner: CellView,
    group: CellView,
    time: CellView,
    e: EntryView,
    users: Map<u32, CellView>,
    groups: Map<u32, CellView>,
    users2: Map<u32, CellView>,
    groups2: Map<u32, CellView>,
    six_months_ago_timestamp: i64,
    config: &Config,
)
    requires
        row_cells_ok(owner, group, time, e, users, groups, six_months_ago_timestamp, config),
        cache_extends(users2, users),
        cache_extends(groups2, groups),
    ensures
        row_cells_ok(owner, group, time, e, users2, groups2, six_months_ago_timestamp, config),
{
}

fn push_long_row(
    cells_vec: &mut Vec<DisplayCell>,
    entrybuf: &EntryBuf,
    users: &mut AccountCache,
    groups: &mut AccountCache,
    six_months_ago_timestamp: i64,
    config: &Config,
) -> (r: Ghost<(CellView, CellView, CellView)>)
    ensures
        cell_views(final(cells_vec)@) == cell_views(old(cells_vec)@) + long_row(*entrybuf, r@.0, r@.1, r@.2, config),
        final(cells_vec)@.len() == old(cells_vec)@.len() + long_column_count(config),
        row_cells_ok(
            r@.0,
            r@.1,
            r@.2,
            entrybuf@,
            final(users).view(),
            final(groups).view(),
            six_months_ago_timestamp,
            config,
        ),
        cache_extends(final(users).view(), old(users).view()),
        cache_extends(final(groups).view(), old(groups).view()),
{
    let ghost start = cell_views(cells_vec@);
    if config.list_inode {
        cells_vec.push(entrybuf.ino_cell(config));
    }
    if config.list_allocated_size {
        cells_vec.push(entrybuf.allocated_size_cell(config));
    }
    cells_vec.push(entrybuf.mode_cell(config));
    cells_vec.push(entrybuf.nlink_cell(config));
    let ghost mut owner_view: CellView = error_cell_view(Alignment::Left);
    if config.list_owner {
        let c = entrybuf.owner_cell(users, config);
        proof {
            owner_view = c@;
        }
        cells_vec.push(c);
    }
    let ghost mut group_view: CellView = error_cell_view(Alignment::Left);
    if config.list_group {
        let c = entrybuf.group_cell(groups, config);
        proof {
            group_view = c@;
        }
        cells_vec.push(c);
    }
    cells_vec.push(entrybuf.size_cell(config));
    let time_cell = entrybuf.timestamp_cell(six_months_ago_timestamp, config);
    let ghost time_view = time_cell@;
    cells_vec.push(time_cell);
    cells_vec.push(entrybuf.file_name_cell(config));
    proof {
        assert(cell_views(cells_vec@) =~= start + long_row(*entrybuf, owner_view, group_view, time_view, config));
    }
    Ghost((owner_view, group_view, time_view))
}

proof fn lemma_long_cells_ok_intro(
    cells: Seq<CellView>,
    entries: Seq<EntryBuf>,
    users: Map<u32, CellView>,
    groups: Map<u32, CellView>,
    six_months_ago_timestamp: i64,
    config: &Config,
    owner_cells: Seq<CellView>,
    group_cells: Seq<CellView>,
    time_cells: Seq<CellView>,
)
    requires
        owner_cells.len() == entries.len(),
        group_cells.len() == entries.len(),
        time_cells.len() == entries.len(),
        long_rows(entries, owner_cells, group_cells, time_cells, entries.len() as int, config) == cells,
        forall|k: int|
            0 <= k < entries.len() ==> row_cells_ok(
                #[trigger] owner_cells[k],
                group_cells[k],
                time_cells[k],
                entries[k]@,
                users,
                groups,
                six_months_ago_timestamp,
                config,
            ),
    ensures
        long_cells_ok(cells, entries, users, groups, six_months_ago_timestamp, config),
{
}

/// The cells of the long format, row by row.
pub fn long_format_cells(
    entrybuf_vec: &Vec<EntryBuf>,
    users: &mut AccountCache,
    groups: &mut AccountCache,
    six_months_ago_timestamp: i64,
    config: &Config,
) -> (r: Vec<DisplayCell>)
    ensures
        r@.len() == entrybuf_vec@.len() * long_column_count(config),
        long_cells_ok(
            cell_views(r@),
            entrybuf_vec@,
            final(users).view(),
            final(groups).view(),
            six_months_ago_timestamp,
            config,
        ),
        cache_extends(final(users).view(), old(users).view()),
        cache_extends(final(groups).view(), old(groups).view()),
{
    let ghost entries = entrybuf_vec@;
    let n = entrybuf_vec.len();
    let mut cells_vec: Vec<DisplayCell> = Vec::new();
    let ghost mut owner_cells: Seq<CellView> = Seq::empty();
    let ghost mut group_cells: Seq<CellView> = Seq::empty();
    let ghost mut time_cells: Seq<CellView> = Seq::empty();
    let mut i: usize = 0;
    while i < n
        invariant
            n == entries.len(),
            entries == entrybuf_vec@,
            i <= n,
            owner_cells.len() == i,
            group_cells.len() == i,
            time_cells.len() == i,
            cells_vec@.len() == i * long_column_count(config),
            cell_views(cells_vec@) == long_rows(entries, owner_cells, group_cells, time_cells, i as int, config),
            forall|k: int|
                0 <= k < i ==> row_cells_ok(
                    #[trigger] owner_cells[k],
                    group_cells[k],
                    time_cells[k],
                    entries[k]@,
                    users.view(),
                    groups.view(),
                    six_months_ago_timestamp,
                    config,
                ),
            cache_extends(users.view(), old(users).view()),
            cache_extends(groups.view(), old(groups).view()),
        decreases n - i,
    {
        let ghost users_before = users.view();
        let ghost groups_before = groups.view();
        let ghost len_before = cells_vec@.len();
        let row = push_long_row(&mut cells_vec, &entrybuf_vec[i], users, groups, six_months_ago_timestamp, config);
        proof {
            let (owner_view, group_view, time_view) = row@;
            let o0 = owner_cells;
            let g0 = group_cells;
            let t0 = time_cells;
            owner_cells = owner_cells.push(owner_view);
            group_cells = group_cells.push(group_view);
            time_cells = time_cells.push(time_view);
            lemma_long_rows_agree(entries, o0, g0, t0, owner_cells, group_cells, time_cells, i as int, config);
            assert(cells_vec@.len() == (i + 1) * long_column_count(config)) by (nonlinear_arith)
                requires
                    cells_vec@.len() == len_before + long_column_count(config),
                    len_before == i * long_column_count(config),
            {}
            assert forall|k: int| 0 <= k < i + 1 implies row_cells_ok(
                #[trigger] owner_cells[k],
                group_cells[k],
                time_cells[k],
                entries[k]@,
                users.view(),
                groups.view(),
                six_months_ago_timestamp,
                config,
            ) by {
                if k < i {
                    assert(owner_cells[k] == o0[k]);
                    assert(group_cells[k] == g0[k]);
                    assert(time_cells[k] == t0[k]);
                    assert(row_cells_ok(o0[k], g0[k], t0[k], entries[k]@, users_before, groups_before, six_months_ago_timestamp, config));
                    lemma_row_cells_ok_extends(
                        o0[k],
                        g0[k],
                        t0[k],
                        entries[k]@,
                        users_before,
                        groups_before,
                        users.view(),
                        groups.view(),
                        six_months_ago_timestamp,
                        config,
                    );
                }
            }
        }
        i = i + 1;
    }
    proof {
        assert(long_rows(entries, owner_cells, group_cells, time_cells, entries.len() as int, config)
            == cell_views(cells_vec@));
        lemma_long_cells_ok_intro(
            cell_views(cells_vec@),
            entries,
            users.view(),
            groups.view(),
            six_months_ago_timestamp,
            config,
            owner_cells,
            group_cells,
            time_cells,
        );
    }
    cells_vec
}

/// The text of the long format: the rows of all entries in a grid, one
/// space between columns.
pub fn long_format(
    entrybuf_vec: &Vec<EntryBuf>,
    users: &mut AccountCache,
    groups: &mut AccountCache,
    six_months_ago_timestamp: i64,
    config: &Config,
) -> (r: String)
    requires
        entrybuf_vec@.len() * 9 + 9 <= usize::MAX,
    ensures
        exists|cells: Seq<CellView>|
            long_cells_ok(
                cells,
                entrybuf_vec@,
                final(users).view(),
                final(groups).view(),
                six_months_ago_timestamp,
                config,
            ) && r@ == #[trigger] term_grid_columns(cells, seq![' '], Direction::LeftToRight, long_column_count(config)),
        cache_extends(final(users).view(), old(users).view()),
        cache_extends(final(groups).view(), old(groups).view()),
{
    let num_columns: usize = 5 + (if config.list_inode { 1 } else { 0 }) + (if config.list_allocated_size {
        1
    } else {
        0
    }) + (if config.list_owner { 1 } else { 0 }) + (if config.list_group { 1 } else { 0 });
    let cells_vec = long_format_cells(entrybuf_vec, users, groups, six_months_ago_timestamp, config);
    proof {
        assert(cells_vec@.len() <= entrybuf_vec@.len() * 9) by (nonlinear_arith)
            requires
                cells_vec@.len() == entrybuf_vec@.len() * long_column_count(config),
                long_column_count(config) <= 9,
        {}
    }
    let r = fit_into_columns(&cells_vec, num_columns);
    proof {
        assert(term_grid_columns(cell_views(cells_vec@), seq![' '], Direction::LeftToRight, long_column_count(config)) == r@);
    }
    r
}

} // verus!
