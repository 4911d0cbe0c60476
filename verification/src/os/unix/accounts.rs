//! Owner and group columns: account names looked up once per id and
//! remembered.

use vstd::prelude::*;

use crate::config::Config;
use crate::output::display_cell::{Alignment, CellView, DisplayCell};
use crate::text::{decimal, maybe_styled, opt_str_view, unicode_str_width};
use crate::theme::opt_string_view;

verus! {

/// The right-aligned cell holding the number `id`.
pub open spec fn id_cell_view(id: u32, style: Option<Seq<char>>) -> CellView {
    (maybe_styled(style, decimal(id as nat)), decimal(id as nat).len(), Alignment::Right)
}

/// The left-aligned cell holding the account name `name`.
pub open spec fn name_cell_view(name: Seq<char>, style: Option<Seq<char>>) -> CellView {
    (maybe_styled(style, name), unicode_str_width(name), Alignment::Left)
}

/// The cell for an account: its name when the lookup found one, its number
/// otherwise.
pub open spec fn account_cell_view(id: u32, name: Option<Seq<char>>, style: Option<Seq<char>>) -> CellView {
    match name {
        Some(n) => name_cell_view(n, style),
        None => id_cell_view(id, style),
    }
}

/// Whether `cell` is a cell that an account lookup for `id` can give: the
/// number itself, or some name.
pub open spec fn is_account_cell(cell: CellView, id: u32, style: Option<Seq<char>>) -> bool {
    cell == id_cell_view(id, style) || exists|name: Seq<char>| cell == name_cell_view(name, style)
}

/// `user_utils::os::unix::get_name_by_uid`: the user name of `uid` from
/// the user database, converted lossily to UTF-8, or `None` when the
/// lookup fails. The answer depends on the system's database, so nothing
/// is claimed of it.
#[verifier::external_body]
fn lookup_user_name(uid: u32) -> (r: Option<String>) {
    match user_utils::os::unix::get_name_by_uid(uid) {
        Ok(name) => Some(name.to_string_lossy().into_owned()),
        Err(_) => None,
    }
}

/// `user_utils::os::unix::get_name_by_gid`: the group name of `gid` from
/// the group database, converted lossily to UTF-8, or `None` when the
/// lookup fails. The answer depends on the system's database, so nothing
/// is claimed of it.
#[verifier::external_body]
fn lookup_group_name(gid: u32) -> (r: Option<String>) {
    match user_utils::os::unix::get_name_by_gid(gid) {
        Ok(name) => Some(name.to_string_lossy().into_owned()),
        Err(_) => None,
    }
}

/// The cell for the account `id` given the outcome of its name lookup: the
/// name, left-aligned, when there is one; the number, right-aligned,
/// otherwise.
pub fn account_cell(id: u32, name: Option<&str>, style: Option<&str>) -> (r: DisplayCell)
    ensures
        r@ == account_cell_view(id, opt_str_view(name), opt_str_view(style)),
{
    match name {
        Some(name) => DisplayCell::from_str_with_style(name, style),
        None => DisplayCell::from_num_with_style(id as u64, style),
    }
}

/// The owner column of a file owned by `uid`: the number when numeric ids
/// are asked for, else the user name, or the number when the name cannot be
/// found.
pub fn username_cell(uid: u32, config: &Config) -> (r: DisplayCell)
    ensures
        config.numeric_uid_gid ==> r@ == id_cell_view(uid, opt_string_view(config.theme.owner)),
        is_account_cell(r@, uid, opt_string_view(config.theme.owner)),
{
    let owner_style = config.theme.owner_style();
    if config.numeric_uid_gid {
        account_cell(uid, None, owner_style)
    } else {
        let name = lookup_user_name(uid);
        let r = match &name {
            Some(n) => account_cell(uid, Some(n.as_str()), owner_style),
            None => account_cell(uid, None, owner_style),
        };
        proof {
            if let Some(n) = name {
                assert(r@ == name_cell_view(n@, opt_string_view(config.theme.owner)));
            }
        }
        r
    }
}

/// The group column of a file owned by group `gid`: the number when
/// numeric ids are asked for, else the group name, or the number when the
/// name cannot be found.
pub fn groupname_cell(gid: u32, config: &Config) -> (r: DisplayCell)
    ensures
        config.numeric_uid_gid ==> r@ == id_cell_view(gid, opt_string_view(config.theme.group)),
        is_account_cell(r@, gid, opt_string_view(config.theme.group)),
{
    let group_style = config.theme.group_style();
    if config.numeric_uid_gid {
        account_cell(gid, None, group_style)
    } else {
        let name = lookup_group_name(gid);
        let r = match &name {
            Some(n) => account_cell(gid, Some(n.as_str()), group_style),
            None => account_cell(gid, None, group_style),
        };
        proof {
            if let Some(n) = name {
                assert(r@ == name_cell_view(n@, opt_string_view(config.theme.group)));
            }
        }
        r
    }
}

/// Name cells already built, keyed by user or group id; each id occurs
/// once.
pub struct AccountCache {
    entries: Vec<(u32, DisplayCell)>,
}

impl AccountCache {
    #[verifier::type_invariant]
    spec fn ids_distinct(&self) -> bool {
        forall|i: int, j: int|
            0 <= i < j < self.entries@.len() ==> #[trigger] self.entries@[i].0
                != #[trigger] self.entries@[j].0
    }

    /// The cell remembered for each id.
    pub closed spec fn view(&self) -> Map<u32, CellView> {
        Map::new(
            |id: u32| exists|i: int| 0 <= i < self.entries@.len() && self.entries@[i].0 == id,
            |id: u32|
                self.entries@[choose|i: int|
                    0 <= i < self.entries@.len() && self.entries@[i].0 == id].1@,
        )
    }

    /// An empty cache.
    pub fn new() -> (r: Self)
        ensures
            r.view() == Map::<u32, CellView>::empty(),
    {
        let r = AccountCache { entries: Vec::new() };
        proof {
            assert(r.view() =~= Map::<u32, CellView>::empty());
        }
        r
    }

    /// The cell remembered for `id`, if any.
    pub fn get(&self, id: u32) -> (r: Option<DisplayCell>)
        ensures
            r is Some <==> self.view().dom().contains(id),
            r matches Some(c) ==> c@ == self.view()[id],
    {
        proof {
            use_type_invariant(self);
        }
        let mut i: usize = 0;
        while i < self.entries.len()
            invariant
                i <= self.entries@.len(),
                forall|k: int| 0 <= k < i ==> self.entries@[k].0 != id,
                forall|a: int, b: int|
                    0 <= a < b < self.entries@.len() ==> #[trigger] self.entries@[a].0
                        != #[trigger] self.entries@[b].0,
            decreases self.entries@.len() - i,
        {
            if self.entries[i].0 == id {
                let c = self.entries[i].1.clone();
                proof {
                    assert(self.view().dom().contains(id));
                    let j = choose|j: int| 0 <= j < self.entries@.len() && self.entries@[j].0 == id;
                    assert(j == i as int);
                }
                return Some(c);
            }
            i = i + 1;
        }
        None
    }

    /// Remembers `cell` for `id`, which is not remembered yet.
    pub fn insert(&mut self, id: u32, cell: DisplayCell)
        requires
            !old(self).view().dom().contains(id),
        ensures
            final(self).view() == old(self).view().insert(id, cell@),
    {
        proof {
            use_type_invariant(&*self);
        }
        let ghost old_entries = self.entries@;
        let ghost cell_view = cell@;
        let mut entries = Vec::new();
        std::mem::swap(&mut entries, &mut self.entries);
        entries.push((id, cell));
        proof {
            assert(entries@ == old_entries.push((id, cell)));
            assert forall|i: int, j: int| 0 <= i < j < entries@.len() implies entries@[i].0
                != entries@[j].0 by {
                if j == entries@.len() - 1 {
                    assert(entries@[i] == old_entries[i]);
                }
            }
        }
        self.entries = entries;
        proof {
            let m = old(self).view().insert(id, cell_view);
            assert forall|k: u32| #[trigger] self.view().dom().contains(k) <==> m.dom().contains(k) by {
                if m.dom().contains(k) && k != id {
                    let i = choose|i: int| 0 <= i < old_entries.len() && old_entries[i].0 == k;
                    assert(self.entries@[i] == old_entries[i]);
                }
                if self.view().dom().contains(k) && k != id {
                    let i = choose|i: int| 0 <= i < self.entries@.len() && self.entries@[i].0 == k;
                    assert(i < old_entries.len());
                    assert(old_entries[i] == self.entries@[i]);
                }
                if k == id {
                    assert(self.entries@[old_entries.len() as int].0 == id);
                }
            }
            assert forall|k: u32| self.view().dom().contains(k) implies #[trigger] self.view()[k]
                == m[k] by {
                let i = choose|i: int| 0 <= i < self.entries@.len() && self.entries@[i].0 == k;
                if k == id {
                    assert(i == old_entries.len());
                } else {
                    assert(i < old_entries.len());
                    assert(old_entries[i] == self.entries@[i]);
                    assert(old(self).view().dom().contains(k));
                    let j = choose|j: int| 0 <= j < old_entries.len() && old_entries[j].0 == k;
                    assert(j == i);
                }
            }
            assert(self.view() =~= m);
        }
    }
}

/// How a cached lookup of `id` relates the cache before, the cell given
/// and the cache after: a remembered id gives its remembered cell and
/// leaves the cache as it was; a new id is remembered with the cell given.
pub open spec fn cached_lookup(
    before: Map<u32, CellView>,
    id: u32,
    cell: CellView,
    after: Map<u32, CellView>,
) -> bool {
    if before.dom().contains(id) {
        cell == before[id] && after == before
    } else {
        after == before.insert(id, cell)
    }
}

/// Looking an id up twice gives the same cell both times, and the second
/// lookup leaves the cache as the first left it.
pub proof fn lemma_cached_lookup_stable(
    before: Map<u32, CellView>,
    id: u32,
    first: CellView,
    middle: Map<u32, CellView>,
    second: CellView,
    after: Map<u32, CellView>,
)
    requires
        cached_lookup(before, id, first, middle),
        cached_lookup(middle, id, second, after),
    ensures
        second == first,
        after == middle,
{
}

/// A lookup never forgets or changes a cell remembered for another id.
pub proof fn lemma_cached_lookup_keeps_others(
    before: Map<u32, CellView>,
    id: u32,
    cell: CellView,
    after: Map<u32, CellView>,
    other: u32,
)
    requires
        cached_lookup(before, id, cell, after),
        before.dom().contains(other),
    ensures
        after.dom().contains(other),
        after[other] == before[other],
{
}

/// The owner column for `uid`, built once per uid: a uid seen before gets
/// the cell built the first time and leaves the cache as it was; a new uid
/// gets a fresh owner cell, which the cache then remembers.
pub fn get_username_cell_by_uid(cache: &mut AccountCache, uid: u32, config: &Config) -> (r: DisplayCell)
    ensures
        cached_lookup(old(cache).view(), uid, r@, final(cache).view()),
        !old(cache).view().dom().contains(uid) ==> (config.numeric_uid_gid ==> r@ == id_cell_view(
            uid,
            opt_string_view(config.theme.owner),
        )) && is_account_cell(r@, uid, opt_string_view(config.theme.owner)),
{
    match cache.get(uid) {
        Some(cell) => cell,
        None => {
            let name_cell = username_cell(uid, config);
            cache.insert(uid, name_cell.clone());
            name_cell
        },
    }
}

/// The group column for `gid`, built once per gid: a gid seen before gets
/// the cell built the first time and leaves the cache as it was; a new gid
/// gets a fresh group cell, which the cache then remembers.
pub fn get_groupname_cell_by_gid(cache: &mut AccountCache, gid: u32, config: &Config) -> (r: DisplayCell)
    ensures
        cached_lookup(old(cache).view(), gid, r@, final(cache).view()),
        !old(cache).view().dom().contains(gid) ==> (config.numeric_uid_gid ==> r@ == id_cell_view(
            gid,
            opt_string_view(config.theme.group),
        )) && is_account_cell(r@, gid, opt_string_view(config.theme.group)),
{
    match cache.get(gid) {
        Some(cell) => cell,
        None => {
            let name_cell = groupname_cell(gid, config);
            cache.insert(gid, name_cell.clone());
            name_cell
        },
    }
}

} // verus!
