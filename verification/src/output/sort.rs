//! Ordering of the entries of a listing: by name, by size or by time,
//! ties broken by name, equal entries keeping their order; optionally
//! reversed.

use vstd::prelude::*;

use crate::config::{Config, SortingOrder};
use crate::entry::{EntryBuf, EntryView};
use crate::ls_colors::str_chars;

verus! {

/// Lexicographic order on character sequences (characters compared by
/// code point), a proper prefix coming first.
pub open spec fn lex_lt(a: Seq<char>, b: Seq<char>) -> bool
    decreases a.len(),
{
    if a.len() == 0 {
        b.len() > 0
    } else if b.len() == 0 {
        false
    } else if a[0] != b[0] {
        a[0] < b[0]
    } else {
        lex_lt(a.drop_first(), b.drop_first())
    }
}

/// The sort key of an entry: a primary value, larger first with absent
/// values last, then the lower-case name.
pub type SortKeyView = (Option<int>, Seq<char>);

/// The primary value entries are sorted by: none when sorting by name,
/// else the size or the timestamp.
pub open spec fn primary_of(e: EntryView, order: SortingOrder) -> Option<int> {
    match order {
        SortingOrder::FileName => None,
        SortingOrder::Size => match e.size {
            Some(s) => Some(s as int),
            None => None,
        },
        SortingOrder::Timestamp => match e.timestamp {
            Some(t) => Some(t as int),
            None => None,
        },
    }
}

/// The sort key of an entry.
pub open spec fn key_of(e: EntryView, order: SortingOrder) -> SortKeyView {
    (primary_of(e, order), e.file_name_key)
}

/// Whether primary value `a` comes before `b`: the larger first, an
/// absent value after every present one.
pub open spec fn primary_before(a: Option<int>, b: Option<int>) -> bool {
    match (a, b) {
        (Some(x), Some(y)) => x > y,
        (Some(_), None) => true,
        _ => false,
    }
}

/// Whether key `a` comes strictly before key `b`.
pub open spec fn key_lt(a: SortKeyView, b: SortKeyView) -> bool {
    primary_before(a.0, b.0) || (a.0 == b.0 && lex_lt(a.1, b.1))
}

/// Whether the entry at position `i` comes before the one at `j` in a
/// stable sort: by key, equal keys by position.
pub open spec fn index_lt(keys: Seq<SortKeyView>, i: int, j: int) -> bool {
    key_lt(keys[i], keys[j]) || (keys[i] == keys[j] && i < j)
}

/// Whether `p` lists the positions `0..keys.len()`, each once, in stable
/// sorted order.
pub open spec fn is_sorted_order(keys: Seq<SortKeyView>, p: Seq<int>) -> bool {
    &&& p.len() == keys.len()
    &&& forall|k: int| 0 <= k < p.len() ==> 0 <= #[trigger] p[k] < keys.len()
    &&& forall|k: int, l: int| 0 <= k < l < p.len() ==> index_lt(keys, #[trigger] p[k], #[trigger] p[l])
}

/// The keys of a sequence of entries.
pub open spec fn entry_keys(entries: Seq<EntryBuf>, order: SortingOrder) -> Seq<SortKeyView> {
    Seq::new(entries.len(), |i: int| key_of(entries[i]@, order))
}

/// Whether `after` holds the entries of `before` in the stable order of
/// their keys, reversed when `reverse` is set.
pub open spec fn sorted_entries(
    before: Seq<EntryBuf>,
    after: Seq<EntryBuf>,
    order: SortingOrder,
    reverse: bool,
) -> bool {
    exists|p: Seq<int>|
        {
            &&& #[trigger] is_sorted_order(entry_keys(before, order), p)
            &&& after.len() == before.len()
            &&& forall|k: int|
                0 <= k < after.len() ==> #[trigger] after[k] == (if reverse {
                    before[p[after.len() - 1 - k]]
                } else {
                    before[p[k]]
                })
        }
}

proof fn lemma_lex_irreflexive(a: Seq<char>)
    ensures
        !lex_lt(a, a),
    decreases a.len(),
{
    if a.len() > 0 {
        lemma_lex_irreflexive(a.drop_first());
    }
}

proof fn lemma_lex_transitive(a: Seq<char>, b: Seq<char>, c: Seq<char>)
    requires
        lex_lt(a, b),
        lex_lt(b, c),
    ensures
        lex_lt(a, c),
    decreases a.len(),
{
    if a.len() > 0 && b.len() > 0 && c.len() > 0 && a[0] == b[0] && b[0] == c[0] {
        lemma_lex_transitive(a.drop_first(), b.drop_first(), c.drop_first());
    }
}

proof fn lemma_lex_total(a: Seq<char>, b: Seq<char>)
    ensures
        a == b || lex_lt(a, b) || lex_lt(b, a),
    decreases a.len(),
{
    if a.len() > 0 && b.len() > 0 {
        if a[0] == b[0] {
            lemma_lex_total(a.drop_first(), b.drop_first());
            if a.drop_first() == b.drop_first() {
                assert(a =~= seq![a[0]] + a.drop_first());
                assert(b =~= seq![b[0]] + b.drop_first());
            }
        }
    } else if a.len() == 0 && b.len() == 0 {
        assert(a =~= b);
    }
}

proof fn lemma_index_lt_transitive(keys: Seq<SortKeyView>, i: int, j: int, k: int)
    requires
        index_lt(keys, i, j),
        index_lt(keys, j, k),
    ensures
        index_lt(keys, i, k),
{
    let (a, b, c) = (keys[i], keys[j], keys[k]);
    if a.0 == b.0 && b.0 == c.0 && lex_lt(a.1, b.1) && lex_lt(b.1, c.1) {
        lemma_lex_transitive(a.1, b.1, c.1);
    }
}

proof fn lemma_index_lt_total(keys: Seq<SortKeyView>, i: int, j: int)
    requires
        i != j,
    ensures
        index_lt(keys, i, j) || index_lt(keys, j, i),
{
    lemma_lex_total(keys[i].1, keys[j].1);
}

proof fn lemma_index_lt_irreflexive(keys: Seq<SortKeyView>, i: int)
    ensures
        !index_lt(keys, i, i),
{
    lemma_lex_irreflexive(keys[i].1);
}

/// The sort key of an entry, as computed.
struct SortKey {
    primary: Option<i128>,
    name: Vec<char>,
}

impl SortKey {
    spec fn view(&self) -> SortKeyView {
        (
            match self.primary {
                Some(x) => Some(x as int),
                None => None,
            },
            self.name@,
        )
    }
}

fn chars_less(a: &Vec<char>, b: &Vec<char>) -> (r: bool)
    ensures
        r == lex_lt(a@, b@),
{
    let mut i: usize = 0;
    proof {
        assert(a@.skip(0) =~= a@);
        assert(b@.skip(0) =~= b@);
    }
    while i < a.len() && i < b.len()
        invariant
            i <= a@.len(),
            i <= b@.len(),
            lex_lt(a@, b@) == lex_lt(a@.skip(i as int), b@.skip(i as int)),
        decreases a@.len() - i,
    {
        if a[i] != b[i] {
            proof {
                assert(a@.skip(i as int)[0] == a@[i as int]);
                assert(b@.skip(i as int)[0] == b@[i as int]);
            }
            return a[i] < b[i];
        }
        proof {
            assert(a@.skip(i as int).drop_first() =~= a@.skip(i + 1));
            assert(b@.skip(i as int).drop_first() =~= b@.skip(i + 1));
        }
        i = i + 1;
    }
    i < b.len()
}

fn primary_less(a: Option<i128>, b: Option<i128>) -> (r: bool)
    ensures
        r == primary_before(
            match a {
                Some(x) => Some(x as int),
                None => None,
            },
            match b {
                Some(x) => Some(x as int),
                None => None,
            },
        ),
{
    match (a, b) {
        (Some(x), Some(y)) => x > y,
        (Some(_), None) => true,
        _ => false,
    }
}

fn index_less(keys: &Vec<SortKey>, i: usize, j: usize) -> (r: bool)
    requires
        i < keys@.len(),
        j < keys@.len(),
    ensures
        r == index_lt(keys@.map_values(|k: SortKey| k.view()), i as int, j as int),
{
    let ghost kv = keys@.map_values(|k: SortKey| k.view());
    let a = &keys[i];
    let b = &keys[j];
    if primary_less(a.primary, b.primary) {
        return true;
    }
    if primary_less(b.primary, a.primary) {
        return false;
    }
    let ghost pa = kv[i as int].0;
    let ghost pb = kv[j as int].0;
    proof {
        assert(pa == pb);
    }
    if chars_less(&a.name, &b.name) {
        return true;
    }
    if chars_less(&b.name, &a.name) {
        return false;
    }
    proof {
        lemma_lex_total(a.name@, b.name@);
        assert(kv[i as int] == kv[j as int]);
    }
    i < j
}

/// The positions `lo..hi`, in stable sorted order of their keys.
fn sort_range(keys: &Vec<SortKey>, lo: usize, hi: usize) -> (r: Vec<usize>)
    requires
        lo <= hi <= keys@.len(),
    ensures
        r@.len() == hi - lo,
        forall|k: int| 0 <= k < r@.len() ==> lo <= #[trigger] r@[k] < hi,
        forall|k: int, l: int|
            0 <= k < l < r@.len() ==> index_lt(
                keys@.map_values(|x: SortKey| x.view()),
                #[trigger] r@[k] as int,
                #[trigger] r@[l] as int,
            ),
    decreases hi - lo,
{
    let ghost kv = keys@.map_values(|x: SortKey| x.view());
    if hi - lo <= 1 {
        let mut r = Vec::new();
        if hi - lo == 1 {
            r.push(lo);
        }
        return r;
    }
    let mid = lo + (hi - lo) / 2;
    let left = sort_range(keys, lo, mid);
    let right = sort_range(keys, mid, hi);
    let mut merged: Vec<usize> = Vec::new();
    let mut i: usize = 0;
    let mut j: usize = 0;
    while i < left.len() || j < right.len()
        invariant
            kv == keys@.map_values(|x: SortKey| x.view()),
            lo <= mid <= hi <= keys@.len(),
            left@.len() == mid - lo,
            right@.len() == hi - mid,
            forall|k: int| 0 <= k < left@.len() ==> lo <= #[trigger] left@[k] < mid,
            forall|k: int| 0 <= k < right@.len() ==> mid <= #[trigger] right@[k] < hi,
            forall|k: int, l: int|
                0 <= k < l < left@.len() ==> index_lt(kv, #[trigger] left@[k] as int, #[trigger] left@[l] as int),
            forall|k: int, l: int|
                0 <= k < l < right@.len() ==> index_lt(kv, #[trigger] right@[k] as int, #[trigger] right@[l] as int),
            i <= left@.len(),
            j <= right@.len(),
            merged@.len() == i + j,
            forall|k: int| 0 <= k < merged@.len() ==> lo <= #[trigger] merged@[k] < hi,
            forall|k: int, l: int|
                0 <= k < l < merged@.len() ==> index_lt(kv, #[trigger] merged@[k] as int, #[trigger] merged@[l] as int),
            forall|k: int, l: int|
                0 <= k < merged@.len() && i <= l < left@.len() ==> index_lt(
                    kv,
                    #[trigger] merged@[k] as int,
                    #[trigger] left@[l] as int,
                ),
            forall|k: int, l: int|
                0 <= k < merged@.len() && j <= l < right@.len() ==> index_lt(
                    kv,
                    #[trigger] merged@[k] as int,
                    #[trigger] right@[l] as int,
                ),
        decreases left@.len() + right@.len() - i - j,
    {
        let take_left = if i < left.len() && j < right.len() {
            index_less(keys, left[i], right[j])
        } else {
            i < left.len()
        };
        let ghost old_merged = merged@;
        if take_left {
            let x = left[i];
            proof {
                assert forall|l: int| j <= l < right@.len() implies index_lt(kv, x as int, #[trigger] right@[l] as int) by {
                    if l > j {
                        lemma_index_lt_transitive(kv, x as int, right@[j as int] as int, right@[l] as int);
                    }
                }
                assert forall|l: int| i < l < left@.len() implies index_lt(kv, x as int, #[trigger] left@[l] as int) by {
                    assert(index_lt(kv, left@[i as int] as int, left@[l] as int));
                }
            }
            merged.push(x);
            i = i + 1;
            proof {
                assert forall|k: int, l: int| 0 <= k < l < merged@.len() implies index_lt(
                    kv,
                    #[trigger] merged@[k] as int,
                    #[trigger] merged@[l] as int,
                ) by {
                    if l == merged@.len() - 1 {
                        assert(merged@[l] == x);
                        assert(merged@[k] == old_merged[k]);
                        assert(index_lt(kv, old_merged[k] as int, left@[i - 1] as int));
                    } else {
                        assert(merged@[k] == old_merged[k]);
                        assert(merged@[l] == old_merged[l]);
                    }
                }
                assert forall|k: int, l: int| 0 <= k < merged@.len() && i <= l < left@.len() implies index_lt(
                    kv,
                    #[trigger] merged@[k] as int,
                    #[trigger] left@[l] as int,
                ) by {
                    if k == merged@.len() - 1 {
                        assert(merged@[k] == x);
                    } else {
                        assert(merged@[k] == old_merged[k]);
                    }
                }
                assert forall|k: int, l: int| 0 <= k < merged@.len() && j <= l < right@.len() implies index_lt(
                    kv,
                    #[trigger] merged@[k] as int,
                    #[trigger] right@[l] as int,
                ) by {
                    if k == merged@.len() - 1 {
                        assert(merged@[k] == x);
                    } else {
                        assert(merged@[k] == old_merged[k]);
                    }
                }
            }
        } else {
            let x = right[j];
            proof {
                if i < left@.len() {
                    let a = left@[i as int] as int;
                    assert(a != x as int);
                    lemma_index_lt_total(kv, a, x as int);
                }
                assert forall|l: int| i <= l < left@.len() implies index_lt(kv, x as int, #[trigger] left@[l] as int) by {
                    if l > i {
                        lemma_index_lt_transitive(kv, x as int, left@[i as int] as int, left@[l] as int);
                    }
                }
                assert forall|l: int| j < l < right@.len() implies index_lt(kv, x as int, #[trigger] right@[l] as int) by {
                    assert(index_lt(kv, right@[j as int] as int, right@[l] as int));
                }
            }
            merged.push(x);
            j = j + 1;
            proof {
                assert forall|k: int, l: int| 0 <= k < l < merged@.len() implies index_lt(
                    kv,
                    #[trigger] merged@[k] as int,
                    #[trigger] merged@[l] as int,
                ) by {
                    if l == merged@.len() - 1 {
                        assert(merged@[l] == x);
                        assert(merged@[k] == old_merged[k]);
                        assert(index_lt(kv, old_merged[k] as int, right@[j - 1] as int));
                    } else {
                        assert(merged@[k] == old_merged[k]);
                        assert(merged@[l] == old_merged[l]);
                    }
                }
                assert forall|k: int, l: int| 0 <= k < merged@.len() && i <= l < left@.len() implies index_lt(
                    kv,
                    #[trigger] merged@[k] as int,
                    #[trigger] left@[l] as int,
                ) by {
                    if k == merged@.len() - 1 {
                        assert(merged@[k] == x);
                    } else {
                        assert(merged@[k] == old_merged[k]);
                    }
                }
                assert forall|k: int, l: int| 0 <= k < merged@.len() && j <= l < right@.len() implies index_lt(
                    kv,
                    #[trigger] merged@[k] as int,
                    #[trigger] right@[l] as int,
                ) by {
                    if k == merged@.len() - 1 {
                        assert(merged@[k] == x);
                    } else {
                        assert(merged@[k] == old_merged[k]);
                    }
                }
            }
        }
    }
    merged
}

fn sort_key(entrybuf: &EntryBuf, order: SortingOrder) -> (r: SortKey)
    ensures
        r.view() == key_of(entrybuf@, order),
{
    let primary: Option<i128> = match order {
        SortingOrder::FileName => None,
        SortingOrder::Size => match entrybuf.size() {
            Some(size) => Some(size as i128),
            None => None,
        },
        SortingOrder::Timestamp => match entrybuf.timestamp() {
            Some(timestamp) => Some(timestamp as i128),
            None => None,
        },
    };
    SortKey { primary: primary, name: str_chars(entrybuf.file_name_key()) }
}

/// The position of the entry placed `m`-th, for the sorted order `p` of
/// `n` entries, read backwards when reversing.
spec fn picked(p: Seq<usize>, n: nat, m: int, reverse: bool) -> int {
    if reverse {
        p[n - 1 - m] as int
    } else {
        p[m] as int
    }
}

fn take_slot(slots: &mut Vec<Option<EntryBuf>>, i: usize) -> (r: Option<EntryBuf>)
    requires
        i < old(slots)@.len(),
    ensures
        r == old(slots)@[i as int],
        final(slots)@ == old(slots)@.update(i as int, None),
{
    let mut taken: Option<EntryBuf> = None;
    std::mem::swap(&mut slots[i], &mut taken);
    taken
}

/// Sorts the entries by the configured key (name, size or time; ties by
/// name), keeping entries with equal keys in their order, and reverses the
/// result when asked to.
pub fn sort_entrybuf_vec(entrybuf_vec: &mut Vec<EntryBuf>, config: &Config)
    ensures
        sorted_entries(old(entrybuf_vec)@, final(entrybuf_vec)@, config.sorting_order, config.reverse),
{
    let ghost before = entrybuf_vec@;
    let order = config.sorting_order;
    let n = entrybuf_vec.len();

    let mut keys: Vec<SortKey> = Vec::new();
    let mut i: usize = 0;
    while i < n
        invariant
            n == entrybuf_vec@.len(),
            entrybuf_vec@ == before,
            i <= n,
            keys@.len() == i,
            forall|k: int| 0 <= k < i ==> #[trigger] keys@[k].view() == key_of(before[k]@, order),
        decreases n - i,
    {
        let key = sort_key(&entrybuf_vec[i], order);
        keys.push(key);
        i = i + 1;
    }
    let ghost kv = keys@.map_values(|x: SortKey| x.view());
    proof {
        assert(kv =~= entry_keys(before, order));
    }
    let p = sort_range(&keys, 0, n);

    let mut slots: Vec<Option<EntryBuf>> = Vec::new();
    while entrybuf_vec.len() > 0
        invariant
            n == before.len(),
            slots@.len() + entrybuf_vec@.len() == n,
            entrybuf_vec@ == before.take(entrybuf_vec@.len() as int),
            forall|k: int| 0 <= k < slots@.len() ==> #[trigger] slots@[k] == Some(before[n - 1 - k]),
        decreases entrybuf_vec@.len(),
    {
        let ghost len = entrybuf_vec@.len();
        let e = entrybuf_vec.pop().unwrap();
        proof {
            assert(e == before[len - 1]);
            assert(entrybuf_vec@ =~= before.take(len - 1));
        }
        slots.push(Some(e));
    }

    let mut result: Vec<EntryBuf> = Vec::new();
    let mut k: usize = 0;
    while k < n
        invariant
            n == before.len(),
            slots@.len() == n,
            p@.len() == n,
            kv == entry_keys(before, order),
            forall|m: int| 0 <= m < n ==> 0 <= #[trigger] p@[m] < n,
            forall|a: int, b: int| 0 <= a < b < n ==> index_lt(kv, #[trigger] p@[a] as int, #[trigger] p@[b] as int),
            k <= n,
            result@.len() == k,
            forall|m: int|
                k <= m < n ==> slots@[n - 1 - #[trigger] picked(p@, n as nat, m, config.reverse)]
                    == Some(before[picked(p@, n as nat, m, config.reverse)]),
            forall|m: int|
                0 <= m < k ==> #[trigger] result@[m] == before[picked(p@, n as nat, m, config.reverse)],
        decreases n - k,
    {
        let idx = if config.reverse {
            p[n - 1 - k]
        } else {
            p[k]
        };
        proof {
            assert(idx as int == picked(p@, n as nat, k as int, config.reverse));
            assert(slots@[n - 1 - idx] == Some(before[idx as int]));
        }
        let ghost slots_before = slots@;
        let taken = take_slot(&mut slots, n - 1 - idx);
        let e = taken.unwrap();
        proof {
            assert forall|m: int| k < m < n implies slots@[n - 1 - #[trigger] picked(p@, n as nat, m, config.reverse)]
                == Some(before[picked(p@, n as nat, m, config.reverse)]) by {
                let other = picked(p@, n as nat, m, config.reverse);
                if config.reverse {
                    assert(index_lt(kv, p@[n - 1 - m] as int, p@[n - 1 - k] as int));
                } else {
                    assert(index_lt(kv, p@[k as int] as int, p@[m] as int));
                }
                lemma_index_lt_irreflexive(kv, idx as int);
                assert(other != idx);
                assert(slots@[n - 1 - other] == slots_before[n - 1 - other]);
            }
        }
        result.push(e);
        k = k + 1;
    }
    *entrybuf_vec = result;
    proof {
        let pv = p@.map_values(|x: usize| x as int);
        assert(is_sorted_order(entry_keys(before, order), pv));
        assert forall|m: int| 0 <= m < n implies #[trigger] entrybuf_vec@[m] == (if config.reverse {
            before[pv[n - 1 - m]]
        } else {
            before[pv[m]]
        }) by {
            assert(entrybuf_vec@[m] == before[picked(p@, n as nat, m, config.reverse)]);
        }
    }
}

/// The weak order of positions under a stable sort: a position is at or
/// before another when it is the same or sorts before it.
spec fn index_le(keys: Seq<SortKeyView>) -> spec_fn(int, int) -> bool {
    |i: int, j: int| i == j || index_lt(keys, i, j)
}

proof fn lemma_index_le_total(keys: Seq<SortKeyView>)
    ensures
        vstd::relations::total_ordering(index_le(keys)),
{
    let le = index_le(keys);
    assert forall|x: int| #[trigger] le(x, x) by {}
    assert forall|x: int, y: int| #[trigger] le(x, y) && #[trigger] le(y, x) implies x == y by {
        if x != y {
            lemma_index_lt_transitive(keys, x, y, x);
            lemma_index_lt_irreflexive(keys, x);
        }
    }
    assert forall|x: int, y: int, z: int| #[trigger] le(x, y) && #[trigger] le(y, z) implies le(x, z) by {
        if x != y && y != z {
            lemma_index_lt_transitive(keys, x, y, z);
        }
    }
    assert forall|x: int, y: int| #[trigger] le(x, y) || #[trigger] le(y, x) by {
        if x != y {
            lemma_index_lt_total(keys, x, y);
        }
    }
}

/// A stable sorted order lists every position exactly once.
proof fn lemma_sorted_order_counts(keys: Seq<SortKeyView>, p: Seq<int>)
    requires
        is_sorted_order(keys, p),
    ensures
        forall|x: int| #[trigger] p.to_multiset().count(x) == if 0 <= x < keys.len() { 1nat } else { 0nat },
{
    broadcast use vstd::seq_lib::group_to_multiset_ensures;

    assert(p.no_duplicates()) by {
        assert forall|k: int, l: int| 0 <= k < p.len() && 0 <= l < p.len() && k != l implies p[k] != p[l] by {
            if k < l {
                assert(index_lt(keys, p[k], p[l]));
            } else {
                assert(index_lt(keys, p[l], p[k]));
            }
            lemma_index_lt_irreflexive(keys, p[k]);
        }
    }
    p.unique_seq_to_set();
    let range = vstd::set_lib::set_int_range(0, keys.len() as int);
    vstd::set_lib::lemma_int_range(0, keys.len() as int);
    assert(p.to_set().subset_of(range)) by {
        assert forall|x: int| p.to_set().contains(x) implies range.contains(x) by {
            let k = choose|k: int| 0 <= k < p.len() && p[k] == x;
            assert(0 <= p[k] < keys.len());
        }
    }
    vstd::set_lib::lemma_subset_equality(p.to_set(), range);
    p.lemma_multiset_has_no_duplicates();
    assert forall|x: int| #[trigger] p.to_multiset().count(x) == if 0 <= x < keys.len() { 1nat } else { 0nat } by {
        if 0 <= x < keys.len() {
            assert(range.contains(x));
            assert(p.to_set().contains(x));
            assert(p.contains(x));
        } else {
            assert(!range.contains(x));
            assert(!p.to_set().contains(x));
        }
    }
}

/// There is one stable sorted order of given keys.
proof fn lemma_sorted_order_unique(keys: Seq<SortKeyView>, p: Seq<int>, q: Seq<int>)
    requires
        is_sorted_order(keys, p),
        is_sorted_order(keys, q),
    ensures
        p == q,
{
    lemma_sorted_order_counts(keys, p);
    lemma_sorted_order_counts(keys, q);
    assert(p.to_multiset() =~= q.to_multiset());
    lemma_index_le_total(keys);
    let le = index_le(keys);
    assert(vstd::relations::sorted_by(p, le)) by {
        assert forall|i: int, j: int| 0 <= i < j < p.len() implies #[trigger] le(p[i], p[j]) by {
            assert(index_lt(keys, p[i], p[j]));
        }
    }
    assert(vstd::relations::sorted_by(q, le)) by {
        assert forall|i: int, j: int| 0 <= i < j < q.len() implies #[trigger] le(q[i], q[j]) by {
            assert(index_lt(keys, q[i], q[j]));
        }
    }
    vstd::seq_lib::lemma_sorted_unique(p, q, le);
}

/// Sorting is deterministic: for the same entries, order and direction
/// there is exactly one sorted result.
pub proof fn lemma_sorted_entries_unique(
    before: Seq<EntryBuf>,
    a: Seq<EntryBuf>,
    b: Seq<EntryBuf>,
    order: SortingOrder,
    reverse: bool,
)
    requires
        sorted_entries(before, a, order, reverse),
        sorted_entries(before, b, order, reverse),
    ensures
        a == b,
{
    let keys = entry_keys(before, order);
    let p = choose|p: Seq<int>| #[trigger] is_sorted_order(keys, p) && a.len() == before.len() && forall|k: int|
        0 <= k < a.len() ==> #[trigger] a[k] == (if reverse { before[p[a.len() - 1 - k]] } else { before[p[k]] });
    let q = choose|q: Seq<int>| #[trigger] is_sorted_order(keys, q) && b.len() == before.len() && forall|k: int|
        0 <= k < b.len() ==> #[trigger] b[k] == (if reverse { before[q[b.len() - 1 - k]] } else { before[q[k]] });
    lemma_sorted_order_unique(keys, p, q);
    assert(a =~= b);
}

/// A reversed listing is the forward listing read backwards.
pub proof fn lemma_reverse_lists_backwards(
    before: Seq<EntryBuf>,
    forward: Seq<EntryBuf>,
    backward: Seq<EntryBuf>,
    order: SortingOrder,
)
    requires
        sorted_entries(before, forward, order, false),
        sorted_entries(before, backward, order, true),
    ensures
        backward == forward.reverse(),
{
    let keys = entry_keys(before, order);
    let p = choose|p: Seq<int>| #[trigger] is_sorted_order(keys, p) && forward.len() == before.len() && forall|k: int|
        0 <= k < forward.len() ==> #[trigger] forward[k] == (if false { before[p[forward.len() - 1 - k]] } else { before[p[k]] });
    let q = choose|q: Seq<int>| #[trigger] is_sorted_order(keys, q) && backward.len() == before.len() && forall|k: int|
        0 <= k < backward.len() ==> #[trigger] backward[k] == (if true { before[q[backward.len() - 1 - k]] } else { before[q[k]] });
    lemma_sorted_order_unique(keys, p, q);
    assert forall|k: int| 0 <= k < backward.len() implies backward[k] == forward.reverse()[k] by {
        assert(backward[k] == before[q[backward.len() - 1 - k]]);
        assert(forward[forward.len() - 1 - k] == before[p[forward.len() - 1 - k]]);
    }
    assert(backward =~= forward.reverse());
}

/// Sorting keeps the entries: the result holds each entry as often as
/// the input did.
pub proof fn lemma_sort_keeps_entries(
    before: Seq<EntryBuf>,
    after: Seq<EntryBuf>,
    order: SortingOrder,
    reverse: bool,
)
    requires
        sorted_entries(before, after, order, reverse),
    ensures
        after.to_multiset() == before.to_multiset(),
{
    let keys = entry_keys(before, order);
    let n = before.len() as int;
    let p = choose|p: Seq<int>| #[trigger] is_sorted_order(keys, p) && after.len() == before.len() && forall|k: int|
        0 <= k < after.len() ==> #[trigger] after[k] == (if reverse { before[p[after.len() - 1 - k]] } else { before[p[k]] });
    lemma_sorted_order_counts(keys, p);
    // `after` is `before` read through a permutation of its positions.
    let perm = Seq::new(n as nat, |k: int| if reverse { p[n - 1 - k] } else { p[k] });
    assert(after =~= perm.map_values(|i: int| before[i]));
    lemma_permuted_multiset(before, perm, p, reverse);
}

proof fn lemma_permuted_multiset(before: Seq<EntryBuf>, perm: Seq<int>, p: Seq<int>, reverse: bool)
    requires
        p.len() == before.len(),
        perm == Seq::new(before.len(), |k: int| if reverse { p[before.len() - 1 - k] } else { p[k] }),
        forall|x: int| #[trigger] p.to_multiset().count(x) == if 0 <= x < before.len() { 1nat } else { 0nat },
    ensures
        perm.map_values(|i: int| before[i]).to_multiset() == before.to_multiset(),
{
    broadcast use vstd::seq_lib::group_to_multiset_ensures;

    let n = before.len() as int;
    assert(perm.to_multiset() =~= p.to_multiset()) by {
        if reverse {
            assert(perm =~= p.reverse());
            p.lemma_reverse_to_multiset();
        } else {
            assert(perm =~= p);
        }
    }
    let ident = Seq::new(n as nat, |k: int| k);
    assert(ident.to_multiset() =~= perm.to_multiset()) by {
        assert(ident.no_duplicates());
        ident.lemma_multiset_has_no_duplicates();
        assert forall|x: int| #[trigger] ident.to_multiset().count(x) == perm.to_multiset().count(x) by {
            if 0 <= x < n {
                assert(ident[x] == x);
                assert(ident.contains(x));
            } else {
                assert(!ident.contains(x));
            }
        }
    }
    assert(ident.map_values(|i: int| before[i]) =~= before);
    lemma_map_values_multiset(ident, perm, |i: int| before[i]);
}

/// Mapping two sequences with the same elements gives sequences with the
/// same elements.
proof fn lemma_map_values_multiset<A, B>(x: Seq<A>, y: Seq<A>, f: spec_fn(A) -> B)
    requires
        x.to_multiset() == y.to_multiset(),
    ensures
        x.map_values(f).to_multiset() == y.map_values(f).to_multiset(),
    decreases x.len(),
{
    broadcast use vstd::seq_lib::group_to_multiset_ensures;
    broadcast use vstd::multiset::group_multiset_axioms;

    vstd::seq_lib::to_multiset_len(x);
    vstd::seq_lib::to_multiset_len(y);
    if x.len() == 0 {
        assert(x.map_values(f) =~= Seq::<B>::empty());
        assert(y.map_values(f) =~= Seq::<B>::empty());
    } else {
        let a = x[0];
        assert(x.contains(a));
        assert(y.to_multiset().count(a) > 0);
        let i = choose|i: int| 0 <= i < y.len() && y[i] == a;
        vstd::seq_lib::to_multiset_remove(x, 0);
        vstd::seq_lib::to_multiset_remove(y, i);
        assert(x.remove(0) =~= x.drop_first());
        lemma_map_values_multiset(x.drop_first(), y.remove(i), f);
        assert(x.map_values(f) =~= x.drop_first().map_values(f).insert(0, f(a)));
        assert(y.map_values(f) =~= y.remove(i).map_values(f).insert(i, f(a)));
        vstd::seq_lib::to_multiset_insert(x.drop_first().map_values(f), 0, f(a));
        vstd::seq_lib::to_multiset_insert(y.remove(i).map_values(f), i, f(a));
    }
}

} // verus!
