//! The decisions around a listing: which paths named on the command line
//! are listed as entries and which as directories, when a total line and
//! a directory header are written, how directories are walked, and when a
//! walk error ends a listing.

use vstd::prelude::*;

use crate::config::{Config, OutputFormat};
use crate::text::{string_push, string_push_str};

verus! {

/// What examining a path named on the command line found.
#[derive(Debug, Clone, Copy, PartialEq, Eq, Structural)]
pub enum PathKind {
    /// The path could not be examined; it is reported and left out.
    Unreadable,
    /// A directory.
    Directory,
    /// Anything else.
    Other,
}

/// Whether a path of this kind is listed as an entry of its own.
pub open spec fn listed_as_entry(kind: PathKind, list_dir: bool) -> bool {
    kind == PathKind::Other || (kind == PathKind::Directory && !list_dir)
}

/// Whether a path of this kind has its contents listed.
pub open spec fn listed_as_dir(kind: PathKind, list_dir: bool) -> bool {
    kind == PathKind::Directory && list_dir
}

/// The positions, in order, of the paths listed as directories (`as_dir`)
/// or as entries.
pub open spec fn positions_where(kinds: Seq<PathKind>, list_dir: bool, as_dir: bool) -> Seq<usize>
    decreases kinds.len(),
{
    if kinds.len() == 0 {
        Seq::empty()
    } else {
        let rest = positions_where(kinds.drop_last(), list_dir, as_dir);
        let last = kinds.last();
        if (as_dir && listed_as_dir(last, list_dir)) || (!as_dir && listed_as_entry(last, list_dir)) {
            rest.push((kinds.len() - 1) as usize)
        } else {
            rest
        }
    }
}

/// Every path named on the command line that could be examined is listed
/// exactly once, as an entry or as a directory; the others are not listed.
pub proof fn lemma_each_path_listed_once(kinds: Seq<PathKind>, list_dir: bool, i: int)
    requires
        0 <= i < kinds.len(),
        kinds.len() <= usize::MAX,
    ensures
        positions_where(kinds, list_dir, false).contains(i as usize) == listed_as_entry(kinds[i], list_dir),
        positions_where(kinds, list_dir, true).contains(i as usize) == listed_as_dir(kinds[i], list_dir),
        kinds[i] != PathKind::Unreadable <==> (listed_as_entry(kinds[i], list_dir) || listed_as_dir(kinds[i], list_dir)),
        !(listed_as_entry(kinds[i], list_dir) && listed_as_dir(kinds[i], list_dir)),
    decreases kinds.len(),
{
    let n = kinds.len() as int;
    let prefix = kinds.drop_last();
    assert(prefix.len() == n - 1);
    lemma_positions_below(prefix, list_dir, false);
    lemma_positions_below(prefix, list_dir, true);
    if i < n - 1 {
        lemma_each_path_listed_once(prefix, list_dir, i);
        assert(prefix[i] == kinds[i]);
    }
    assert forall|as_dir: bool| #[trigger] positions_where(kinds, list_dir, as_dir).contains(i as usize)
        == ((as_dir && listed_as_dir(kinds[i], list_dir)) || (!as_dir && listed_as_entry(kinds[i], list_dir))) by {
        let rest = positions_where(prefix, list_dir, as_dir);
        let all = positions_where(kinds, list_dir, as_dir);
        if (as_dir && listed_as_dir(kinds.last(), list_dir)) || (!as_dir && listed_as_entry(kinds.last(), list_dir)) {
            assert(all == rest.push((n - 1) as usize));
            if all.contains(i as usize) {
                let k = choose|k: int| 0 <= k < all.len() && all[k] == i as usize;
                if k < rest.len() {
                    assert(rest[k] == all[k]);
                }
            }
            if rest.contains(i as usize) {
                let k = choose|k: int| 0 <= k < rest.len() && rest[k] == i as usize;
                assert(all[k] == rest[k]);
            }
            if i == n - 1 {
                assert(all[rest.len() as int] == (n - 1) as usize);
            }
        } else {
            assert(all == rest);
        }
        if i == n - 1 && rest.contains(i as usize) {
            let k = choose|k: int| 0 <= k < rest.len() && rest[k] == i as usize;
            assert(rest[k] < prefix.len());
        }
    }
}

/// The positions selected from `kinds` lie below its length.
proof fn lemma_positions_below(kinds: Seq<PathKind>, list_dir: bool, as_dir: bool)
    requires
        kinds.len() <= usize::MAX,
    ensures
        forall|k: int| 0 <= k < positions_where(kinds, list_dir, as_dir).len()
            ==> #[trigger] positions_where(kinds, list_dir, as_dir)[k] < kinds.len(),
    decreases kinds.len(),
{
    if kinds.len() > 0 {
        let rest = positions_where(kinds.drop_last(), list_dir, as_dir);
        lemma_positions_below(kinds.drop_last(), list_dir, as_dir);
        assert forall|k: int| 0 <= k < positions_where(kinds, list_dir, as_dir).len() implies #[trigger] positions_where(
            kinds,
            list_dir,
            as_dir,
        )[k] < kinds.len() by {
            if k < rest.len() {
                assert(rest[k] < kinds.len() - 1);
            }
        }
    }
}

/// How the paths named on the command line are listed.
pub struct CmdlinePlan {
    /// Positions of the paths listed as entries, together, first.
    pub entries: Vec<usize>,
    /// Positions of the directories whose contents are listed next, in
    /// order.
    pub dirs: Vec<usize>,
    /// Whether each directory listing gets a header with its path.
    pub headers: bool,
}

/// Splits the paths named on the command line, by what examining them
/// found: directories have their contents listed (unless directories are
/// listed as entries), everything else readable is listed as an entry, and
/// unreadable paths are left out. Headers are written when more than one
/// path was named.
pub fn plan_cmdline(kinds: &Vec<PathKind>, list_dir: bool) -> (r: CmdlinePlan)
    requires
        kinds@.len() <= usize::MAX,
    ensures
        r.entries@ == positions_where(kinds@, list_dir, false),
        r.dirs@ == positions_where(kinds@, list_dir, true),
        r.headers == (kinds@.len() > 1),
{
    let mut entries: Vec<usize> = Vec::new();
    let mut dirs: Vec<usize> = Vec::new();
    let n = kinds.len();
    let mut i: usize = 0;
    while i < n
        invariant
            n == kinds@.len(),
            i <= n,
            entries@ == positions_where(kinds@.subrange(0, i as int), list_dir, false),
            dirs@ == positions_where(kinds@.subrange(0, i as int), list_dir, true),
        decreases n - i,
    {
        let kind = kinds[i];
        proof {
            let next = kinds@.subrange(0, i + 1);
            assert(next.drop_last() =~= kinds@.subrange(0, i as int));
            assert(next.last() == kind);
        }
        match kind {
            PathKind::Directory => {
                if list_dir {
                    dirs.push(i);
                } else {
                    entries.push(i);
                }
            },
            PathKind::Other => {
                entries.push(i);
            },
            PathKind::Unreadable => {},
        }
        i = i + 1;
    }
    proof {
        assert(kinds@.subrange(0, n as int) =~= kinds@);
    }
    CmdlinePlan { entries, dirs, headers: n > 1 }
}

/// The header written before the contents of a directory: its path and a
/// colon, after an empty line unless nothing was written before it.
pub open spec fn header_text(path: Seq<char>, after_output: bool) -> Seq<char> {
    (if after_output {
        seq!['\n']
    } else {
        Seq::empty()
    }) + path + seq![':']
}

/// The header line (without its newline) for a directory listing.
pub fn dir_header(path: &str, after_output: bool) -> (r: String)
    ensures
        r@ == header_text(path@, after_output),
{
    let mut header = String::new();
    if after_output {
        string_push(&mut header, '\n');
    }
    string_push_str(&mut header, path);
    string_push(&mut header, ':');
    proof {
        assert(header@ =~= header_text(path@, after_output));
    }
    header
}

/// Whether an error met while walking a directory ends its listing: an
/// error of the file system that left nothing of the walk usable.
pub fn ends_listing(is_partial: bool, is_io: bool) -> (r: bool)
    ensures
        r == (!is_partial && is_io),
{
    !is_partial && is_io
}

/// How directories are walked.
#[derive(Debug, Clone, Copy, PartialEq, Eq, Structural)]
pub struct WalkSettings {
    /// Hidden entries are skipped.
    pub hidden: bool,
    /// Ignore files of parent directories apply.
    pub parents: bool,
    /// `.ignore` files apply.
    pub ignore: bool,
    /// `.git/info/exclude` applies.
    pub git_exclude: bool,
    /// The global git ignore file applies.
    pub git_global: bool,
    /// `.gitignore` files apply.
    pub git_ignore: bool,
    /// Symbolic links are followed.
    pub follow_links: bool,
    /// How deep the walk goes; `None` for no limit.
    pub max_depth: Option<usize>,
    /// Entries are visited in path order (recursive listings).
    pub sort_by_path: bool,
    /// Only directories are visited (recursive listings).
    pub dirs_only: bool,
}

/// The walk for a directory's contents (`recursive` false: its entries
/// only) or for the directories of a recursive listing.
pub open spec fn walk_settings_spec(config: &Config, recursive: bool) -> WalkSettings {
    WalkSettings {
        hidden: config.ignore_hidden,
        parents: config.git_ignore || config.ignore_file,
        ignore: config.ignore_file,
        git_exclude: config.git_ignore,
        git_global: config.git_ignore,
        git_ignore: config.git_ignore,
        follow_links: config.dereference,
        max_depth: if recursive {
            config.max_depth
        } else {
            Some(1)
        },
        sort_by_path: recursive,
        dirs_only: recursive,
    }
}

/// The walk settings for the configuration.
pub fn walk_settings(config: &Config, recursive: bool) -> (r: WalkSettings)
    ensures
        r == walk_settings_spec(config, recursive),
{
    WalkSettings {
        hidden: config.ignore_hidden,
        parents: config.git_ignore || config.ignore_file,
        ignore: config.ignore_file,
        git_exclude: config.git_ignore,
        git_global: config.git_ignore,
        git_ignore: config.git_ignore,
        follow_links: config.dereference,
        max_depth: if recursive {
            config.max_depth
        } else {
            Some(1)
        },
        sort_by_path: recursive,
        dirs_only: recursive,
    }
}

impl Config {
    /// Whether a directory's listing starts with the total allocated size
    /// of its entries: in the long format or when allocated sizes are
    /// listed.
    pub fn shows_dir_total(&self) -> (r: bool)
        ensures
            r == (self.output_format == OutputFormat::Long || self.list_allocated_size),
    {
        self.output_format.is_long() || self.list_allocated_size
    }

    /// Whether the entries named on the command line are preceded by their
    /// total allocated size: only when allocated sizes are listed.
    pub fn shows_entries_total(&self) -> (r: bool)
        ensures
            r == self.list_allocated_size,
    {
        self.list_allocated_size
    }
}

} // verus!
