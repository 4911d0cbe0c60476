//! One listed entry: its name, the metadata read for it, and the cells of
//! the columns shown for it.

use vstd::prelude::*;

use crate::config::{AllocatedSizeBlocks, Config, ModeFormat, TimestampUsed};
use crate::os::unix::accounts::{
    get_groupname_cell_by_gid, get_username_cell_by_uid, id_cell_view, is_account_cell,
    AccountCache,
};
use crate::os::unix::mode::{pwsh_mode_cell, pwsh_mode_text, rwx_mode_cell, rwx_mode_text};
use crate::os::unix::sys_prelude::{S_IFBLK, S_IFCHR, S_IFDIR, S_IFIFO, S_IFLNK, S_IFMT, S_IFREG, S_IFSOCK};
use crate::os::unix::{allocated_size_spec, format_rdev, get_allocated_size, rdev_text};
use crate::output::display_cell::{Alignment, CellView, DisplayCell};
use crate::output::format_filename::{format_filename, format_filename_view};
use crate::output::format_size::{format_size, size_cell_view, size_text};
use crate::output::format_timestamp::{
    chrono_in_range, format_timestamp, law_timestamp_cell_shows_its_date, timestamp_cell_of,
    timestamp_cell_view, DateParts,
};
use crate::text::{decimal, maybe_styled, string_from, unicode_str_width};
use crate::theme::opt_string_view;

verus! {

/// The metadata of a file that the listing reads, as the operating system
/// reports it (`stat`).
#[derive(Debug, Clone, Copy, PartialEq, Eq, Structural)]
pub struct FileMetadata {
    /// File type and permission bits (`st_mode`).
    pub mode: u32,
    /// Number of hard links.
    pub nlink: u64,
    /// Owner's user id.
    pub uid: u32,
    /// Owner's group id.
    pub gid: u32,
    /// Size in bytes.
    pub len: u64,
    /// Number of 512-byte blocks allocated.
    pub blocks: u64,
    /// Inode number.
    pub ino: u64,
    /// Device number of a device file.
    pub rdev: u64,
    /// Last access time, in seconds since the Unix epoch.
    pub atime: i64,
    /// Last modification time, in seconds since the Unix epoch.
    pub mtime: i64,
    /// Last status change time, in seconds since the Unix epoch.
    pub ctime: i64,
    /// Creation time, in seconds since the Unix epoch, where the platform
    /// records one.
    pub created: Option<i64>,
}

impl FileMetadata {
    /// The file-type bits of the mode.
    pub open spec fn file_type(self) -> u32 {
        self.mode & S_IFMT
    }

    pub fn is_file(&self) -> (r: bool)
        ensures
            r == (self.file_type() == S_IFREG),
    {
        self.mode & S_IFMT == S_IFREG
    }

    pub fn is_dir(&self) -> (r: bool)
        ensures
            r == (self.file_type() == S_IFDIR),
    {
        self.mode & S_IFMT == S_IFDIR
    }

    pub fn is_symlink(&self) -> (r: bool)
        ensures
            r == (self.file_type() == S_IFLNK),
    {
        self.mode & S_IFMT == S_IFLNK
    }

    pub fn is_block_device(&self) -> (r: bool)
        ensures
            r == (self.file_type() == S_IFBLK),
    {
        self.mode & S_IFMT == S_IFBLK
    }

    pub fn is_char_device(&self) -> (r: bool)
        ensures
            r == (self.file_type() == S_IFCHR),
    {
        self.mode & S_IFMT == S_IFCHR
    }

    pub fn is_fifo(&self) -> (r: bool)
        ensures
            r == (self.file_type() == S_IFIFO),
    {
        self.mode & S_IFMT == S_IFIFO
    }

    pub fn is_socket(&self) -> (r: bool)
        ensures
            r == (self.file_type() == S_IFSOCK),
    {
        self.mode & S_IFMT == S_IFSOCK
    }
}

/// What was learnt about the target of a symbolic link.
#[derive(Debug, PartialEq, Eq)]
pub enum SymlinkTarget {
    /// The link itself could not be read.
    Unreadable,
    /// The link reads as this path, but what it leads to could not be
    /// examined.
    Unresolved(String),
    /// The link reads as this path, which leads to a file with this
    /// metadata (links followed).
    Resolved(String, FileMetadata),
}

/// The lower-case form of a string (`str::to_lowercase`), named here
/// rather than described.
pub uninterp spec fn lowercase(s: Seq<char>) -> Seq<char>;

/// `str::to_lowercase`: the string with every character replaced by its
/// lower-case mapping under Unicode's rules; a function of the characters
/// alone.
#[verifier::external_body]
fn str_to_lowercase(s: &str) -> (r: String)
    ensures
        r@ == lowercase(s@),
{
    s.to_lowercase()
}

/// What an entry holds: its displayed name, the key it is sorted by, its
/// metadata (when it could be read), what its link target is, and the
/// values derived from the metadata.
pub struct EntryView {
    pub file_name: Seq<char>,
    pub file_name_key: Seq<char>,
    pub metadata: Option<FileMetadata>,
    pub symlink_target: SymlinkTarget,
    pub symlink_target_is_dir: bool,
    pub allocated_size: Option<u64>,
    pub size: Option<u64>,
    pub timestamp: Option<i64>,
    pub ino: Option<u64>,
}

/// The timestamp of a file that the configuration shows and sorts by.
pub open spec fn chosen_timestamp(metadata: FileMetadata, used: TimestampUsed) -> Option<i64> {
    match used {
        TimestampUsed::Accessed => Some(metadata.atime),
        TimestampUsed::Changed => Some(metadata.ctime),
        TimestampUsed::Created => metadata.created,
        TimestampUsed::Modified => Some(metadata.mtime),
    }
}

/// An entry's timestamp is the one the configuration asks for, read from
/// its metadata: the access time for `-u`, the status-change time for `-c`,
/// the creation time for `--time created`, the modification time
/// otherwise; without metadata it has none.
pub proof fn law_entry_timestamp_is_the_one_asked_for(
    v: EntryView,
    file_name: Seq<char>,
    metadata: Option<FileMetadata>,
    ino: Option<u64>,
    symlink_target: SymlinkTarget,
    symlink_target_is_dir: bool,
    config: &Config,
)
    requires
        initialised(v, file_name, metadata, ino, symlink_target, symlink_target_is_dir, config),
    ensures
        metadata is None ==> v.timestamp is None,
        metadata matches Some(m) ==> {
            &&& config.timestamp_used == TimestampUsed::Accessed ==> v.timestamp == Some(m.atime)
            &&& config.timestamp_used == TimestampUsed::Changed ==> v.timestamp == Some(m.ctime)
            &&& config.timestamp_used == TimestampUsed::Created ==> v.timestamp == m.created
            &&& config.timestamp_used == TimestampUsed::Modified ==> v.timestamp == Some(m.mtime)
        },
{
}

/// Whether the metadata is that of a block or character device.
pub open spec fn is_device(metadata: Option<FileMetadata>) -> bool {
    metadata matches Some(m) && (m.file_type() == S_IFBLK || m.file_type() == S_IFCHR)
}

/// An entry of a listing.
pub struct EntryBuf {
    file_name: String,
    file_name_key: String,
    metadata: Option<FileMetadata>,
    symlink_target: SymlinkTarget,
    symlink_target_is_dir: bool,
    allocated_size: Option<u64>,
    size: Option<u64>,
    timestamp: Option<i64>,
    ino: Option<u64>,
}

impl View for EntryBuf {
    type V = EntryView;

    closed spec fn view(&self) -> EntryView {
        EntryView {
            file_name: self.file_name@,
            file_name_key: self.file_name_key@,
            metadata: self.metadata,
            symlink_target: self.symlink_target,
            symlink_target_is_dir: self.symlink_target_is_dir,
            allocated_size: self.allocated_size,
            size: self.size,
            timestamp: self.timestamp,
            ino: self.ino,
        }
    }
}

/// Whether the allocated size of a file with `metadata` can be computed in
/// the configured unit without overflow.
pub open spec fn allocated_size_fits(metadata: Option<FileMetadata>, config: &Config) -> bool {
    metadata matches Some(m) ==> (config.allocated_size_blocks == AllocatedSizeBlocks::Raw ==> m.blocks
        * 512 <= u64::MAX)
}

/// The entry an initialised buffer holds: the name, its lower-case key,
/// and, from the metadata, the size, inode number, allocated size and the
/// configured timestamp; without metadata those are absent, except an
/// inode number known from elsewhere (`ino`).
pub open spec fn initialised(
    v: EntryView,
    file_name: Seq<char>,
    metadata: Option<FileMetadata>,
    ino: Option<u64>,
    symlink_target: SymlinkTarget,
    symlink_target_is_dir: bool,
    config: &Config,
) -> bool {
    &&& v.file_name == file_name
    &&& v.file_name_key == lowercase(file_name)
    &&& v.metadata == metadata
    &&& v.symlink_target == symlink_target
    &&& v.symlink_target_is_dir == symlink_target_is_dir
    &&& match metadata {
        Some(m) => {
            &&& v.size == Some(m.len)
            &&& v.ino == Some(m.ino)
            &&& v.allocated_size == Some(
                allocated_size_spec(m.blocks, config.allocated_size_blocks) as u64,
            )
            &&& v.timestamp == chosen_timestamp(m, config.timestamp_used)
        },
        None => {
            &&& v.size is None
            &&& v.ino == ino
            &&& v.allocated_size is None
            &&& v.timestamp is None
        },
    }
}

/// The error cell `?` with the given alignment.
pub open spec fn error_cell_view(alignment: Alignment) -> CellView {
    (seq!['?'], 1nat, alignment)
}

/// The name column of an entry.
pub open spec fn name_cell_spec(e: EntryView, config: &Config) -> CellView {
    match e.metadata {
        Some(m) => format_filename_view(e.file_name, m, e.symlink_target, config),
        None => (e.file_name, unicode_str_width(e.file_name), Alignment::Left),
    }
}

/// The inode column of an entry.
pub open spec fn ino_cell_spec(e: EntryView, config: &Config) -> CellView {
    match e.ino {
        Some(ino) => (
            maybe_styled(opt_string_view(config.theme.inode), decimal(ino as nat)),
            decimal(ino as nat).len(),
            Alignment::Right,
        ),
        None => error_cell_view(Alignment::Right),
    }
}

/// The allocated-size column of an entry.
pub open spec fn allocated_size_cell_spec(e: EntryView, config: &Config) -> CellView {
    match e.allocated_size {
        Some(s) => size_cell_view(s, config),
        None => error_cell_view(Alignment::Right),
    }
}

/// The permission column of an entry.
pub open spec fn mode_cell_spec(e: EntryView, config: &Config) -> CellView {
    match e.metadata {
        Some(m) => if config.mode_format == ModeFormat::Rwx {
            (rwx_mode_text(m.mode, config.ls_colors@, config.theme), 10nat, Alignment::Left)
        } else {
            (
                pwsh_mode_text(
                    m.mode,
                    e.file_name,
                    e.symlink_target_is_dir,
                    config.ls_colors@,
                    config.theme,
                ),
                6nat,
                Alignment::Left,
            )
        },
        None => (Seq::new(10, |i: int| '?'), 10nat, Alignment::Left),
    }
}

/// The hard-link column of an entry.
pub open spec fn nlink_cell_spec(e: EntryView, config: &Config) -> CellView {
    match e.metadata {
        Some(m) => (
            maybe_styled(opt_string_view(config.theme.nlink), decimal(m.nlink as nat)),
            decimal(m.nlink as nat).len(),
            Alignment::Right,
        ),
        None => error_cell_view(Alignment::Right),
    }
}

/// The size column of an entry: device numbers for a device, else the
/// size.
pub open spec fn size_cell_spec(e: EntryView, config: &Config) -> CellView {
    if is_device(e.metadata) {
        (
            maybe_styled(opt_string_view(config.theme.size), rdev_text(e.metadata.unwrap().rdev)),
            rdev_text(e.metadata.unwrap().rdev).len(),
            Alignment::Right,
        )
    } else {
        match e.size {
            Some(s) => size_cell_view(s, config),
            None => error_cell_view(Alignment::Right),
        }
    }
}

/// Whether `cell` is the timestamp column of the entry: `?` when it has no
/// timestamp, else the column for its timestamp, in the recent form exactly
/// when it is newer than the threshold.
pub open spec fn is_timestamp_cell(cell: CellView, e: EntryView, six_months_ago_timestamp: i64, config: &Config) -> bool {
    match e.timestamp {
        Some(t) => timestamp_cell_of(
            cell,
            t,
            t > six_months_ago_timestamp,
            opt_string_view(config.theme.timestamp),
        ),
        None => cell == error_cell_view(Alignment::Left),
    }
}

/// An entry whose timestamp is known shows that timestamp in its
/// timestamp column, never `?` unless chrono cannot represent it (the day
/// shown is then the timestamp's own, give or take one for the time zone;
/// see `law_timestamp_cell_shows_its_date`); one without a timestamp shows
/// `?`.
pub proof fn law_timestamp_column_shows_entry_time(
    cell: CellView,
    e: EntryView,
    six_months_ago_timestamp: i64,
    config: &Config,
)
    requires
        is_timestamp_cell(cell, e, six_months_ago_timestamp, config),
    ensures
        e.timestamp is None ==> cell == error_cell_view(Alignment::Left),
        e.timestamp matches Some(t) ==> (chrono_in_range(t as int) <==> cell != error_cell_view(
            Alignment::Left,
        )),
        e.timestamp matches Some(t) ==> timestamp_cell_of(
            cell,
            t,
            t > six_months_ago_timestamp,
            opt_string_view(config.theme.timestamp),
        ),
{
    if let Some(t) = e.timestamp {
        law_timestamp_cell_shows_its_date(
            cell,
            t,
            t > six_months_ago_timestamp,
            opt_string_view(config.theme.timestamp),
        );
    }
}

impl EntryBuf {
    fn build(
        file_name: String,
        metadata: Option<FileMetadata>,
        ino: Option<u64>,
        symlink_target: SymlinkTarget,
        symlink_target_is_dir: bool,
        config: &Config,
    ) -> (r: Self)
        requires
            allocated_size_fits(metadata, config),
        ensures
            initialised(r@, file_name@, metadata, ino, symlink_target, symlink_target_is_dir, config),
    {
        let mut entrybuf = EntryBuf {
            file_name: file_name,
            file_name_key: String::new(),
            metadata: metadata,
            symlink_target: symlink_target,
            symlink_target_is_dir: symlink_target_is_dir,
            allocated_size: None,
            size: None,
            timestamp: None,
            ino: ino,
        };
        entrybuf.init(config);
        entrybuf
    }

    /// An entry found while reading a directory: the directory itself (at
    /// depth 0) is named `.`; `dent_ino` is the inode number the directory
    /// listing gave, which is kept only when links are not followed and
    /// the metadata could not be read.
    pub fn from_direntry(
        depth: usize,
        dent_file_name: &str,
        metadata: Option<FileMetadata>,
        dent_ino: Option<u64>,
        symlink_target: SymlinkTarget,
        symlink_target_is_dir: bool,
        config: &Config,
    ) -> (r: Self)
        requires
            allocated_size_fits(metadata, config),
        ensures
            initialised(
                r@,
                if depth == 0 {
                    seq!['.']
                } else {
                    dent_file_name@
                },
                metadata,
                if config.dereference {
                    None
                } else {
                    dent_ino
                },
                symlink_target,
                symlink_target_is_dir,
                config,
            ),
    {
        let file_name = if depth == 0 {
            let mut name = String::new();
            crate::text::string_push(&mut name, '.');
            name
        } else {
            string_from(dent_file_name)
        };
        let ino = if config.dereference {
            None
        } else {
            dent_ino
        };
        Self::build(file_name, metadata, ino, symlink_target, symlink_target_is_dir, config)
    }

    /// An entry for a path named on the command line, shown as written.
    pub fn from_cmdline_path(
        path_display: &str,
        metadata: Option<FileMetadata>,
        symlink_target: SymlinkTarget,
        symlink_target_is_dir: bool,
        config: &Config,
    ) -> (r: Self)
        requires
            allocated_size_fits(metadata, config),
        ensures
            initialised(r@, path_display@, metadata, None, symlink_target, symlink_target_is_dir, config),
    {
        Self::build(string_from(path_display), metadata, None, symlink_target, symlink_target_is_dir, config)
    }

    /// An entry for a path shown under another name (`.` and `..`).
    pub fn from_named_path(
        path_name: &str,
        metadata: Option<FileMetadata>,
        symlink_target: SymlinkTarget,
        symlink_target_is_dir: bool,
        config: &Config,
    ) -> (r: Self)
        requires
            allocated_size_fits(metadata, config),
        ensures
            initialised(r@, path_name@, metadata, None, symlink_target, symlink_target_is_dir, config),
    {
        Self::build(string_from(path_name), metadata, None, symlink_target, symlink_target_is_dir, config)
    }

    /// Derives the sort key and the values read from the metadata.
    pub fn init(&mut self, config: &Config)
        requires
            allocated_size_fits(old(self)@.metadata, config),
        ensures
            initialised(
                final(self)@,
                old(self)@.file_name,
                old(self)@.metadata,
                old(self)@.ino,
                old(self)@.symlink_target,
                old(self)@.symlink_target_is_dir,
                config,
            ),
    {
        self.file_name_key = str_to_lowercase(self.file_name.as_str());
        match self.metadata {
            Some(metadata) => {
                self.size = Some(metadata.len);
                self.ino = Some(metadata.ino);
                self.allocated_size = Some(get_allocated_size(metadata.blocks, config));
                self.timestamp = match config.timestamp_used {
                    TimestampUsed::Accessed => Some(metadata.atime),
                    TimestampUsed::Changed => Some(metadata.ctime),
                    TimestampUsed::Created => metadata.created,
                    TimestampUsed::Modified => Some(metadata.mtime),
                };
            },
            None => {
                self.size = None;
                self.allocated_size = None;
                self.timestamp = None;
            },
        }
    }

    /// The key entries are sorted by name with: the lower-case name.
    pub fn file_name_key(&self) -> (r: &str)
        ensures
            r@ == self@.file_name_key,
    {
        self.file_name_key.as_str()
    }

    /// The displayed name.
    pub fn file_name(&self) -> (r: &str)
        ensures
            r@ == self@.file_name,
    {
        self.file_name.as_str()
    }

    /// The name column: the name formatted by its file type, or the bare
    /// name when there is no metadata.
    pub fn file_name_cell(&self, config: &Config) -> (r: DisplayCell)
        ensures
            r@ == name_cell_spec(self@, config),
    {
        match &self.metadata {
            Some(metadata) => format_filename(
                self.file_name.as_str(),
                metadata,
                &self.symlink_target,
                config,
            ),
            None => DisplayCell::from_str_with_style(self.file_name.as_str(), None),
        }
    }

    /// The inode column, `?` when unknown.
    pub fn ino_cell(&self, config: &Config) -> (r: DisplayCell)
        ensures
            r@ == ino_cell_spec(self@, config),
    {
        let inode_style = config.theme.inode_style();
        match &self.ino {
            Some(ino) => DisplayCell::from_num_with_style(*ino, inode_style),
            None => DisplayCell::error_cell(Alignment::Right),
        }
    }

    /// The allocated size in the configured unit, when known.
    pub fn allocated_size(&self) -> (r: Option<u64>)
        ensures
            r == self@.allocated_size,
    {
        self.allocated_size
    }

    /// The allocated-size column, `?` when unknown.
    pub fn allocated_size_cell(&self, config: &Config) -> (r: DisplayCell)
        ensures
            r@ == allocated_size_cell_spec(self@, config),
    {
        match &self.allocated_size {
            Some(allocated_size) => format_size(*allocated_size, config),
            None => DisplayCell::error_cell(Alignment::Right),
        }
    }

    /// The permission column in the configured format; question marks when
    /// there is no metadata.
    pub fn mode_cell(&self, config: &Config) -> (r: DisplayCell)
        ensures
            r@ == mode_cell_spec(self@, config),
    {
        match &self.metadata {
            Some(metadata) => {
                if config.mode_format.is_rwx() {
                    rwx_mode_cell(metadata.mode, config)
                } else {
                    pwsh_mode_cell(
                        metadata.mode,
                        self.file_name.as_str(),
                        self.symlink_target_is_dir,
                        config,
                    )
                }
            },
            None => {
                let mut cell = DisplayCell::with_capacity(10);
                let mut i: usize = 0;
                while i < 10
                    invariant
                        i <= 10,
                        cell.contents@ == Seq::new(i as nat, |k: int| '?'),
                        cell.width == i,
                        cell.alignment == Alignment::Left,
                    decreases 10 - i,
                {
                    cell.push_char('?');
                    i = i + 1;
                    proof {
                        assert(cell.contents@ =~= Seq::new(i as nat, |k: int| '?'));
                    }
                }
                cell
            },
        }
    }

    /// The hard-link count column, `?` without metadata.
    pub fn nlink_cell(&self, config: &Config) -> (r: DisplayCell)
        ensures
            r@ == nlink_cell_spec(self@, config),
    {
        let nlink_style = config.theme.nlink_style();
        match &self.metadata {
            Some(metadata) => DisplayCell::from_num_with_style(metadata.nlink, nlink_style),
            None => DisplayCell::error_cell(Alignment::Right),
        }
    }

    /// The owner column, from the cache of account names; `?` without
    /// metadata.
    pub fn owner_cell(&self, users: &mut AccountCache, config: &Config) -> (r: DisplayCell)
        ensures
            self@.metadata is None ==> r@ == (seq!['?'], 1nat, Alignment::Left) && final(users).view()
                == old(users).view(),
            self@.metadata matches Some(m) ==> (if old(users).view().dom().contains(m.uid) {
                r@ == old(users).view()[m.uid] && final(users).view() == old(users).view()
            } else {
                final(users).view() == old(users).view().insert(m.uid, r@) && is_account_cell(
                    r@,
                    m.uid,
                    opt_string_view(config.theme.owner),
                ) && (config.numeric_uid_gid ==> r@ == id_cell_view(
                    m.uid,
                    opt_string_view(config.theme.owner),
                ))
            }),
    {
        match &self.metadata {
            Some(metadata) => get_username_cell_by_uid(users, metadata.uid, config),
            None => DisplayCell::error_cell(Alignment::Left),
        }
    }

    /// The group column, from the cache of group names; `?` without
    /// metadata.
    pub fn group_cell(&self, groups: &mut AccountCache, config: &Config) -> (r: DisplayCell)
        ensures
            self@.metadata is None ==> r@ == (seq!['?'], 1nat, Alignment::Left) && final(groups).view()
                == old(groups).view(),
            self@.metadata matches Some(m) ==> (if old(groups).view().dom().contains(m.gid) {
                r@ == old(groups).view()[m.gid] && final(groups).view() == old(groups).view()
            } else {
                final(groups).view() == old(groups).view().insert(m.gid, r@) && is_account_cell(
                    r@,
                    m.gid,
                    opt_string_view(config.theme.group),
                ) && (config.numeric_uid_gid ==> r@ == id_cell_view(
                    m.gid,
                    opt_string_view(config.theme.group),
                ))
            }),
    {
        match &self.metadata {
            Some(metadata) => get_groupname_cell_by_gid(groups, metadata.gid, config),
            None => DisplayCell::error_cell(Alignment::Left),
        }
    }

    /// The size in bytes, when known.
    pub fn size(&self) -> (r: Option<u64>)
        ensures
            r == self@.size,
    {
        self.size
    }

    /// The size column: major and minor numbers for a device, the size in
    /// the configured format otherwise, `?` when unknown.
    pub fn size_cell(&self, config: &Config) -> (r: DisplayCell)
        ensures
            r@ == size_cell_spec(self@, config),
    {
        if let Some(metadata) = &self.metadata {
            if metadata.is_block_device() || metadata.is_char_device() {
                return format_rdev(metadata.rdev, config);
            }
        }
        match &self.size {
            Some(size) => format_size(*size, config),
            None => DisplayCell::error_cell(Alignment::Right),
        }
    }

    /// The timestamp shown and sorted by, when known.
    pub fn timestamp(&self) -> (r: Option<i64>)
        ensures
            r == self@.timestamp,
    {
        self.timestamp
    }

    /// The timestamp column, `?` when unknown; times newer than
    /// `six_months_ago_timestamp` show hour and minute, older ones the year.
    pub fn timestamp_cell(&self, six_months_ago_timestamp: i64, config: &Config) -> (r: DisplayCell)
        ensures
            is_timestamp_cell(r@, self@, six_months_ago_timestamp, config),
    {
        match &self.timestamp {
            Some(timestamp) => format_timestamp(*timestamp, six_months_ago_timestamp, config),
            None => DisplayCell::error_cell(Alignment::Left),
        }
    }
}

} // verus!
