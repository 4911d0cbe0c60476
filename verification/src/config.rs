use vstd::prelude::*;

use crate::ls_colors::{LsColors, LsColorsView};
use crate::theme::{IconTheme, ThemeConfig, ThemeView};

verus! {

/// Unit in which allocated sizes are reported.
#[derive(Debug, Clone, Copy, PartialEq, Eq, Structural)]
pub enum AllocatedSizeBlocks {
    Posix,
    Kibibytes,
    Raw,
}

impl Default for AllocatedSizeBlocks {
    fn default() -> (r: Self)
        ensures
            r == AllocatedSizeBlocks::Posix,
    {
        AllocatedSizeBlocks::Posix
    }
}

/// Which file-type indicators are appended to file names.
#[derive(Debug, Clone, Copy, PartialEq, Eq, Structural)]
pub enum IndicatorStyle {
    Classify,
    Slash,
    Never,
}

impl IndicatorStyle {
    pub const DIR: char = '/';

    pub const SYMLINK: char = '@';

    pub const EXEC: char = '*';

    pub const SOCKET: char = '=';

    pub const FIFO: char = '|';

    /// Directories get an indicator unless indicators are switched off.
    pub fn dir(&self) -> (r: bool)
        ensures
            r == (*self != IndicatorStyle::Never),
    {
        *self != IndicatorStyle::Never
    }

    /// Other file types get an indicator only when classifying.
    pub fn others(&self) -> (r: bool)
        ensures
            r == (*self == IndicatorStyle::Classify),
    {
        *self == IndicatorStyle::Classify
    }

    pub fn is_classify(&self) -> (r: bool)
        ensures
            r == (*self == IndicatorStyle::Classify),
    {
        *self == IndicatorStyle::Classify
    }
}

impl Default for IndicatorStyle {
    fn default() -> (r: Self)
        ensures
            r == IndicatorStyle::Never,
    {
        IndicatorStyle::Never
    }
}

/// How the permission column is rendered in long format.
#[derive(Debug, Clone, Copy, PartialEq, Eq, Structural)]
pub enum ModeFormat {
    Pwsh,
    Rwx,
}

impl ModeFormat {
    /// Selects the platform's own format; on the unix hosts this library
    /// targets that is the `rwx` format.
    pub fn set_native(&mut self)
        ensures
            *final(self) == ModeFormat::Rwx,
    {
        *self = ModeFormat::Rwx;
    }

    pub fn is_pwsh(&self) -> (r: bool)
        ensures
            r == (*self == ModeFormat::Pwsh),
    {
        *self == ModeFormat::Pwsh
    }

    pub fn is_rwx(&self) -> (r: bool)
        ensures
            r == (*self == ModeFormat::Rwx),
    {
        *self == ModeFormat::Rwx
    }
}

impl Default for ModeFormat {
    fn default() -> (r: Self)
        ensures
            r == ModeFormat::Rwx,
    {
        ModeFormat::Rwx
    }
}

/// How sizes are rendered.
#[derive(Debug, Clone, Copy, PartialEq, Eq, Structural)]
pub enum SizeFormat {
    Raw,
    HumanReadable,
    Iec,
    Si,
}

impl SizeFormat {
    pub fn is_raw(&self) -> (r: bool)
        ensures
            r == (*self == SizeFormat::Raw),
    {
        *self == SizeFormat::Raw
    }
}

impl Default for SizeFormat {
    fn default() -> (r: Self)
        ensures
            r == SizeFormat::Raw,
    {
        SizeFormat::Raw
    }
}

/// The key entries are sorted by.
#[derive(Debug, Clone, Copy, PartialEq, Eq, Structural)]
pub enum SortingOrder {
    FileName,
    Size,
    Timestamp,
}

impl SortingOrder {
    pub fn is_size(&self) -> (r: bool)
        ensures
            r == (*self == SortingOrder::Size),
    {
        *self == SortingOrder::Size
    }
}

impl Default for SortingOrder {
    fn default() -> (r: Self)
        ensures
            r == SortingOrder::FileName,
    {
        SortingOrder::FileName
    }
}

/// The layout of the listing.
#[derive(Debug, Clone, Copy, PartialEq, Eq, Structural)]
pub enum OutputFormat {
    SingleColumn,
    Vertical,
    Across,
    Long,
}

impl OutputFormat {
    pub fn is_long(&self) -> (r: bool)
        ensures
            r == (*self == OutputFormat::Long),
    {
        *self == OutputFormat::Long
    }
}

impl Default for OutputFormat {
    fn default() -> (r: Self)
        ensures
            r == OutputFormat::SingleColumn,
    {
        OutputFormat::SingleColumn
    }
}

/// Which of an entry's timestamps is shown and sorted by.
#[derive(Debug, Clone, Copy, PartialEq, Eq, Structural)]
pub enum TimestampUsed {
    Accessed,
    Changed,
    Created,
    Modified,
}

impl Default for TimestampUsed {
    fn default() -> (r: Self)
        ensures
            r == TimestampUsed::Modified,
    {
        TimestampUsed::Modified
    }
}

/// Every setting that decides what is listed and how.
pub struct Config {
    pub is_atty: bool,
    pub color: bool,
    pub dereference: bool,
    pub dereference_cmdline_symlink: bool,
    pub dereference_cmdline_symlink_dir: bool,
    pub git_ignore: bool,
    pub ignore_file: bool,
    pub ignore_glob_vec: Vec<String>,
    pub ignore_hidden: bool,
    pub indicator_style: IndicatorStyle,
    pub ls_colors: LsColors,
    pub mode_format: ModeFormat,
    pub numeric_uid_gid: bool,
    pub output_format: OutputFormat,
    pub recursive: bool,
    pub max_depth: Option<usize>,
    pub reverse: bool,
    pub list_current_and_parent_dirs: bool,
    pub list_dir: bool,
    pub list_inode: bool,
    pub list_allocated_size: bool,
    pub allocated_size_blocks: AllocatedSizeBlocks,
    pub list_owner: bool,
    pub list_group: bool,
    pub size_format: SizeFormat,
    pub sorting_order: SortingOrder,
    pub timestamp_used: TimestampUsed,
    pub icons: IconTheme,
    pub theme: ThemeConfig,
}

/// The abstract settings of a configuration.
pub struct ConfigView {
    pub is_atty: bool,
    pub color: bool,
    pub dereference: bool,
    pub dereference_cmdline_symlink: bool,
    pub dereference_cmdline_symlink_dir: bool,
    pub git_ignore: bool,
    pub ignore_file: bool,
    pub ignore_glob_vec: Seq<Seq<char>>,
    pub ignore_hidden: bool,
    pub indicator_style: IndicatorStyle,
    pub ls_colors: LsColorsView,
    pub mode_format: ModeFormat,
    pub numeric_uid_gid: bool,
    pub output_format: OutputFormat,
    pub recursive: bool,
    pub max_depth: Option<usize>,
    pub reverse: bool,
    pub list_current_and_parent_dirs: bool,
    pub list_dir: bool,
    pub list_inode: bool,
    pub list_allocated_size: bool,
    pub allocated_size_blocks: AllocatedSizeBlocks,
    pub list_owner: bool,
    pub list_group: bool,
    pub size_format: SizeFormat,
    pub sorting_order: SortingOrder,
    pub timestamp_used: TimestampUsed,
    pub icons: IconTheme,
    pub theme: ThemeView,
}

impl View for Config {
    type V = ConfigView;

    open spec fn view(&self) -> ConfigView {
        ConfigView {
            is_atty: self.is_atty,
            color: self.color,
            dereference: self.dereference,
            dereference_cmdline_symlink: self.dereference_cmdline_symlink,
            dereference_cmdline_symlink_dir: self.dereference_cmdline_symlink_dir,
            git_ignore: self.git_ignore,
            ignore_file: self.ignore_file,
            ignore_glob_vec: self.ignore_glob_vec@.map_values(|s: String| s@),
            ignore_hidden: self.ignore_hidden,
            indicator_style: self.indicator_style,
            ls_colors: self.ls_colors@,
            mode_format: self.mode_format,
            numeric_uid_gid: self.numeric_uid_gid,
            output_format: self.output_format,
            recursive: self.recursive,
            max_depth: self.max_depth,
            reverse: self.reverse,
            list_current_and_parent_dirs: self.list_current_and_parent_dirs,
            list_dir: self.list_dir,
            list_inode: self.list_inode,
            list_allocated_size: self.list_allocated_size,
            allocated_size_blocks: self.allocated_size_blocks,
            list_owner: self.list_owner,
            list_group: self.list_group,
            size_format: self.size_format,
            sorting_order: self.sorting_order,
            timestamp_used: self.timestamp_used,
            icons: self.icons,
            theme: self.theme@,
        }
    }
}

/// The default settings: nothing dereferenced, hidden entries ignored,
/// directories listed by content, one column sorted by name, owner and
/// group shown, no colours and no icons.
pub open spec fn default_config_view() -> ConfigView {
    ConfigView {
        is_atty: false,
        color: false,
        dereference: false,
        dereference_cmdline_symlink: false,
        dereference_cmdline_symlink_dir: false,
        git_ignore: false,
        ignore_file: false,
        ignore_glob_vec: Seq::empty(),
        ignore_hidden: true,
        indicator_style: IndicatorStyle::Never,
        ls_colors: LsColors::new_spec(),
        mode_format: ModeFormat::Rwx,
        numeric_uid_gid: false,
        output_format: OutputFormat::SingleColumn,
        recursive: false,
        max_depth: None,
        reverse: false,
        list_current_and_parent_dirs: false,
        list_dir: true,
        list_inode: false,
        list_allocated_size: false,
        allocated_size_blocks: AllocatedSizeBlocks::Posix,
        list_owner: true,
        list_group: true,
        size_format: SizeFormat::Raw,
        sorting_order: SortingOrder::FileName,
        timestamp_used: TimestampUsed::Modified,
        icons: IconTheme::new_spec(),
        theme: ThemeConfig::plain_spec(),
    }
}

impl Config {
    /// Whether a configuration holds the default settings: nothing
    /// dereferenced, hidden entries ignored, directories listed by content,
    /// one column sorted by name, owner and group shown, no colours and no
    /// icons.
    pub open spec fn is_default(&self) -> bool {
        &&& self.is_atty == false
        &&& self.color == false
        &&& self.dereference == false
        &&& self.dereference_cmdline_symlink == false
        &&& self.dereference_cmdline_symlink_dir == false
        &&& self.git_ignore == false
        &&& self.ignore_file == false
        &&& self.ignore_hidden == true
        &&& self.indicator_style == IndicatorStyle::Never
        &&& self.mode_format == ModeFormat::Rwx
        &&& self.numeric_uid_gid == false
        &&& self.output_format == OutputFormat::SingleColumn
        &&& self.recursive == false
        &&& self.max_depth is None
        &&& self.reverse == false
        &&& self.list_current_and_parent_dirs == false
        &&& self.list_dir == true
        &&& self.list_inode == false
        &&& self.list_allocated_size == false
        &&& self.allocated_size_blocks == AllocatedSizeBlocks::Posix
        &&& self.list_owner == true
        &&& self.list_group == true
        &&& self.size_format == SizeFormat::Raw
        &&& self.sorting_order == SortingOrder::FileName
        &&& self.timestamp_used == TimestampUsed::Modified
        &&& self.ignore_glob_vec@.len() == 0
        &&& self.ls_colors@ == LsColors::new_spec()
        &&& self.icons == IconTheme::new_spec()
        &&& self.theme.is_plain()
    }
}

impl Default for Config {
    fn default() -> (r: Self)
        ensures
            r.is_default(),
            r@ == default_config_view(),
    {
        let r = Config {
            is_atty: false,
            color: false,
            dereference: false,
            dereference_cmdline_symlink: false,
            dereference_cmdline_symlink_dir: false,
            git_ignore: false,
            ignore_file: false,
            ignore_glob_vec: Vec::new(),
            ignore_hidden: true,
            indicator_style: IndicatorStyle::Never,
            ls_colors: LsColors::new(),
            mode_format: ModeFormat::Rwx,
            numeric_uid_gid: false,
            output_format: OutputFormat::SingleColumn,
            recursive: false,
            max_depth: None,
            reverse: false,
            list_current_and_parent_dirs: false,
            list_dir: true,
            list_inode: false,
            list_allocated_size: false,
            allocated_size_blocks: AllocatedSizeBlocks::Posix,
            list_owner: true,
            list_group: true,
            size_format: SizeFormat::Raw,
            sorting_order: SortingOrder::FileName,
            timestamp_used: TimestampUsed::Modified,
            icons: IconTheme::new(),
            theme: ThemeConfig::new(),
        };
        proof {
            assert(r.ignore_glob_vec@.map_values(|s: String| s@) =~= Seq::<Seq<char>>::empty());
            assert(r@ =~= default_config_view());
        }
        r
    }
}

} // verus!
