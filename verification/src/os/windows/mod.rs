//! Windows metadata: the columns built from what the Windows API reports
//! for a file (its standard information, its access rights and the names
//! of its owner and group), and the decoding of wide strings.

pub mod sys_prelude;
pub mod mode;
pub mod permissions;

use vstd::prelude::*;

use crate::config::{AllocatedSizeBlocks, Config, ModeFormat, OutputFormat, SortingOrder};
use crate::output::display_cell::{Alignment, CellView, DisplayCell};
use crate::text::{decimal, maybe_styled, str_eq, unicode_str_width};
use crate::theme::opt_string_view;

use mode::FileKind;

verus! {

/// A file's standard information: its allocated size in bytes, its number
/// of hard links and its size in bytes.
#[derive(Debug, Clone, Copy, PartialEq, Eq, Structural)]
pub struct StandardInfo {
    pub allocation_size: u64,
    pub number_of_links: u64,
    pub end_of_file: u64,
}

/// What the security information of a file gave: its access-rights text
/// and the names of its owner and group.
pub struct SecurityDetails {
    pub rwx_permissions: String,
    pub owner: String,
    pub group: String,
}

/// The metadata of a Windows file that the columns show.
pub struct WindowsMetadata {
    nlink: Option<u64>,
    allocated_size: Option<u64>,
    size: Option<u64>,
    rwx_permissions: String,
    owner_string: String,
    group_string: String,
}

/// The abstract metadata.
pub struct WindowsMetadataView {
    pub nlink: Option<u64>,
    pub allocated_size: Option<u64>,
    pub size: Option<u64>,
    pub rwx_permissions: Seq<char>,
    pub owner: Seq<char>,
    pub group: Seq<char>,
}

impl View for WindowsMetadata {
    type V = WindowsMetadataView;

    closed spec fn view(&self) -> WindowsMetadataView {
        WindowsMetadataView {
            nlink: self.nlink,
            allocated_size: self.allocated_size,
            size: self.size,
            rwx_permissions: self.rwx_permissions@,
            owner: self.owner_string@,
            group: self.group_string@,
        }
    }
}

/// Whether the standard information is read: for the long format, for
/// sorting by size and for listing allocated sizes.
pub open spec fn wants_standard_info(config: &Config) -> bool {
    config.output_format == OutputFormat::Long || config.sorting_order == SortingOrder::Size
        || config.list_allocated_size
}

/// Whether the security information is read: for the long format only.
pub open spec fn wants_security_info(config: &Config) -> bool {
    config.output_format == OutputFormat::Long
}

/// `n` divided by `d`, rounded up.
pub open spec fn ceil_div(n: u64, d: u64) -> int
    recommends
        d > 0,
{
    (n as int + d - 1) / (d as int)
}

/// An allocated size of `bytes` in the configured unit: 512-byte blocks or
/// kibibytes, rounded up, or bytes.
pub open spec fn allocated_in_unit(bytes: u64, unit: AllocatedSizeBlocks) -> int {
    match unit {
        AllocatedSizeBlocks::Posix => ceil_div(bytes, 512),
        AllocatedSizeBlocks::Kibibytes => ceil_div(bytes, 1024),
        AllocatedSizeBlocks::Raw => bytes as int,
    }
}

/// The owner or group column of a name: the error cell for `?`, else the
/// name in the column's style.
pub open spec fn account_name_cell(name: Seq<char>, style: Option<Seq<char>>) -> CellView {
    if name == seq!['?'] {
        (seq!['?'], 1nat, Alignment::Left)
    } else {
        (maybe_styled(style, name), unicode_str_width(name), Alignment::Left)
    }
}

impl WindowsMetadata {
    /// Metadata with nothing read yet: no counts and empty texts.
    pub fn new() -> (r: Self)
        ensures
            r@ == (WindowsMetadataView {
                nlink: None,
                allocated_size: None,
                size: None,
                rwx_permissions: Seq::empty(),
                owner: Seq::empty(),
                group: Seq::empty(),
            }),
    {
        WindowsMetadata {
            nlink: None,
            allocated_size: None,
            size: None,
            rwx_permissions: String::new(),
            owner_string: String::new(),
            group_string: String::new(),
        }
    }

    /// Whether the standard information of a file is read for `config`.
    pub fn wants_standard_info(config: &Config) -> (r: bool)
        ensures
            r == wants_standard_info(config),
    {
        config.output_format.is_long() || config.sorting_order.is_size() || config.list_allocated_size
    }

    /// Whether the security information of a file is read for `config`.
    pub fn wants_security_info(config: &Config) -> (r: bool)
        ensures
            r == wants_security_info(config),
    {
        config.output_format.is_long()
    }

    /// Records the standard information, when it could be read.
    pub fn record_standard_info(&mut self, info: Option<StandardInfo>)
        ensures
            info matches Some(i) ==> final(self)@ == (WindowsMetadataView {
                nlink: Some(i.number_of_links),
                allocated_size: Some(i.allocation_size),
                size: Some(i.end_of_file),
                ..old(self)@
            }),
            info is None ==> final(self)@ == old(self)@,
    {
        if let Some(info) = info {
            self.allocated_size = Some(info.allocation_size);
            self.nlink = Some(info.number_of_links);
            self.size = Some(info.end_of_file);
        }
    }

    /// Records the security information: what was found, each part kept
    /// only where the configuration shows it; when it could not be read,
    /// `?` in every place.
    pub fn record_security_info(&mut self, details: Option<SecurityDetails>, config: &Config)
        ensures
            details matches Some(d) ==> final(self)@ == (WindowsMetadataView {
                rwx_permissions: if config.mode_format == ModeFormat::Rwx {
                    d.rwx_permissions@
                } else {
                    old(self)@.rwx_permissions
                },
                owner: if config.list_owner {
                    d.owner@
                } else {
                    old(self)@.owner
                },
                group: if config.list_group {
                    d.group@
                } else {
                    old(self)@.group
                },
                ..old(self)@
            }),
            details is None ==> final(self)@ == (WindowsMetadataView {
                rwx_permissions: seq!['?', '?', '?', '?', '?', '?', '?', '?', '?'],
                owner: seq!['?'],
                group: seq!['?'],
                ..old(self)@
            }),
    {
        match details {
            Some(details) => {
                if config.mode_format.is_rwx() {
                    self.rwx_permissions = details.rwx_permissions;
                }
                if config.list_owner {
                    self.owner_string = details.owner;
                }
                if config.list_group {
                    self.group_string = details.group;
                }
            },
            None => {
                proof {
                    reveal_strlit("?????????");
                    reveal_strlit("?");
                }
                self.rwx_permissions = String::from_str("?????????");
                self.owner_string = String::from_str("?");
                self.group_string = String::from_str("?");
                proof {
                    assert(self.rwx_permissions@ =~= seq!['?', '?', '?', '?', '?', '?', '?', '?', '?']);
                    assert(self.owner_string@ =~= seq!['?']);
                }
            },
        }
    }

    /// The allocated size in the configured unit.
    pub fn allocated_size(&self, config: &Config) -> (r: Option<u64>)
        ensures
            self@.allocated_size is None ==> r is None,
            self@.allocated_size matches Some(a) ==> r matches Some(v) && v == allocated_in_unit(
                a,
                config.allocated_size_blocks,
            ),
    {
        match self.allocated_size {
            Some(allocated_size) => match config.allocated_size_blocks {
                AllocatedSizeBlocks::Posix => Some(
                    allocated_size / 512 + if allocated_size % 512 != 0 {
                        1
                    } else {
                        0
                    },
                ),
                AllocatedSizeBlocks::Kibibytes => Some(
                    allocated_size / 1024 + if allocated_size % 1024 != 0 {
                        1
                    } else {
                        0
                    },
                ),
                AllocatedSizeBlocks::Raw => Some(allocated_size),
            },
            None => None,
        }
    }

    /// The hard-link count column; `?` when unknown.
    pub fn nlink_cell(&self, config: &Config) -> (r: DisplayCell)
        ensures
            self@.nlink is None ==> r@ == (seq!['?'], 1nat, Alignment::Right),
            self@.nlink matches Some(n) ==> r@ == (
                maybe_styled(opt_string_view(config.theme.nlink), decimal(n as nat)),
                decimal(n as nat).len(),
                Alignment::Right,
            ),
    {
        let nlink_style = config.theme.nlink_style();
        match self.nlink {
            Some(nlink) => DisplayCell::from_num_with_style(nlink, nlink_style),
            None => DisplayCell::error_cell(Alignment::Right),
        }
    }

    /// The size in bytes, when known.
    pub fn size(&self) -> (r: Option<u64>)
        ensures
            r == self@.size,
    {
        self.size
    }

    /// The owner column.
    pub fn owner_cell(&self, config: &Config) -> (r: DisplayCell)
        ensures
            r@ == account_name_cell(self@.owner, opt_string_view(config.theme.owner)),
    {
        let owner_style = config.theme.owner_style();
        proof {
            reveal_strlit("?");
            assert("?"@ =~= seq!['?']);
        }
        if str_eq(self.owner_string.as_str(), "?") {
            DisplayCell::error_cell(Alignment::Left)
        } else {
            DisplayCell::from_str_with_style(self.owner_string.as_str(), owner_style)
        }
    }

    /// The group column.
    pub fn group_cell(&self, config: &Config) -> (r: DisplayCell)
        ensures
            r@ == account_name_cell(self@.group, opt_string_view(config.theme.group)),
    {
        let group_style = config.theme.group_style();
        proof {
            reveal_strlit("?");
            assert("?"@ =~= seq!['?']);
        }
        if str_eq(self.group_string.as_str(), "?") {
            DisplayCell::error_cell(Alignment::Left)
        } else {
            DisplayCell::from_str_with_style(self.group_string.as_str(), group_style)
        }
    }

    /// The `ls`-style mode column of a file of kind `file_type`.
    pub fn rwx_mode_cell(&self, file_type: Option<FileKind>, config: &Config) -> (r: DisplayCell)
        ensures
            r.contents@ == mode::kind_letter_text(file_type, config.ls_colors@) + self@.rwx_permissions,
            r.width == 11,
            r.alignment == Alignment::Left,
    {
        mode::rwx_mode_cell(file_type, self.rwx_permissions.as_str(), config)
    }
}

/// The code units before the first zero (all of them when there is none).
pub open spec fn until_null(units: Seq<u16>) -> Seq<u16>
    decreases units.len(),
{
    if units.len() == 0 {
        Seq::empty()
    } else if units[0] == 0 {
        Seq::empty()
    } else {
        seq![units[0]] + until_null(units.drop_first())
    }
}

/// What `String::from_utf16_lossy` makes of UTF-16 code units: their
/// characters, with U+FFFD for each ill-formed part.
pub uninterp spec fn utf16_lossy(units: Seq<u16>) -> Seq<char>;

/// `String::from_utf16_lossy`: decodes UTF-16, replacing what does not
/// decode with U+FFFD. Its result is named, not described.
#[verifier::external_body]
fn string_from_utf16_lossy(units: &[u16]) -> (r: String)
    ensures
        r@ == utf16_lossy(units@),
{
    String::from_utf16_lossy(units)
}

/// The text of a NUL-terminated wide string: the code units before the
/// first zero, decoded with replacement of what does not decode.
pub fn utf16_until_null_to_string_lossy(utf16_buf: &[u16]) -> (r: String)
    ensures
        r@ == utf16_lossy(until_null(utf16_buf@)),
{
    let mut units: Vec<u16> = Vec::new();
    let n = utf16_buf.len();
    let mut i: usize = 0;
    while i < n && utf16_buf[i] != 0
        invariant
            n == utf16_buf@.len(),
            i <= n,
            forall|k: int| 0 <= k < i ==> utf16_buf@[k] != 0,
            units@ == utf16_buf@.subrange(0, i as int),
        decreases n - i,
    {
        units.push(utf16_buf[i]);
        proof {
            assert(units@ =~= utf16_buf@.subrange(0, i + 1));
        }
        i = i + 1;
    }
    proof {
        lemma_until_null_prefix(utf16_buf@, i as int);
    }
    string_from_utf16_lossy(units.as_slice())
}

/// The code units before the first zero are the first `i` when none of
/// them is zero and the next is zero or absent.
proof fn lemma_until_null_prefix(units: Seq<u16>, i: int)
    requires
        0 <= i <= units.len(),
        forall|k: int| 0 <= k < i ==> units[k] != 0,
        i == units.len() || units[i] == 0,
    ensures
        until_null(units) == units.subrange(0, i),
    decreases units.len(),
{
    if units.len() > 0 && i > 0 {
        lemma_until_null_prefix(units.drop_first(), i - 1);
        assert(units.subrange(0, i) =~= seq![units[0]] + units.drop_first().subrange(0, i - 1));
    } else if units.len() > 0 {
        assert(units.subrange(0, i) =~= Seq::<u16>::empty());
    } else {
        assert(units.subrange(0, i) =~= Seq::<u16>::empty());
    }
}

} // verus!
