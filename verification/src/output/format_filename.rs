//! File-name cells: the name in the colour of its file type, with an icon
//! and a type indicator where the configuration asks for them, and the
//! target of a symbolic link in long format.

use vstd::prelude::*;

use crate::config::{Config, IndicatorStyle, OutputFormat};
use crate::entry::{FileMetadata, SymlinkTarget};
use crate::ls_colors::{extension_style_spec, file_extension_spec, get_file_extension, LsColorsView};
use crate::os::unix::mode::mask_set;
use crate::os::unix::sys_prelude::{
    S_IFBLK, S_IFCHR, S_IFDIR, S_IFIFO, S_IFLNK, S_IFMT, S_IFREG, S_IFSOCK, S_ISGID, S_ISUID,
    S_ISVTX, S_IWOTH,
};
use crate::output::display_cell::{Alignment, CellView, DisplayCell};
use crate::text::{
    maybe_styled, opt_str_view, push_style_open, push_style_reset, str_width, string_push,
    string_push_str, styled, unicode_str_width,
};
use crate::theme::{dir_icon_spec, file_icon_spec};
use crate::utils::HasMaskSetExt;

verus! {

/// The execute bits of user, group and others.
pub const EXEC_MASK: u32 = 0o111;

/// `a + b` as a machine word adds them: wrapping around past `usize::MAX`.
pub open spec fn wrap_add(a: nat, b: nat) -> nat {
    if a + b > usize::MAX {
        (a + b - usize::MAX - 1) as nat
    } else {
        a + b
    }
}

/// A cell with one more character, one column wide.
pub open spec fn cell_push(c: CellView, ch: char) -> CellView {
    (c.0.push(ch), wrap_add(c.1, 1), c.2)
}

/// A cell with text `s` appended, counted as `w` columns.
pub open spec fn cell_push_str(c: CellView, s: Seq<char>, w: nat) -> CellView {
    (c.0 + s, wrap_add(c.1, w), c.2)
}

/// `a` followed by the text of `b`; the widths add up.
pub open spec fn cell_append(a: CellView, b: CellView) -> CellView {
    (a.0 + b.0, wrap_add(a.1, b.1), a.2)
}

/// The icon and the space after it, when there is an icon.
pub open spec fn icon_prefix(icon: Option<char>) -> Seq<char> {
    match icon {
        Some(c) => seq![c, ' '],
        None => Seq::empty(),
    }
}

/// A left-aligned name cell: the icon and the name, in the style when one
/// is given; the icon and its space count two columns.
pub open spec fn filename_cell_view(name: Seq<char>, style: Option<Seq<char>>, icon: Option<char>) -> CellView {
    (
        maybe_styled(style, icon_prefix(icon) + name),
        wrap_add(if icon is Some { 2 } else { 0 }, unicode_str_width(name)),
        Alignment::Left,
    )
}

/// Whether the type indicators of files other than directories are shown.
pub open spec fn shows_other_indicators(config: &Config) -> bool {
    config.indicator_style == IndicatorStyle::Classify
}

/// The cell of a regular file: coloured as setuid, setgid, executable,
/// multiply linked, or by its extension, in that order of precedence; an
/// executable gets `*` when classifying.
pub open spec fn regular_file_view(name: Seq<char>, metadata: FileMetadata, config: &Config) -> CellView {
    let lc = config.ls_colors@;
    let extension = file_extension_spec(name);
    let icon = file_icon_spec(config.icons, name, extension);
    let exec = metadata.mode & EXEC_MASK != 0;
    let style = if mask_set(metadata.mode, S_ISUID) {
        lc.setuid
    } else if mask_set(metadata.mode, S_ISGID) {
        lc.setgid
    } else if exec {
        lc.executable
    } else if metadata.nlink > 1 {
        lc.multiple_hard_links
    } else if extension.len() == 0 {
        lc.file
    } else {
        extension_style_spec(lc, extension)
    };
    let cell = filename_cell_view(name, style, icon);
    if shows_other_indicators(config) && exec {
        cell_push(cell, IndicatorStyle::EXEC)
    } else {
        cell
    }
}

/// The cell of a directory: coloured by its sticky and other-writable
/// bits; it gets `/` unless indicators are off.
pub open spec fn dir_view(name: Seq<char>, metadata: FileMetadata, config: &Config) -> CellView {
    let lc = config.ls_colors@;
    let sticky = mask_set(metadata.mode, S_ISVTX);
    let other_writable = mask_set(metadata.mode, S_IWOTH);
    let style = if !sticky && !other_writable {
        lc.dir
    } else if sticky && !other_writable {
        lc.dir_sticky
    } else if !sticky && other_writable {
        lc.dir_other_writable
    } else {
        lc.dir_sticky_and_other_writable
    };
    let cell = filename_cell_view(name, style, dir_icon_spec(config.icons, name));
    if config.indicator_style != IndicatorStyle::Never {
        cell_push(cell, IndicatorStyle::DIR)
    } else {
        cell
    }
}

/// The cell of a block device, character device, FIFO or socket; FIFOs
/// and sockets get their indicator when classifying. Any other file type
/// shows its bare name.
pub open spec fn special_file_view(name: Seq<char>, metadata: FileMetadata, config: &Config) -> CellView {
    let lc = config.ls_colors@;
    let icons = config.icons;
    let t = metadata.mode & S_IFMT;
    if t == S_IFBLK {
        filename_cell_view(name, lc.block_device, icons.block_device)
    } else if t == S_IFCHR {
        filename_cell_view(name, lc.char_device, icons.char_device)
    } else if t == S_IFIFO {
        let cell = filename_cell_view(name, lc.fifo, icons.fifo);
        if shows_other_indicators(config) {
            cell_push(cell, IndicatorStyle::FIFO)
        } else {
            cell
        }
    } else if t == S_IFSOCK {
        let cell = filename_cell_view(name, lc.socket, icons.socket);
        if shows_other_indicators(config) {
            cell_push(cell, IndicatorStyle::SOCKET)
        } else {
            cell
        }
    } else {
        (name, unicode_str_width(name), Alignment::Left)
    }
}

/// The cell of a file that is not a symbolic link.
pub open spec fn non_link_view(name: Seq<char>, metadata: FileMetadata, config: &Config) -> CellView {
    let t = metadata.mode & S_IFMT;
    if t == S_IFREG {
        regular_file_view(name, metadata, config)
    } else if t == S_IFDIR {
        dir_view(name, metadata, config)
    } else {
        special_file_view(name, metadata, config)
    }
}

/// The name of a symbolic link in its colour; it gets `@` when classifying
/// outside the long format.
pub open spec fn symlink_name_view(name: Seq<char>, config: &Config) -> CellView {
    let cell = filename_cell_view(name, config.ls_colors@.symlink, config.icons.symlink);
    if shows_other_indicators(config) && config.output_format != OutputFormat::Long {
        cell_push(cell, IndicatorStyle::SYMLINK)
    } else {
        cell
    }
}

/// ` -> `, which separates a link from its target; four columns.
pub open spec fn arrow() -> Seq<char> {
    seq![' ', '-', '>', ' ']
}

/// The cell of a symbolic link whose target is not followed: in long
/// format, the link, the arrow and `?`.
pub open spec fn unfollowed_link_view(name: Seq<char>, config: &Config) -> CellView {
    let cell = symlink_name_view(name, config);
    if config.output_format == OutputFormat::Long {
        cell_push(cell_push_str(cell, arrow(), 4), '?')
    } else {
        cell
    }
}

/// The cell of a symbolic link. In long format its name is followed by
/// the arrow and its target: `?` when the link cannot be read, the target
/// path as read when the target cannot be examined, else the target's own
/// cell.
pub open spec fn symlink_view(name: Seq<char>, target: SymlinkTarget, config: &Config) -> CellView {
    if config.output_format != OutputFormat::Long {
        symlink_name_view(name, config)
    } else {
        let cell = cell_push_str(symlink_name_view(name, config), arrow(), 4);
        match target {
            SymlinkTarget::Unreadable => cell_push(cell, '?'),
            SymlinkTarget::Unresolved(path) => cell_push_str(cell, path@, unicode_str_width(path@)),
            SymlinkTarget::Resolved(path, target_metadata) => cell_append(
                cell,
                if target_metadata.mode & S_IFMT == S_IFLNK {
                    unfollowed_link_view(path@, config)
                } else {
                    non_link_view(path@, target_metadata, config)
                },
            ),
        }
    }
}

/// The cell of a file name with the given metadata; `target` matters only
/// for a symbolic link.
pub open spec fn format_filename_view(
    name: Seq<char>,
    metadata: FileMetadata,
    target: SymlinkTarget,
    config: &Config,
) -> CellView {
    if metadata.mode & S_IFMT == S_IFLNK {
        symlink_view(name, target, config)
    } else {
        non_link_view(name, metadata, config)
    }
}

pub(crate) fn push_char_wrapping(cell: &mut DisplayCell, ch: char)
    ensures
        final(cell)@ == cell_push(old(cell)@, ch),
{
    string_push(&mut cell.contents, ch);
    cell.width = cell.width.wrapping_add(1);
}

fn push_str_with_width_wrapping(cell: &mut DisplayCell, s: &str, width: usize)
    ensures
        final(cell)@ == cell_push_str(old(cell)@, s@, width as nat),
{
    string_push_str(&mut cell.contents, s);
    cell.width = cell.width.wrapping_add(width);
}

pub(crate) fn append_wrapping(cell: &mut DisplayCell, other: DisplayCell)
    ensures
        final(cell)@ == cell_append(old(cell)@, other@),
{
    string_push_str(&mut cell.contents, other.contents.as_str());
    cell.width = cell.width.wrapping_add(other.width);
}

/// A left-aligned cell holding the icon (followed by a space) and the
/// name, wrapped in the style when one is given.
pub fn create_filename_cell(file_name: &str, ansi_style_str: Option<&str>, icon: Option<char>) -> (r: DisplayCell)
    ensures
        r@ == filename_cell_view(file_name@, opt_str_view(ansi_style_str), icon),
{
    let mut contents = String::new();
    let mut width: usize = 0;

    if let Some(style) = ansi_style_str {
        push_style_open(&mut contents, style);
    }
    let ghost after_open = contents@;

    if let Some(icon) = icon {
        string_push(&mut contents, icon);
        string_push(&mut contents, ' ');
        width = 2;
    }

    string_push_str(&mut contents, file_name);
    width = width.wrapping_add(str_width(file_name));

    if ansi_style_str.is_some() {
        push_style_reset(&mut contents);
    }
    proof {
        assert(contents@ =~= maybe_styled(opt_str_view(ansi_style_str), icon_prefix(icon) + file_name@));
    }
    DisplayCell { contents: contents, width: width, alignment: Alignment::Left }
}

/// The cell of a block device, character device, FIFO or socket.
pub fn internal_format_unix_file_type_exts(
    file_name: &str,
    metadata: &FileMetadata,
    config: &Config,
) -> (r: DisplayCell)
    ensures
        r@ == special_file_view(file_name@, *metadata, config),
{
    let indicator_style = config.indicator_style;
    let ls_colors = &config.ls_colors;
    let icons = &config.icons;

    if metadata.is_block_device() {
        create_filename_cell(file_name, ls_colors.block_device_style(), icons.block_device_icon())
    } else if metadata.is_char_device() {
        create_filename_cell(file_name, ls_colors.char_device_style(), icons.char_device_icon())
    } else if metadata.is_fifo() {
        let mut filename_cell = create_filename_cell(file_name, ls_colors.fifo_style(), icons.fifo_icon());
        if indicator_style.others() {
            push_char_wrapping(&mut filename_cell, IndicatorStyle::FIFO);
        }
        filename_cell
    } else if metadata.is_socket() {
        let mut filename_cell = create_filename_cell(
            file_name,
            ls_colors.socket_style(),
            icons.socket_icon(),
        );
        if indicator_style.others() {
            push_char_wrapping(&mut filename_cell, IndicatorStyle::SOCKET);
        }
        filename_cell
    } else {
        DisplayCell::from_str_with_style(file_name, None)
    }
}

/// The cell of a regular file.
pub fn internal_format_regular_file(file_name: &str, metadata: &FileMetadata, config: &Config) -> (r: DisplayCell)
    ensures
        r@ == regular_file_view(file_name@, *metadata, config),
{
    let indicator_style = config.indicator_style;
    let ls_colors = &config.ls_colors;
    let st_mode = metadata.mode;
    let extension = get_file_extension(file_name);
    let icon = config.icons.file_icon(file_name, extension.as_str());

    let mut filename_cell = if st_mode.has_mask_set(S_ISUID) {
        create_filename_cell(file_name, ls_colors.setuid_style(), icon)
    } else if st_mode.has_mask_set(S_ISGID) {
        create_filename_cell(file_name, ls_colors.setgid_style(), icon)
    } else if st_mode.has_bit_in_mask_set(EXEC_MASK) {
        create_filename_cell(file_name, ls_colors.exec_style(), icon)
    } else if metadata.nlink > 1 {
        create_filename_cell(file_name, ls_colors.multiple_hard_links_style(), icon)
    } else if extension.as_str().unicode_len() == 0 {
        create_filename_cell(file_name, ls_colors.file_style(), icon)
    } else {
        create_filename_cell(file_name, ls_colors.extension_style(extension.as_str()), icon)
    };

    if indicator_style.others() && st_mode.has_bit_in_mask_set(EXEC_MASK) {
        push_char_wrapping(&mut filename_cell, IndicatorStyle::EXEC);
    }

    filename_cell
}

/// The cell of a directory.
pub fn internal_format_dir(file_name: &str, metadata: &FileMetadata, config: &Config) -> (r: DisplayCell)
    ensures
        r@ == dir_view(file_name@, *metadata, config),
{
    let indicator_style = config.indicator_style;
    let ls_colors = &config.ls_colors;
    let icon = config.icons.dir_icon(file_name);
    let st_mode = metadata.mode;
    let sticky = st_mode.has_mask_set(S_ISVTX);
    let other_writable = st_mode.has_mask_set(S_IWOTH);

    let mut filename_cell = if !sticky && !other_writable {
        create_filename_cell(file_name, ls_colors.dir_style(), icon)
    } else if sticky && !other_writable {
        create_filename_cell(file_name, ls_colors.dir_sticky_style(), icon)
    } else if !sticky && other_writable {
        create_filename_cell(file_name, ls_colors.dir_other_writable_style(), icon)
    } else {
        create_filename_cell(file_name, ls_colors.dir_sticky_and_other_writable_style(), icon)
    };

    if indicator_style.dir() {
        push_char_wrapping(&mut filename_cell, IndicatorStyle::DIR);
    }

    filename_cell
}

fn format_non_link(file_name: &str, metadata: &FileMetadata, config: &Config) -> (r: DisplayCell)
    ensures
        r@ == non_link_view(file_name@, *metadata, config),
{
    if metadata.is_file() {
        internal_format_regular_file(file_name, metadata, config)
    } else if metadata.is_dir() {
        internal_format_dir(file_name, metadata, config)
    } else {
        internal_format_unix_file_type_exts(file_name, metadata, config)
    }
}

fn format_symlink_name(file_name: &str, config: &Config) -> (r: DisplayCell)
    ensures
        r@ == symlink_name_view(file_name@, config),
{
    let indicator_style = config.indicator_style;
    let icon = config.icons.symlink_icon();
    let mut filename_cell = create_filename_cell(file_name, config.ls_colors.symlink_style(), icon);
    if indicator_style.others() && !config.output_format.is_long() {
        push_char_wrapping(&mut filename_cell, IndicatorStyle::SYMLINK);
    }
    filename_cell
}

/// The cell of a symbolic link: its name and, in long format, the arrow
/// and its target.
pub fn internal_format_symlink(file_name: &str, symlink_target: &SymlinkTarget, config: &Config) -> (r: DisplayCell)
    ensures
        r@ == symlink_view(file_name@, *symlink_target, config),
{
    let mut filename_cell = format_symlink_name(file_name, config);

    if config.output_format.is_long() {
        push_str_with_width_wrapping(&mut filename_cell, " -> ", 4);
        proof {
            reveal_strlit(" -> ");
            assert(" -> "@ =~= arrow());
        }
        match symlink_target {
            SymlinkTarget::Resolved(target_name, target_metadata) => {
                if target_metadata.is_symlink() {
                    let mut target_cell = format_symlink_name(target_name.as_str(), config);
                    push_str_with_width_wrapping(&mut target_cell, " -> ", 4);
                    push_char_wrapping(&mut target_cell, '?');
                    append_wrapping(&mut filename_cell, target_cell);
                } else {
                    append_wrapping(
                        &mut filename_cell,
                        format_non_link(target_name.as_str(), target_metadata, config),
                    );
                }
            },
            SymlinkTarget::Unresolved(target_name) => {
                let w = str_width(target_name.as_str());
                push_str_with_width_wrapping(&mut filename_cell, target_name.as_str(), w);
            },
            SymlinkTarget::Unreadable => {
                push_char_wrapping(&mut filename_cell, '?');
            },
        }
    }
    filename_cell
}

/// The cell of a file name with `metadata`; `symlink_target` is what was
/// learnt of the target when the file is a symbolic link (it is not looked
/// at otherwise).
pub fn format_filename(
    file_name: &str,
    metadata: &FileMetadata,
    symlink_target: &SymlinkTarget,
    config: &Config,
) -> (r: DisplayCell)
    ensures
        r@ == format_filename_view(file_name@, *metadata, *symlink_target, config),
{
    if metadata.is_symlink() {
        internal_format_symlink(file_name, symlink_target, config)
    } else {
        format_non_link(file_name, metadata, config)
    }
}

} // verus!
