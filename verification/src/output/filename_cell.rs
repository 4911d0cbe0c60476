//! Name cells without icons: the bare name with a type indicator, or the
//! name coloured by its file type.

use vstd::prelude::*;

use crate::config::{Config, IndicatorStyle, OutputFormat};
use crate::entry::FileMetadata;
use crate::ls_colors::{extension_style_spec, file_extension_spec, get_file_extension};
use crate::os::unix::mode::mask_set;
use crate::os::unix::sys_prelude::{
    S_IFBLK, S_IFCHR, S_IFDIR, S_IFIFO, S_IFLNK, S_IFMT, S_IFREG, S_IFSOCK, S_ISGID, S_ISUID,
    S_ISVTX, S_IWOTH,
};
use crate::output::display_cell::{Alignment, CellView, DisplayCell};
use crate::output::format_filename::{
    cell_push, create_filename_cell, filename_cell_view, push_char_wrapping, shows_other_indicators,
    EXEC_MASK,
};
use crate::text::unicode_str_width;
use crate::utils::HasMaskSetExt;

verus! {

/// The bare name, followed by the indicator of its file type where the
/// indicator style shows one.
pub open spec fn plain_filename_view(name: Seq<char>, metadata: FileMetadata, config: &Config) -> CellView {
    let cell: CellView = (name, unicode_str_width(name), Alignment::Left);
    let t = metadata.mode & S_IFMT;
    let others = shows_other_indicators(config);
    if t == S_IFREG && others && metadata.mode & EXEC_MASK != 0 {
        cell_push(cell, IndicatorStyle::EXEC)
    } else if t == S_IFDIR && config.indicator_style != IndicatorStyle::Never {
        cell_push(cell, IndicatorStyle::DIR)
    } else if t == S_IFLNK && others && config.output_format != OutputFormat::Long {
        cell_push(cell, IndicatorStyle::SYMLINK)
    } else if t == S_IFIFO && others {
        cell_push(cell, IndicatorStyle::FIFO)
    } else if t == S_IFSOCK && others {
        cell_push(cell, IndicatorStyle::SOCKET)
    } else {
        cell
    }
}

/// The coloured cell of a regular file: setuid, setgid, fully executable
/// (with `*` when classifying), multiply linked, or by its extension.
pub open spec fn colored_file_view(name: Seq<char>, st_mode: u32, nlink: u64, config: &Config) -> CellView {
    let lc = config.ls_colors@;
    let extension = file_extension_spec(name);
    if mask_set(st_mode, S_ISUID) {
        filename_cell_view(name, lc.setuid, None)
    } else if mask_set(st_mode, S_ISGID) {
        filename_cell_view(name, lc.setgid, None)
    } else if mask_set(st_mode, EXEC_MASK) {
        let cell = filename_cell_view(name, lc.executable, None);
        if shows_other_indicators(config) {
            cell_push(cell, IndicatorStyle::EXEC)
        } else {
            cell
        }
    } else if nlink > 1 {
        filename_cell_view(name, lc.multiple_hard_links, None)
    } else if extension.len() == 0 {
        filename_cell_view(name, lc.file, None)
    } else {
        filename_cell_view(name, extension_style_spec(lc, extension), None)
    }
}

/// The coloured cell of a directory, by its sticky and other-writable
/// bits, with `/` unless indicators are off.
pub open spec fn colored_dir_view(name: Seq<char>, st_mode: u32, config: &Config) -> CellView {
    let lc = config.ls_colors@;
    let sticky = mask_set(st_mode, S_ISVTX);
    let other_writable = mask_set(st_mode, S_IWOTH);
    let style = if !sticky && !other_writable {
        lc.dir
    } else if sticky && !other_writable {
        lc.dir_sticky
    } else if !sticky && other_writable {
        lc.dir_other_writable
    } else {
        lc.dir_sticky_and_other_writable
    };
    let cell = filename_cell_view(name, style, None);
    if config.indicator_style != IndicatorStyle::Never {
        cell_push(cell, IndicatorStyle::DIR)
    } else {
        cell
    }
}

/// The name coloured by its file type, with the indicators the indicator
/// style shows.
pub open spec fn colored_filename_view(name: Seq<char>, metadata: FileMetadata, config: &Config) -> CellView {
    let lc = config.ls_colors@;
    let others = shows_other_indicators(config);
    let t = metadata.mode & S_IFMT;
    if t == S_IFREG {
        colored_file_view(name, metadata.mode, metadata.nlink, config)
    } else if t == S_IFDIR {
        colored_dir_view(name, metadata.mode, config)
    } else if t == S_IFLNK {
        let cell = filename_cell_view(name, lc.symlink, None);
        if others && config.output_format != OutputFormat::Long {
            cell_push(cell, IndicatorStyle::SYMLINK)
        } else {
            cell
        }
    } else if t == S_IFBLK {
        filename_cell_view(name, lc.block_device, None)
    } else if t == S_IFCHR {
        filename_cell_view(name, lc.char_device, None)
    } else if t == S_IFIFO {
        let cell = filename_cell_view(name, lc.fifo, None);
        if others {
            cell_push(cell, IndicatorStyle::FIFO)
        } else {
            cell
        }
    } else if t == S_IFSOCK {
        let cell = filename_cell_view(name, lc.socket, None);
        if others {
            cell_push(cell, IndicatorStyle::SOCKET)
        } else {
            cell
        }
    } else {
        (name, unicode_str_width(name), Alignment::Left)
    }
}

/// The name cell, coloured when colours are on.
pub fn format_filename(file_name: &str, metadata: &FileMetadata, config: &Config) -> (r: DisplayCell)
    ensures
        r@ == (if config.color {
            colored_filename_view(file_name@, *metadata, config)
        } else {
            plain_filename_view(file_name@, *metadata, config)
        }),
{
    if config.color {
        internal_format_filename_with_color(file_name, metadata, config)
    } else {
        internal_format_filename(file_name, metadata, config)
    }
}

/// The bare name with its type indicator.
pub fn internal_format_filename(file_name: &str, metadata: &FileMetadata, config: &Config) -> (r: DisplayCell)
    ensures
        r@ == plain_filename_view(file_name@, *metadata, config),
{
    let indicator_style = config.indicator_style;
    let st_mode = metadata.mode;
    let mut filename_cell = DisplayCell::from_str_with_style(file_name, None);

    if metadata.is_file() {
        if indicator_style.others() && st_mode.has_bit_in_mask_set(EXEC_MASK) {
            push_char_wrapping(&mut filename_cell, IndicatorStyle::EXEC);
        }
    } else if metadata.is_dir() {
        if indicator_style.dir() {
            push_char_wrapping(&mut filename_cell, IndicatorStyle::DIR);
        }
    } else if metadata.is_symlink() {
        if indicator_style.others() && !config.output_format.is_long() {
            push_char_wrapping(&mut filename_cell, IndicatorStyle::SYMLINK);
        }
    } else if metadata.is_fifo() {
        if indicator_style.others() {
            push_char_wrapping(&mut filename_cell, IndicatorStyle::FIFO);
        }
    } else if metadata.is_socket() {
        if indicator_style.others() {
            push_char_wrapping(&mut filename_cell, IndicatorStyle::SOCKET);
        }
    }

    filename_cell
}

fn file_format_with_color(file_name: &str, st_mode: u32, nlink: u64, config: &Config) -> (r: DisplayCell)
    ensures
        r@ == colored_file_view(file_name@, st_mode, nlink, config),
{
    let indicator_style = config.indicator_style;
    let ls_colors = &config.ls_colors;

    if st_mode.has_mask_set(S_ISUID) {
        create_filename_cell(file_name, ls_colors.setuid_style(), None)
    } else if st_mode.has_mask_set(S_ISGID) {
        create_filename_cell(file_name, ls_colors.setgid_style(), None)
    } else if st_mode.has_mask_set(EXEC_MASK) {
        let mut filename_cell = create_filename_cell(file_name, ls_colors.exec_style(), None);
        if indicator_style.others() && st_mode.has_bit_in_mask_set(EXEC_MASK) {
            push_char_wrapping(&mut filename_cell, IndicatorStyle::EXEC);
        }
        proof {
            assert(st_mode & EXEC_MASK == EXEC_MASK ==> st_mode & EXEC_MASK != 0);
        }
        filename_cell
    } else if nlink > 1 {
        create_filename_cell(file_name, ls_colors.multiple_hard_links_style(), None)
    } else {
        let extension = get_file_extension(file_name);
        if extension.as_str().unicode_len() == 0 {
            create_filename_cell(file_name, ls_colors.file_style(), None)
        } else {
            create_filename_cell(file_name, ls_colors.extension_style(extension.as_str()), None)
        }
    }
}

fn dir_format_with_color(file_name: &str, st_mode: u32, config: &Config) -> (r: DisplayCell)
    ensures
        r@ == colored_dir_view(file_name@, st_mode, config),
{
    let indicator_style = config.indicator_style;
    let ls_colors = &config.ls_colors;
    let sticky = st_mode.has_mask_set(S_ISVTX);
    let other_writable = st_mode.has_mask_set(S_IWOTH);

    let mut filename_cell = if !sticky && !other_writable {
        create_filename_cell(file_name, ls_colors.dir_style(), None)
    } else if sticky && !other_writable {
        create_filename_cell(file_name, ls_colors.dir_sticky_style(), None)
    } else if !sticky && other_writable {
        create_filename_cell(file_name, ls_colors.dir_other_writable_style(), None)
    } else {
        create_filename_cell(file_name, ls_colors.dir_sticky_and_other_writable_style(), None)
    };

    if indicator_style.dir() {
        push_char_wrapping(&mut filename_cell, IndicatorStyle::DIR);
    }

    filename_cell
}

/// The name coloured by its file type, with its type indicator.
pub fn internal_format_filename_with_color(
    file_name: &str,
    metadata: &FileMetadata,
    config: &Config,
) -> (r: DisplayCell)
    ensures
        r@ == colored_filename_view(file_name@, *metadata, config),
{
    let indicator_style = config.indicator_style;
    let ls_colors = &config.ls_colors;
    let st_mode = metadata.mode;

    if metadata.is_file() {
        file_format_with_color(file_name, st_mode, metadata.nlink, config)
    } else if metadata.is_dir() {
        dir_format_with_color(file_name, st_mode, config)
    } else if metadata.is_symlink() {
        let mut filename_cell = create_filename_cell(file_name, ls_colors.symlink_style(), None);
        if indicator_style.others() && !config.output_format.is_long() {
            push_char_wrapping(&mut filename_cell, IndicatorStyle::SYMLINK);
        }
        filename_cell
    } else if metadata.is_block_device() {
        create_filename_cell(file_name, ls_colors.block_device_style(), None)
    } else if metadata.is_char_device() {
        create_filename_cell(file_name, ls_colors.char_device_style(), None)
    } else if metadata.is_fifo() {
        let mut filename_cell = create_filename_cell(file_name, ls_colors.fifo_style(), None);
        if indicator_style.others() {
            push_char_wrapping(&mut filename_cell, IndicatorStyle::FIFO);
        }
        filename_cell
    } else if metadata.is_socket() {
        let mut filename_cell = create_filename_cell(file_name, ls_colors.socket_style(), None);
        if indicator_style.others() {
            push_char_wrapping(&mut filename_cell, IndicatorStyle::SOCKET);
        }
        filename_cell
    } else {
        DisplayCell::from_str_with_style(file_name, None)
    }
}

} // verus!
