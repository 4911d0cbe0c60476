//! Permission columns: the `ls`-style `drwxr-xr-x` string and the
//! PowerShell-style attribute string.

use vstd::prelude::*;

use super::sys_prelude::{
    S_IFBLK, S_IFCHR, S_IFDIR, S_IFIFO, S_IFLNK, S_IFMT, S_IFREG, S_IFSOCK, S_IRGRP, S_IROTH,
    S_IRUSR, S_ISGID, S_ISUID, S_ISVTX, S_IWGRP, S_IWOTH, S_IWUSR, S_IXGRP, S_IXOTH, S_IXUSR,
};

use crate::config::Config;
use crate::ls_colors::LsColorsView;
use crate::output::display_cell::{Alignment, DisplayCell};
use crate::text::{maybe_styled, opt_str_view};
use crate::theme::{opt_string_view, ThemeConfig};
use crate::utils::HasMaskSetExt;

verus! {

/// Whether every bit of `mask` is set in `mode`.
pub open spec fn mask_set(mode: u32, mask: u32) -> bool {
    mode & mask == mask
}

/// The file-type letter of `ls -l`, styled like the file type.
pub open spec fn file_type_text(st_mode: u32, lc: LsColorsView) -> Seq<char> {
    let t = st_mode & S_IFMT;
    if t == S_IFREG {
        maybe_styled(lc.file, seq!['-'])
    } else if t == S_IFDIR {
        maybe_styled(lc.dir, seq!['d'])
    } else if t == S_IFLNK {
        maybe_styled(lc.symlink, seq!['l'])
    } else if t == S_IFBLK {
        maybe_styled(lc.block_device, seq!['b'])
    } else if t == S_IFCHR {
        maybe_styled(lc.char_device, seq!['c'])
    } else if t == S_IFIFO {
        maybe_styled(lc.file, seq!['p'])
    } else if t == S_IFSOCK {
        maybe_styled(lc.socket, seq!['s'])
    } else {
        seq!['?']
    }
}

/// A read or write flag: its letter in its style when set, a dash in the
/// no-permission style otherwise.
pub open spec fn flag_text(set: bool, ch: char, style: Option<Seq<char>>, theme: ThemeConfig) -> Seq<
    char,
> {
    if set {
        maybe_styled(style, seq![ch])
    } else {
        maybe_styled(opt_string_view(theme.no_permission), seq!['-'])
    }
}

/// An execute flag combined with a special bit (setuid, setgid, sticky):
/// `x` for execute alone, the upper-case letter for the special bit alone,
/// the lower-case letter for both, a dash for neither.
pub open spec fn exec_text(
    exec: bool,
    special: bool,
    lower: char,
    upper: char,
    special_style: Option<Seq<char>>,
    theme: ThemeConfig,
) -> Seq<char> {
    if !exec && !special {
        maybe_styled(opt_string_view(theme.no_permission), seq!['-'])
    } else if exec && !special {
        maybe_styled(opt_string_view(theme.execute), seq!['x'])
    } else if !exec && special {
        maybe_styled(special_style, seq![upper])
    } else {
        maybe_styled(special_style, seq![lower])
    }
}

/// The permissions of one class of users: read, write and execute flags.
pub open spec fn class_text(
    mode: u32,
    read_bit: u32,
    write_bit: u32,
    exec_bit: u32,
    special_bit: u32,
    lower: char,
    upper: char,
    special_style: Option<Seq<char>>,
    theme: ThemeConfig,
) -> Seq<char> {
    flag_text(mask_set(mode, read_bit), 'r', opt_string_view(theme.read), theme) + flag_text(
        mask_set(mode, write_bit),
        'w',
        opt_string_view(theme.write),
        theme,
    ) + exec_text(
        mask_set(mode, exec_bit),
        mask_set(mode, special_bit),
        lower,
        upper,
        special_style,
        theme,
    )
}

/// The ten-character `ls -l` permission string of `st_mode`, each
/// character in its style.
pub open spec fn rwx_mode_text(st_mode: u32, lc: LsColorsView, theme: ThemeConfig) -> Seq<char> {
    file_type_text(st_mode, lc) + class_text(
        st_mode,
        S_IRUSR,
        S_IWUSR,
        S_IXUSR,
        S_ISUID,
        's',
        'S',
        opt_string_view(theme.setuid),
        theme,
    ) + class_text(
        st_mode,
        S_IRGRP,
        S_IWGRP,
        S_IXGRP,
        S_ISGID,
        's',
        'S',
        opt_string_view(theme.setgid),
        theme,
    ) + class_text(
        st_mode,
        S_IROTH,
        S_IWOTH,
        S_IXOTH,
        S_ISVTX,
        't',
        'T',
        opt_string_view(theme.sticky),
        theme,
    )
}

fn push_flag(cell: &mut DisplayCell, set: bool, ch: char, style: Option<&str>, theme: &ThemeConfig)
    requires
        old(cell).width < usize::MAX,
    ensures
        final(cell).contents@ == old(cell).contents@ + flag_text(set, ch, opt_str_view(style), *theme),
        final(cell).width == old(cell).width + 1,
        final(cell).alignment == old(cell).alignment,
{
    if set {
        cell.push_char_with_style(ch, style);
    } else {
        cell.push_char_with_style('-', theme.no_permission_style());
    }
}

fn push_exec(
    cell: &mut DisplayCell,
    exec: bool,
    special: bool,
    lower: char,
    upper: char,
    special_style: Option<&str>,
    theme: &ThemeConfig,
)
    requires
        old(cell).width < usize::MAX,
    ensures
        final(cell).contents@ == old(cell).contents@ + exec_text(
            exec,
            special,
            lower,
            upper,
            opt_str_view(special_style),
            *theme,
        ),
        final(cell).width == old(cell).width + 1,
        final(cell).alignment == old(cell).alignment,
{
    if !exec && !special {
        cell.push_char_with_style('-', theme.no_permission_style());
    } else if exec && !special {
        cell.push_char_with_style('x', theme.execute_style());
    } else if !exec && special {
        cell.push_char_with_style(upper, special_style);
    } else {
        cell.push_char_with_style(lower, special_style);
    }
}

fn push_class(
    cell: &mut DisplayCell,
    st_mode: u32,
    read_bit: u32,
    write_bit: u32,
    exec_bit: u32,
    special_bit: u32,
    lower: char,
    upper: char,
    special_style: Option<&str>,
    theme: &ThemeConfig,
)
    requires
        old(cell).width + 3 <= usize::MAX,
    ensures
        final(cell).contents@ == old(cell).contents@ + class_text(
            st_mode,
            read_bit,
            write_bit,
            exec_bit,
            special_bit,
            lower,
            upper,
            opt_str_view(special_style),
            *theme,
        ),
        final(cell).width == old(cell).width + 3,
        final(cell).alignment == old(cell).alignment,
{
    push_flag(cell, st_mode.has_mask_set(read_bit), 'r', theme.read_style(), theme);
    push_flag(cell, st_mode.has_mask_set(write_bit), 'w', theme.write_style(), theme);
    push_exec(
        cell,
        st_mode.has_mask_set(exec_bit),
        st_mode.has_mask_set(special_bit),
        lower,
        upper,
        special_style,
        theme,
    );
    proof {
        assert(cell.contents@ =~= old(cell).contents@ + class_text(
            st_mode,
            read_bit,
            write_bit,
            exec_bit,
            special_bit,
            lower,
            upper,
            opt_str_view(special_style),
            *theme,
        ));
    }
}

/// The `ls -l` permission column of a file with mode `st_mode`: the
/// file-type letter and the three `rwx` triples, ten columns wide.
pub fn rwx_mode_cell(st_mode: u32, config: &Config) -> (r: DisplayCell)
    ensures
        r.contents@ == rwx_mode_text(st_mode, config.ls_colors@, config.theme),
        r.width == 10,
        r.alignment == Alignment::Left,
{
    let ls_colors = &config.ls_colors;
    let theme = &config.theme;
    let mut cell = DisplayCell::with_capacity(10);

    let file_type = st_mode & S_IFMT;
    if file_type == S_IFREG {
        cell.push_char_with_style('-', ls_colors.file_style());
    } else if file_type == S_IFDIR {
        cell.push_char_with_style('d', ls_colors.dir_style());
    } else if file_type == S_IFLNK {
        cell.push_char_with_style('l', ls_colors.symlink_style());
    } else if file_type == S_IFBLK {
        cell.push_char_with_style('b', ls_colors.block_device_style());
    } else if file_type == S_IFCHR {
        cell.push_char_with_style('c', ls_colors.char_device_style());
    } else if file_type == S_IFIFO {
        cell.push_char_with_style('p', ls_colors.file_style());
    } else if file_type == S_IFSOCK {
        cell.push_char_with_style('s', ls_colors.socket_style());
    } else {
        cell.push_char('?');
    }
    proof {
        assert(cell.contents@ =~= file_type_text(st_mode, ls_colors@));
    }

    push_class(&mut cell, st_mode, S_IRUSR, S_IWUSR, S_IXUSR, S_ISUID, 's', 'S', theme.setuid_style(), theme);
    push_class(&mut cell, st_mode, S_IRGRP, S_IWGRP, S_IXGRP, S_ISGID, 's', 'S', theme.setgid_style(), theme);
    push_class(&mut cell, st_mode, S_IROTH, S_IWOTH, S_IXOTH, S_ISVTX, 't', 'T', theme.sticky_style(), theme);
    proof {
        assert(cell.contents@ =~= rwx_mode_text(st_mode, config.ls_colors@, config.theme));
    }
    cell
}

/// Whether a name starts with a dot.
pub open spec fn is_dot_name(name: Seq<char>) -> bool {
    name.len() > 0 && name[0] == '.'
}

/// The six-character PowerShell attribute string (`d`, `a`, `r`, `h`, `s`,
/// `l` positions) of a file with mode `st_mode` and name `name`;
/// `target_is_dir` tells whether a symbolic link points at a directory.
pub open spec fn pwsh_mode_text(
    st_mode: u32,
    name: Seq<char>,
    target_is_dir: bool,
    lc: LsColorsView,
    theme: ThemeConfig,
) -> Seq<char> {
    let t = st_mode & S_IFMT;
    let none = maybe_styled(opt_string_view(theme.no_permission), seq!['-']);
    let dir = if t == S_IFDIR || (t == S_IFLNK && target_is_dir) {
        maybe_styled(lc.dir, seq!['d'])
    } else {
        none
    };
    let readonly = if st_mode & (S_IWUSR | S_IWGRP | S_IWOTH) == 0 {
        maybe_styled(opt_string_view(theme.read), seq!['r'])
    } else {
        none
    };
    let hidden = if is_dot_name(name) {
        maybe_styled(opt_string_view(theme.hidden), seq!['h'])
    } else {
        none
    };
    let link = if t == S_IFLNK {
        maybe_styled(lc.symlink, seq!['l'])
    } else {
        none
    };
    dir + none + readonly + hidden + none + link
}

/// The PowerShell-style mode column: directory, archive, read-only,
/// hidden, system and link attributes, six columns wide. A file is
/// read-only when no write bit is set and hidden when its name starts with
/// a dot; `symlink_target_is_dir` tells whether a symbolic link leads to a
/// directory (it is ignored for other file types).
pub fn pwsh_mode_cell(
    st_mode: u32,
    file_name: &str,
    symlink_target_is_dir: bool,
    config: &Config,
) -> (r: DisplayCell)
    ensures
        r.contents@ == pwsh_mode_text(
            st_mode,
            file_name@,
            symlink_target_is_dir,
            config.ls_colors@,
            config.theme,
        ),
        r.width == 6,
        r.alignment == Alignment::Left,
{
    let mut cell = DisplayCell::with_capacity(6);
    let file_type_mask = st_mode & S_IFMT;
    let is_symlink = file_type_mask == S_IFLNK;
    let ls_colors = &config.ls_colors;
    let theme = &config.theme;

    // directory or symlink directory attribute
    if file_type_mask == S_IFDIR {
        cell.push_char_with_style('d', ls_colors.dir_style());
    } else if file_type_mask == S_IFLNK {
        if symlink_target_is_dir {
            cell.push_char_with_style('d', ls_colors.dir_style());
        } else {
            cell.push_char_with_style('-', theme.no_permission_style());
        }
    } else {
        cell.push_char_with_style('-', theme.no_permission_style());
    }

    // archive attribute
    cell.push_char_with_style('-', theme.no_permission_style());

    // readonly attribute
    if !st_mode.has_bit_in_mask_set(S_IWUSR | S_IWGRP | S_IWOTH) {
        cell.push_char_with_style('r', theme.read_style());
    } else {
        cell.push_char_with_style('-', theme.no_permission_style());
    }

    // hidden attribute
    let hidden = file_name.unicode_len() > 0 && file_name.get_char(0) == '.';
    if hidden {
        cell.push_char_with_style('h', theme.hidden_style());
    } else {
        cell.push_char_with_style('-', theme.no_permission_style());
    }

    // system attribute
    cell.push_char_with_style('-', theme.no_permission_style());

    // symlink attribute
    if is_symlink {
        cell.push_char_with_style('l', ls_colors.symlink_style());
    } else {
        cell.push_char_with_style('-', theme.no_permission_style());
    }

    proof {
        assert(cell.contents@ =~= pwsh_mode_text(
            st_mode,
            file_name@,
            symlink_target_is_dir,
            config.ls_colors@,
            config.theme,
        ));
    }
    cell
}

} // verus!
