//! Mode columns from Windows file attributes: the PowerShell-style
//! attribute string and the `ls`-style type letter followed by access
//! rights.

use vstd::prelude::*;

use super::sys_prelude::{
    FILE_ATTRIBUTE_ARCHIVE, FILE_ATTRIBUTE_DIRECTORY, FILE_ATTRIBUTE_HIDDEN,
    FILE_ATTRIBUTE_READONLY, FILE_ATTRIBUTE_REPARSE_POINT, FILE_ATTRIBUTE_SYSTEM,
};

use crate::config::Config;
use crate::ls_colors::LsColorsView;
use crate::output::display_cell::{Alignment, DisplayCell};
use crate::text::maybe_styled;
use crate::theme::{opt_string_view, ThemeConfig};
use crate::utils::HasMaskSetExt;

verus! {

/// One attribute column: `letter` in `style` when the attribute is set,
/// else `-` in the no-permission style.
pub open spec fn attribute_text(
    attributes: u32,
    mask: u32,
    letter: char,
    style: Option<Seq<char>>,
    theme: ThemeConfig,
) -> Seq<char> {
    if attributes & mask == mask {
        maybe_styled(style, seq![letter])
    } else {
        maybe_styled(opt_string_view(theme.no_permission), seq!['-'])
    }
}

/// The PowerShell-style attribute string: directory, archive, read-only,
/// hidden, system and reparse point (link).
pub open spec fn pwsh_attributes_text(attributes: u32, lc: LsColorsView, theme: ThemeConfig) -> Seq<char> {
    attribute_text(attributes, FILE_ATTRIBUTE_DIRECTORY, 'd', lc.dir, theme)
        + attribute_text(attributes, FILE_ATTRIBUTE_ARCHIVE, 'a', opt_string_view(theme.archive), theme)
        + attribute_text(attributes, FILE_ATTRIBUTE_READONLY, 'r', opt_string_view(theme.read), theme)
        + attribute_text(attributes, FILE_ATTRIBUTE_HIDDEN, 'h', opt_string_view(theme.hidden), theme)
        + attribute_text(attributes, FILE_ATTRIBUTE_SYSTEM, 's', opt_string_view(theme.system), theme)
        + attribute_text(attributes, FILE_ATTRIBUTE_REPARSE_POINT, 'l', lc.symlink, theme)
}

fn push_attribute(
    cell: &mut DisplayCell,
    attributes: u32,
    mask: u32,
    letter: char,
    style: Option<&str>,
    config: &Config,
)
    requires
        old(cell).width < 6,
    ensures
        final(cell).contents@ == old(cell).contents@ + attribute_text(
            attributes,
            mask,
            letter,
            match style {
                Some(s) => Some(s@),
                None => None,
            },
            config.theme,
        ),
        final(cell).width == old(cell).width + 1,
        final(cell).alignment == old(cell).alignment,
{
    if attributes.has_mask_set(mask) {
        cell.push_char_with_style(letter, style);
    } else {
        cell.push_char_with_style('-', config.theme.no_permission_style());
    }
}

/// The PowerShell-style mode column from the file's attributes, six
/// columns wide; `??????` when they could not be read.
pub fn pwsh_mode_cell(file_attributes: Option<u32>, config: &Config) -> (r: DisplayCell)
    ensures
        file_attributes matches Some(a) ==> r.contents@ == pwsh_attributes_text(
            a,
            config.ls_colors@,
            config.theme,
        ),
        file_attributes is None ==> r.contents@ == seq!['?', '?', '?', '?', '?', '?'],
        r.width == 6,
        r.alignment == Alignment::Left,
{
    let ls_colors = &config.ls_colors;
    let theme = &config.theme;
    match file_attributes {
        Some(attributes) => {
            let mut cell = DisplayCell::with_capacity(6);
            push_attribute(&mut cell, attributes, FILE_ATTRIBUTE_DIRECTORY, 'd', ls_colors.dir_style(), config);
            push_attribute(&mut cell, attributes, FILE_ATTRIBUTE_ARCHIVE, 'a', theme.archive_style(), config);
            push_attribute(&mut cell, attributes, FILE_ATTRIBUTE_READONLY, 'r', theme.read_style(), config);
            push_attribute(&mut cell, attributes, FILE_ATTRIBUTE_HIDDEN, 'h', theme.hidden_style(), config);
            push_attribute(&mut cell, attributes, FILE_ATTRIBUTE_SYSTEM, 's', theme.system_style(), config);
            push_attribute(
                &mut cell,
                attributes,
                FILE_ATTRIBUTE_REPARSE_POINT,
                'l',
                ls_colors.symlink_style(),
                config,
            );
            proof {
                assert(cell.contents@ =~= pwsh_attributes_text(attributes, config.ls_colors@, config.theme));
            }
            cell
        },
        None => {
            let mut cell = DisplayCell::with_capacity(6);
            let mut k: usize = 0;
            while k < 6
                invariant
                    k <= 6,
                    cell.contents@ == Seq::new(k as nat, |i: int| '?'),
                    cell.width == k,
                    cell.alignment == Alignment::Left,
                decreases 6 - k,
            {
                cell.push_char('?');
                proof {
                    assert(cell.contents@ =~= Seq::new((k + 1) as nat, |i: int| '?'));
                }
                k = k + 1;
            }
            proof {
                assert(cell.contents@ =~= seq!['?', '?', '?', '?', '?', '?']);
            }
            cell
        },
    }
}

/// What a directory entry is, as far as the mode column tells.
#[derive(Debug, Clone, Copy, PartialEq, Eq, Structural)]
pub enum FileKind {
    File,
    Dir,
    Symlink,
    Other,
}

/// The type letter of the `ls`-style mode column, styled like the type;
/// an unstyled `?` for another or an unknown type.
pub open spec fn kind_letter_text(kind: Option<FileKind>, lc: LsColorsView) -> Seq<char> {
    match kind {
        Some(FileKind::File) => maybe_styled(lc.file, seq!['-']),
        Some(FileKind::Dir) => maybe_styled(lc.dir, seq!['d']),
        Some(FileKind::Symlink) => maybe_styled(lc.symlink, seq!['l']),
        _ => seq!['?'],
    }
}

/// The `ls`-style mode column: the type letter, one column, followed by
/// the access rights text, counted as ten columns.
pub fn rwx_mode_cell(file_type: Option<FileKind>, rwx_permissions: &str, config: &Config) -> (r: DisplayCell)
    ensures
        r.contents@ == kind_letter_text(file_type, config.ls_colors@) + rwx_permissions@,
        r.width == 11,
        r.alignment == Alignment::Left,
{
    let mut cell = DisplayCell::with_capacity(128);
    let ls_colors = &config.ls_colors;
    match file_type {
        Some(FileKind::File) => cell.push_char_with_style('-', ls_colors.file_style()),
        Some(FileKind::Dir) => cell.push_char_with_style('d', ls_colors.dir_style()),
        Some(FileKind::Symlink) => cell.push_char_with_style('l', ls_colors.symlink_style()),
        _ => {
            cell.push_char('?');
            proof {
                assert(cell.contents@ =~= seq!['?']);
            }
        },
    }
    cell.push_str_with_width(rwx_permissions, 10);
    cell
}

} // verus!
