//! The access-rights text of the `ls`-style mode column, from the rights
//! that the owner, the group and everyone have on a file.

use vstd::prelude::*;

use super::sys_prelude::{FILE_GENERIC_EXECUTE, FILE_GENERIC_READ, FILE_GENERIC_WRITE};

use crate::config::Config;
use crate::text::{maybe_styled, opt_str_view, string_push, string_push_str};
use crate::theme::{opt_string_view, ThemeConfig};
use crate::utils::HasMaskSetExt;

verus! {

/// Appends `ch`, wrapped in the ANSI style when one is given.
pub fn string_push_char_with_style(string: &mut String, ch: char, ansi_style_str: Option<&str>)
    ensures
        final(string)@ == old(string)@ + maybe_styled(opt_str_view(ansi_style_str), seq![ch]),
{
    match ansi_style_str {
        Some(ansi_style_str) => {
            string_push(string, '\u{1b}');
            string_push(string, '[');
            string_push_str(string, ansi_style_str);
            string_push(string, 'm');
            string_push(string, ch);
            string_push(string, '\u{1b}');
            string_push(string, '[');
            string_push(string, '0');
            string_push(string, 'm');
        },
        None => {
            string_push(string, ch);
        },
    }
    proof {
        assert(string@ =~= old(string)@ + maybe_styled(opt_str_view(ansi_style_str), seq![ch]));
    }
}

/// One right: `letter` in `style` when every bit of `mask` is granted,
/// else `-` in the no-permission style.
pub open spec fn right_text(mask_granted: bool, letter: char, style: Option<Seq<char>>, theme: ThemeConfig) -> Seq<
    char,
> {
    if mask_granted {
        maybe_styled(style, seq![letter])
    } else {
        maybe_styled(opt_string_view(theme.no_permission), seq!['-'])
    }
}

/// The `rwx` text of one access mask: read, write and execute, each
/// granted when all the bits of the generic right are set.
pub open spec fn accessmask_text(accessmask: u32, theme: ThemeConfig) -> Seq<char> {
    right_text(accessmask & FILE_GENERIC_READ == FILE_GENERIC_READ, 'r', opt_string_view(theme.read), theme)
        + right_text(
        accessmask & FILE_GENERIC_WRITE == FILE_GENERIC_WRITE,
        'w',
        opt_string_view(theme.write),
        theme,
    ) + right_text(
        accessmask & FILE_GENERIC_EXECUTE == FILE_GENERIC_EXECUTE,
        'x',
        opt_string_view(theme.execute),
        theme,
    )
}

/// The `rwx` text of an access mask.
pub fn accessmask_to_rwx(accessmask: u32, config: &Config) -> (r: String)
    ensures
        r@ == accessmask_text(accessmask, config.theme),
{
    let mut rwx_string = String::new();
    let theme = &config.theme;
    if accessmask.has_mask_set(FILE_GENERIC_READ) {
        string_push_char_with_style(&mut rwx_string, 'r', theme.read_style());
    } else {
        string_push_char_with_style(&mut rwx_string, '-', theme.no_permission_style());
    }
    if accessmask.has_mask_set(FILE_GENERIC_WRITE) {
        string_push_char_with_style(&mut rwx_string, 'w', theme.write_style());
    } else {
        string_push_char_with_style(&mut rwx_string, '-', theme.no_permission_style());
    }
    if accessmask.has_mask_set(FILE_GENERIC_EXECUTE) {
        string_push_char_with_style(&mut rwx_string, 'x', theme.execute_style());
    } else {
        string_push_char_with_style(&mut rwx_string, '-', theme.no_permission_style());
    }
    proof {
        assert(rwx_string@ =~= accessmask_text(accessmask, config.theme));
    }
    rwx_string
}

/// The text for one class of users: its `rwx` text, or `???` when its
/// rights could not be read.
pub open spec fn class_rights_text(accessmask: Option<u32>, theme: ThemeConfig) -> Seq<char> {
    match accessmask {
        Some(m) => accessmask_text(m, theme),
        None => seq!['?', '?', '?'],
    }
}

fn push_class_rights(buf: &mut String, accessmask: Option<u32>, config: &Config)
    ensures
        final(buf)@ == old(buf)@ + class_rights_text(accessmask, config.theme),
{
    match accessmask {
        Some(mask) => {
            let rwx = accessmask_to_rwx(mask, config);
            string_push_str(buf, rwx.as_str());
        },
        None => {
            string_push(buf, '?');
            string_push(buf, '?');
            string_push(buf, '?');
            proof {
                assert(buf@ =~= old(buf)@ + seq!['?', '?', '?']);
            }
        },
    }
}

/// The access-rights text of a file: the rights of its owner, of its
/// group and of everyone, each `???` when it could not be read.
pub fn get_rwx_permissions(
    owner_accessmask: Option<u32>,
    group_accessmask: Option<u32>,
    others_accessmask: Option<u32>,
    config: &Config,
) -> (r: String)
    ensures
        r@ == class_rights_text(owner_accessmask, config.theme) + class_rights_text(
            group_accessmask,
            config.theme,
        ) + class_rights_text(others_accessmask, config.theme),
{
    let mut permissions_buf = String::new();
    push_class_rights(&mut permissions_buf, owner_accessmask, config);
    push_class_rights(&mut permissions_buf, group_accessmask, config);
    push_class_rights(&mut permissions_buf, others_accessmask, config);
    proof {
        assert(permissions_buf@ =~= class_rights_text(owner_accessmask, config.theme) + class_rights_text(
            group_accessmask,
            config.theme,
        ) + class_rights_text(others_accessmask, config.theme));
    }
    permissions_buf
}

} // verus!
