//! Unix metadata: permission strings, allocated sizes, device numbers and
//! account names.

pub mod sys_prelude;
pub mod mode;
pub mod accounts;

use vstd::prelude::*;

use vstd::utf8::{encode_utf8, is_ascii_chars, is_ascii_chars_concat, is_ascii_chars_encode_utf8};

use crate::config::{AllocatedSizeBlocks, Config};
use crate::output::display_cell::{Alignment, DisplayCell};
use crate::text::{
    decimal, decimal_string, lemma_decimal_ascii, lemma_decimal_len_u32, maybe_styled, push_decimal, push_spaces, spaces,
    string_push, string_push_str,
};
use crate::theme::opt_string_view;

verus! {

/// The allocated size of a file of `blocks` 512-byte blocks, in the unit
/// the configuration asks for: bytes, 512-byte blocks, or kibibytes
/// rounded up.
pub open spec fn allocated_size_spec(blocks: u64, unit: AllocatedSizeBlocks) -> int {
    match unit {
        AllocatedSizeBlocks::Raw => blocks * 512,
        AllocatedSizeBlocks::Posix => blocks as int,
        AllocatedSizeBlocks::Kibibytes => (blocks + 1) / 2,
    }
}

/// The allocated size of a file that occupies `blocks` 512-byte blocks.
pub fn get_allocated_size(blocks: u64, config: &Config) -> (r: u64)
    requires
        config.allocated_size_blocks == AllocatedSizeBlocks::Raw ==> blocks * 512 <= u64::MAX,
    ensures
        r == allocated_size_spec(blocks, config.allocated_size_blocks),
{
    match config.allocated_size_blocks {
        AllocatedSizeBlocks::Raw => blocks * 512,
        AllocatedSizeBlocks::Posix => blocks,
        AllocatedSizeBlocks::Kibibytes => blocks / 2 + blocks % 2,
    }
}

/// The major number of a device, as glibc encodes it in a `dev_t`
/// (`libc::major` on Linux).
pub open spec fn dev_major(dev: u64) -> u32 {
    (((dev & 0x00000000000fff00u64) >> 8u64) | ((dev & 0xfffff00000000000u64) >> 32u64)) as u32
}

/// The minor number of a device, as glibc encodes it in a `dev_t`
/// (`libc::minor` on Linux).
pub open spec fn dev_minor(dev: u64) -> u32 {
    ((dev & 0x00000000000000ffu64) | ((dev & 0x00000ffffff00000u64) >> 12u64)) as u32
}

/// `libc::major`, which extracts the major device number from a `dev_t`
/// with the masks and shifts that `dev_major` states.
#[verifier::external_body]
fn device_major(rdev: u64) -> (r: u32)
    ensures
        r == dev_major(rdev),
{
    libc::major(rdev)
}

/// `libc::minor`, which extracts the minor device number from a `dev_t`
/// with the masks and shifts that `dev_minor` states.
#[verifier::external_body]
fn device_minor(rdev: u64) -> (r: u32)
    ensures
        r == dev_minor(rdev),
{
    libc::minor(rdev)
}

/// `s` padded on the left with spaces to at least `width` characters.
pub open spec fn pad_left(s: Seq<char>, width: nat) -> Seq<char> {
    if s.len() >= width {
        s
    } else {
        spaces((width - s.len()) as nat) + s
    }
}

/// The `major,minor` text of a device number, the minor number right
/// aligned in four columns.
pub open spec fn rdev_text(rdev: u64) -> Seq<char> {
    decimal(dev_major(rdev) as nat) + seq![','] + pad_left(decimal(dev_minor(rdev) as nat), 4)
}

proof fn lemma_spaces_ascii(n: nat)
    ensures
        is_ascii_chars(spaces(n)),
{
}

/// The size column of a device file: its major and minor numbers as
/// `major,minor` with the minor number right-aligned in four columns, in
/// the size style, the cell right-aligned.
pub fn format_rdev(rdev: u64, config: &Config) -> (r: DisplayCell)
    ensures
        r.contents@ == maybe_styled(opt_string_view(config.theme.size), rdev_text(rdev)),
        r.width == rdev_text(rdev).len(),
        r.alignment == Alignment::Right,
{
    let major = device_major(rdev);
    let minor = device_minor(rdev);
    let mut text = String::new();
    push_decimal(&mut text, major as u128);
    string_push(&mut text, ',');
    let minor_string = decimal_string(minor as u128);
    let minor_len = minor_string.as_str().unicode_len();
    if minor_len < 4 {
        push_spaces(&mut text, 4 - minor_len);
    }
    string_push_str(&mut text, minor_string.as_str());
    proof {
        let major_text = decimal(major as nat);
        let minor_text = decimal(minor as nat);
        let padded = pad_left(minor_text, 4);
        if minor_len < 4 {
            assert(text@ =~= major_text + seq![','] + spaces((4 - minor_len) as nat) + minor_text);
        } else {
            assert(text@ =~= major_text + seq![','] + minor_text);
        }
        assert(text@ =~= rdev_text(rdev));
        lemma_decimal_ascii(major as nat);
        lemma_decimal_ascii(minor as nat);
        lemma_spaces_ascii((4 - minor_len) as nat);
        assert(is_ascii_chars(seq![',']));
        is_ascii_chars_concat(major_text + seq![','], major_text, seq![',']);
        if minor_len < 4 {
            is_ascii_chars_concat(padded, spaces((4 - minor_len) as nat), minor_text);
        }
        is_ascii_chars_concat(rdev_text(rdev), major_text + seq![','], padded);
        assert(is_ascii_chars(major_text + seq![',']));
        assert(is_ascii_chars(padded));
        assert(is_ascii_chars(text@));
        is_ascii_chars_encode_utf8(text@);
        assert(encode_utf8(text@).len() == text@.len());
        lemma_decimal_len_u32(major);
        lemma_decimal_len_u32(minor);
    }
    let mut rdev_cell = DisplayCell::from_ascii_str_with_style(text.as_str(), config.theme.size_style());
    rdev_cell.alignment = Alignment::Right;
    rdev_cell
}

} // verus!
