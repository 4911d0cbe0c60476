//! Sizes rendered as cells, raw or with unit prefixes.

use vstd::prelude::*;
use vstd::utf8::encode_utf8;

use crate::config::{Config, SizeFormat};
use crate::output::display_cell::{Alignment, CellView, DisplayCell};
use crate::text::{decimal, maybe_styled, opt_str_view};
use crate::theme::opt_string_view;

verus! {

/// `size_fmt::Buffer::human_fmt`: a size with factors of 1024 like `1.0K`,
/// `200M`, `3.0G`.
pub uninterp spec fn size_fmt_human(size: u64) -> Seq<char>;

/// `size_fmt::Buffer::si_fmt`: a size with factors of 1000 like `1.0k`,
/// `200M`, `3.0G`.
pub uninterp spec fn size_fmt_si(size: u64) -> Seq<char>;

/// `size_fmt::Buffer::iec_fmt`: a size with factors of 1024 like `1.0Ki`,
/// `200Mi`, `3.0Gi`.
pub uninterp spec fn size_fmt_iec(size: u64) -> Seq<char>;

/// `size_fmt::Buffer::raw_fmt`, which writes the integer with `itoa`: its
/// decimal digits.
#[verifier::external_body]
fn size_raw_string(size: u64) -> (r: String)
    ensures
        r@ == decimal(size as nat),
{
    let mut buffer = size_fmt::Buffer::new();
    buffer.raw_fmt(size).to_string()
}

/// `size_fmt::Buffer::human_fmt`; its text is named, not described.
#[verifier::external_body]
fn size_human_string(size: u64) -> (r: String)
    ensures
        r@ == size_fmt_human(size),
{
    let mut buffer = size_fmt::Buffer::new();
    buffer.human_fmt(size).to_string()
}

/// `size_fmt::Buffer::si_fmt`; its text is named, not described.
#[verifier::external_body]
fn size_si_string(size: u64) -> (r: String)
    ensures
        r@ == size_fmt_si(size),
{
    let mut buffer = size_fmt::Buffer::new();
    buffer.si_fmt(size).to_string()
}

/// `size_fmt::Buffer::iec_fmt`; its text is named, not described.
#[verifier::external_body]
fn size_iec_string(size: u64) -> (r: String)
    ensures
        r@ == size_fmt_iec(size),
{
    let mut buffer = size_fmt::Buffer::new();
    buffer.iec_fmt(size).to_string()
}

/// The text of a size in the given format.
pub open spec fn size_text(size: u64, size_format: SizeFormat) -> Seq<char> {
    match size_format {
        SizeFormat::Raw => decimal(size as nat),
        SizeFormat::HumanReadable => size_fmt_human(size),
        SizeFormat::Si => size_fmt_si(size),
        SizeFormat::Iec => size_fmt_iec(size),
    }
}

/// The cell of a size: its text in the size style, as wide as the text is
/// long in bytes (as a machine word), right-aligned.
pub open spec fn size_cell_view(size: u64, config: &Config) -> CellView {
    (
        maybe_styled(opt_string_view(config.theme.size), size_text(size, config.size_format)),
        (encode_utf8(size_text(size, config.size_format)).len() as usize) as nat,
        Alignment::Right,
    )
}

/// A right-aligned cell with a size in the configured format and the size
/// style; its width is the length of the text in bytes.
pub fn format_size(size: u64, config: &Config) -> (r: DisplayCell)
    ensures
        r.contents@ == maybe_styled(
            opt_string_view(config.theme.size),
            size_text(size, config.size_format),
        ),
        r.width == encode_utf8(size_text(size, config.size_format)).len() as usize,
        r.alignment == Alignment::Right,
        r@ == size_cell_view(size, config),
{
    let size_style = config.theme.size_style();
    let size_string = match config.size_format {
        SizeFormat::Raw => size_raw_string(size),
        SizeFormat::HumanReadable => size_human_string(size),
        SizeFormat::Si => size_si_string(size),
        SizeFormat::Iec => size_iec_string(size),
    };
    let mut size_cell = DisplayCell::from_ascii_str_with_style(size_string.as_str(), size_style);
    size_cell.alignment = Alignment::Right;
    size_cell
}

} // verus!
