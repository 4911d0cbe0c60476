//! A piece of text for a grid cell, with its display width and alignment.

use vstd::prelude::*;
use vstd::string::*;

use crate::text::{
    decimal, decimal_string, maybe_styled, maybe_styled_string, opt_str_view, push_spaces,
    push_style_open, push_style_reset, spaces, str_width, string_push, string_push_str, styled,
    unicode_str_width,
};

verus! {

/// Side on which the text of a cell sits when the cell is padded.
#[derive(Debug, Clone, Copy, PartialEq, Eq, Structural)]
pub enum Alignment {
    Left,
    Right,
}

impl Default for Alignment {
    fn default() -> (r: Self)
        ensures
            r == Alignment::Left,
    {
        Alignment::Left
    }
}

/// The view of a cell: its text, width and alignment.
pub type CellView = (Seq<char>, nat, Alignment);

/// Text for one grid cell. `contents` may hold ANSI escape sequences, which
/// take no room on screen; `width` is the number of terminal columns the
/// visible text occupies.
#[derive(Debug, PartialEq, Eq)]
pub struct DisplayCell {
    pub contents: String,
    pub width: usize,
    pub alignment: Alignment,
}

/// The text a cell writes when given a column of `width` columns: the
/// contents, padded with spaces on the side away from the alignment up to
/// `width` (no padding when the cell is at least that wide).
pub open spec fn padded(contents: Seq<char>, cell_width: nat, alignment: Alignment, width: nat) -> Seq<
    char,
> {
    if width <= cell_width {
        contents
    } else if alignment == Alignment::Left {
        contents + spaces((width - cell_width) as nat)
    } else {
        spaces((width - cell_width) as nat) + contents
    }
}

impl Clone for DisplayCell {
    fn clone(&self) -> (r: Self)
        ensures
            r@ == self@,
    {
        DisplayCell {
            contents: self.contents.clone(),
            width: self.width,
            alignment: self.alignment,
        }
    }
}

impl View for DisplayCell {
    type V = (Seq<char>, nat, Alignment);

    open spec fn view(&self) -> (Seq<char>, nat, Alignment) {
        (self.contents@, self.width as nat, self.alignment)
    }
}

impl DisplayCell {
    /// The cell shown where a value could not be obtained: a single `?`.
    pub fn error_cell(alignment: Alignment) -> (r: Self)
        ensures
            r.contents@ == seq!['?'],
            r.width == 1,
            r.alignment == alignment,
    {
        let mut contents = String::new();
        string_push(&mut contents, '?');
        DisplayCell { contents: contents, width: 1, alignment: alignment }
    }

    /// A left-aligned cell for text whose width is its length in bytes
    /// (exact for ASCII text), styled when a style is given.
    pub fn from_ascii_str_with_style(value: &str, ansi_style_str: Option<&str>) -> (r: Self)
        ensures
            r.contents@ == maybe_styled(opt_str_view(ansi_style_str), value@),
            r.width == value.spec_bytes().len() as usize,
            r.alignment == Alignment::Left,
    {
        let width = value.len();
        let contents = maybe_styled_string(ansi_style_str, value);
        DisplayCell { contents: contents, width: width, alignment: Alignment::Left }
    }

    /// A left-aligned cell whose width is the Unicode display width of the
    /// text, styled when a style is given.
    pub fn from_str_with_style(value: &str, ansi_style_str: Option<&str>) -> (r: Self)
        ensures
            r.contents@ == maybe_styled(opt_str_view(ansi_style_str), value@),
            r.width == unicode_str_width(value@),
            r.alignment == Alignment::Left,
    {
        let width = str_width(value);
        let contents = maybe_styled_string(ansi_style_str, value);
        DisplayCell { contents: contents, width: width, alignment: Alignment::Left }
    }

    /// A right-aligned cell holding the decimal digits of `value`.
    pub fn from_num_with_style(value: u64, ansi_style_str: Option<&str>) -> (r: Self)
        ensures
            r.contents@ == maybe_styled(opt_str_view(ansi_style_str), decimal(value as nat)),
            r.width == decimal(value as nat).len(),
            r.alignment == Alignment::Right,
    {
        Self::from_u128_with_style(value as u128, ansi_style_str)
    }

    /// A right-aligned cell holding the decimal digits of a 128-bit value.
    pub fn from_u128_with_style(value: u128, ansi_style_str: Option<&str>) -> (r: Self)
        ensures
            r.contents@ == maybe_styled(opt_str_view(ansi_style_str), decimal(value as nat)),
            r.width == decimal(value as nat).len(),
            r.alignment == Alignment::Right,
    {
        let value_string = decimal_string(value);
        let width = value_string.as_str().unicode_len();
        let contents = maybe_styled_string(ansi_style_str, value_string.as_str());
        DisplayCell { contents: contents, width: width, alignment: Alignment::Right }
    }

    /// An empty left-aligned cell.
    pub fn with_capacity(capacity: usize) -> (r: Self)
        ensures
            r.contents@ == Seq::<char>::empty(),
            r.width == 0,
            r.alignment == Alignment::Left,
    {
        DisplayCell { contents: String::new(), width: 0, alignment: Alignment::Left }
    }

    /// Appends the text of `other`; the widths add up.
    pub fn append(&mut self, other: Self)
        requires
            old(self).width + other.width <= usize::MAX,
        ensures
            final(self).contents@ == old(self).contents@ + other.contents@,
            final(self).width == old(self).width + other.width,
            final(self).alignment == old(self).alignment,
    {
        string_push_str(&mut self.contents, other.contents.as_str());
        self.width = self.width + other.width;
    }

    /// Appends text whose display width is measured with Unicode widths.
    /// The width wraps around should the sum exceed the machine word, as
    /// integer addition does in release builds.
    pub fn push_str(&mut self, string: &str)
        ensures
            final(self).contents@ == old(self).contents@ + string@,
            final(self).width == (if old(self).width + unicode_str_width(string@) > usize::MAX {
                old(self).width + unicode_str_width(string@) - usize::MAX - 1
            } else {
                old(self).width + unicode_str_width(string@)
            }),
            final(self).alignment == old(self).alignment,
    {
        let w = str_width(string);
        string_push_str(&mut self.contents, string);
        self.width = self.width.wrapping_add(w);
    }

    /// Appends text that is counted as `width` columns wide.
    pub fn push_str_with_width(&mut self, string: &str, width: usize)
        requires
            old(self).width + width <= usize::MAX,
        ensures
            final(self).contents@ == old(self).contents@ + string@,
            final(self).width == old(self).width + width,
            final(self).alignment == old(self).alignment,
    {
        string_push_str(&mut self.contents, string);
        self.width = self.width + width;
    }

    /// Appends one character, one column wide.
    pub fn push_char(&mut self, ch: char)
        requires
            old(self).width < usize::MAX,
        ensures
            final(self).contents@ == old(self).contents@.push(ch),
            final(self).width == old(self).width + 1,
            final(self).alignment == old(self).alignment,
    {
        string_push(&mut self.contents, ch);
        self.width = self.width + 1;
    }

    /// Appends one character, one column wide, styled when a style is given.
    pub fn push_char_with_style(&mut self, ch: char, ansi_style_str: Option<&str>)
        requires
            old(self).width < usize::MAX,
        ensures
            final(self).contents@ == old(self).contents@ + maybe_styled(
                opt_str_view(ansi_style_str),
                seq![ch],
            ),
            final(self).width == old(self).width + 1,
            final(self).alignment == old(self).alignment,
    {
        match ansi_style_str {
            Some(style) => {
                push_style_open(&mut self.contents, style);
                string_push(&mut self.contents, ch);
                push_style_reset(&mut self.contents);
                proof {
                    assert(self.contents@ =~= old(self).contents@ + styled(style@, seq![ch]));
                }
            },
            None => {
                string_push(&mut self.contents, ch);
                proof {
                    assert(self.contents@ =~= old(self).contents@ + seq![ch]);
                }
            },
        }
        self.width = self.width + 1;
    }

    /// Writes the cell into `out`, padded with spaces up to `width` columns
    /// on the side away from its alignment.
    pub fn write(&self, out: &mut String, width: usize)
        ensures
            final(out)@ == old(out)@ + padded(
                self.contents@,
                self.width as nat,
                self.alignment,
                width as nat,
            ),
    {
        let pad_width: usize = if width <= self.width {
            0
        } else {
            width - self.width
        };
        if pad_width == 0 {
            string_push_str(out, self.contents.as_str());
        } else if self.alignment == Alignment::Left {
            string_push_str(out, self.contents.as_str());
            push_spaces(out, pad_width);
            proof {
                assert(out@ =~= old(out)@ + (self.contents@ + spaces(pad_width as nat)));
            }
        } else {
            push_spaces(out, pad_width);
            string_push_str(out, self.contents.as_str());
            proof {
                assert(out@ =~= old(out)@ + (spaces(pad_width as nat) + self.contents@));
            }
        }
    }
}

impl From<String> for DisplayCell {
    fn from(value: String) -> (r: Self) {
        let width = str_width(value.as_str());
        DisplayCell { contents: value, width: width, alignment: Alignment::Left }
    }
}

impl vstd::std_specs::convert::FromSpecImpl<String> for DisplayCell {
    open spec fn obeys_from_spec() -> bool {
        true
    }

    open spec fn from_spec(v: String) -> DisplayCell {
        DisplayCell { contents: v, width: unicode_str_width(v@) as usize, alignment: Alignment::Left }
    }
}

} // verus!
