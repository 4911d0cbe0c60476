//! Character-level helpers shared by the cell builders: string equality,
//! pushing characters, decimal rendering and ANSI styling.

use vstd::prelude::*;
use vstd::string::*;
use vstd::utf8::is_ascii_chars;

verus! {

/// The escape sequence that opens an ANSI style: `ESC [`.
pub open spec fn style_open() -> Seq<char> {
    seq!['\u{1b}', '[']
}

/// The escape sequence that resets all ANSI styles: `ESC [ 0 m`.
pub open spec fn style_reset() -> Seq<char> {
    seq!['\u{1b}', '[', '0', 'm']
}

/// `body` wrapped in the ANSI style `style`: `ESC [ style m body ESC [ 0 m`.
pub open spec fn styled(style: Seq<char>, body: Seq<char>) -> Seq<char> {
    style_open() + style + seq!['m'] + body + style_reset()
}

/// `body` styled when a style is given, unchanged otherwise.
pub open spec fn maybe_styled(style: Option<Seq<char>>, body: Seq<char>) -> Seq<char> {
    match style {
        Some(s) => styled(s, body),
        None => body,
    }
}

/// The view of an optional string slice.
pub open spec fn opt_str_view(s: Option<&str>) -> Option<Seq<char>> {
    match s {
        Some(s) => Some(s@),
        None => None,
    }
}

/// The ASCII digit for `d`, for `d < 10`.
pub open spec fn digit_char(d: nat) -> char {
    (48 + d) as char
}

/// The decimal representation of `n`, most significant digit first, no
/// leading zeros (zero is the single digit `0`).
pub open spec fn decimal(n: nat) -> Seq<char>
    decreases n,
{
    if n < 10 {
        seq![digit_char(n)]
    } else {
        decimal(n / 10).push(digit_char(n % 10))
    }
}

/// The decimal representation of a signed integer: a minus sign before the
/// digits of its magnitude when it is negative.
pub open spec fn signed_decimal(i: int) -> Seq<char> {
    if i < 0 {
        seq!['-'] + decimal((-i) as nat)
    } else {
        decimal(i as nat)
    }
}

pub proof fn lemma_decimal_len_pos(n: nat)
    ensures
        decimal(n).len() >= 1,
    decreases n,
{
    if n >= 10 {
        lemma_decimal_len_pos(n / 10);
    }
}

/// Ten to the power `k`.
pub open spec fn pow10(k: nat) -> nat
    decreases k,
{
    if k == 0 {
        1
    } else {
        10 * pow10((k - 1) as nat)
    }
}

/// A number below `10^k` has at most `k` decimal digits.
pub proof fn lemma_decimal_len_le(n: nat, k: nat)
    requires
        k >= 1,
        n < pow10(k),
    ensures
        decimal(n).len() <= k,
    decreases k,
{
    if n >= 10 {
        if k == 1 {
            assert(pow10(1) == 10);
        } else {
            lemma_decimal_len_le(n / 10, (k - 1) as nat);
        }
    }
}

/// A 32-bit number has at most ten decimal digits.
pub proof fn lemma_decimal_len_u32(n: u32)
    ensures
        decimal(n as nat).len() <= 10,
{
    reveal_with_fuel(pow10, 11);
    lemma_decimal_len_le(n as nat, 10);
}

/// Decimal digits are ASCII characters.
pub proof fn lemma_decimal_ascii(n: nat)
    ensures
        is_ascii_chars(decimal(n)),
    decreases n,
{
    if n >= 10 {
        lemma_decimal_ascii(n / 10);
        assert(is_ascii_chars(decimal(n / 10).push(digit_char(n % 10)))) by {
            assert forall|i| 0 <= i < decimal(n).len() implies '\0' <= #[trigger] decimal(n)[i]
                <= '\u{7f}' by {
                if i < decimal(n / 10).len() {
                    assert(decimal(n)[i] == decimal(n / 10)[i]);
                }
            }
        }
    }
}

/// Compares two string slices.
#[verifier::external_body]
pub(crate) fn str_eq(a: &str, b: &str) -> (r: bool)
    ensures
        r == (a@ == b@),
{
    a == b
}

/// Appends one character to a string (`String::push`).
#[verifier::external_body]
pub(crate) fn string_push(s: &mut String, c: char)
    ensures
        final(s)@ == old(s)@.push(c),
{
    s.push(c)
}

/// Appends a string slice to a string.
pub fn string_push_str(s: &mut String, t: &str)
    ensures
        final(s)@ == old(s)@ + t@,
{
    s.append(t);
}

/// A fresh string holding a copy of `t`.
pub fn string_from(t: &str) -> (r: String)
    ensures
        r@ == t@,
{
    String::from_str(t)
}

/// The ASCII digit for `d`.
pub fn digit_to_char(d: u8) -> (c: char)
    requires
        d < 10,
    ensures
        c == digit_char(d as nat),
{
    (d + 48) as char
}

/// Appends the decimal digits of `n`.
pub fn push_decimal(s: &mut String, n: u128)
    ensures
        final(s)@ == old(s)@ + decimal(n as nat),
    decreases n,
{
    if n >= 10 {
        push_decimal(s, n / 10);
    }
    let d = (n % 10) as u8;
    string_push(s, digit_to_char(d));
    proof {
        assert(old(s)@ + decimal(n as nat) =~= (old(s)@ + (if n >= 10 { decimal((n / 10) as nat) } else { seq![] })).push(digit_char((n % 10) as nat)));
    }
}

/// The decimal representation of `n` as a fresh string.
pub fn decimal_string(n: u128) -> (r: String)
    ensures
        r@ == decimal(n as nat),
{
    let mut s = String::new();
    push_decimal(&mut s, n);
    proof {
        assert(s@ =~= decimal(n as nat));
    }
    s
}

/// Appends `ESC [ style m`.
pub fn push_style_open(s: &mut String, style: &str)
    ensures
        final(s)@ == old(s)@ + style_open() + style@ + seq!['m'],
{
    string_push(s, '\u{1b}');
    string_push(s, '[');
    string_push_str(s, style);
    string_push(s, 'm');
    proof {
        assert(s@ =~= old(s)@ + style_open() + style@ + seq!['m']);
    }
}

/// Appends `ESC [ 0 m`.
pub fn push_style_reset(s: &mut String)
    ensures
        final(s)@ == old(s)@ + style_reset(),
{
    string_push(s, '\u{1b}');
    string_push(s, '[');
    string_push(s, '0');
    string_push(s, 'm');
    proof {
        assert(s@ =~= old(s)@ + style_reset());
    }
}

/// Appends `body`, wrapped in `style` when one is given.
pub fn push_maybe_styled(s: &mut String, style: Option<&str>, body: &str)
    ensures
        final(s)@ == old(s)@ + maybe_styled(opt_str_view(style), body@),
{
    match style {
        Some(st) => {
            push_style_open(s, st);
            string_push_str(s, body);
            push_style_reset(s);
            proof {
                assert(s@ =~= old(s)@ + styled(st@, body@));
            }
        },
        None => {
            string_push_str(s, body);
        },
    }
}

/// `body`, wrapped in `style` when one is given, as a fresh string.
pub fn maybe_styled_string(style: Option<&str>, body: &str) -> (r: String)
    ensures
        r@ == maybe_styled(opt_str_view(style), body@),
{
    let mut s = String::new();
    push_maybe_styled(&mut s, style, body);
    proof {
        assert(s@ =~= maybe_styled(opt_str_view(style), body@));
    }
    s
}

/// `n` space characters.
pub open spec fn spaces(n: nat) -> Seq<char> {
    Seq::new(n, |i: int| ' ')
}

/// Appends `n` spaces.
pub fn push_spaces(s: &mut String, n: usize)
    ensures
        final(s)@ == old(s)@ + spaces(n as nat),
{
    let mut i: usize = 0;
    while i < n
        invariant
            i <= n,
            s@ == old(s)@ + spaces(i as nat),
        decreases n - i,
    {
        string_push(s, ' ');
        i = i + 1;
        proof {
            assert(s@ =~= old(s)@ + spaces(i as nat));
        }
    }
}

/// Display width of a string in terminal columns, as computed by the
/// `unicode-width` crate.
pub uninterp spec fn unicode_str_width(s: Seq<char>) -> nat;

/// `UnicodeWidthStr::width` of the `unicode-width` crate: the number of
/// terminal columns the string occupies. Nothing beyond its being a function
/// of the characters is claimed here.
#[verifier::external_body]
pub(crate) fn str_width(s: &str) -> (w: usize)
    ensures
        w as nat == unicode_str_width(s@),
{
    unicode_width::UnicodeWidthStr::width(s)
}

} // verus!
